//! What joining, filling, substitution and numerals do to any text.
use crate::syntax::Chars;
use crate::text::{
    begins, concat, digit, fill, join, lemma_join_push, lemma_replaced_hit, numeral, replaced,
    signed_numeral, unraw,
};
use vstd::prelude::*;

verus! {

// ---------------------------------------------------------------------------
// Joining
// ---------------------------------------------------------------------------

/// Joining nothing gives nothing, one part gives that part, and one more part comes behind one more
/// separator.
pub proof fn law_join<T>(parts: Seq<Seq<T>>, sep: Seq<T>, last: Seq<T>)
    ensures
        join(Seq::<Seq<T>>::empty(), sep) == Seq::<T>::empty(),
        join(seq![last], sep) == last,
        parts.len() > 0 ==> join(parts.push(last), sep) == join(parts, sep) + sep + last,
{
    lemma_join_push(parts, sep, last);
    assert(seq![last] =~= Seq::<Seq<T>>::empty().push(last));
    lemma_join_push(Seq::<Seq<T>>::empty(), sep, last);
}

/// Lists one after the other: none give nothing, and one more comes at the end.
pub proof fn law_concat<T>(lists: Seq<Seq<T>>, last: Seq<T>)
    ensures
        concat(Seq::<Seq<T>>::empty()) == Seq::<T>::empty(),
        concat(lists.push(last)) == concat(lists) + last,
{
    assert(lists.push(last).drop_last() =~= lists);
}

// ---------------------------------------------------------------------------
// Templates
// ---------------------------------------------------------------------------

/// Text without a `$` is kept, whatever comes behind it.
proof fn lemma_fill_kept(plain: Chars, rest: Chars, holes: Seq<Chars>)
    requires
        !plain.contains('$'),
    ensures
        fill(plain + rest, holes) == plain + fill(rest, holes),
    decreases plain.len(),
{
    if plain.len() == 0 {
        assert(plain + rest =~= rest);
        assert(plain + fill(rest, holes) =~= fill(rest, holes));
    } else {
        let tail = plain.drop_first();
        assert(plain.contains(plain[0]));
        assert((plain + rest).drop_first() =~= tail + rest);
        assert(!tail.contains('$')) by {
            if tail.contains('$') {
                let k = choose|k: int| 0 <= k < tail.len() && tail[k] == '$';
                assert(plain[k + 1] == '$');
            }
        }
        lemma_fill_kept(tail, rest, holes);
        assert(fill(plain + rest, holes) =~= plain + fill(rest, holes));
    }
}

/// In a template, what stands before the first `$` is kept, the first hole takes the place of the
/// `$` as it is, and the other holes go to what stands behind it. Without a `$`, or without holes,
/// a template is kept as it is.
pub proof fn law_fill(plain: Chars, rest: Chars, hole: Chars, holes: Seq<Chars>)
    requires
        !plain.contains('$'),
    ensures
        fill(plain + seq!['$'] + rest, seq![hole] + holes) == plain + hole + fill(rest, holes),
        fill(plain, holes) == plain,
        fill(rest, Seq::<Chars>::empty()) == rest,
{
    let behind = seq!['$'] + rest;
    lemma_fill_kept(plain, behind, seq![hole] + holes);
    assert(plain + seq!['$'] + rest =~= plain + behind);
    assert(behind.drop_first() =~= rest);
    assert((seq![hole] + holes).drop_first() =~= holes);
    assert(fill(behind, seq![hole] + holes) == hole + fill(rest, holes));
    assert(plain + (hole + fill(rest, holes)) =~= plain + hole + fill(rest, holes));
    lemma_fill_kept(plain, Seq::empty(), holes);
    assert(plain + Seq::<char>::empty() =~= plain);
    lemma_fill_nothing(rest);
}

/// A template without holes to fill is kept.
proof fn lemma_fill_nothing(text: Chars)
    ensures
        fill(text, Seq::<Chars>::empty()) == text,
    decreases text.len(),
{
    if text.len() > 0 {
        lemma_fill_nothing(text.drop_first());
        assert(seq![text[0]] + text.drop_first() =~= text);
    }
}

// ---------------------------------------------------------------------------
// Substitution
// ---------------------------------------------------------------------------

/// An occurrence of the pattern at the front of a text is replaced, and the rest goes on behind it.
/// Where the pattern does not stand at the front, the first character is kept.
pub proof fn law_replaced(pattern: Chars, rest: Chars, with: Chars, text: Chars)
    requires
        pattern.len() > 0,
        text.len() > 0,
        text.len() < pattern.len() || text.take(pattern.len() as int) != pattern,
    ensures
        replaced(pattern + rest, pattern, with) == with + replaced(rest, pattern, with),
        replaced(text, pattern, with) == seq![text[0]] + replaced(text.skip(1), pattern, with),
        replaced(Seq::<char>::empty(), pattern, with) == Seq::<char>::empty(),
        replaced(text, Seq::<char>::empty(), with) == text,
        begins(pattern + rest, pattern),
        !begins(text, pattern),
{
    lemma_replaced_hit(pattern, rest, with);
    assert(text.drop_first() =~= text.skip(1));
    assert((pattern + rest).take(pattern.len() as int) =~= pattern);
}

/// An identifier is raw if it begins with `r` and `#`; inside a longer one it reads without them.
pub proof fn law_unraw(name: Chars)
    ensures
        unraw(seq!['r', '#'] + name) == name,
        !(name.len() >= 2 && name[0] == 'r' && name[1] == '#') ==> unraw(name) == name,
{
    reveal_strlit("r#");
    let raw = seq!['r', '#'] + name;
    assert(raw.take(2) =~= "r#"@);
    assert(raw.skip(2) =~= name);
    if name.len() >= 2 && name.take(2) == "r#"@ {
        assert(name.take(2)[0] == 'r' && name.take(2)[1] == '#');
    }
}

// ---------------------------------------------------------------------------
// Numerals
// ---------------------------------------------------------------------------

/// The number that decimal digits stand for.
pub open spec fn number_of(digits: Chars) -> int
    decreases digits.len(),
{
    if digits.len() == 0 {
        0
    } else {
        number_of(digits.drop_last()) * 10 + (digits.last() as int - '0' as int)
    }
}

/// A numeral has decimal digits only, no zero at the front but that of zero itself, and stands for
/// its number. That of a negative number is a minus sign and the numeral of the number without it.
pub proof fn law_numeral(n: nat)
    ensures
        number_of(numeral(n)) == n,
        numeral(n).len() > 0,
        forall|i: int| 0 <= i < numeral(n).len() ==> '0' <= #[trigger] numeral(n)[i] <= '9',
        numeral(n)[0] == '0' ==> n == 0 && numeral(n).len() == 1,
        signed_numeral(n as int) == numeral(n),
        n > 0 ==> signed_numeral(-(n as int)) == seq!['-'] + numeral(n),
    decreases n,
{
    if n < 10 {
        assert(digit(n) as int == '0' as int + n);
        reveal_with_fuel(number_of, 2);
        assert(numeral(n).drop_last() =~= Seq::<char>::empty());
    } else {
        law_numeral(n / 10);
        assert(digit(n % 10) as int == '0' as int + n % 10);
        assert(numeral(n).drop_last() =~= numeral(n / 10));
        assert(numeral(n)[0] == numeral(n / 10)[0]);
    }
}

} // verus!

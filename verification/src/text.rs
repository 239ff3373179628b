//! Building and rewriting text: joining, template filling, substitution and decimal numerals.
use vstd::prelude::*;

verus! {

/// The views of the elements of a sequence.
pub open spec fn views<T: View>(items: Seq<T>) -> Seq<T::V> {
    Seq::new(items.len(), |i: int| items[i]@)
}

/// A view at the end of a list is the view of the item at the end.
pub proof fn lemma_views_push<T: View>(items: Seq<T>, item: T)
    ensures
        views(items.push(item)) == views(items).push(item@),
{
    assert(views(items.push(item)) =~= views(items).push(item@));
}

/// Whether two pieces of text hold the same characters.
pub fn same(a: &str, b: &str) -> (r: bool)
    ensures
        r == (a@ == b@),
{
    a.to_owned() == b.to_owned()
}

/// The characters of a piece of text.
pub fn chars_of(text: &str) -> (r: Vec<char>)
    ensures
        r@ == text@,
{
    let mut r: Vec<char> = Vec::new();
    for c in it: text.chars()
        invariant
            r@ == text@.take(it.index() as int),
            it.seq() == text@,
    {
        r.push(c);
    }
    r
}

// ---------------------------------------------------------------------------
// Joining
// ---------------------------------------------------------------------------

/// The parts one after the other, with `sep` between each two.
pub open spec fn join<T>(parts: Seq<Seq<T>>, sep: Seq<T>) -> Seq<T>
    decreases parts.len(),
{
    if parts.len() == 0 {
        Seq::empty()
    } else if parts.len() == 1 {
        parts[0]
    } else {
        parts[0] + (sep + join(parts.drop_first(), sep))
    }
}

/// A part at the end of a list that is not empty comes after one more separator.
pub proof fn lemma_join_push<T>(parts: Seq<Seq<T>>, sep: Seq<T>, last: Seq<T>)
    ensures
        join(parts.push(last), sep) == if parts.len() == 0 {
            last
        } else {
            join(parts, sep) + sep + last
        },
    decreases parts.len(),
{
    let all = parts.push(last);
    if parts.len() == 0 {
    } else {
        assert(all.drop_first() =~= parts.drop_first().push(last));
        lemma_join_push(parts.drop_first(), sep, last);
        if parts.len() == 1 {
            assert(join(all, sep) =~= join(parts, sep) + sep + last);
        } else {
            assert(join(all, sep) =~= join(parts, sep) + sep + last);
        }
    }
}

/// Joining two lists that are not empty is joining each and putting the separator between.
pub proof fn lemma_join_concat<T>(a: Seq<Seq<T>>, b: Seq<Seq<T>>, sep: Seq<T>)
    requires
        a.len() > 0,
        b.len() > 0,
    ensures
        join(a + b, sep) == join(a, sep) + sep + join(b, sep),
    decreases a.len(),
{
    let all = a + b;
    assert(all.drop_first() =~= a.drop_first() + b);
    if a.len() == 1 {
        assert(a.drop_first() + b =~= b);
        assert(join(all, sep) =~= join(a, sep) + sep + join(b, sep));
    } else {
        lemma_join_concat(a.drop_first(), b, sep);
        assert(join(all, sep) =~= join(a, sep) + sep + join(b, sep));
    }
}

/// The lists one after the other.
pub open spec fn concat<T>(lists: Seq<Seq<T>>) -> Seq<T>
    decreases lists.len(),
{
    if lists.len() == 0 {
        Seq::empty()
    } else {
        concat(lists.drop_last()) + lists.last()
    }
}

/// Joining lists that are not empty, and then joining what comes out, is joining all their parts.
pub proof fn lemma_join_nested<T>(lists: Seq<Seq<Seq<T>>>, sep: Seq<T>)
    requires
        forall|i: int| 0 <= i < lists.len() ==> (#[trigger] lists[i]).len() > 0,
    ensures
        join(lists.map_values(|list: Seq<Seq<T>>| join(list, sep)), sep) == join(
            concat(lists),
            sep,
        ),
        lists.len() > 0 ==> concat(lists).len() > 0,
    decreases lists.len(),
{
    let joined = lists.map_values(|list: Seq<Seq<T>>| join(list, sep));
    if lists.len() > 0 {
        let front = lists.drop_last();
        let last = lists.last();
        assert(last == lists[lists.len() - 1]);
        assert forall|i: int| 0 <= i < front.len() implies (#[trigger] front[i]).len() > 0 by {
            assert(front[i] == lists[i]);
        }
        lemma_join_nested(front, sep);
        let before = front.map_values(|list: Seq<Seq<T>>| join(list, sep));
        assert(joined =~= before.push(join(last, sep)));
        lemma_join_push(before, sep, join(last, sep));
        if front.len() == 0 {
            assert(concat(lists) =~= last);
        } else {
            lemma_join_concat(concat(front), last, sep);
        }
    }
}

/// Joins strings with a separator.
pub fn join_all(parts: &Vec<String>, sep: &str) -> (r: String)
    ensures
        r@ == join(views(parts@), sep@),
{
    let mut r = String::new();
    let mut i: usize = 0;
    while i < parts.len()
        invariant
            i <= parts.len(),
            r@ == join(views(parts@).take(i as int), sep@),
        decreases parts.len() - i,
    {
        proof {
            let done = views(parts@).take(i as int);
            lemma_join_push(done, sep@, parts@[i as int]@);
            assert(views(parts@).take(i + 1) =~= done.push(parts@[i as int]@));
        }
        if i > 0 {
            r.append(sep);
        }
        r.append(parts[i].as_str());
        i += 1;
        assert(r@ =~= join(views(parts@).take(i as int), sep@));
    }
    assert(views(parts@).take(parts@.len() as int) =~= views(parts@));
    r
}

/// Calls a function on each item.
pub fn mapped<T, F: Fn(&T) -> String>(items: &Vec<T>, f: F) -> (r: Vec<String>)
    requires
        forall|i: int| 0 <= i < items@.len() ==> call_requires(f, (&#[trigger] items@[i],)),
    ensures
        r@.len() == items@.len(),
        forall|i: int| 0 <= i < r@.len() ==> call_ensures(f, (&items@[i],), #[trigger] r@[i]),
{
    let mut r: Vec<String> = Vec::new();
    let mut i: usize = 0;
    while i < items.len()
        invariant
            i <= items@.len(),
            r@.len() == i,
            forall|i: int| 0 <= i < items@.len() ==> call_requires(f, (&#[trigger] items@[i],)),
            forall|k: int| 0 <= k < i ==> call_ensures(f, (&items@[k],), #[trigger] r@[k]),
        decreases items.len() - i,
    {
        r.push(f(&items[i]));
        i += 1;
    }
    r
}

// ---------------------------------------------------------------------------
// Templates
// ---------------------------------------------------------------------------

/// The template with its `$` signs replaced, in order, by the texts in `holes`.
pub open spec fn fill(template: Seq<char>, holes: Seq<Seq<char>>) -> Seq<char>
    decreases template.len(),
{
    if template.len() == 0 {
        Seq::empty()
    } else if template[0] == '$' && holes.len() > 0 {
        holes[0] + fill(template.drop_first(), holes.drop_first())
    } else {
        seq![template[0]] + fill(template.drop_first(), holes)
    }
}

/// Text without a `$` at its start stays as it is.
proof fn lemma_fill_plain(plain: Seq<char>, rest: Seq<char>, holes: Seq<Seq<char>>)
    requires
        forall|i: int| 0 <= i < plain.len() ==> plain[i] != '$',
    ensures
        fill(plain + rest, holes) == plain + fill(rest, holes),
    decreases plain.len(),
{
    if plain.len() == 0 {
        assert(plain + rest =~= rest);
        assert(plain + fill(rest, holes) =~= fill(rest, holes));
    } else {
        assert((plain + rest).drop_first() =~= plain.drop_first() + rest);
        lemma_fill_plain(plain.drop_first(), rest, holes);
        assert(plain =~= seq![plain[0]] + plain.drop_first());
        assert(fill(plain + rest, holes) =~= plain + fill(rest, holes));
    }
}

/// Fills the `$` signs of a template.
pub fn filled(template: &str, holes: &Vec<String>) -> (r: String)
    ensures
        r@ == fill(template@, views(holes@)),
{
    let chars = chars_of(template);
    let mut r = String::new();
    let mut i: usize = 0;
    let mut used: usize = 0;
    assert(chars@.skip(0) =~= template@);
    assert(views(holes@).skip(0) =~= views(holes@));
    while i < chars.len()
        invariant
            chars@ == template@,
            i <= chars.len(),
            used <= holes.len(),
            fill(template@, views(holes@)) == r@ + fill(
                chars@.skip(i as int),
                views(holes@).skip(used as int),
            ),
        decreases chars.len() - i,
    {
        let ghost rest = chars@.skip(i as int);
        let ghost left = views(holes@).skip(used as int);
        if chars[i] == '$' && used < holes.len() {
            r.append(holes[used].as_str());
            proof {
                assert(rest.drop_first() =~= chars@.skip(i + 1));
                assert(left.drop_first() =~= views(holes@).skip(used + 1));
                assert(left[0] == holes@[used as int]@);
            }
            i += 1;
            used += 1;
        } else {
            let start: usize = i;
            i += 1;
            while i < chars.len() && chars[i] != '$'
                invariant
                    chars@ == template@,
                    start < i <= chars.len(),
                    forall|k: int| start < k < i ==> chars@[k] != '$',
                decreases chars.len() - i,
            {
                i += 1;
            }
            let run = template.substring_char(start, i);
            proof {
                let after = chars@.skip(i as int);
                let plain = chars@.subrange(start + 1, i as int);
                assert(rest.drop_first() =~= plain + after);
                lemma_fill_plain(plain, after, left);
                assert(run@ =~= seq![rest[0]] + plain);
                assert(fill(rest, left) =~= run@ + fill(after, left));
            }
            r.append(run);
        }
        assert(r@ + fill(chars@.skip(i as int), views(holes@).skip(used as int)) =~= fill(
            template@,
            views(holes@),
        ));
    }
    assert(chars@.skip(i as int) =~= Seq::empty());
    assert(r@ + Seq::<char>::empty() =~= r@);
    r
}

/// Fills a template that has one hole.
pub fn filled1(template: &str, a: &str) -> (r: String)
    ensures
        r@ == fill(template@, seq![a@]),
{
    let mut holes: Vec<String> = Vec::new();
    holes.push(a.to_owned());
    assert(views(holes@) =~= seq![a@]);
    filled(template, &holes)
}

/// Fills a template that has two holes.
pub fn filled2(template: &str, a: &str, b: &str) -> (r: String)
    ensures
        r@ == fill(template@, seq![a@, b@]),
{
    let mut holes: Vec<String> = Vec::new();
    holes.push(a.to_owned());
    holes.push(b.to_owned());
    assert(views(holes@) =~= seq![a@, b@]);
    filled(template, &holes)
}

/// Fills a template that has three holes.
pub fn filled3(template: &str, a: &str, b: &str, c: &str) -> (r: String)
    ensures
        r@ == fill(template@, seq![a@, b@, c@]),
{
    let mut holes: Vec<String> = Vec::new();
    holes.push(a.to_owned());
    holes.push(b.to_owned());
    holes.push(c.to_owned());
    assert(views(holes@) =~= seq![a@, b@, c@]);
    filled(template, &holes)
}

// ---------------------------------------------------------------------------
// Substitution
// ---------------------------------------------------------------------------

/// Whether `text` begins with `prefix`.
pub open spec fn begins(text: Seq<char>, prefix: Seq<char>) -> bool {
    prefix.len() <= text.len() && text.take(prefix.len() as int) == prefix
}

/// The text with every occurrence of `pattern`, found from left to right and without overlap,
/// replaced by `with`.
pub open spec fn replaced(text: Seq<char>, pattern: Seq<char>, with: Seq<char>) -> Seq<char>
    decreases text.len(),
{
    if text.len() == 0 || pattern.len() == 0 {
        text
    } else if begins(text, pattern) {
        with + replaced(text.skip(pattern.len() as int), pattern, with)
    } else {
        seq![text[0]] + replaced(text.drop_first(), pattern, with)
    }
}

/// A stretch of text in which the pattern's first character does not occur is kept.
pub proof fn lemma_replaced_plain(
    plain: Seq<char>,
    rest: Seq<char>,
    pattern: Seq<char>,
    with: Seq<char>,
)
    requires
        pattern.len() > 0,
        !plain.contains(pattern[0]),
    ensures
        replaced(plain + rest, pattern, with) == plain + replaced(rest, pattern, with),
    decreases plain.len(),
{
    if plain.len() == 0 {
        assert(plain + rest =~= rest);
        assert(plain + replaced(rest, pattern, with) =~= replaced(rest, pattern, with));
    } else {
        let all = plain + rest;
        assert(plain.contains(plain[0]));
        assert(!begins(all, pattern)) by {
            if begins(all, pattern) {
                assert(all.take(pattern.len() as int)[0] == all[0]);
            }
        }
        assert(all.drop_first() =~= plain.drop_first() + rest);
        assert(!plain.drop_first().contains(pattern[0])) by {
            if plain.drop_first().contains(pattern[0]) {
                let k = choose|k: int|
                    0 <= k < plain.drop_first().len() && plain.drop_first()[k] == pattern[0];
                assert(plain[k + 1] == pattern[0]);
            }
        }
        lemma_replaced_plain(plain.drop_first(), rest, pattern, with);
        assert(plain =~= seq![plain[0]] + plain.drop_first());
        assert(replaced(all, pattern, with) =~= plain + replaced(rest, pattern, with));
    }
}

/// An occurrence of the pattern at the front is replaced and the rest follows.
pub proof fn lemma_replaced_hit(pattern: Seq<char>, rest: Seq<char>, with: Seq<char>)
    requires
        pattern.len() > 0,
    ensures
        replaced(pattern + rest, pattern, with) == with + replaced(rest, pattern, with),
{
    let all = pattern + rest;
    assert(all.take(pattern.len() as int) =~= pattern);
    assert(all.skip(pattern.len() as int) =~= rest);
}

/// Whether no occurrence of the pattern can begin inside a text and end behind it.
pub open spec fn sealed(text: Seq<char>, pattern: Seq<char>) -> bool {
    forall|i: int|
        0 <= i < text.len() && text.len() - i < pattern.len() ==> #[trigger] text.skip(i)
            != pattern.take(text.len() - i)
}

/// The rest of a sealed text is sealed.
proof fn lemma_sealed_skip(text: Seq<char>, pattern: Seq<char>, count: int)
    requires
        sealed(text, pattern),
        0 <= count <= text.len(),
    ensures
        sealed(text.skip(count), pattern),
{
    let rest = text.skip(count);
    assert forall|i: int|
        0 <= i < rest.len() && rest.len() - i < pattern.len() implies #[trigger] rest.skip(i)
        != pattern.take(rest.len() - i) by {
        assert(rest.skip(i) =~= text.skip(count + i));
        assert(rest.len() - i == text.len() - (count + i));
    }
}

/// Two sealed texts one after the other are sealed.
pub proof fn lemma_sealed_concat(a: Seq<char>, b: Seq<char>, pattern: Seq<char>)
    requires
        sealed(a, pattern),
        sealed(b, pattern),
    ensures
        sealed(a + b, pattern),
{
    let all = a + b;
    assert forall|i: int|
        0 <= i < all.len() && all.len() - i < pattern.len() implies #[trigger] all.skip(i)
        != pattern.take(all.len() - i) by {
        let count = all.len() - i;
        if all.skip(i) == pattern.take(count) {
            if i < a.len() {
                let left = a.len() - i;
                assert(a.skip(i) =~= all.skip(i).take(left));
                assert(pattern.take(left) =~= pattern.take(count).take(left));
                assert(a.skip(i) == pattern.take(left));
            } else {
                assert(b.skip(i - a.len()) =~= all.skip(i));
                assert(b.skip(i - a.len()) == pattern.take(b.len() - (i - a.len())));
            }
        }
    }
}

/// Text that has the pattern's first character nowhere behind its own first character is sealed,
/// unless the pattern begins with it.
pub proof fn lemma_sealed_mark(text: Seq<char>, pattern: Seq<char>)
    requires
        pattern.len() > 0,
        forall|i: int| 0 < i < text.len() ==> text[i] != pattern[0],
        text.len() < pattern.len() ==> text != pattern.take(text.len() as int),
    ensures
        sealed(text, pattern),
{
    assert forall|i: int|
        0 <= i < text.len() && text.len() - i < pattern.len() implies #[trigger] text.skip(i)
        != pattern.take(text.len() - i) by {
        if i == 0 {
            assert(text.skip(0) =~= text);
        } else {
            assert(text.skip(i)[0] == text[i]);
            assert(pattern.take(text.len() - i)[0] == pattern[0]);
        }
    }
}

/// Text without the pattern's first character is sealed, and nothing in it is replaced.
pub proof fn lemma_sealed_plain(text: Seq<char>, pattern: Seq<char>, with: Seq<char>)
    requires
        pattern.len() > 0,
        !text.contains(pattern[0]),
    ensures
        sealed(text, pattern),
        replaced(text, pattern, with) == text,
{
    assert forall|i: int| 0 < i < text.len() implies text[i] != pattern[0] by {
        assert(text.contains(text[i]));
    }
    if 0 < text.len() < pattern.len() && text == pattern.take(text.len() as int) {
        assert(text.contains(text[0]));
        assert(pattern.take(text.len() as int)[0] == pattern[0]);
    }
    if text.len() > 0 {
        lemma_sealed_mark(text, pattern);
    }
    lemma_replaced_plain(text, Seq::empty(), pattern, with);
    assert(text + Seq::<char>::empty() =~= text);
}

/// What stands behind a sealed text is replaced apart from it.
pub proof fn lemma_replaced_sealed(
    text: Seq<char>,
    rest: Seq<char>,
    pattern: Seq<char>,
    with: Seq<char>,
)
    requires
        pattern.len() > 0,
        sealed(text, pattern),
    ensures
        replaced(text + rest, pattern, with) == replaced(text, pattern, with) + replaced(
            rest,
            pattern,
            with,
        ),
    decreases text.len(),
{
    let all = text + rest;
    let size = pattern.len() as int;
    if text.len() == 0 {
        assert(all =~= rest);
        assert(replaced(text, pattern, with) + replaced(rest, pattern, with) =~= replaced(
            rest,
            pattern,
            with,
        ));
    } else if begins(all, pattern) {
        assert(text.len() >= size) by {
            if text.len() < size {
                assert(text.skip(0) =~= text);
                assert(all.take(size).take(text.len() as int) =~= text);
                assert(text.skip(0) == pattern.take(text.len() - 0));
            }
        }
        assert(text.take(size) =~= all.take(size));
        assert(all.skip(size) =~= text.skip(size) + rest);
        lemma_sealed_skip(text, pattern, size);
        lemma_replaced_sealed(text.skip(size), rest, pattern, with);
        assert(replaced(all, pattern, with) =~= replaced(text, pattern, with) + replaced(
            rest,
            pattern,
            with,
        ));
    } else {
        assert(!begins(text, pattern)) by {
            if begins(text, pattern) {
                assert(all.take(size) =~= text.take(size));
            }
        }
        assert(all.drop_first() =~= text.drop_first() + rest);
        assert(text.drop_first() =~= text.skip(1));
        lemma_sealed_skip(text, pattern, 1);
        lemma_replaced_sealed(text.drop_first(), rest, pattern, with);
        assert(replaced(all, pattern, with) =~= replaced(text, pattern, with) + replaced(
            rest,
            pattern,
            with,
        ));
    }
}

/// In joined parts, each part and the separator are replaced apart, if all of them are sealed.
pub proof fn lemma_replaced_join(
    parts: Seq<Seq<char>>,
    sep: Seq<char>,
    pattern: Seq<char>,
    with: Seq<char>,
)
    requires
        pattern.len() > 0,
        sealed(sep, pattern),
        forall|i: int| 0 <= i < parts.len() ==> sealed(#[trigger] parts[i], pattern),
    ensures
        sealed(join(parts, sep), pattern),
        replaced(join(parts, sep), pattern, with) == join(
            parts.map_values(|part: Seq<char>| replaced(part, pattern, with)),
            replaced(sep, pattern, with),
        ),
    decreases parts.len(),
{
    let done = parts.map_values(|part: Seq<char>| replaced(part, pattern, with));
    if parts.len() == 0 {
    } else if parts.len() == 1 {
        assert(sealed(parts[0], pattern));
    } else {
        let rest = parts.drop_first();
        assert forall|i: int| 0 <= i < rest.len() implies sealed(#[trigger] rest[i], pattern) by {
            assert(rest[i] == parts[i + 1]);
        }
        lemma_replaced_join(rest, sep, pattern, with);
        assert(done.drop_first() =~= rest.map_values(
            |part: Seq<char>| replaced(part, pattern, with),
        ));
        assert(sealed(parts[0], pattern));
        lemma_sealed_concat(sep, join(rest, sep), pattern);
        lemma_sealed_concat(parts[0], sep + join(rest, sep), pattern);
        lemma_replaced_sealed(sep, join(rest, sep), pattern, with);
        lemma_replaced_sealed(parts[0], sep + join(rest, sep), pattern, with);
    }
}

/// Replaces every occurrence of a pattern.
pub fn replace_all(text: &str, pattern: &str, with: &str) -> (r: String)
    ensures
        r@ == replaced(text@, pattern@, with@),
{
    let chars = chars_of(text);
    let wanted = chars_of(pattern);
    if wanted.len() == 0 {
        return text.to_owned();
    }
    let mut r = String::new();
    let mut i: usize = 0;
    assert(chars@.skip(0) =~= text@);
    while i < chars.len()
        invariant
            chars@ == text@,
            wanted@ == pattern@,
            wanted@.len() > 0,
            i <= chars.len(),
            replaced(text@, pattern@, with@) == r@ + replaced(
                chars@.skip(i as int),
                pattern@,
                with@,
            ),
        decreases chars.len() - i,
    {
        let ghost rest = chars@.skip(i as int);
        let mut hit: usize = 0;
        while hit < wanted.len() && hit < chars.len() - i && chars[i + hit] == wanted[hit]
            invariant
                i < chars@.len(),
                hit <= wanted@.len(),
                hit <= chars@.len() - i,
                forall|k: int| 0 <= k < hit ==> chars@[i + k] == wanted@[k],
            decreases wanted.len() - hit,
        {
            hit += 1;
        }
        if hit == wanted.len() {
            proof {
                assert(rest.take(hit as int) =~= pattern@);
                assert(rest.skip(hit as int) =~= chars@.skip(i + hit));
            }
            r.append(with);
            i += hit;
        } else {
            let one = text.substring_char(i, i + 1);
            proof {
                if begins(rest, pattern@) {
                    assert(rest.take(pattern@.len() as int)[hit as int] == pattern@[hit as int]);
                    assert(rest[hit as int] == chars@[i + hit]);
                }
                assert(one@ =~= seq![rest[0]]);
                assert(rest.drop_first() =~= chars@.skip(i + 1));
            }
            r.append(one);
            i += 1;
        }
        assert(r@ + replaced(chars@.skip(i as int), pattern@, with@) =~= replaced(
            text@,
            pattern@,
            with@,
        ));
    }
    assert(chars@.skip(i as int) =~= Seq::empty());
    assert(r@ + Seq::<char>::empty() =~= r@);
    r
}

/// An identifier as it reads inside a longer identifier: without the `r#` of a raw one.
pub open spec fn unraw(name: Seq<char>) -> Seq<char> {
    if begins(name, "r#"@) {
        name.skip(2)
    } else {
        name
    }
}

/// Drops the `r#` of a raw identifier.
pub fn without_raw(name: &str) -> (r: String)
    ensures
        r@ == unraw(name@),
{
    proof {
        reveal_strlit("r#");
    }
    let len = name.unicode_len();
    if len >= 2 && same(name.substring_char(0, 2), "r#") {
        name.substring_char(2, len).to_owned()
    } else {
        name.to_owned()
    }
}

// ---------------------------------------------------------------------------
// Decimal numerals
// ---------------------------------------------------------------------------

/// The decimal digit of a number below ten.
pub open spec fn digit(n: nat) -> char {
    (('0' as u32) + n) as char
}

/// The decimal numeral of a natural number, without leading zeros.
pub open spec fn numeral(n: nat) -> Seq<char>
    decreases n,
{
    if n < 10 {
        seq![digit(n)]
    } else {
        numeral(n / 10).push(digit(n % 10))
    }
}

/// The decimal numeral of an integer, with a minus sign before a negative one.
pub open spec fn signed_numeral(n: int) -> Seq<char> {
    if n < 0 {
        seq!['-'] + numeral((-n) as nat)
    } else {
        numeral(n as nat)
    }
}

/// The numeral of one digit as text.
fn digit_text(n: u64) -> (r: &'static str)
    requires
        n < 10,
    ensures
        r@ == seq![digit(n as nat)],
{
    proof {
        reveal_strlit("0");
        reveal_strlit("1");
        reveal_strlit("2");
        reveal_strlit("3");
        reveal_strlit("4");
        reveal_strlit("5");
        reveal_strlit("6");
        reveal_strlit("7");
        reveal_strlit("8");
        reveal_strlit("9");
    }
    let r = match n {
        0 => "0",
        1 => "1",
        2 => "2",
        3 => "3",
        4 => "4",
        5 => "5",
        6 => "6",
        7 => "7",
        8 => "8",
        _ => "9",
    };
    assert(r@ =~= seq![digit(n as nat)]);
    r
}

/// Writes a natural number in decimal.
pub fn decimal(n: u64) -> (r: String)
    ensures
        r@ == numeral(n as nat),
    decreases n,
{
    if n < 10 {
        digit_text(n).to_owned()
    } else {
        let mut r = decimal(n / 10);
        let ghost front = r@;
        r.append(digit_text(n % 10));
        assert(r@ =~= front.push(digit((n % 10) as nat)));
        r
    }
}

/// Writes an integer in decimal.
pub fn signed_decimal(n: i64) -> (r: String)
    ensures
        r@ == signed_numeral(n as int),
{
    if n < 0 {
        proof {
            reveal_strlit("-");
        }
        let magnitude: u64 = if n == i64::MIN {
            0x8000_0000_0000_0000
        } else {
            (-n) as u64
        };
        let mut r = "-".to_owned();
        r.append(decimal(magnitude).as_str());
        assert(r@ =~= signed_numeral(n as int));
        r
    } else {
        decimal(n as u64)
    }
}

} // verus!

//! What the arguments of an attribute mean, token by token.
use crate::args::{
    bool_at, group_args, index_args, index_entries, punct_at, refined, spot_at, table_args,
    table_flags, tokens_of, tokens_text, via_fault, via_type, word_at, written, GroupArgs,
    IndexArgs, IndexColumn, TableArgs,
};
use crate::error::{ArgError, Spot};
use crate::outside::{identifier, lexed, string_value, type_prefix};
use crate::rule_laws::fits;
use crate::syntax::{Chars, RawToken, Token, TypePrefix};
use vstd::prelude::*;

verus! {

// ---------------------------------------------------------------------------
// Tokens
// ---------------------------------------------------------------------------

/// Tokens are those of the lexer, one for one; only words and string literals are looked into.
pub proof fn law_tokens(text: Chars)
    ensures
        match lexed(text) {
            Err(message) => tokens_of(text) == Err::<Seq<Token<Chars>>, Chars>(message),
            Ok(raw) => {
                &&& tokens_of(text) is Ok
                &&& tokens_of(text)->Ok_0.len() == raw.len()
                &&& forall|i: int|
                    0 <= i < raw.len() ==> (#[trigger] tokens_of(text)->Ok_0[i]) == match raw[i] {
                        RawToken::Ident(word) => match identifier(word) {
                            Ok(name) => Token::Word(name),
                            Err(refusal) => Token::Keyword(word, refusal),
                        },
                        RawToken::Punct(c, joint) => Token::Punct(c, joint),
                        RawToken::Literal(literal) => match string_value(literal) {
                            Some(value) => Token::Str(literal, value),
                            None => Token::Literal(literal),
                        },
                        RawToken::Group(group) => Token::Group(group),
                    }
            },
        },
{
    if let Ok(raw) = lexed(text) {
        assert forall|i: int| 0 <= i < raw.len() implies (#[trigger] tokens_of(text)->Ok_0[i])
            == refined(raw[i]) by {}
    }
}

/// A token is written as it was read.
pub proof fn law_written(text: Chars, other: Chars, joint: bool)
    ensures
        written(Token::Word(text)) == text,
        written(Token::Keyword(text, other)) == text,
        written(Token::Punct(text, joint)) == text,
        written(Token::Str(text, other)) == text,
        written(Token::Literal(text)) == text,
        written(Token::Group(text)) == text,
{
}

/// Tokens are written one after the other, with a space behind each but a punctuation mark that
/// belongs together with the next one.
pub proof fn law_tokens_text(a: Seq<Token<Chars>>, b: Seq<Token<Chars>>, token: Token<Chars>)
    ensures
        tokens_text(a + b) == tokens_text(a) + tokens_text(b),
        token matches Token::Punct(c, true) ==> tokens_text(seq![token]) == c,
        !(token matches Token::Punct(_, true)) ==> tokens_text(seq![token]) == written(token)
            + " "@,
    decreases a.len(),
{
    reveal_with_fuel(tokens_text, 2);
    assert(seq![token].drop_first() =~= Seq::empty());
    assert(tokens_text(seq![token].drop_first()) =~= Seq::empty());
    if let Token::Punct(c, true) = token {
        assert(tokens_text(seq![token]) =~= c);
    } else {
        assert(tokens_text(seq![token]) =~= written(token) + " "@);
    }
    if a.len() == 0 {
        assert(a + b =~= b);
        assert(tokens_text(a) + tokens_text(b) =~= tokens_text(b));
    } else {
        assert((a + b).drop_first() =~= a.drop_first() + b);
        assert((a + b)[0] == a[0]);
        law_tokens_text(a.drop_first(), b, token);
        assert(tokens_text(a + b) =~= tokens_text(a) + tokens_text(b));
    }
}

// ---------------------------------------------------------------------------
// Arguments of tables
// ---------------------------------------------------------------------------

/// What the arguments of a table are told of the first token that does not fit, if all before it
/// do.
proof fn lemma_first_misfit(tokens: Seq<Token<Chars>>, at: int, k: int, args: TableArgs<Chars>)
    requires
        0 < at <= k < tokens.len(),
        at % 2 == 1,
        forall|j: int| at <= j < k ==> #[trigger] fits(tokens, j),
        !fits(tokens, k),
    ensures
        table_flags(tokens, at, args) == Err::<TableArgs<Chars>, ArgError<Chars>>(
            misfit(tokens[k], k),
        ),
    decreases tokens.len() - at,
{
    if k == at {
    } else if k == at + 1 {
        assert(fits(tokens, at));
    } else {
        assert(fits(tokens, at));
        assert(fits(tokens, at + 1));
        lemma_first_misfit(tokens, at + 2, k, TableArgs { auto_primary_key: true, ..args });
        lemma_first_misfit(tokens, at + 2, k, TableArgs { track_last_update: true, ..args });
    }
}

/// What is said of a token at an index behind the name of a table that does not fit there.
pub open spec fn misfit(token: Token<Chars>, k: int) -> ArgError<Chars> {
    ArgError {
        spot: Spot::Token(k as usize),
        message: if k % 2 == 1 {
            "unexpected token"@
        } else {
            match token {
                Token::Word(flag) => "unknown `#[table]` flag `"@ + flag
                    + "`; expected `auto_primary_key` or `track_last_update`"@,
                Token::Keyword(_, message) => message,
                _ => "expected identifier"@,
            }
        },
    }
}

/// Arguments of a table that are not accepted are refused at the first token that does not fit:
/// the name of the table must be a string literal, and behind it stand commas and flags in turn.
pub proof fn law_table_args_refused(tokens: Seq<Token<Chars>>, k: int)
    ensures
        tokens.len() == 0 ==> table_args(tokens) == Err::<TableArgs<Chars>, ArgError<Chars>>(
            ArgError {
                spot: Spot::End,
                message: "unexpected end of input, expected string literal"@,
            },
        ),
        tokens.len() > 0 && !(tokens[0] is Str) ==> table_args(tokens) == Err::<
            TableArgs<Chars>,
            ArgError<Chars>,
        >(ArgError { spot: Spot::Token(0), message: "expected string literal"@ }),
        tokens.len() > 0 && tokens[0] is Str && 0 < k < tokens.len() && !fits(tokens, k) && (
        forall|j: int| 0 < j < k ==> #[trigger] fits(tokens, j)) ==> table_args(tokens) == Err::<
            TableArgs<Chars>,
            ArgError<Chars>,
        >(misfit(tokens[k], k)),
{
    if tokens.len() > 0 && tokens[0] is Str && 0 < k < tokens.len() && !fits(tokens, k) && (
    forall|j: int| 0 < j < k ==> #[trigger] fits(tokens, j)) {
        let args = TableArgs {
            table: tokens[0]->Str_1,
            auto_primary_key: false,
            track_last_update: false,
        };
        lemma_first_misfit(tokens, 1, k, args);
    }
}

/// Where a comma fits and where a flag does.
pub proof fn law_fits(tokens: Seq<Token<Chars>>, k: int)
    requires
        0 < k < tokens.len(),
    ensures
        k % 2 == 1 ==> (fits(tokens, k) <==> (tokens[k] matches Token::Punct(c, _) && c == ","@)),
        k % 2 == 0 ==> (fits(tokens, k) <==> (tokens[k] matches Token::Word(w) && (w
            == "auto_primary_key"@ || w == "track_last_update"@))),
{
}

// ---------------------------------------------------------------------------
// Arguments of indexes
// ---------------------------------------------------------------------------

/// Whether a token is a punctuation mark.
pub open spec fn is_mark(token: Token<Chars>, mark: Chars) -> bool {
    token matches Token::Punct(c, _) && c == mark
}

/// Whether `unique =` stands at an index.
pub open spec fn is_setting(tokens: Seq<Token<Chars>>, i: int) -> bool {
    &&& 0 <= i < tokens.len() - 1
    &&& tokens[i] == Token::Word("unique"@)
    &&& is_mark(tokens[i + 1], "="@)
}

/// Whether the last `unique =` before an index stands at another.
pub open spec fn is_last_setting(tokens: Seq<Token<Chars>>, i: int, end: int) -> bool {
    &&& i < end
    &&& is_setting(tokens, i)
    &&& forall|j: int| i < j < end ==> !#[trigger] is_setting(tokens, j)
}

/// Whether the value behind `unique =` is given.
pub open spec fn sets(tokens: Seq<Token<Chars>>, i: int, value: bool) -> bool {
    i + 2 < tokens.len() && (tokens[i + 2] matches Token::Keyword(word, _) && word == if value {
        "true"@
    } else {
        "false"@
    })
}

/// Whether arguments are what the tokens before an index say: each word names a column, in order,
/// but for `unique` before an equals sign, of which the last decides.
pub open spec fn says(
    tokens: Seq<Token<Chars>>,
    end: int,
    args: IndexArgs<Seq<IndexColumn<Chars>>>,
) -> bool {
    &&& forall|k: int|
        0 <= k < args.columns.len() ==> {
            let column = #[trigger] args.columns[k];
            &&& column.token < end
            &&& tokens[column.token as int] == Token::Word(column.name)
            &&& !is_setting(tokens, column.token as int)
        }
    &&& forall|j: int, k: int|
        0 <= j < k < args.columns.len() ==> (#[trigger] args.columns[j]).token < (
        #[trigger] args.columns[k]).token
    &&& forall|i: int|
        0 <= i < end && (#[trigger] tokens[i]) is Word && !is_setting(tokens, i) ==> exists|k: int|
            0 <= k < args.columns.len() && (#[trigger] args.columns[k]).token == i
    &&& forall|i: int| #[trigger] is_last_setting(tokens, i, end) ==> sets(tokens, i, args.unique)
    &&& (forall|i: int| 0 <= i < end ==> !#[trigger] is_setting(tokens, i)) ==> !args.unique
}

/// What the entries from an index on add to what those before it say.
#[verifier::rlimit(40)]
proof fn lemma_entries_say(
    tokens: Seq<Token<Chars>>,
    at: int,
    first: bool,
    args: IndexArgs<Seq<IndexColumn<Chars>>>,
)
    requires
        tokens.len() <= usize::MAX,
        0 <= at <= tokens.len(),
        first ==> at == 0,
        says(tokens, at, args),
        index_entries(tokens, at, first, args) is Ok,
    ensures
        says(tokens, tokens.len() as int, index_entries(tokens, at, first, args)->Ok_0),
    decreases tokens.len() - at,
{
    let entry = if first {
        at
    } else {
        at + 1
    };
    if at >= tokens.len() {
    } else if entry >= tokens.len() {
        assert(!(tokens[at] is Word));
        lemma_says_more(tokens, at, at + 1, args);
    } else {
        let name = word_at(tokens, entry)->Ok_0;
        assert(tokens[entry] == Token::Word(name));
        if !first {
            assert(!(tokens[at] is Word));
            lemma_says_more(tokens, at, entry, args);
        }
        assert(says(tokens, entry, args));
        if name == "unique"@ && punct_at(tokens, entry + 1, "="@) {
            let unique = bool_at(tokens, entry + 2)->Ok_0;
            let next = IndexArgs { unique, ..args };
            assert(is_setting(tokens, entry));
            assert(sets(tokens, entry, unique));
            assert forall|i: int| #[trigger] is_last_setting(tokens, i, entry + 3) implies sets(
                tokens,
                i,
                unique,
            ) by {
                if i < entry {
                    assert(is_setting(tokens, entry));
                } else {
                    assert(i == entry);
                }
            }
            assert forall|i: int|
                0 <= i < entry + 3 && (#[trigger] tokens[i]) is Word && !is_setting(
                    tokens,
                    i,
                ) implies exists|k: int|
                0 <= k < next.columns.len() && (#[trigger] next.columns[k]).token == i by {
                assert(i < entry);
                let k = choose|k: int|
                    0 <= k < args.columns.len() && (#[trigger] args.columns[k]).token == i;
                assert(next.columns[k].token == i);
            }
            assert(says(tokens, entry + 3, next));
            lemma_entries_say(tokens, entry + 3, false, next);
        } else {
            let column = IndexColumn { name, token: entry as usize };
            let next = IndexArgs { columns: args.columns.push(column), ..args };
            assert(!is_setting(tokens, entry));
            assert forall|i: int| #[trigger] is_last_setting(tokens, i, entry + 1) implies sets(
                tokens,
                i,
                next.unique,
            ) by {
                assert(i != entry);
                assert(is_last_setting(tokens, i, entry));
            }
            assert forall|i: int|
                0 <= i < entry + 1 && (#[trigger] tokens[i]) is Word && !is_setting(
                    tokens,
                    i,
                ) implies exists|k: int|
                0 <= k < next.columns.len() && (#[trigger] next.columns[k]).token == i by {
                if i < entry {
                    let k = choose|k: int|
                        0 <= k < args.columns.len() && (#[trigger] args.columns[k]).token == i;
                    assert(next.columns[k] == args.columns[k]);
                } else {
                    assert(next.columns[args.columns.len() as int].token == i);
                }
            }
            assert forall|k: int| 0 <= k < next.columns.len() implies {
                let column = #[trigger] next.columns[k];
                &&& column.token < entry + 1
                &&& tokens[column.token as int] == Token::Word(column.name)
                &&& !is_setting(tokens, column.token as int)
            } by {
                if k < args.columns.len() {
                    assert(next.columns[k] == args.columns[k]);
                }
            }
            if forall|i: int| 0 <= i < entry + 1 ==> !#[trigger] is_setting(tokens, i) {
                assert forall|i: int| 0 <= i < entry implies !#[trigger] is_setting(tokens, i) by {}
            }
            assert(says(tokens, entry + 1, next));
            lemma_entries_say(tokens, entry + 1, false, next);
        }
    }
}

/// A token that is no word adds nothing.
proof fn lemma_says_more(
    tokens: Seq<Token<Chars>>,
    at: int,
    end: int,
    args: IndexArgs<Seq<IndexColumn<Chars>>>,
)
    requires
        0 <= at < tokens.len(),
        end == at + 1,
        !(tokens[at] is Word),
        says(tokens, at, args),
    ensures
        says(tokens, end, args),
{
    assert(!is_setting(tokens, at));
    assert forall|i: int| #[trigger] is_last_setting(tokens, i, end) implies sets(
        tokens,
        i,
        args.unique,
    ) by {
        assert(i != at);
        assert(is_last_setting(tokens, i, at));
    }
    if forall|i: int| 0 <= i < end ==> !#[trigger] is_setting(tokens, i) {
        assert forall|i: int| 0 <= i < at implies !#[trigger] is_setting(tokens, i) by {}
    }
}

/// The columns of an index are the words among its arguments, in their order, each with its place,
/// but for `unique` before an equals sign; the last of those settings says whether the index is
/// unique, and without one it is not. There is at least one column.
pub proof fn law_index_args(tokens: Seq<Token<Chars>>)
    requires
        tokens.len() <= usize::MAX,
        index_args(tokens) is Ok,
    ensures
        says(tokens, tokens.len() as int, index_args(tokens)->Ok_0),
        index_args(tokens)->Ok_0.columns.len() > 0,
{
    let none = IndexArgs { columns: Seq::<IndexColumn<Chars>>::empty(), unique: false };
    assert(says(tokens, 0, none));
    lemma_entries_say(tokens, 0, true, none);
}

/// What is said of a token that stands where a word must stand.
pub open spec fn no_word(tokens: Seq<Token<Chars>>, at: int) -> ArgError<Chars> {
    if at >= tokens.len() {
        ArgError { spot: Spot::End, message: "unexpected end of input, expected identifier"@ }
    } else {
        ArgError {
            spot: Spot::Token(at as usize),
            message: match tokens[at] {
                Token::Keyword(_, message) => message,
                _ => "expected identifier"@,
            },
        }
    }
}

/// A word is taken where one stands, and nothing else is.
pub proof fn law_word_at(tokens: Seq<Token<Chars>>, at: int, word: Chars)
    requires
        0 <= at,
    ensures
        word_at(tokens, at) == Ok::<Chars, ArgError<Chars>>(word) <==> at < tokens.len()
            && tokens[at] == Token::Word(word),
        word_at(tokens, at) is Err <==> at >= tokens.len() || !(tokens[at] is Word),
        word_at(tokens, at) is Err ==> word_at(tokens, at) == Err::<Chars, ArgError<Chars>>(
            no_word(tokens, at),
        ),
        punct_at(tokens, at, word) <==> at < tokens.len() && is_mark(tokens[at], word),
        spot_at(tokens, at) == if at < tokens.len() {
            Spot::Token(at as usize)
        } else {
            Spot::End
        },
{
}

/// How the entries of an index are read: the first stands at the start, and each other one behind a
/// comma. An entry is a column, or `unique = true` or `unique = false`; a comma may end the list.
pub proof fn law_index_entry(
    tokens: Seq<Token<Chars>>,
    at: int,
    first: bool,
    args: IndexArgs<Seq<IndexColumn<Chars>>>,
)
    requires
        0 <= at,
    ensures
        at >= tokens.len() ==> index_entries(tokens, at, first, args) == Ok::<
            IndexArgs<Seq<IndexColumn<Chars>>>,
            ArgError<Chars>,
        >(args),
        at < tokens.len() && !first ==> index_entries(tokens, at, first, args) == if !is_mark(
            tokens[at],
            ","@,
        ) {
            Err(ArgError { spot: Spot::Token(at as usize), message: "expected `,`"@ })
        } else {
            index_entries(tokens, at + 1, true, args)
        },
        at < tokens.len() && first && !(tokens[at] is Word) ==> index_entries(
            tokens,
            at,
            first,
            args,
        ) == Err::<IndexArgs<Seq<IndexColumn<Chars>>>, ArgError<Chars>>(no_word(tokens, at)),
        first && is_setting(tokens, at) ==> index_entries(tokens, at, first, args)
            == if at + 2 >= tokens.len() {
            Err(
                ArgError {
                    spot: Spot::End,
                    message: "unexpected end of input, expected boolean literal"@,
                },
            )
        } else if sets(tokens, at, true) {
            index_entries(tokens, at + 3, false, IndexArgs { columns: args.columns, unique: true })
        } else if sets(tokens, at, false) {
            index_entries(tokens, at + 3, false, IndexArgs { columns: args.columns, unique: false })
        } else {
            Err(
                ArgError {
                    spot: Spot::Token((at + 2) as usize),
                    message: "expected boolean literal"@,
                },
            )
        },
        at < tokens.len() && first && !is_setting(tokens, at) ==> (tokens[at] matches Token::Word(
            name,
        ) ==> index_entries(tokens, at, first, args) == index_entries(
            tokens,
            at + 1,
            false,
            IndexArgs {
                columns: args.columns.push(IndexColumn { name, token: at as usize }),
                unique: args.unique,
            },
        )),
{
    reveal_with_fuel(index_entries, 2);
}

/// Arguments of an index are read from the start; they are refused if an entry is, or if no column
/// is named.
pub proof fn law_index_whole(tokens: Seq<Token<Chars>>)
    ensures
        index_args(tokens) == match index_entries(
            tokens,
            0,
            true,
            IndexArgs { columns: Seq::empty(), unique: false },
        ) {
            Err(error) => Err(error),
            Ok(args) => if args.columns.len() == 0 {
                Err(
                    ArgError {
                        spot: Spot::CallSite,
                        message: "#[index] requires at least one column name"@,
                    },
                )
            } else {
                Ok(args)
            },
        },
{
}

// ---------------------------------------------------------------------------
// Arguments of groups
// ---------------------------------------------------------------------------

/// The arguments of a group are `via`, an equals sign and a type, with nothing behind it; the group
/// is that type. Whatever else stands there is refused where it stands.
pub proof fn law_group_args(tokens: Seq<Token<Chars>>)
    ensures
        tokens.len() == 0 || !(tokens[0] is Word) ==> group_args(tokens) == Err::<
            GroupArgs<Chars>,
            ArgError<Chars>,
        >(no_word(tokens, 0)),
        tokens.len() > 0 ==> (tokens[0] matches Token::Word(word) ==> word != "via"@
            ==> group_args(tokens) == Err::<GroupArgs<Chars>, ArgError<Chars>>(
            ArgError { spot: Spot::Token(0), message: "expected `via = Type`"@ },
        )),
        tokens.len() == 1 && tokens[0] == Token::Word("via"@) ==> group_args(tokens) == Err::<
            GroupArgs<Chars>,
            ArgError<Chars>,
        >(ArgError { spot: Spot::End, message: "expected `=`"@ }),
        tokens.len() > 1 && tokens[0] == Token::Word("via"@) && !is_mark(tokens[1], "="@)
            ==> group_args(tokens) == Err::<GroupArgs<Chars>, ArgError<Chars>>(
            ArgError { spot: Spot::Token(1), message: "expected `=`"@ },
        ),
        tokens.len() > 1 && tokens[0] == Token::Word("via"@) && is_mark(tokens[1], "="@)
            ==> group_args(tokens) == match type_prefix(tokens_text(tokens.skip(2))) {
            Err(message) => Err(ArgError { spot: Spot::Outside, message }),
            Ok(prefix) => if prefix.left > 0 {
                Err(
                    ArgError {
                        spot: Spot::FromEnd(prefix.left),
                        message: "#[group(via = ...)] takes no further arguments"@,
                    },
                )
            } else {
                Ok(GroupArgs::Via(prefix.ty))
            },
        },
{
}

/// What a check of the start of the arguments of a group finds, and what becomes of the type that
/// was parsed behind it.
pub proof fn law_via(
    tokens: Seq<Token<Chars>>,
    parsed: Result<TypePrefix<Chars>, Chars>,
)
    ensures
        via_fault(tokens) is None <==> tokens.len() > 1 && tokens[0] == Token::Word("via"@)
            && is_mark(tokens[1], "="@),
        via_fault(tokens) matches Some(error) ==> group_args(tokens) == Err::<
            GroupArgs<Chars>,
            ArgError<Chars>,
        >(error),
        via_type(parsed) == match parsed {
            Err(message) => Err(ArgError { spot: Spot::Outside, message }),
            Ok(prefix) => if prefix.left > 0 {
                Err(
                    ArgError {
                        spot: Spot::FromEnd(prefix.left),
                        message: "#[group(via = ...)] takes no further arguments"@,
                    },
                )
            } else {
                Ok(GroupArgs::Via(prefix.ty))
            },
        },
{
}

} // verus!

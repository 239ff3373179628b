//! The argument grammars of the attributes: `#[table(...)]`, `#[index(...)]` and `#[group(...)]`.
use crate::error::{ArgError, Spot};
use crate::outside::{
    identifier, lex, lexed, parse_identifier, parse_string, parse_type_prefix, string_value,
    type_prefix,
};
use crate::syntax::{seen, seen_all, Chars, RawToken, Token, TypePrefix};
use crate::text::{same, views};
use vstd::prelude::*;

verus! {

// ---------------------------------------------------------------------------
// Tokens
// ---------------------------------------------------------------------------

/// A token with keywords told from identifiers and string literals evaluated.
pub open spec fn refined(raw: RawToken<Chars>) -> Token<Chars> {
    match raw {
        RawToken::Ident(word) => match identifier(word) {
            Ok(name) => Token::Word(name),
            Err(refusal) => Token::Keyword(word, refusal),
        },
        RawToken::Punct(c, joint) => Token::Punct(c, joint),
        RawToken::Literal(text) => match string_value(text) {
            Some(value) => Token::Str(text, value),
            None => Token::Literal(text),
        },
        RawToken::Group(text) => Token::Group(text),
    }
}

/// The tokens of a source text.
pub open spec fn tokens_of(text: Chars) -> Result<Seq<Token<Chars>>, Chars> {
    match lexed(text) {
        Ok(raw) => Ok(Seq::new(raw.len(), |i: int| refined(raw[i]))),
        Err(message) => Err(message),
    }
}

/// Tells keywords from identifiers and evaluates a string literal.
pub fn refine(raw: RawToken<String>) -> (r: Token<String>)
    ensures
        r@ == refined(raw@),
{
    match raw {
        RawToken::Ident(word) => match parse_identifier(word.as_str()) {
            Ok(name) => Token::Word(name),
            Err(refusal) => Token::Keyword(word, refusal),
        },
        RawToken::Punct(c, joint) => Token::Punct(c, joint),
        RawToken::Literal(text) => match parse_string(text.as_str()) {
            Some(value) => Token::Str(text, value),
            None => Token::Literal(text),
        },
        RawToken::Group(text) => Token::Group(text),
    }
}

/// Reads the tokens of a source text.
pub fn read_tokens(text: &str) -> (r: Result<Vec<Token<String>>, String>)
    ensures
        seen_all(r) == tokens_of(text@),
{
    let mut raw = match lex(text) {
        Ok(raw) => raw,
        Err(message) => return Err(message),
    };
    let ghost all = views(raw@);
    let mut tokens: Vec<Token<String>> = Vec::new();
    while raw.len() > 0
        invariant
            tokens@.len() + raw@.len() == all.len(),
            forall|k: int| 0 <= k < tokens@.len() ==> (#[trigger] tokens@[k])@ == refined(all[k]),
            forall|k: int|
                0 <= k < raw@.len() ==> (#[trigger] raw@[k])@ == all[tokens@.len() + k],
        decreases raw.len(),
    {
        let first = raw.remove(0);
        tokens.push(refine(first));
    }
    assert(views(tokens@) =~= Seq::new(all.len(), |i: int| refined(all[i])));
    Ok(tokens)
}

/// A token as it is written.
pub open spec fn written(token: Token<Chars>) -> Chars {
    match token {
        Token::Word(name) => name,
        Token::Keyword(word, _) => word,
        Token::Punct(c, _) => c,
        Token::Str(text, _) => text,
        Token::Literal(text) => text,
        Token::Group(text) => text,
    }
}

/// The tokens as they are written, with a space behind each but the parts of an operator.
pub open spec fn tokens_text(tokens: Seq<Token<Chars>>) -> Chars
    decreases tokens.len(),
{
    if tokens.len() == 0 {
        Seq::empty()
    } else {
        let gap = if tokens[0] matches Token::Punct(_, joint) && joint {
            Seq::empty()
        } else {
            " "@
        };
        written(tokens[0]) + gap + tokens_text(tokens.drop_first())
    }
}

/// Writes the tokens from an index on.
pub fn write_tokens(tokens: &Vec<Token<String>>, from: usize) -> (r: String)
    requires
        from <= tokens@.len(),
    ensures
        r@ == tokens_text(views(tokens@).skip(from as int)),
{
    let mut r = String::new();
    let mut i: usize = from;
    while i < tokens.len()
        invariant
            from <= i <= tokens@.len(),
            r@ + tokens_text(views(tokens@).skip(i as int)) == tokens_text(
                views(tokens@).skip(from as int),
            ),
        decreases tokens.len() - i,
    {
        let ghost rest = views(tokens@).skip(i as int);
        let ghost before = r@;
        assert(rest[0] == tokens@[i as int]@);
        assert(rest.drop_first() =~= views(tokens@).skip(i + 1));
        let mut joint = false;
        match &tokens[i] {
            Token::Word(name) => r.append(name.as_str()),
            Token::Keyword(word, _) => r.append(word.as_str()),
            Token::Punct(c, part) => {
                r.append(c.as_str());
                joint = *part;
            },
            Token::Str(text, _) => r.append(text.as_str()),
            Token::Literal(text) => r.append(text.as_str()),
            Token::Group(text) => r.append(text.as_str()),
        }
        assert(r@ == before + written(rest[0]));
        if !joint {
            r.append(" ");
        }
        i += 1;
        assert(r@ + tokens_text(views(tokens@).skip(i as int)) =~= before + tokens_text(rest));
    }
    assert(views(tokens@).skip(i as int) =~= Seq::empty());
    assert(r@ + Seq::<char>::empty() =~= r@);
    r
}

// ---------------------------------------------------------------------------
// Steps of the grammars
// ---------------------------------------------------------------------------

/// An error in a list of tokens.
pub open spec fn refusal(spot: Spot, message: Chars) -> ArgError<Chars> {
    ArgError { spot, message }
}

/// Makes an error in a list of tokens.
fn refuse(spot: Spot, message: &str) -> (r: ArgError<String>)
    ensures
        r@ == refusal(spot, message@),
{
    ArgError { spot, message: message.to_owned() }
}

/// The identifier at an index.
pub open spec fn word_at(tokens: Seq<Token<Chars>>, at: int) -> Result<Chars, ArgError<Chars>> {
    if at >= tokens.len() {
        Err(refusal(Spot::End, "unexpected end of input, expected identifier"@))
    } else {
        match tokens[at] {
            Token::Word(name) => Ok(name),
            Token::Keyword(_, message) => Err(refusal(Spot::Token(at as usize), message)),
            _ => Err(refusal(Spot::Token(at as usize), "expected identifier"@)),
        }
    }
}

/// Takes the identifier at an index.
fn take_word(tokens: &Vec<Token<String>>, at: usize) -> (r: Result<String, ArgError<String>>)
    ensures
        seen(r) == word_at(views(tokens@), at as int),
{
    if at >= tokens.len() {
        return Err(refuse(Spot::End, "unexpected end of input, expected identifier"));
    }
    match &tokens[at] {
        Token::Word(name) => Ok(name.clone()),
        Token::Keyword(_, message) => Err(refuse(Spot::Token(at), message.as_str())),
        _ => Err(refuse(Spot::Token(at), "expected identifier")),
    }
}

/// Whether a punctuation character stands at an index.
pub open spec fn punct_at(tokens: Seq<Token<Chars>>, at: int, mark: Chars) -> bool {
    at < tokens.len() && (tokens[at] matches Token::Punct(c, _) && c == mark)
}

/// Looks for a punctuation character at an index.
fn peek_punct(tokens: &Vec<Token<String>>, at: usize, mark: &str) -> (r: bool)
    ensures
        r == punct_at(views(tokens@), at as int, mark@),
{
    if at >= tokens.len() {
        return false;
    }
    match &tokens[at] {
        Token::Punct(c, _) => same(c.as_str(), mark),
        _ => false,
    }
}

/// The position of an index that may be the end.
pub open spec fn spot_at(tokens: Seq<Token<Chars>>, at: int) -> Spot {
    if at < tokens.len() {
        Spot::Token(at as usize)
    } else {
        Spot::End
    }
}

/// Finds the position of an index that may be the end.
fn find_spot(tokens: &Vec<Token<String>>, at: usize) -> (r: Spot)
    ensures
        r == spot_at(views(tokens@), at as int),
{
    if at < tokens.len() {
        Spot::Token(at)
    } else {
        Spot::End
    }
}

// ---------------------------------------------------------------------------
// #[table("name", flag, ...)]
// ---------------------------------------------------------------------------

/// The arguments of `#[table]`.
pub struct TableArgs<S> {
    /// The name of the table.
    pub table: S,
    pub auto_primary_key: bool,
    pub track_last_update: bool,
}

impl View for TableArgs<String> {
    type V = TableArgs<Chars>;

    open spec fn view(&self) -> TableArgs<Chars> {
        TableArgs {
            table: self.table@,
            auto_primary_key: self.auto_primary_key,
            track_last_update: self.track_last_update,
        }
    }
}

/// The message about a flag that `#[table]` does not know.
pub open spec fn unknown_flag(flag: Chars) -> Chars {
    "unknown `#[table]` flag `"@ + flag
        + "`; expected `auto_primary_key` or `track_last_update`"@
}

/// The flags from an index on, added to those before it. Each is a comma and an identifier; a
/// comma at the end is tolerated.
pub open spec fn table_flags(
    tokens: Seq<Token<Chars>>,
    at: int,
    args: TableArgs<Chars>,
) -> Result<TableArgs<Chars>, ArgError<Chars>>
    decreases tokens.len() - at,
{
    if at >= tokens.len() {
        Ok(args)
    } else if !punct_at(tokens, at, ","@) {
        Err(refusal(Spot::Token(at as usize), "unexpected token"@))
    } else if at + 1 >= tokens.len() {
        Ok(args)
    } else {
        match word_at(tokens, at + 1) {
            Err(error) => Err(error),
            Ok(flag) => if flag == "auto_primary_key"@ {
                table_flags(tokens, at + 2, TableArgs { auto_primary_key: true, ..args })
            } else if flag == "track_last_update"@ {
                table_flags(tokens, at + 2, TableArgs { track_last_update: true, ..args })
            } else {
                Err(refusal(Spot::Token((at + 1) as usize), unknown_flag(flag)))
            },
        }
    }
}

/// The arguments of `#[table]`: the name of the table and flags.
pub open spec fn table_args(tokens: Seq<Token<Chars>>) -> Result<
    TableArgs<Chars>,
    ArgError<Chars>,
> {
    if tokens.len() == 0 {
        Err(refusal(Spot::End, "unexpected end of input, expected string literal"@))
    } else {
        match tokens[0] {
            Token::Str(_, table) => table_flags(
                tokens,
                1,
                TableArgs { table, auto_primary_key: false, track_last_update: false },
            ),
            _ => Err(refusal(Spot::Token(0), "expected string literal"@)),
        }
    }
}

/// Parses the arguments of `#[table]`.
pub fn parse_table_args(tokens: &Vec<Token<String>>) -> (r: Result<
    TableArgs<String>,
    ArgError<String>,
>)
    ensures
        seen(r) == table_args(views(tokens@)),
{
    if tokens.len() == 0 {
        return Err(refuse(Spot::End, "unexpected end of input, expected string literal"));
    }
    let table = match &tokens[0] {
        Token::Str(_, table) => table.clone(),
        _ => return Err(refuse(Spot::Token(0), "expected string literal")),
    };
    let mut args = TableArgs { table, auto_primary_key: false, track_last_update: false };
    let mut at: usize = 1;
    while at < tokens.len()
        invariant
            table_args(views(tokens@)) == table_flags(views(tokens@), at as int, args@),
        decreases tokens.len() - at,
    {
        if !peek_punct(tokens, at, ",") {
            return Err(refuse(Spot::Token(at), "unexpected token"));
        }
        if at + 1 >= tokens.len() {
            return Ok(args);
        }
        let flag = match take_word(tokens, at + 1) {
            Ok(flag) => flag,
            Err(error) => return Err(error),
        };
        if same(flag.as_str(), "auto_primary_key") {
            args.auto_primary_key = true;
        } else if same(flag.as_str(), "track_last_update") {
            args.track_last_update = true;
        } else {
            let mut message = "unknown `#[table]` flag `".to_owned();
            message.append(flag.as_str());
            message.append("`; expected `auto_primary_key` or `track_last_update`");
            return Err(ArgError { spot: Spot::Token(at + 1), message });
        }
        at += 2;
    }
    Ok(args)
}

// ---------------------------------------------------------------------------
// #[index(column, ..., unique = true)]
// ---------------------------------------------------------------------------

/// A column that an index names, with the index of its token.
pub struct IndexColumn<S> {
    pub name: S,
    pub token: usize,
}

impl View for IndexColumn<String> {
    type V = IndexColumn<Chars>;

    open spec fn view(&self) -> IndexColumn<Chars> {
        IndexColumn { name: self.name@, token: self.token }
    }
}

/// The arguments of `#[index]`; `C` is a list of columns.
pub struct IndexArgs<C> {
    pub columns: C,
    pub unique: bool,
}

impl View for IndexArgs<Vec<IndexColumn<String>>> {
    type V = IndexArgs<Seq<IndexColumn<Chars>>>;

    open spec fn view(&self) -> IndexArgs<Seq<IndexColumn<Chars>>> {
        IndexArgs { columns: views(self.columns@), unique: self.unique }
    }
}

/// The boolean literal at an index.
pub open spec fn bool_at(tokens: Seq<Token<Chars>>, at: int) -> Result<bool, ArgError<Chars>> {
    if at >= tokens.len() {
        Err(refusal(Spot::End, "unexpected end of input, expected boolean literal"@))
    } else {
        match tokens[at] {
            Token::Keyword(word, _) => if word == "true"@ {
                Ok(true)
            } else if word == "false"@ {
                Ok(false)
            } else {
                Err(refusal(Spot::Token(at as usize), "expected boolean literal"@))
            },
            _ => Err(refusal(Spot::Token(at as usize), "expected boolean literal"@)),
        }
    }
}

/// Takes the boolean literal at an index.
fn take_bool(tokens: &Vec<Token<String>>, at: usize) -> (r: Result<bool, ArgError<String>>)
    ensures
        r matches Ok(value) ==> bool_at(views(tokens@), at as int) == Ok::<bool, ArgError<Chars>>(
            value,
        ),
        r matches Err(error) ==> bool_at(views(tokens@), at as int) == Err::<
            bool,
            ArgError<Chars>,
        >(error@),
{
    if at >= tokens.len() {
        return Err(refuse(Spot::End, "unexpected end of input, expected boolean literal"));
    }
    match &tokens[at] {
        Token::Keyword(word, _) => if same(word.as_str(), "true") {
            Ok(true)
        } else if same(word.as_str(), "false") {
            Ok(false)
        } else {
            Err(refuse(Spot::Token(at), "expected boolean literal"))
        },
        _ => Err(refuse(Spot::Token(at), "expected boolean literal")),
    }
}

/// The arguments of an index from an entry on, added to those before it. An entry is a column or
/// `unique = ` and a boolean literal. Each but the first has a comma before it; a comma at the
/// end is tolerated.
pub open spec fn index_entries(
    tokens: Seq<Token<Chars>>,
    at: int,
    first: bool,
    args: IndexArgs<Seq<IndexColumn<Chars>>>,
) -> Result<IndexArgs<Seq<IndexColumn<Chars>>>, ArgError<Chars>>
    decreases tokens.len() - at,
{
    let entry = if first {
        at
    } else {
        at + 1
    };
    if at >= tokens.len() {
        Ok(args)
    } else if !first && !punct_at(tokens, at, ","@) {
        Err(refusal(Spot::Token(at as usize), "expected `,`"@))
    } else if entry >= tokens.len() {
        Ok(args)
    } else {
        match word_at(tokens, entry) {
            Err(error) => Err(error),
            Ok(name) => if name == "unique"@ && punct_at(tokens, entry + 1, "="@) {
                match bool_at(tokens, entry + 2) {
                    Err(error) => Err(error),
                    Ok(unique) => index_entries(
                        tokens,
                        entry + 3,
                        false,
                        IndexArgs { unique, ..args },
                    ),
                }
            } else {
                let column = IndexColumn { name, token: entry as usize };
                index_entries(
                    tokens,
                    entry + 1,
                    false,
                    IndexArgs { columns: args.columns.push(column), ..args },
                )
            },
        }
    }
}

/// The arguments of `#[index]`: at least one column.
pub open spec fn index_args(tokens: Seq<Token<Chars>>) -> Result<
    IndexArgs<Seq<IndexColumn<Chars>>>,
    ArgError<Chars>,
> {
    match index_entries(tokens, 0, true, IndexArgs { columns: Seq::empty(), unique: false }) {
        Err(error) => Err(error),
        Ok(args) => if args.columns.len() == 0 {
            Err(refusal(Spot::CallSite, "#[index] requires at least one column name"@))
        } else {
            Ok(args)
        },
    }
}

/// Parses the entries of an index.
fn parse_index_entries(tokens: &Vec<Token<String>>) -> (r: Result<
    IndexArgs<Vec<IndexColumn<String>>>,
    ArgError<String>,
>)
    ensures
        seen(r) == index_entries(
            views(tokens@),
            0,
            true,
            IndexArgs { columns: Seq::empty(), unique: false },
        ),
{
    let mut args = IndexArgs { columns: Vec::new(), unique: false };
    let mut at: usize = 0;
    let mut first = true;
    let ghost whole = index_entries(
        views(tokens@),
        0,
        true,
        IndexArgs { columns: Seq::empty(), unique: false },
    );
    assert(args@.columns =~= Seq::empty());
    while at < tokens.len()
        invariant
            whole == index_entries(
                views(tokens@),
                0,
                true,
                IndexArgs { columns: Seq::empty(), unique: false },
            ),
            whole == index_entries(views(tokens@), at as int, first, args@),
        decreases tokens.len() - at,
    {
        if !first {
            if !peek_punct(tokens, at, ",") {
                return Err(refuse(Spot::Token(at), "expected `,`"));
            }
            at += 1;
            if at >= tokens.len() {
                return Ok(args);
            }
        }
        let name = match take_word(tokens, at) {
            Ok(name) => name,
            Err(error) => return Err(error),
        };
        first = false;
        if same(name.as_str(), "unique") && at + 1 < tokens.len() && peek_punct(tokens, at + 1, "=")
        {
            if at + 2 >= tokens.len() {
                return Err(
                    refuse(Spot::End, "unexpected end of input, expected boolean literal"),
                );
            }
            args.unique = match take_bool(tokens, at + 2) {
                Ok(unique) => unique,
                Err(error) => return Err(error),
            };
            at += 3;
        } else {
            proof {
                crate::text::lemma_views_push(
                    args.columns@,
                    IndexColumn { name, token: at },
                );
            }
            args.columns.push(IndexColumn { name, token: at });
            at += 1;
        }
    }
    Ok(args)
}

/// Parses the arguments of `#[index]`.
pub fn parse_index_args(tokens: &Vec<Token<String>>) -> (r: Result<
    IndexArgs<Vec<IndexColumn<String>>>,
    ArgError<String>,
>)
    ensures
        seen(r) == index_args(views(tokens@)),
{
    match parse_index_entries(tokens) {
        Err(error) => Err(error),
        Ok(args) => if args.columns.len() == 0 {
            Err(refuse(Spot::CallSite, "#[index] requires at least one column name"))
        } else {
            Ok(args)
        },
    }
}

// ---------------------------------------------------------------------------
// #[group] and #[group(via = Type)] on a field
// ---------------------------------------------------------------------------

/// The arguments of `#[group]` on a field.
pub enum GroupArgs<S> {
    /// The field's own type is the group.
    Plain,
    /// The group is this type, and the field's type converts from and to it.
    Via(S),
}

impl View for GroupArgs<String> {
    type V = GroupArgs<Chars>;

    open spec fn view(&self) -> GroupArgs<Chars> {
        match self {
            GroupArgs::Plain => GroupArgs::Plain,
            GroupArgs::Via(ty) => GroupArgs::Via(ty@),
        }
    }
}

/// What is wrong before the type in `via = Type`.
pub open spec fn via_fault(tokens: Seq<Token<Chars>>) -> Option<ArgError<Chars>> {
    match word_at(tokens, 0) {
        Err(error) => Some(error),
        Ok(word) => if word != "via"@ {
            Some(refusal(Spot::Token(0), "expected `via = Type`"@))
        } else if !punct_at(tokens, 1, "="@) {
            Some(refusal(spot_at(tokens, 1), "expected `=`"@))
        } else {
            None
        },
    }
}

/// The arguments that a parsed type gives: nothing may stand behind the type.
pub open spec fn via_type(parsed: Result<TypePrefix<Chars>, Chars>) -> Result<
    GroupArgs<Chars>,
    ArgError<Chars>,
> {
    match parsed {
        Err(message) => Err(refusal(Spot::Outside, message)),
        Ok(prefix) => if prefix.left > 0 {
            Err(
                refusal(
                    Spot::FromEnd(prefix.left),
                    "#[group(via = ...)] takes no further arguments"@,
                ),
            )
        } else {
            Ok(GroupArgs::Via(prefix.ty))
        },
    }
}

/// The arguments of `#[group(...)]` on a field: `via = Type`.
pub open spec fn group_args(tokens: Seq<Token<Chars>>) -> Result<
    GroupArgs<Chars>,
    ArgError<Chars>,
> {
    match via_fault(tokens) {
        Some(error) => Err(error),
        None => via_type(type_prefix(tokens_text(tokens.skip(2)))),
    }
}

/// Checks what stands before the type in `via = Type`.
pub fn check_via(tokens: &Vec<Token<String>>) -> (r: Option<ArgError<String>>)
    ensures
        r is None <==> via_fault(views(tokens@)) is None,
        r matches Some(error) ==> via_fault(views(tokens@)) == Some(error@),
{
    let word = match take_word(tokens, 0) {
        Ok(word) => word,
        Err(error) => return Some(error),
    };
    if !same(word.as_str(), "via") {
        return Some(refuse(Spot::Token(0), "expected `via = Type`"));
    }
    if !peek_punct(tokens, 1, "=") {
        return Some(refuse(find_spot(tokens, 1), "expected `=`"));
    }
    None
}

/// Makes the arguments out of a parsed type.
pub fn finish_via(parsed: Result<TypePrefix<String>, String>) -> (r: Result<
    GroupArgs<String>,
    ArgError<String>,
>)
    ensures
        seen(r) == via_type(seen(parsed)),
{
    match parsed {
        Err(message) => Err(ArgError { spot: Spot::Outside, message }),
        Ok(prefix) => if prefix.left > 0 {
            Err(
                refuse(
                    Spot::FromEnd(prefix.left),
                    "#[group(via = ...)] takes no further arguments",
                ),
            )
        } else {
            Ok(GroupArgs::Via(prefix.ty))
        },
    }
}

/// Parses the arguments of `#[group(...)]` on a field.
pub fn parse_group_args(tokens: &Vec<Token<String>>) -> (r: Result<
    GroupArgs<String>,
    ArgError<String>,
>)
    ensures
        seen(r) == group_args(views(tokens@)),
{
    match check_via(tokens) {
        Some(error) => Err(error),
        None => {
            let text = write_tokens(tokens, 2);
            finish_via(parse_type_prefix(text.as_str()))
        },
    }
}

} // verus!

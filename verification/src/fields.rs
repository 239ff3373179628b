//! The roles that the attributes of a table struct give to it and to its fields.
use crate::args::{
    group_args, index_args, parse_group_args, parse_index_args, GroupArgs, IndexColumn,
};
use crate::decl::{all_ok, lemma_all_ok_error, AttrData, AttrView, FieldData, FieldView};
use crate::error::{fail, failure, ArgError, MacroError, Site};
use crate::syntax::{seen, seen_all, AttrForm, Chars};
use crate::text::{fill, filled, filled1, join, join_all, lemma_views_push, same, views};
use vstd::prelude::*;

verus! {

// ---------------------------------------------------------------------------
// Attributes
// ---------------------------------------------------------------------------

/// The index of the first attribute with a name, or the number of attributes if there is none.
pub open spec fn first_attr(attrs: Seq<AttrView>, name: Chars) -> nat
    decreases attrs.len(),
{
    if attrs.len() == 0 || attrs[0].path == name {
        0
    } else {
        1 + first_attr(attrs.drop_first(), name)
    }
}

/// Finds the first attribute with a name.
fn find_attr(attrs: &Vec<AttrData>, name: &str) -> (r: usize)
    ensures
        r == first_attr(views(attrs@), name@),
        r <= attrs@.len(),
{
    let mut i: usize = 0;
    assert(views(attrs@).skip(0) =~= views(attrs@));
    while i < attrs.len()
        invariant
            i <= attrs@.len(),
            first_attr(views(attrs@), name@) == i + first_attr(
                views(attrs@).skip(i as int),
                name@,
            ),
        decreases attrs.len() - i,
    {
        assert(views(attrs@).skip(i as int)[0] == attrs@[i as int]@);
        assert(views(attrs@).skip(i as int).drop_first() =~= views(attrs@).skip(i + 1));
        if same(attrs[i].path.as_str(), name) {
            return i;
        }
        i += 1;
    }
    i
}

/// The texts of the attributes without the one at an index.
pub open spec fn texts_without(attrs: Seq<AttrView>, removed: int) -> Seq<Chars>
    decreases attrs.len(),
{
    if attrs.len() == 0 {
        Seq::empty()
    } else if attrs.len() - 1 == removed {
        texts_without(attrs.drop_last(), removed)
    } else {
        texts_without(attrs.drop_last(), removed).push(attrs.last().text)
    }
}

/// Takes the texts of the attributes without the one at an index.
fn take_texts(attrs: &Vec<AttrData>, removed: usize) -> (r: Vec<String>)
    ensures
        views(r@) == texts_without(views(attrs@), removed as int),
{
    let mut r: Vec<String> = Vec::new();
    let mut i: usize = 0;
    assert(views(r@) =~= Seq::empty());
    while i < attrs.len()
        invariant
            i <= attrs@.len(),
            views(r@) == texts_without(views(attrs@).take(i as int), removed as int),
        decreases attrs.len() - i,
    {
        let ghost part = views(attrs@).take(i + 1);
        assert(part.drop_last() =~= views(attrs@).take(i as int));
        assert(part.last() == attrs@[i as int]@);
        if i != removed {
            let text = attrs[i].text.clone();
            proof {
                lemma_views_push(r@, text);
            }
            r.push(text);
        }
        i += 1;
    }
    assert(views(attrs@).take(i as int) =~= views(attrs@));
    r
}

pub const ATTRIBUTE: &'static str = "#[$]";

/// Attributes as they are written.
pub open spec fn attrs_code(texts: Seq<Chars>) -> Chars {
    join(texts.map_values(|text: Chars| fill(ATTRIBUTE@, seq![text])), " "@)
}

/// Writes attributes.
pub fn write_attrs(texts: &Vec<String>) -> (r: String)
    ensures
        r@ == attrs_code(views(texts@)),
{
    let mut parts: Vec<String> = Vec::new();
    let mut i: usize = 0;
    while i < texts.len()
        invariant
            i <= texts@.len(),
            parts@.len() == i,
            forall|k: int|
                0 <= k < i ==> (#[trigger] parts@[k])@ == fill(ATTRIBUTE@, seq![texts@[k]@]),
        decreases texts.len() - i,
    {
        parts.push(filled1(ATTRIBUTE, texts[i].as_str()));
        i += 1;
    }
    assert(views(parts@) =~= views(texts@).map_values(
        |text: Chars| fill(ATTRIBUTE@, seq![text]),
    ));
    join_all(&parts, " ")
}

// ---------------------------------------------------------------------------
// Fields
// ---------------------------------------------------------------------------

/// What a field stands for in the table.
pub enum FieldKind<S> {
    /// One column.
    Column { primary_key: bool, unique: bool, ty: S },
    /// The columns of a group, which is the type of the field.
    Group { ty: S, prefix: S },
    /// The columns of a group that the type of the field converts from and to.
    Via { raw_ty: S, field_ty: S, prefix: S },
}

impl View for FieldKind<String> {
    type V = FieldKind<Chars>;

    open spec fn view(&self) -> FieldKind<Chars> {
        match self {
            FieldKind::Column { primary_key, unique, ty } => FieldKind::Column {
                primary_key: *primary_key,
                unique: *unique,
                ty: ty@,
            },
            FieldKind::Group { ty, prefix } => FieldKind::Group { ty: ty@, prefix: prefix@ },
            FieldKind::Via { raw_ty, field_ty, prefix } => FieldKind::Via {
                raw_ty: raw_ty@,
                field_ty: field_ty@,
                prefix: prefix@,
            },
        }
    }
}

/// A field of a table.
pub struct FieldInfo<S> {
    pub name: S,
    pub kind: FieldKind<S>,
    /// The field as it is written, without the attribute that gave it its role.
    pub code: S,
}

impl View for FieldInfo<String> {
    type V = FieldInfo<Chars>;

    open spec fn view(&self) -> FieldInfo<Chars> {
        FieldInfo { name: self.name@, kind: self.kind@, code: self.code@ }
    }
}

pub const FIELD: &'static str = "$ $ $: $";

/// A field as it is written, without the attribute at an index.
pub open spec fn field_code(field: FieldView, removed: int) -> Chars {
    fill(
        FIELD@,
        seq![
            attrs_code(texts_without(field.attrs, removed)),
            field.vis,
            field.name,
            field.ty,
        ],
    )
}

/// Writes a field without the attribute at an index.
fn write_field(field: &FieldData, removed: usize) -> (r: String)
    ensures
        r@ == field_code(field@, removed as int),
{
    let mut holes: Vec<String> = Vec::new();
    holes.push(write_attrs(&take_texts(&field.attrs, removed)));
    holes.push(field.vis.clone());
    holes.push(field.name.clone());
    holes.push(field.ty.clone());
    assert(views(holes@) =~= seq![
        attrs_code(texts_without(field@.attrs, removed as int)),
        field@.vis,
        field@.name,
        field@.ty,
    ]);
    filled(FIELD, &holes)
}

/// The prefix of the columns of a group field.
pub open spec fn prefix_of(name: Chars) -> Chars {
    name + "_"@
}

/// The arguments of the `#[group]` of a field, if that attribute has any.
pub open spec fn group_choice(field: FieldView) -> Result<GroupArgs<Chars>, ArgError<Chars>> {
    let at = first_attr(field.attrs, "group"@);
    if at < field.attrs.len() {
        match field.attrs[at as int].form {
            AttrForm::List(tokens) => group_args(tokens),
            _ => Ok(GroupArgs::Plain),
        }
    } else {
        Ok(GroupArgs::Plain)
    }
}

/// The kind of a field and the index of the attribute that gives it, for the arguments of its
/// `#[group]`.
pub open spec fn field_kind(
    i: int,
    field: FieldView,
    choice: Result<GroupArgs<Chars>, ArgError<Chars>>,
) -> Result<(FieldKind<Chars>, nat), MacroError<Chars>> {
    let count = field.attrs.len();
    let group = first_attr(field.attrs, "group"@);
    let key = first_attr(field.attrs, "primary_key"@);
    let unique = first_attr(field.attrs, "unique"@);
    let prefix = prefix_of(field.name);
    if group < count {
        if key < count {
            Err(
                failure(
                    Site::FieldAttr(i as usize, key as usize),
                    "a field cannot be both #[group] and #[primary_key]"@,
                ),
            )
        } else if unique < count {
            Err(
                failure(
                    Site::FieldAttr(i as usize, unique as usize),
                    "a field cannot be both #[group] and #[unique]"@,
                ),
            )
        } else if field.attrs[group as int].form is NameValue {
            Err(
                failure(
                    Site::FieldAttr(i as usize, group as usize),
                    "unexpected attribute form"@,
                ),
            )
        } else {
            match choice {
                Err(error) => Err(
                    failure(
                        Site::FieldAttrArg(i as usize, group as usize, error.spot),
                        error.message,
                    ),
                ),
                Ok(GroupArgs::Plain) => Ok((FieldKind::Group { ty: field.ty, prefix }, group)),
                Ok(GroupArgs::Via(raw_ty)) => Ok(
                    (FieldKind::Via { raw_ty, field_ty: field.ty, prefix }, group),
                ),
            }
        }
    } else if key < count {
        if unique < count {
            Err(
                failure(
                    Site::FieldAttr(i as usize, unique as usize),
                    "a field cannot be both #[primary_key] and #[unique]"@,
                ),
            )
        } else {
            Ok((FieldKind::Column { primary_key: true, unique: false, ty: field.ty }, key))
        }
    } else {
        Ok(
            (
                FieldKind::Column { primary_key: false, unique: unique < count, ty: field.ty },
                unique,
            ),
        )
    }
}

/// The role of a field, for the arguments of its `#[group]`.
pub open spec fn classified(
    i: int,
    field: FieldView,
    choice: Result<GroupArgs<Chars>, ArgError<Chars>>,
) -> Result<FieldInfo<Chars>, MacroError<Chars>> {
    match field_kind(i, field, choice) {
        Err(error) => Err(error),
        Ok((kind, removed)) => Ok(
            FieldInfo { name: field.name, kind, code: field_code(field, removed as int) },
        ),
    }
}

/// Decides the kind of a field.
fn decide_kind(
    i: usize,
    field: &FieldData,
    choice: Result<GroupArgs<String>, ArgError<String>>,
) -> (r: Result<(FieldKind<String>, usize), MacroError<String>>)
    ensures
        r matches Err(error) ==> field_kind(i as int, field@, seen(choice)) == Err::<
            (FieldKind<Chars>, nat),
            MacroError<Chars>,
        >(error@),
        r matches Ok((kind, removed)) ==> field_kind(i as int, field@, seen(choice)) == Ok::<
            (FieldKind<Chars>, nat),
            MacroError<Chars>,
        >((kind@, removed as nat)),
{
    let count = field.attrs.len();
    let group = find_attr(&field.attrs, "group");
    let key = find_attr(&field.attrs, "primary_key");
    let unique = find_attr(&field.attrs, "unique");
    if group < count {
        if key < count {
            return Err(
                fail(
                    Site::FieldAttr(i, key),
                    "a field cannot be both #[group] and #[primary_key]",
                ),
            );
        }
        if unique < count {
            return Err(
                fail(
                    Site::FieldAttr(i, unique),
                    "a field cannot be both #[group] and #[unique]",
                ),
            );
        }
        match field.attrs[group].form {
            AttrForm::NameValue => {
                return Err(fail(Site::FieldAttr(i, group), "unexpected attribute form"));
            },
            _ => {},
        }
        let mut prefix = field.name.clone();
        prefix.append("_");
        match choice {
            Err(error) => Err(
                MacroError {
                    site: Site::FieldAttrArg(i, group, error.spot),
                    message: error.message,
                },
            ),
            Ok(GroupArgs::Plain) => Ok(
                (FieldKind::Group { ty: field.ty.clone(), prefix }, group),
            ),
            Ok(GroupArgs::Via(raw_ty)) => Ok(
                (FieldKind::Via { raw_ty, field_ty: field.ty.clone(), prefix }, group),
            ),
        }
    } else if key < count {
        if unique < count {
            return Err(
                fail(
                    Site::FieldAttr(i, unique),
                    "a field cannot be both #[primary_key] and #[unique]",
                ),
            );
        }
        Ok((FieldKind::Column { primary_key: true, unique: false, ty: field.ty.clone() }, key))
    } else {
        Ok(
            (
                FieldKind::Column {
                    primary_key: false,
                    unique: unique < count,
                    ty: field.ty.clone(),
                },
                unique,
            ),
        )
    }
}

/// Decides the role of a field, for the arguments of its `#[group]`.
pub fn classify(
    i: usize,
    field: &FieldData,
    choice: Result<GroupArgs<String>, ArgError<String>>,
) -> (r: Result<FieldInfo<String>, MacroError<String>>)
    ensures
        seen(r) == classified(i as int, field@, seen(choice)),
{
    match decide_kind(i, field, choice) {
        Err(error) => Err(error),
        Ok((kind, removed)) => Ok(
            FieldInfo { name: field.name.clone(), kind, code: write_field(field, removed) },
        ),
    }
}

/// Reads the arguments of the `#[group]` of a field.
fn read_choice(field: &FieldData) -> (r: Result<GroupArgs<String>, ArgError<String>>)
    ensures
        seen(r) == group_choice(field@),
{
    let at = find_attr(&field.attrs, "group");
    if at < field.attrs.len() {
        match &field.attrs[at].form {
            AttrForm::List(tokens) => parse_group_args(tokens),
            _ => Ok(GroupArgs::Plain),
        }
    } else {
        Ok(GroupArgs::Plain)
    }
}

/// The roles of the fields of a struct.
pub open spec fn field_infos(fields: Seq<FieldView>) -> Result<
    Seq<FieldInfo<Chars>>,
    MacroError<Chars>,
> {
    all_ok(Seq::new(fields.len(), |i: int| classified(i, fields[i], group_choice(fields[i]))))
}

/// Decides the roles of the fields of a struct.
pub fn classify_all(fields: &Vec<FieldData>) -> (r: Result<
    Vec<FieldInfo<String>>,
    MacroError<String>,
>)
    ensures
        seen_all(r) == field_infos(views(fields@)),
{
    let ghost all = views(fields@);
    let ghost roles = Seq::new(all.len(), |i: int| classified(i, all[i], group_choice(all[i])));
    let mut infos: Vec<FieldInfo<String>> = Vec::new();
    let mut i: usize = 0;
    assert(views(infos@) =~= Seq::empty());
    assert(all_ok(roles.take(0)) == Ok::<Seq<FieldInfo<Chars>>, MacroError<Chars>>(Seq::empty()));
    while i < fields.len()
        invariant
            i <= fields@.len(),
            all == views(fields@),
            roles == Seq::new(all.len(), |i: int| classified(i, all[i], group_choice(all[i]))),
            all_ok(roles.take(i as int)) == Ok::<Seq<FieldInfo<Chars>>, MacroError<Chars>>(
                views(infos@),
            ),
        decreases fields.len() - i,
    {
        assert(roles.take(i + 1).drop_last() =~= roles.take(i as int));
        let choice = read_choice(&fields[i]);
        match classify(i, &fields[i], choice) {
            Ok(info) => {
                proof {
                    lemma_views_push(infos@, info);
                }
                infos.push(info);
            },
            Err(error) => {
                proof {
                    lemma_all_ok_error(roles, i + 1);
                }
                return Err(error);
            },
        }
        i += 1;
    }
    assert(roles.take(i as int) =~= roles);
    Ok(infos)
}

// ---------------------------------------------------------------------------
// Attributes of the struct
// ---------------------------------------------------------------------------

/// An index that a table declares; `C` is a list of columns.
pub struct IndexDecl<C> {
    /// The attribute that declares it.
    pub attr: usize,
    pub columns: C,
    pub unique: bool,
}

pub type IndexView = IndexDecl<Seq<IndexColumn<Chars>>>;

pub type IndexData = IndexDecl<Vec<IndexColumn<String>>>;

impl View for IndexDecl<Vec<IndexColumn<String>>> {
    type V = IndexDecl<Seq<IndexColumn<Chars>>>;

    open spec fn view(&self) -> IndexDecl<Seq<IndexColumn<Chars>>> {
        IndexDecl { attr: self.attr, columns: views(self.columns@), unique: self.unique }
    }
}

/// The index that an attribute declares.
pub open spec fn index_decl(attr: int, form: AttrForm<Seq<crate::syntax::Token<Chars>>>) -> Result<
    IndexView,
    MacroError<Chars>,
> {
    match form {
        AttrForm::Path => Err(
            failure(
                Site::Attr(attr as usize),
                "expected attribute arguments in parentheses: #[index(...)]"@,
            ),
        ),
        AttrForm::NameValue => Err(
            failure(Site::Attr(attr as usize), "expected parentheses: #[index(...)]"@),
        ),
        AttrForm::List(tokens) => match index_args(tokens) {
            Err(error) => Err(failure(Site::AttrArg(attr as usize, error.spot), error.message)),
            Ok(args) => Ok(
                IndexDecl { attr: attr as usize, columns: args.columns, unique: args.unique },
            ),
        },
    }
}

/// Reads the index that an attribute declares.
fn read_index(attr: usize, form: &AttrForm<Vec<crate::syntax::Token<String>>>) -> (r: Result<
    IndexData,
    MacroError<String>,
>)
    ensures
        seen(r) == index_decl(
            attr as int,
            match *form {
                AttrForm::Path => AttrForm::Path,
                AttrForm::NameValue => AttrForm::NameValue,
                AttrForm::List(tokens) => AttrForm::List(views(tokens@)),
            },
        ),
{
    match form {
        AttrForm::Path => Err(
            fail(
                Site::Attr(attr),
                "expected attribute arguments in parentheses: #[index(...)]",
            ),
        ),
        AttrForm::NameValue => Err(
            fail(Site::Attr(attr), "expected parentheses: #[index(...)]"),
        ),
        AttrForm::List(tokens) => match parse_index_args(tokens) {
            Err(error) => Err(
                MacroError { site: Site::AttrArg(attr, error.spot), message: error.message },
            ),
            Ok(args) => Ok(IndexDecl { attr, columns: args.columns, unique: args.unique }),
        },
    }
}

/// The attributes of a table struct by their roles; `I` is a list of indexes and `L` a list of
/// text.
pub struct TableAttrs<I, L> {
    pub indexes: I,
    /// Whether `#[track_last_update]` stands on the struct.
    pub track: bool,
    /// The other attributes, which stay on the struct.
    pub kept: L,
}

pub type TableAttrsView = TableAttrs<Seq<IndexView>, Seq<Chars>>;

pub type TableAttrsData = TableAttrs<Vec<IndexData>, Vec<String>>;

impl View for TableAttrs<Vec<IndexData>, Vec<String>> {
    type V = TableAttrs<Seq<IndexView>, Seq<Chars>>;

    open spec fn view(&self) -> TableAttrs<Seq<IndexView>, Seq<Chars>> {
        TableAttrs { indexes: views(self.indexes@), track: self.track, kept: views(self.kept@) }
    }
}

/// The attributes of a table struct by their roles, in their order.
pub open spec fn table_attrs(attrs: Seq<AttrView>) -> Result<TableAttrsView, MacroError<Chars>>
    decreases attrs.len(),
{
    if attrs.len() == 0 {
        Ok(TableAttrs { indexes: Seq::empty(), track: false, kept: Seq::empty() })
    } else {
        let attr = attrs.last();
        match table_attrs(attrs.drop_last()) {
            Err(error) => Err(error),
            Ok(done) => if attr.path == "index"@ {
                match index_decl(attrs.len() - 1, attr.form) {
                    Err(error) => Err(error),
                    Ok(index) => Ok(TableAttrs { indexes: done.indexes.push(index), ..done }),
                }
            } else if attr.path == "track_last_update"@ && attr.form is Path {
                Ok(TableAttrs { track: true, ..done })
            } else {
                Ok(TableAttrs { kept: done.kept.push(attr.text), ..done })
            },
        }
    }
}

/// An error in a part of the attributes is the outcome of the whole.
proof fn lemma_table_attrs_error(attrs: Seq<AttrView>, part: int)
    requires
        0 <= part <= attrs.len(),
        table_attrs(attrs.take(part)) is Err,
    ensures
        table_attrs(attrs) == table_attrs(attrs.take(part)),
    decreases attrs.len() - part,
{
    if part < attrs.len() {
        assert(attrs.take(part + 1).drop_last() =~= attrs.take(part));
        lemma_table_attrs_error(attrs, part + 1);
    } else {
        assert(attrs.take(part) =~= attrs);
    }
}

/// Sorts the attributes of a table struct by their roles.
pub fn sort_attrs(attrs: &Vec<AttrData>) -> (r: Result<TableAttrsData, MacroError<String>>)
    ensures
        seen(r) == table_attrs(views(attrs@)),
{
    let mut sorted: TableAttrsData = TableAttrs {
        indexes: Vec::new(),
        track: false,
        kept: Vec::new(),
    };
    let mut i: usize = 0;
    assert(sorted@.indexes =~= Seq::empty());
    assert(sorted@.kept =~= Seq::empty());
    while i < attrs.len()
        invariant
            i <= attrs@.len(),
            table_attrs(views(attrs@).take(i as int)) == Ok::<TableAttrsView, MacroError<Chars>>(
                sorted@,
            ),
        decreases attrs.len() - i,
    {
        let ghost part = views(attrs@).take(i + 1);
        assert(part.drop_last() =~= views(attrs@).take(i as int));
        assert(part.last() == attrs@[i as int]@);
        let bare = match attrs[i].form {
            AttrForm::Path => true,
            _ => false,
        };
        if same(attrs[i].path.as_str(), "index") {
            match read_index(i, &attrs[i].form) {
                Ok(index) => {
                    proof {
                        lemma_views_push(sorted.indexes@, index);
                    }
                    sorted.indexes.push(index);
                },
                Err(error) => {
                    proof {
                        lemma_table_attrs_error(views(attrs@), i + 1);
                    }
                    return Err(error);
                },
            }
        } else if same(attrs[i].path.as_str(), "track_last_update") && bare {
            sorted.track = true;
        } else {
            let text = attrs[i].text.clone();
            proof {
                lemma_views_push(sorted.kept@, text);
            }
            sorted.kept.push(text);
        }
        i += 1;
    }
    assert(views(attrs@).take(i as int) =~= views(attrs@));
    Ok(sorted)
}

} // verus!

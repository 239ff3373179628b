//! Which role each attribute gives, which columns are keys, and what each refusal says.
use crate::args::{group_args, index_args, GroupArgs, IndexArgs, IndexColumn, TableArgs};
use crate::decl::{all_ok, lemma_all_ok_error, lemma_all_ok_values, AttrView, FieldView};
use crate::error::{ArgError, MacroError, Site, Spot};
use crate::fields::{
    classified, field_infos, first_attr, group_choice, table_attrs, FieldInfo, FieldKind,
    IndexView, TableAttrsView, ATTRIBUTE, FIELD,
};
use crate::rule_laws::{attr_texts, law_texts_without};
use crate::rules::{
    column_fault, columns_fault, has_field, indexes_fault, key_fault, key_names, keys, Key,
};
use crate::syntax::{AttrForm, Chars};
use crate::text::{fill, join};
use vstd::prelude::*;

verus! {

// ---------------------------------------------------------------------------
// Keys
// ---------------------------------------------------------------------------

/// Whether a field is a column with a type and a mark: that of a unique column, or else that of the
/// primary key.
pub open spec fn marked(info: FieldInfo<Chars>, unique: bool, column_type: Chars) -> bool {
    match info.kind {
        FieldKind::Column { primary_key, unique: is_unique, ty } => {
            &&& ty == column_type
            &&& if unique {
                is_unique
            } else {
                primary_key
            }
        },
        _ => false,
    }
}

/// The keys of a table are exactly its marked columns, in their order: each key has the name, the
/// type and the index of one marked field, and every marked field is a key once.
pub proof fn law_keys(infos: Seq<FieldInfo<Chars>>, unique: bool)
    requires
        infos.len() <= usize::MAX,
    ensures
        forall|k: int|
            0 <= k < keys(infos, unique).len() ==> {
                let key = #[trigger] keys(infos, unique)[k];
                &&& key.field < infos.len()
                &&& key.name == infos[key.field as int].name
                &&& marked(infos[key.field as int], unique, key.ty)
            },
        forall|j: int, k: int|
            0 <= j < k < keys(infos, unique).len() ==> (#[trigger] keys(infos, unique)[j]).field < (
            #[trigger] keys(infos, unique)[k]).field,
        forall|i: int, ty: Chars|
            0 <= i < infos.len() && #[trigger] marked(infos[i], unique, ty) ==> exists|k: int|
                0 <= k < keys(infos, unique).len() && (#[trigger] keys(infos, unique)[k]).field
                    == i && keys(infos, unique)[k].ty == ty,
    decreases infos.len(),
{
    let all = keys(infos, unique);
    if infos.len() > 0 {
        let front = infos.drop_last();
        let before = keys(front, unique);
        let last = infos.last();
        law_keys(front, unique);
        let added = exists|ty: Chars| marked(last, unique, ty);
        if added {
            let ty = choose|ty: Chars| marked(last, unique, ty);
            assert(all.len() == before.len() + 1);
            assert(all[before.len() as int].field == infos.len() - 1);
            assert(all[before.len() as int].ty == ty);
        } else {
            assert(all.len() == before.len()) by {
                match last.kind {
                    FieldKind::Column { ty, .. } => {
                        assert(!marked(last, unique, ty));
                    },
                    _ => {},
                }
            }
        }
        assert forall|k: int| 0 <= k < before.len() implies #[trigger] all[k] == before[k] by {}
        assert forall|k: int| 0 <= k < all.len() implies {
            let key = #[trigger] all[k];
            &&& key.field < infos.len()
            &&& key.name == infos[key.field as int].name
            &&& marked(infos[key.field as int], unique, key.ty)
        } by {
            if k < before.len() {
                assert(all[k] == before[k]);
                assert(front[before[k].field as int] == infos[before[k].field as int]);
            }
        }
        assert forall|j: int, k: int| 0 <= j < k < all.len() implies (#[trigger] all[j]).field < (
        #[trigger] all[k]).field by {
            assert(all[j] == before[j]);
            if k < before.len() {
                assert(all[k] == before[k]);
            } else {
                assert(before[j].field < front.len());
            }
        }
        assert forall|i: int, ty: Chars|
            0 <= i < infos.len() && #[trigger] marked(infos[i], unique, ty) implies exists|k: int|
            0 <= k < all.len() && (#[trigger] all[k]).field == i && all[k].ty == ty by {
            if i < front.len() {
                assert(front[i] == infos[i]);
                assert(marked(front[i], unique, ty));
                let k = choose|k: int|
                    0 <= k < before.len() && (#[trigger] before[k]).field == i && before[k].ty
                        == ty;
                assert(all[k] == before[k]);
            } else {
                assert(infos[i] == last);
                assert(all[before.len() as int].field == i);
            }
        }
    }
}

/// The names of keys are those of the keys, one for one.
pub proof fn law_key_names(list: Seq<Key<Chars>>)
    ensures
        key_names(list).len() == list.len(),
        forall|i: int| 0 <= i < list.len() ==> #[trigger] key_names(list)[i] == list[i].name,
{
}

/// What a table that breaks a rule on keys and flags is told, in the order of the rules, and that
/// one that breaks none is told nothing.
pub proof fn law_key_refusals(args: TableArgs<Chars>, infos: Seq<FieldInfo<Chars>>)
    ensures
        ({
            let primary = keys(infos, false).len() > 0;
            let unique = keys(infos, true).len() > 0;
            let auto = args.auto_primary_key;
            &&& auto && primary ==> key_fault(args, infos) == Some(
                MacroError {
                    site: Site::ItemName,
                    message:
                        "`auto_primary_key` and `#[primary_key]` cannot both be used on the same table"@,
                },
            )
            &&& !auto && unique ==> key_fault(args, infos) == Some(
                MacroError {
                    site: Site::Field(keys(infos, true)[0].field),
                    message: "`#[unique]` requires `auto_primary_key` on the table"@,
                },
            )
            &&& args.track_last_update && !primary && !unique ==> key_fault(args, infos) == Some(
                MacroError {
                    site: Site::ItemName,
                    message:
                        "`track_last_update` requires either a `#[primary_key]` field or `auto_primary_key` with at least one `#[unique]` field"@,
                },
            )
            &&& key_fault(args, infos) is None <==> !(auto && primary) && (unique ==> auto) && (
            args.track_last_update ==> primary || unique)
        }),
{
}

// ---------------------------------------------------------------------------
// Indexes
// ---------------------------------------------------------------------------

/// Whether a field has a name.
pub open spec fn named(info: FieldInfo<Chars>, name: Chars) -> bool {
    info.name == name
}

/// Whether a name is that of a field.
pub open spec fn is_field(infos: Seq<FieldInfo<Chars>>, name: Chars) -> bool {
    exists|i: int| 0 <= i < infos.len() && #[trigger] named(infos[i], name)
}

/// Whether a name is that of a plain column.
pub open spec fn is_plain(infos: Seq<FieldInfo<Chars>>, name: Chars) -> bool {
    exists|i: int|
        0 <= i < infos.len() && #[trigger] named(infos[i], name) && infos[i].kind is Column
}

/// The fields that an index can name, and those that it cannot.
proof fn lemma_has_field(infos: Seq<FieldInfo<Chars>>, name: Chars)
    ensures
        has_field(infos, name, true) == is_plain(infos, name),
        has_field(infos, name, false) == is_field(infos, name),
{
    if is_plain(infos, name) {
        let i = choose|i: int|
            0 <= i < infos.len() && #[trigger] named(infos[i], name) && infos[i].kind is Column;
        assert(infos[i].name == name);
    }
    if is_field(infos, name) {
        let i = choose|i: int| 0 <= i < infos.len() && #[trigger] named(infos[i], name);
        assert(infos[i].name == name);
    }
    if has_field(infos, name, true) {
        let i = choose|i: int|
            0 <= i < infos.len() && (#[trigger] infos[i]).name == name && infos[i].kind is Column;
        assert(named(infos[i], name));
    }
    if has_field(infos, name, false) {
        let i = choose|i: int| 0 <= i < infos.len() && (#[trigger] infos[i]).name == name;
        assert(named(infos[i], name));
    }
}

/// A column that an index names is refused if no plain column has its name; the message says
/// whether another field has it.
pub proof fn law_index_column(
    infos: Seq<FieldInfo<Chars>>,
    attr: usize,
    column: IndexColumn<Chars>,
)
    ensures
        column_fault(infos, attr, column) == if is_plain(infos, column.name) {
            None
        } else {
            Some(
                MacroError {
                    site: Site::AttrArg(attr, Spot::Token(column.token)),
                    message: if is_field(infos, column.name) {
                        "`"@ + column.name
                            + "` is a #[group] field; only plain column fields can be indexed"@
                    } else {
                        "unknown column `"@ + column.name
                            + "`; not a plain field of this struct"@
                    },
                },
            )
        },
        has_field(infos, column.name, true) == is_plain(infos, column.name),
{
    lemma_has_field(infos, column.name);
}

/// The columns before the first that is no plain column are not refused.
proof fn lemma_columns_first(
    infos: Seq<FieldInfo<Chars>>,
    attr: usize,
    columns: Seq<IndexColumn<Chars>>,
    at: int,
)
    requires
        0 <= at <= columns.len(),
        forall|j: int| 0 <= j < at ==> is_plain(infos, (#[trigger] columns[j]).name),
        at < columns.len() ==> !is_plain(infos, columns[at].name),
    ensures
        columns_fault(infos, attr, columns) == if at < columns.len() {
            column_fault(infos, attr, columns[at])
        } else {
            None
        },
    decreases columns.len(),
{
    if columns.len() > 0 {
        let front = columns.drop_last();
        let last = columns.last();
        assert(last == columns[columns.len() - 1]);
        law_index_column(infos, attr, last);
        if at < columns.len() {
            law_index_column(infos, attr, columns[at]);
        }
        assert forall|j: int| 0 <= j < at && j < front.len() implies is_plain(
            infos,
            (#[trigger] front[j]).name,
        ) by {
            assert(front[j] == columns[j]);
        }
        if at == columns.len() {
            assert(is_plain(infos, columns[columns.len() - 1].name));
            lemma_columns_first(infos, attr, front, at - 1);
        } else if at == columns.len() - 1 {
            lemma_columns_first(infos, attr, front, at);
        } else {
            assert(front[at] == columns[at]);
            lemma_columns_first(infos, attr, front, at);
        }
    }
}

/// Whether all columns of an index are plain columns of the table.
pub open spec fn sound(infos: Seq<FieldInfo<Chars>>, index: IndexView) -> bool {
    forall|j: int|
        0 <= j < index.columns.len() ==> is_plain(infos, (#[trigger] index.columns[j]).name)
}

/// Of all columns that the indexes of a table name, the first that is no plain column is refused:
/// the first in the first index that has one. If there is none, nothing is refused.
pub proof fn law_first_bad_column(
    infos: Seq<FieldInfo<Chars>>,
    indexes: Seq<IndexView>,
    a: int,
    b: int,
)
    requires
        0 <= a <= indexes.len(),
        forall|i: int| 0 <= i < a ==> sound(infos, #[trigger] indexes[i]),
        a < indexes.len() ==> 0 <= b < indexes[a].columns.len() && !is_plain(
            infos,
            indexes[a].columns[b].name,
        ) && forall|j: int|
            0 <= j < b ==> is_plain(infos, (#[trigger] indexes[a].columns[j]).name),
    ensures
        indexes_fault(infos, indexes) == if a < indexes.len() {
            column_fault(infos, indexes[a].attr, indexes[a].columns[b])
        } else {
            None
        },
    decreases indexes.len(),
{
    if indexes.len() > 0 {
        let front = indexes.drop_last();
        let last = indexes.last();
        assert(last == indexes[indexes.len() - 1]);
        if a < indexes.len() {
            law_index_column(infos, indexes[a].attr, indexes[a].columns[b]);
        }
        assert forall|i: int| 0 <= i < a && i < front.len() implies sound(
            infos,
            #[trigger] front[i],
        ) by {
            assert(front[i] == indexes[i]);
        }
        if a == indexes.len() {
            assert(sound(infos, indexes[indexes.len() - 1]));
            law_first_bad_column(infos, front, a - 1, b);
            lemma_columns_first(infos, last.attr, last.columns, last.columns.len() as int);
        } else if a == indexes.len() - 1 {
            law_first_bad_column(infos, front, a, b);
            lemma_columns_first(infos, last.attr, last.columns, b);
        } else {
            assert(front[a] == indexes[a]);
            law_first_bad_column(infos, front, a, b);
        }
    }
}

// ---------------------------------------------------------------------------
// Roles of fields
// ---------------------------------------------------------------------------

/// Whether an attribute has a path.
pub open spec fn has_path(attr: AttrView, path: Chars) -> bool {
    attr.path == path
}

/// Whether one of the attributes has a path.
pub open spec fn carries(attrs: Seq<AttrView>, path: Chars) -> bool {
    exists|i: int| 0 <= i < attrs.len() && #[trigger] has_path(attrs[i], path)
}

/// Whether the attribute at an index is the first with a path.
pub open spec fn is_first(attrs: Seq<AttrView>, at: int, path: Chars) -> bool {
    &&& 0 <= at < attrs.len()
    &&& has_path(attrs[at], path)
    &&& forall|i: int| 0 <= i < at ==> !#[trigger] has_path(attrs[i], path)
}

/// The index of the first attribute with a path, or the number of attributes if none has it.
pub proof fn law_first_attr(attrs: Seq<AttrView>, path: Chars)
    ensures
        is_first(attrs, first_attr(attrs, path) as int, path) || (first_attr(attrs, path)
            == attrs.len() && !carries(attrs, path)),
    decreases attrs.len(),
{
    if attrs.len() > 0 {
        if has_path(attrs[0], path) {
            assert(is_first(attrs, 0, path));
        } else {
            let rest = attrs.drop_first();
            law_first_attr(rest, path);
            let at = first_attr(rest, path) as int;
            if at < rest.len() {
                assert(has_path(attrs[at + 1], path)) by {
                    assert(rest[at] == attrs[at + 1]);
                }
                assert forall|i: int| 0 <= i < at + 1 implies !#[trigger] has_path(
                    attrs[i],
                    path,
                ) by {
                    if i > 0 {
                        assert(attrs[i] == rest[i - 1]);
                        assert(!has_path(rest[i - 1], path));
                    }
                }
            } else if carries(attrs, path) {
                let i = choose|i: int| 0 <= i < attrs.len() && #[trigger] has_path(attrs[i], path);
                assert(rest[i - 1] == attrs[i]);
                assert(has_path(rest[i - 1], path));
            }
        }
    }
}

/// There is only one first attribute with a path.
proof fn lemma_first_is(attrs: Seq<AttrView>, at: int, path: Chars)
    ensures
        is_first(attrs, at, path) ==> first_attr(attrs, path) == at,
        !carries(attrs, path) ==> first_attr(attrs, path) == attrs.len(),
{
    law_first_attr(attrs, path);
    let found = first_attr(attrs, path) as int;
    if is_first(attrs, at, path) {
        assert(has_path(attrs[at], path));
        if found < at {
            assert(has_path(attrs[found], path));
        }
    }
    if !carries(attrs, path) && found < attrs.len() {
        assert(has_path(attrs[found], path));
    }
}

/// A field as it is written with some of its attributes.
pub open spec fn written_field(field: FieldView, kept: Seq<Chars>) -> Chars {
    fill(
        FIELD@,
        seq![
            join(kept.map_values(|text: Chars| fill(ATTRIBUTE@, seq![text])), " "@),
            field.vis,
            field.name,
            field.ty,
        ],
    )
}

/// A field without an attribute of the library is a plain column. It keeps its name, its type and
/// all its attributes.
pub proof fn law_plain_field(
    i: int,
    field: FieldView,
    choice: Result<GroupArgs<Chars>, ArgError<Chars>>,
)
    requires
        !carries(field.attrs, "group"@),
        !carries(field.attrs, "primary_key"@),
        !carries(field.attrs, "unique"@),
    ensures
        classified(i, field, choice) == Ok::<FieldInfo<Chars>, MacroError<Chars>>(
            FieldInfo {
                name: field.name,
                kind: FieldKind::Column { primary_key: false, unique: false, ty: field.ty },
                code: written_field(field, attr_texts(field.attrs)),
            },
        ),
{
    lemma_first_is(field.attrs, 0, "group"@);
    lemma_first_is(field.attrs, 0, "primary_key"@);
    lemma_first_is(field.attrs, 0, "unique"@);
    law_texts_without(field.attrs, field.attrs.len() as int);
}

/// A field with `#[primary_key]`, or with `#[unique]`, and no other attribute of the library is a
/// column with that mark and no other. It loses the first attribute that gives the mark.
pub proof fn law_marked_field(
    i: int,
    field: FieldView,
    choice: Result<GroupArgs<Chars>, ArgError<Chars>>,
    at: int,
    unique: bool,
)
    requires
        !carries(field.attrs, "group"@),
        unique ==> is_first(field.attrs, at, "unique"@) && !carries(field.attrs, "primary_key"@),
        !unique ==> is_first(field.attrs, at, "primary_key"@) && !carries(field.attrs, "unique"@),
    ensures
        classified(i, field, choice) == Ok::<FieldInfo<Chars>, MacroError<Chars>>(
            FieldInfo {
                name: field.name,
                kind: FieldKind::Column { primary_key: !unique, unique, ty: field.ty },
                code: written_field(field, attr_texts(field.attrs).remove(at)),
            },
        ),
{
    lemma_first_is(field.attrs, at, "group"@);
    lemma_first_is(field.attrs, at, "primary_key"@);
    lemma_first_is(field.attrs, at, "unique"@);
    law_texts_without(field.attrs, at);
}

/// A field with `#[group]` and no other attribute of the library is a group: of its own type, or of
/// the type that it converts to. Its prefix is its name and an underscore. It loses the first
/// `#[group]`. An attribute with a value is refused, and so are arguments that are wrong.
pub proof fn law_group_field(
    i: int,
    field: FieldView,
    choice: Result<GroupArgs<Chars>, ArgError<Chars>>,
    at: int,
)
    requires
        is_first(field.attrs, at, "group"@),
        !carries(field.attrs, "primary_key"@),
        !carries(field.attrs, "unique"@),
    ensures
        classified(i, field, choice) == if field.attrs[at].form is NameValue {
            Err(
                MacroError {
                    site: Site::FieldAttr(i as usize, at as usize),
                    message: "unexpected attribute form"@,
                },
            )
        } else {
            match choice {
                Err(error) => Err(
                    MacroError {
                        site: Site::FieldAttrArg(i as usize, at as usize, error.spot),
                        message: error.message,
                    },
                ),
                Ok(GroupArgs::Plain) => Ok(
                    FieldInfo {
                        name: field.name,
                        kind: FieldKind::Group { ty: field.ty, prefix: field.name + "_"@ },
                        code: written_field(field, attr_texts(field.attrs).remove(at)),
                    },
                ),
                Ok(GroupArgs::Via(raw_ty)) => Ok::<FieldInfo<Chars>, MacroError<Chars>>(
                    FieldInfo {
                        name: field.name,
                        kind: FieldKind::Via {
                            raw_ty,
                            field_ty: field.ty,
                            prefix: field.name + "_"@,
                        },
                        code: written_field(field, attr_texts(field.attrs).remove(at)),
                    },
                ),
            }
        },
{
    lemma_first_is(field.attrs, at, "group"@);
    lemma_first_is(field.attrs, at, "primary_key"@);
    lemma_first_is(field.attrs, at, "unique"@);
    law_texts_without(field.attrs, at);
}

/// A field with two roles is refused at the first attribute of the second: `#[primary_key]` or
/// `#[unique]` on a group, and `#[unique]` on a part of the primary key.
pub proof fn law_field_conflict(
    i: int,
    field: FieldView,
    choice: Result<GroupArgs<Chars>, ArgError<Chars>>,
    at: int,
)
    ensures
        carries(field.attrs, "group"@) && is_first(field.attrs, at, "primary_key"@) ==> classified(
            i,
            field,
            choice,
        ) == Err::<FieldInfo<Chars>, MacroError<Chars>>(
            MacroError {
                site: Site::FieldAttr(i as usize, at as usize),
                message: "a field cannot be both #[group] and #[primary_key]"@,
            },
        ),
        carries(field.attrs, "group"@) && !carries(field.attrs, "primary_key"@) && is_first(
            field.attrs,
            at,
            "unique"@,
        ) ==> classified(i, field, choice) == Err::<FieldInfo<Chars>, MacroError<Chars>>(
            MacroError {
                site: Site::FieldAttr(i as usize, at as usize),
                message: "a field cannot be both #[group] and #[unique]"@,
            },
        ),
        !carries(field.attrs, "group"@) && carries(field.attrs, "primary_key"@) && is_first(
            field.attrs,
            at,
            "unique"@,
        ) ==> classified(i, field, choice) == Err::<FieldInfo<Chars>, MacroError<Chars>>(
            MacroError {
                site: Site::FieldAttr(i as usize, at as usize),
                message: "a field cannot be both #[primary_key] and #[unique]"@,
            },
        ),
{
    lemma_first_is(field.attrs, at, "group"@);
    lemma_first_is(field.attrs, at, "primary_key"@);
    lemma_first_is(field.attrs, at, "unique"@);
    law_first_attr(field.attrs, "group"@);
    law_first_attr(field.attrs, "primary_key"@);
    law_first_attr(field.attrs, "unique"@);
}

/// The arguments of a group field are those of its first `#[group]`; one without arguments has its
/// own type as the group.
pub proof fn law_group_choice(field: FieldView, at: int)
    ensures
        is_first(field.attrs, at, "group"@) ==> group_choice(field) == match field.attrs[at].form {
            AttrForm::List(tokens) => group_args(tokens),
            _ => Ok::<GroupArgs<Chars>, ArgError<Chars>>(GroupArgs::Plain),
        },
        !carries(field.attrs, "group"@) ==> group_choice(field) == Ok::<
            GroupArgs<Chars>,
            ArgError<Chars>,
        >(GroupArgs::Plain),
{
    lemma_first_is(field.attrs, at, "group"@);
}

/// Outcomes without an error are all taken, in their order; otherwise the first error is.
pub proof fn law_all_ok<T, E>(items: Seq<Result<T, E>>, at: int)
    requires
        0 <= at <= items.len(),
        forall|i: int| 0 <= i < at ==> (#[trigger] items[i]) is Ok,
        at < items.len() ==> items[at] is Err,
    ensures
        at < items.len() ==> all_ok(items) == Err::<Seq<T>, E>(items[at]->Err_0),
        at == items.len() ==> all_ok(items) is Ok && all_ok(items)->Ok_0.len() == items.len()
            && forall|i: int|
            0 <= i < items.len() ==> (#[trigger] items[i]) == Ok::<T, E>(all_ok(items)->Ok_0[i]),
    decreases items.len(),
{
    if at < items.len() {
        let part = items.take(at + 1);
        let front = items.take(at);
        assert(part.drop_last() =~= front);
        assert forall|i: int| 0 <= i < at implies (#[trigger] front[i]) is Ok by {
            assert(front[i] == items[i]);
        }
        lemma_front_ok(front);
        assert(part.last() == items[at]);
        lemma_all_ok_error(items, at + 1);
    } else {
        lemma_front_ok(items);
        lemma_all_ok_values(items);
    }
}

/// Outcomes without an error are taken.
proof fn lemma_front_ok<T, E>(items: Seq<Result<T, E>>)
    requires
        forall|i: int| 0 <= i < items.len() ==> (#[trigger] items[i]) is Ok,
    ensures
        all_ok(items) is Ok,
    decreases items.len(),
{
    if items.len() > 0 {
        assert forall|i: int| 0 <= i < items.drop_last().len() implies (
        #[trigger] items.drop_last()[i]) is Ok by {
            assert(items.drop_last()[i] == items[i]);
        }
        lemma_front_ok(items.drop_last());
        assert(items.last() == items[items.len() - 1]);
    }
}

/// The roles of the fields of a struct are those of each field, in their order; otherwise the first
/// field that is refused decides.
pub proof fn law_field_infos(fields: Seq<FieldView>, at: int)
    requires
        0 <= at <= fields.len(),
        forall|i: int|
            0 <= i < at ==> classified(i, #[trigger] fields[i], group_choice(fields[i])) is Ok,
        at < fields.len() ==> classified(at, fields[at], group_choice(fields[at])) is Err,
    ensures
        at < fields.len() ==> field_infos(fields) == Err::<
            Seq<FieldInfo<Chars>>,
            MacroError<Chars>,
        >(classified(at, fields[at], group_choice(fields[at]))->Err_0),
        at == fields.len() ==> field_infos(fields) is Ok && field_infos(fields)->Ok_0.len()
            == fields.len() && forall|i: int|
            0 <= i < fields.len() ==> classified(i, #[trigger] fields[i], group_choice(fields[i]))
                == Ok::<FieldInfo<Chars>, MacroError<Chars>>(field_infos(fields)->Ok_0[i]),
{
    let roles = Seq::new(
        fields.len(),
        |i: int| classified(i, fields[i], group_choice(fields[i])),
    );
    assert forall|i: int| 0 <= i < at implies (#[trigger] roles[i]) is Ok by {
        assert(classified(i, fields[i], group_choice(fields[i])) is Ok);
    }
    law_all_ok(roles, at);
    if at == fields.len() {
        assert forall|i: int| 0 <= i < fields.len() implies classified(
            i,
            #[trigger] fields[i],
            group_choice(fields[i]),
        ) == Ok::<FieldInfo<Chars>, MacroError<Chars>>(field_infos(fields)->Ok_0[i]) by {
            assert(roles[i] == Ok::<FieldInfo<Chars>, MacroError<Chars>>(
                all_ok(roles)->Ok_0[i],
            ));
        }
    }
}

// ---------------------------------------------------------------------------
// Attributes of structs
// ---------------------------------------------------------------------------

/// Whether an index is what an attribute declares.
pub open spec fn declared_by(index: IndexView, attrs: Seq<AttrView>) -> bool {
    &&& index.attr < attrs.len()
    &&& attrs[index.attr as int].path == "index"@
    &&& attrs[index.attr as int].form matches AttrForm::List(tokens) && index_args(tokens) == Ok::<
        IndexArgs<Seq<IndexColumn<Chars>>>,
        ArgError<Chars>,
    >(IndexArgs { columns: index.columns, unique: index.unique })
}

/// Each index of a table is what one `#[index]` on its struct declares, with its columns and
/// whether it is unique, in the order of the attributes.
pub proof fn law_indexes(attrs: Seq<AttrView>)
    requires
        attrs.len() <= usize::MAX,
        table_attrs(attrs) is Ok,
    ensures
        forall|k: int|
            0 <= k < table_attrs(attrs)->Ok_0.indexes.len() ==> declared_by(
                #[trigger] table_attrs(attrs)->Ok_0.indexes[k],
                attrs,
            ),
        forall|j: int, k: int|
            0 <= j < k < table_attrs(attrs)->Ok_0.indexes.len() ==> (#[trigger] table_attrs(
                attrs,
            )->Ok_0.indexes[j]).attr < (#[trigger] table_attrs(attrs)->Ok_0.indexes[k]).attr,
    decreases attrs.len(),
{
    if attrs.len() > 0 {
        let front = attrs.drop_last();
        law_indexes(front);
        let before = table_attrs(front)->Ok_0.indexes;
        let all = table_attrs(attrs)->Ok_0.indexes;
        assert forall|k: int| 0 <= k < before.len() implies #[trigger] all[k] == before[k] by {}
        assert forall|k: int| 0 <= k < all.len() implies declared_by(#[trigger] all[k], attrs) by {
            if k < before.len() {
                assert(all[k] == before[k]);
                assert(declared_by(before[k], front));
                assert(front[before[k].attr as int] == attrs[before[k].attr as int]);
            } else {
                assert(attrs[attrs.len() - 1] == attrs.last());
            }
        }
        assert forall|j: int, k: int| 0 <= j < k < all.len() implies (#[trigger] all[j]).attr < (
        #[trigger] all[k]).attr by {
            assert(all[j] == before[j]);
            assert(declared_by(before[j], front));
            if k < before.len() {
                assert(all[k] == before[k]);
            }
        }
    }
}

/// What a wrong `#[index]` behind attributes without a fault is told.
pub proof fn law_index_refusals(front: Seq<AttrView>, attr: AttrView)
    requires
        table_attrs(front) is Ok,
        attr.path == "index"@,
    ensures
        attr.form is Path ==> table_attrs(front.push(attr)) == Err::<
            TableAttrsView,
            MacroError<Chars>,
        >(
            MacroError {
                site: Site::Attr(front.len() as usize),
                message: "expected attribute arguments in parentheses: #[index(...)]"@,
            },
        ),
        attr.form is NameValue ==> table_attrs(front.push(attr)) == Err::<
            TableAttrsView,
            MacroError<Chars>,
        >(
            MacroError {
                site: Site::Attr(front.len() as usize),
                message: "expected parentheses: #[index(...)]"@,
            },
        ),
        attr.form matches AttrForm::List(tokens) ==> (index_args(tokens) matches Err(error)
            ==> table_attrs(front.push(attr)) == Err::<
            TableAttrsView,
            MacroError<Chars>,
        >(
            MacroError {
                site: Site::AttrArg(front.len() as usize, error.spot),
                message: error.message,
            },
        )),
        attr.form matches AttrForm::List(tokens) ==> index_args(tokens) is Ok ==> table_attrs(
            front.push(attr),
        ) is Ok,
{
    assert(front.push(attr).drop_last() =~= front);
}

/// An attribute that is no `#[index]` is never refused, and attributes behind one that is refused
/// change nothing.
pub proof fn law_attrs_refused_first(front: Seq<AttrView>, attr: AttrView)
    ensures
        table_attrs(Seq::<AttrView>::empty()) is Ok,
        table_attrs(front) is Ok && attr.path != "index"@ ==> table_attrs(front.push(attr)) is Ok,
        table_attrs(front) is Err ==> table_attrs(front.push(attr)) == table_attrs(front),
{
    assert(front.push(attr).drop_last() =~= front);
}

} // verus!

//! The rules that the fields, flags and indexes of a table keep.
use crate::args::{IndexColumn, TableArgs};
use crate::error::{fail, failure, MacroError, Site, Spot};
use crate::fields::{FieldInfo, FieldKind, IndexData, IndexView};
use crate::syntax::Chars;
use crate::text::{lemma_views_push, same, views};
use vstd::prelude::*;

verus! {

// ---------------------------------------------------------------------------
// Keys
// ---------------------------------------------------------------------------

/// A column that identifies a row.
pub struct Key<S> {
    pub name: S,
    pub ty: S,
    /// The index of the field.
    pub field: usize,
}

impl View for Key<String> {
    type V = Key<Chars>;

    open spec fn view(&self) -> Key<Chars> {
        Key { name: self.name@, ty: self.ty@, field: self.field }
    }
}

/// Whether a field is a column marked `#[unique]`, or else one marked `#[primary_key]`.
pub open spec fn is_key(info: FieldInfo<Chars>, unique: bool) -> bool {
    match info.kind {
        FieldKind::Column { primary_key, unique: marked, .. } => if unique {
            marked
        } else {
            primary_key
        },
        _ => false,
    }
}

/// The type of a column.
pub open spec fn column_ty(info: FieldInfo<Chars>) -> Chars {
    match info.kind {
        FieldKind::Column { ty, .. } => ty,
        FieldKind::Group { ty, .. } => ty,
        FieldKind::Via { field_ty, .. } => field_ty,
    }
}

/// The columns marked `#[unique]`, or else those marked `#[primary_key]`, in their order.
pub open spec fn keys(infos: Seq<FieldInfo<Chars>>, unique: bool) -> Seq<Key<Chars>>
    decreases infos.len(),
{
    if infos.len() == 0 {
        Seq::empty()
    } else {
        let front = keys(infos.drop_last(), unique);
        let last = infos.last();
        if is_key(last, unique) {
            front.push(
                Key { name: last.name, ty: column_ty(last), field: (infos.len() - 1) as usize },
            )
        } else {
            front
        }
    }
}

/// Collects the columns marked `#[unique]`, or else those marked `#[primary_key]`.
pub fn collect_keys(infos: &Vec<FieldInfo<String>>, unique: bool) -> (r: Vec<Key<String>>)
    ensures
        views(r@) == keys(views(infos@), unique),
{
    let mut r: Vec<Key<String>> = Vec::new();
    let mut i: usize = 0;
    assert(views(r@) =~= Seq::empty());
    while i < infos.len()
        invariant
            i <= infos@.len(),
            views(r@) == keys(views(infos@).take(i as int), unique),
        decreases infos.len() - i,
    {
        let ghost part = views(infos@).take(i + 1);
        assert(part.drop_last() =~= views(infos@).take(i as int));
        assert(part.last() == infos@[i as int]@);
        match &infos[i].kind {
            FieldKind::Column { primary_key, unique: marked, ty } => {
                if (unique && *marked) || (!unique && *primary_key) {
                    let key = Key { name: infos[i].name.clone(), ty: ty.clone(), field: i };
                    proof {
                        lemma_views_push(r@, key);
                    }
                    r.push(key);
                }
            },
            _ => {},
        }
        i += 1;
    }
    assert(views(infos@).take(i as int) =~= views(infos@));
    r
}

/// The names of keys.
pub open spec fn key_names(keys: Seq<Key<Chars>>) -> Seq<Chars> {
    keys.map_values(|key: Key<Chars>| key.name)
}

/// Copies the names of keys.
pub fn copy_names(keys: &Vec<Key<String>>) -> (r: Vec<String>)
    ensures
        views(r@) == key_names(views(keys@)),
{
    let mut r: Vec<String> = Vec::new();
    let mut i: usize = 0;
    while i < keys.len()
        invariant
            i <= keys@.len(),
            r@.len() == i,
            forall|k: int| 0 <= k < i ==> (#[trigger] r@[k])@ == keys@[k]@.name,
        decreases keys.len() - i,
    {
        r.push(keys[i].name.clone());
        i += 1;
    }
    assert(views(r@) =~= key_names(views(keys@)));
    r
}

// ---------------------------------------------------------------------------
// Keys and flags
// ---------------------------------------------------------------------------

/// The rule on keys and flags that a table breaks, if any.
pub open spec fn key_fault(args: TableArgs<Chars>, infos: Seq<FieldInfo<Chars>>) -> Option<
    MacroError<Chars>,
> {
    let primary = keys(infos, false);
    let unique = keys(infos, true);
    if args.auto_primary_key && primary.len() > 0 {
        Some(
            failure(
                Site::ItemName,
                "`auto_primary_key` and `#[primary_key]` cannot both be used on the same table"@,
            ),
        )
    } else if unique.len() > 0 && !args.auto_primary_key {
        Some(
            failure(
                Site::Field(unique[0].field),
                "`#[unique]` requires `auto_primary_key` on the table"@,
            ),
        )
    } else if args.track_last_update && primary.len() == 0 && unique.len() == 0 {
        Some(
            failure(
                Site::ItemName,
                "`track_last_update` requires either a `#[primary_key]` field or `auto_primary_key` with at least one `#[unique]` field"@,
            ),
        )
    } else {
        None
    }
}

/// Checks the rules on keys and flags.
pub fn check_keys(args: &TableArgs<String>, infos: &Vec<FieldInfo<String>>) -> (r: Option<
    MacroError<String>,
>)
    ensures
        r is None <==> key_fault(args@, views(infos@)) is None,
        r matches Some(error) ==> key_fault(args@, views(infos@)) == Some(error@),
{
    let primary = collect_keys(infos, false);
    let unique = collect_keys(infos, true);
    assert(views(primary@).len() == primary@.len());
    assert(views(unique@).len() == unique@.len());
    if args.auto_primary_key && primary.len() > 0 {
        return Some(
            fail(
                Site::ItemName,
                "`auto_primary_key` and `#[primary_key]` cannot both be used on the same table",
            ),
        );
    }
    if unique.len() > 0 && !args.auto_primary_key {
        assert(views(unique@)[0] == unique@[0]@);
        return Some(
            fail(
                Site::Field(unique[0].field),
                "`#[unique]` requires `auto_primary_key` on the table",
            ),
        );
    }
    if args.track_last_update && primary.len() == 0 && unique.len() == 0 {
        return Some(
            fail(
                Site::ItemName,
                "`track_last_update` requires either a `#[primary_key]` field or `auto_primary_key` with at least one `#[unique]` field",
            ),
        );
    }
    None
}

// ---------------------------------------------------------------------------
// Indexes
// ---------------------------------------------------------------------------

/// Whether a field with a name exists and, if asked for, is a plain column.
pub open spec fn has_field(infos: Seq<FieldInfo<Chars>>, name: Chars, plain: bool) -> bool {
    exists|i: int|
        0 <= i < infos.len() && (#[trigger] infos[i]).name == name && (plain
            ==> infos[i].kind is Column)
}

/// Looks for a field with a name that, if asked for, is a plain column.
fn find_field(infos: &Vec<FieldInfo<String>>, name: &str, plain: bool) -> (r: bool)
    ensures
        r == has_field(views(infos@), name@, plain),
{
    let mut i: usize = 0;
    while i < infos.len()
        invariant
            i <= infos@.len(),
            forall|k: int|
                0 <= k < i ==> !((#[trigger] infos@[k])@.name == name@ && (plain
                    ==> infos@[k]@.kind is Column)),
        decreases infos.len() - i,
    {
        let column = match infos[i].kind {
            FieldKind::Column { .. } => true,
            _ => false,
        };
        if same(infos[i].name.as_str(), name) && (!plain || column) {
            assert(views(infos@)[i as int] == infos@[i as int]@);
            return true;
        }
        i += 1;
    }
    assert(!has_field(views(infos@), name@, plain)) by {
        if has_field(views(infos@), name@, plain) {
            let k = choose|k: int|
                0 <= k < infos@.len() && (#[trigger] views(infos@)[k]).name == name@ && (plain
                    ==> views(infos@)[k].kind is Column);
            assert(views(infos@)[k] == infos@[k]@);
        }
    }
    false
}

/// What is wrong with a column of an index: only plain columns can be indexed.
pub open spec fn column_fault(
    infos: Seq<FieldInfo<Chars>>,
    attr: usize,
    column: IndexColumn<Chars>,
) -> Option<MacroError<Chars>> {
    let site = Site::AttrArg(attr, Spot::Token(column.token));
    if has_field(infos, column.name, true) {
        None
    } else if has_field(infos, column.name, false) {
        Some(
            failure(
                site,
                "`"@ + column.name
                    + "` is a #[group] field; only plain column fields can be indexed"@,
            ),
        )
    } else {
        Some(
            failure(
                site,
                "unknown column `"@ + column.name + "`; not a plain field of this struct"@,
            ),
        )
    }
}

/// The first thing that is wrong with the columns of an index.
pub open spec fn columns_fault(
    infos: Seq<FieldInfo<Chars>>,
    attr: usize,
    columns: Seq<IndexColumn<Chars>>,
) -> Option<MacroError<Chars>>
    decreases columns.len(),
{
    if columns.len() == 0 {
        None
    } else {
        match columns_fault(infos, attr, columns.drop_last()) {
            Some(error) => Some(error),
            None => column_fault(infos, attr, columns.last()),
        }
    }
}

/// The first thing that is wrong with indexes.
pub open spec fn indexes_fault(infos: Seq<FieldInfo<Chars>>, indexes: Seq<IndexView>) -> Option<
    MacroError<Chars>,
>
    decreases indexes.len(),
{
    if indexes.len() == 0 {
        None
    } else {
        match indexes_fault(infos, indexes.drop_last()) {
            Some(error) => Some(error),
            None => columns_fault(infos, indexes.last().attr, indexes.last().columns),
        }
    }
}

/// A fault in a part of the columns is the first of the whole.
proof fn lemma_columns_fault(
    infos: Seq<FieldInfo<Chars>>,
    attr: usize,
    columns: Seq<IndexColumn<Chars>>,
    part: int,
)
    requires
        0 <= part <= columns.len(),
        columns_fault(infos, attr, columns.take(part)) is Some,
    ensures
        columns_fault(infos, attr, columns) == columns_fault(infos, attr, columns.take(part)),
    decreases columns.len() - part,
{
    if part < columns.len() {
        assert(columns.take(part + 1).drop_last() =~= columns.take(part));
        lemma_columns_fault(infos, attr, columns, part + 1);
    } else {
        assert(columns.take(part) =~= columns);
    }
}

/// A fault in a part of the indexes is the first of the whole.
proof fn lemma_indexes_fault(infos: Seq<FieldInfo<Chars>>, indexes: Seq<IndexView>, part: int)
    requires
        0 <= part <= indexes.len(),
        indexes_fault(infos, indexes.take(part)) is Some,
    ensures
        indexes_fault(infos, indexes) == indexes_fault(infos, indexes.take(part)),
    decreases indexes.len() - part,
{
    if part < indexes.len() {
        assert(indexes.take(part + 1).drop_last() =~= indexes.take(part));
        lemma_indexes_fault(infos, indexes, part + 1);
    } else {
        assert(indexes.take(part) =~= indexes);
    }
}

/// Checks a column of an index.
fn check_column(
    infos: &Vec<FieldInfo<String>>,
    attr: usize,
    column: &IndexColumn<String>,
) -> (r: Option<MacroError<String>>)
    ensures
        r is None <==> column_fault(views(infos@), attr, column@) is None,
        r matches Some(error) ==> column_fault(views(infos@), attr, column@) == Some(error@),
{
    let site = Site::AttrArg(attr, Spot::Token(column.token));
    if find_field(infos, column.name.as_str(), true) {
        None
    } else if find_field(infos, column.name.as_str(), false) {
        let mut message = "`".to_owned();
        message.append(column.name.as_str());
        message.append("` is a #[group] field; only plain column fields can be indexed");
        Some(MacroError { site, message })
    } else {
        let mut message = "unknown column `".to_owned();
        message.append(column.name.as_str());
        message.append("`; not a plain field of this struct");
        Some(MacroError { site, message })
    }
}

/// Checks the columns of an index.
fn check_columns(infos: &Vec<FieldInfo<String>>, index: &IndexData) -> (r: Option<
    MacroError<String>,
>)
    ensures
        r is None <==> columns_fault(views(infos@), index@.attr, index@.columns) is None,
        r matches Some(error) ==> columns_fault(views(infos@), index@.attr, index@.columns) == Some(
            error@,
        ),
{
    let ghost all = views(index.columns@);
    let mut i: usize = 0;
    while i < index.columns.len()
        invariant
            all == views(index.columns@),
            i <= index.columns@.len(),
            columns_fault(views(infos@), index.attr, all.take(i as int)) is None,
        decreases index.columns.len() - i,
    {
        assert(all.take(i + 1).drop_last() =~= all.take(i as int));
        assert(all.take(i + 1).last() == index.columns@[i as int]@);
        match check_column(infos, index.attr, &index.columns[i]) {
            Some(error) => {
                proof {
                    lemma_columns_fault(views(infos@), index.attr, all, i + 1);
                }
                return Some(error);
            },
            None => {},
        }
        i += 1;
    }
    assert(all.take(i as int) =~= all);
    None
}

/// Checks indexes.
pub fn check_indexes(infos: &Vec<FieldInfo<String>>, indexes: &Vec<IndexData>) -> (r: Option<
    MacroError<String>,
>)
    ensures
        r is None <==> indexes_fault(views(infos@), views(indexes@)) is None,
        r matches Some(error) ==> indexes_fault(views(infos@), views(indexes@)) == Some(error@),
{
    let ghost all = views(indexes@);
    let mut i: usize = 0;
    while i < indexes.len()
        invariant
            all == views(indexes@),
            i <= indexes@.len(),
            indexes_fault(views(infos@), all.take(i as int)) is None,
        decreases indexes.len() - i,
    {
        assert(all.take(i + 1).drop_last() =~= all.take(i as int));
        assert(all.take(i + 1).last() == indexes@[i as int]@);
        match check_columns(infos, &indexes[i]) {
            Some(error) => {
                proof {
                    lemma_indexes_fault(views(infos@), all, i + 1);
                }
                return Some(error);
            },
            None => {},
        }
        i += 1;
    }
    assert(all.take(i as int) =~= all);
    None
}

} // verus!

//! Decoding of flat records: an object of a document becomes the row of
//! cells that a field list declares.
//!
//! A member is looked up by the field's key. A member that the list does not
//! declare is passed over. A field whose member is absent or `null` is
//! missing, which only a field that is not required may be. A present member
//! must hold a value of the field's kind: a truth value, an integer of 32
//! bits, any number, or a text.

use crate::json::{Json, Member, find_member, lookup};
use crate::schema::{Field, cell_fits, row_fits, rows_fit};
use crate::table::{Cell, CellModel, ColumnKind, cells_model, rows_model};
use vstd::prelude::*;

verus! {

/// The cell that a present value makes in a column of the given kind, if it
/// is of that kind.
pub open spec fn scalar_of(value: Json, kind: ColumnKind) -> Option<CellModel> {
    match (kind, value) {
        (ColumnKind::Logical, Json::Bool(b)) => Some(CellModel::Logical(b)),
        (ColumnKind::Integer, Json::Number(n)) => match n.integer {
            Some(i) => if i32::MIN <= i <= i32::MAX {
                Some(CellModel::Integer(i as i32))
            } else {
                None
            },
            None => None,
        },
        (ColumnKind::Double, Json::Number(n)) => match n.double_bits {
            Some(bits) => Some(CellModel::Double(bits)),
            None => None,
        },
        (ColumnKind::Text, Json::Text(s)) => Some(CellModel::Text(s@)),
        _ => None,
    }
}

/// The cell that an object's members make for a field, if they allow one.
pub open spec fn field_of(members: Seq<Member>, field: Field) -> Option<CellModel> {
    match lookup(members, field.key@) {
        None | Some(Json::Null) => if field.required {
            None
        } else {
            Some(CellModel::Missing)
        },
        Some(value) => scalar_of(value, field.kind),
    }
}

/// The row that a value makes for a field list: the value is an object whose
/// members allow a cell for every field.
pub open spec fn record_of(json: Json, fields: Seq<Field>) -> Option<Seq<CellModel>> {
    match json {
        Json::Object(members) => if forall|j: int|
            0 <= j < fields.len() ==> field_of(members@, #[trigger] fields[j]) is Some {
            Some(Seq::new(fields.len(), |j: int| field_of(members@, fields[j]).unwrap()))
        } else {
            None
        },
        _ => None,
    }
}

/// The rows that a value makes for a field list: the value is an array
/// whose items each make a row.
pub open spec fn records_of(json: Json, fields: Seq<Field>) -> Option<Seq<Seq<CellModel>>> {
    match json {
        Json::Array(items) => if forall|i: int|
            0 <= i < items@.len() ==> record_of(#[trigger] items@[i], fields) is Some {
            Some(Seq::new(items@.len(), |i: int| record_of(items@[i], fields).unwrap()))
        } else {
            None
        },
        _ => None,
    }
}

/// A decoded cell suits its field, where the field is of a scalar kind.
pub proof fn decoded_cell_fits(members: Seq<Member>, field: Field)
    requires
        field_of(members, field) is Some,
    ensures
        cell_fits(field_of(members, field).unwrap(), field),
{
}

/// A decoded row suits its field list.
pub proof fn decoded_row_fits(json: Json, fields: Seq<Field>)
    requires
        record_of(json, fields) is Some,
    ensures
        row_fits(record_of(json, fields).unwrap(), fields),
{
    let row = record_of(json, fields).unwrap();
    let members = json->Object_0@;
    assert forall|j: int| 0 <= j < fields.len() implies cell_fits(#[trigger] row[j], fields[j]) by {
        assert(field_of(members, fields[j]) is Some);
        decoded_cell_fits(members, fields[j]);
    }
}

/// Decoded rows suit their field list.
pub proof fn decoded_rows_fit(json: Json, fields: Seq<Field>)
    requires
        records_of(json, fields) is Some,
    ensures
        rows_fit(records_of(json, fields).unwrap(), fields),
{
    let rows = records_of(json, fields).unwrap();
    let items = json->Array_0@;
    assert forall|i: int| 0 <= i < rows.len() implies row_fits(#[trigger] rows[i], fields) by {
        assert(record_of(items[i], fields) is Some);
        decoded_row_fits(items[i], fields);
    }
}

/// Makes the cell of a present value for a column of the given kind.
pub fn decode_scalar(value: &Json, kind: ColumnKind) -> (r: Option<Cell>)
    ensures
        match r {
            Some(cell) => scalar_of(*value, kind) == Some(cell@),
            None => scalar_of(*value, kind) is None,
        },
{
    match kind {
        ColumnKind::Logical => match value {
            Json::Bool(b) => Some(Cell::Logical(*b)),
            _ => None,
        },
        ColumnKind::Integer => match value {
            Json::Number(n) => match n.integer {
                Some(i) => if i >= -2147483648 && i <= 2147483647 {
                    Some(Cell::Integer(i as i32))
                } else {
                    None
                },
                None => None,
            },
            _ => None,
        },
        ColumnKind::Double => match value {
            Json::Number(n) => match n.double_bits {
                Some(bits) => Some(Cell::Double(bits)),
                None => None,
            },
            _ => None,
        },
        ColumnKind::Text => match value {
            Json::Text(s) => Some(Cell::Text(s.clone())),
            _ => None,
        },
        ColumnKind::Nested => None,
    }
}

/// Makes the cell of a field from the members of an object.
pub fn decode_field(members: &Vec<Member>, field: &Field) -> (r: Option<Cell>)
    ensures
        match r {
            Some(cell) => field_of(members@, *field) == Some(cell@),
            None => field_of(members@, *field) is None,
        },
{
    match find_member(members, field.key) {
        None => if field.required {
            None
        } else {
            Some(Cell::Missing)
        },
        Some(value) => match value {
            Json::Null => if field.required {
                None
            } else {
                Some(Cell::Missing)
            },
            _ => decode_scalar(value, field.kind),
        },
    }
}

/// Decodes one flat record: the row of cells that the field list declares,
/// or `None` where the value is no object or a field does not allow a cell.
pub fn decode_record(json: &Json, fields: &Vec<Field>) -> (r: Option<Vec<Cell>>)
    ensures
        match r {
            Some(cells) => record_of(*json, fields@) == Some(cells_model(cells@)),
            None => record_of(*json, fields@) is None,
        },
{
    match json {
        Json::Object(members) => {
            let mut cells: Vec<Cell> = Vec::new();
            let mut j: usize = 0;
            while j < fields.len()
                invariant
                    *json == Json::Object(*members),
                    j <= fields@.len(),
                    cells@.len() == j,
                    forall|k: int|
                        0 <= k < j ==> field_of(members@, #[trigger] fields@[k]) == Some(cells@[k]@),
                decreases fields@.len() - j,
            {
                match decode_field(members, &fields[j]) {
                    Some(cell) => {
                        cells.push(cell);
                    },
                    None => {
                        assert(field_of(members@, fields@[j as int]) is None);
                        return None;
                    },
                }
                j += 1;
            }
            proof {
                assert(record_of(*json, fields@).unwrap() =~= cells_model(cells@));
            }
            Some(cells)
        },
        _ => None,
    }
}

/// Decodes an array of flat records, in order, or `None` where the value is
/// no array or an item is no record of the field list.
pub fn decode_records(json: &Json, fields: &Vec<Field>) -> (r: Option<Vec<Vec<Cell>>>)
    ensures
        match r {
            Some(rows) => records_of(*json, fields@) == Some(rows_model(rows@)),
            None => records_of(*json, fields@) is None,
        },
{
    match json {
        Json::Array(items) => {
            let mut rows: Vec<Vec<Cell>> = Vec::new();
            let mut i: usize = 0;
            while i < items.len()
                invariant
                    *json == Json::Array(*items),
                    i <= items@.len(),
                    rows@.len() == i,
                    forall|k: int|
                        0 <= k < i ==> record_of(#[trigger] items@[k], fields@) == Some(
                            cells_model(rows@[k]@),
                        ),
                decreases items@.len() - i,
            {
                match decode_record(&items[i], fields) {
                    Some(row) => {
                        rows.push(row);
                    },
                    None => {
                        assert(record_of(items@[i as int], fields@) is None);
                        return None;
                    },
                }
                i += 1;
            }
            proof {
                assert(records_of(*json, fields@).unwrap() =~= rows_model(rows@));
            }
            Some(rows)
        },
        _ => None,
    }
}

/// The text that an object holds under a key, where it holds one.
pub open spec fn text_member(json: Json, key: Seq<char>) -> Option<Seq<char>> {
    match json.member(key) {
        Some(Json::Text(s)) => Some(s@),
        _ => None,
    }
}

/// Reads the text that an object holds under a key.
pub fn decode_text(json: &Json, key: &str) -> (r: Option<String>)
    ensures
        match r {
            Some(text) => text_member(*json, key@) == Some(text@),
            None => text_member(*json, key@) is None,
        },
{
    match json.get(key) {
        Some(Json::Text(s)) => Some(s.clone()),
        _ => None,
    }
}

/// What the items of an array decode to, in order, where every item
/// decodes.
pub open spec fn all_of<T>(items: Seq<Json>, decode: spec_fn(Json) -> Option<T>) -> Option<Seq<T>> {
    if forall|i: int| 0 <= i < items.len() ==> decode(#[trigger] items[i]) is Some {
        Some(Seq::new(items.len(), |i: int| decode(items[i]).unwrap()))
    } else {
        None
    }
}

/// The integer of 32 bits that a value is, where it is one.
pub open spec fn integer_of(json: Json) -> Option<i32> {
    match scalar_of(json, ColumnKind::Integer) {
        Some(CellModel::Integer(i)) => Some(i),
        _ => None,
    }
}

/// Reads a value as an integer of 32 bits.
pub fn decode_integer(json: &Json) -> (r: Option<i32>)
    ensures
        r == integer_of(*json),
{
    match decode_scalar(json, ColumnKind::Integer) {
        Some(Cell::Integer(i)) => Some(i),
        _ => None,
    }
}

/// What an object holds under a key that it need not have: nothing where
/// the member is absent or `null`, and otherwise what the member decodes to.
/// A member that is present and does not decode makes the whole fail.
pub open spec fn optional_of<T>(json: Json, key: Seq<char>, decode: spec_fn(Json) -> Option<T>) -> Option<
    Option<T>,
> {
    match json.member(key) {
        None | Some(Json::Null) => Some(None),
        Some(value) => match decode(value) {
            Some(decoded) => Some(Some(decoded)),
            None => None,
        },
    }
}

} // verus!

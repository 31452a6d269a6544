//! Reference vocabularies: flat lists of codes and names, one kind of list
//! for each tag.
//!
//! A reference document is an object that holds the list under the tag as
//! its key. A tag that names no vocabulary is not an error: it gives the
//! table without rows and without columns, and the document is not looked
//! at. For a tag that names one, a document that is not JSON or does not
//! hold the list is refused, as the documents of the other transforms are.

use crate::builder::{table_from_rows, table_of, table_of_is_well_formed};
use crate::decode::{decode_records, decoded_rows_fit, records_of};
use crate::error::{Cause, TransformError};
use crate::json::{Json, parse_document, parsed_document};
use crate::prune::{drop_empty_columns, pruning_keeps_well_formed};
use crate::schema::{
    Field, dco_fields, dco_schema, duration_fields, duration_schema, element_reference_fields,
    element_reference_schema, forecast_period_fields, forecast_period_schema, function_fields,
    function_schema, instrument_fields, instrument_schema, network_fields, network_schema,
    physical_element_fields, physical_element_schema, row_fits, rows_fit, state_fields, state_schema,
    unit_fields, unit_schema,
};
use crate::table::{Cell, CellModel, Table, TableModel, rows_model};
use vstd::prelude::*;

verus! {

/// The vocabularies.
#[derive(Debug, Clone, Copy, PartialEq, Eq, Structural)]
pub enum ReferenceKind {
    Dcos,
    Durations,
    Elements,
    ForecastPeriods,
    Functions,
    Instruments,
    Networks,
    PhysicalElements,
    States,
    Units,
}

/// The vocabulary that a tag names, if it names one.
pub open spec fn kind_of_tag(tag: Seq<char>) -> Option<ReferenceKind> {
    if tag == "dcos"@ {
        Some(ReferenceKind::Dcos)
    } else if tag == "durations"@ {
        Some(ReferenceKind::Durations)
    } else if tag == "elements"@ {
        Some(ReferenceKind::Elements)
    } else if tag == "forecastPeriods"@ {
        Some(ReferenceKind::ForecastPeriods)
    } else if tag == "functions"@ {
        Some(ReferenceKind::Functions)
    } else if tag == "instruments"@ {
        Some(ReferenceKind::Instruments)
    } else if tag == "networks"@ {
        Some(ReferenceKind::Networks)
    } else if tag == "physicalElements"@ {
        Some(ReferenceKind::PhysicalElements)
    } else if tag == "states"@ {
        Some(ReferenceKind::States)
    } else if tag == "units"@ {
        Some(ReferenceKind::Units)
    } else {
        None
    }
}

/// The key under which a document holds the list of a vocabulary: its tag.
pub open spec fn reference_key(kind: ReferenceKind) -> Seq<char> {
    match kind {
        ReferenceKind::Dcos => "dcos"@,
        ReferenceKind::Durations => "durations"@,
        ReferenceKind::Elements => "elements"@,
        ReferenceKind::ForecastPeriods => "forecastPeriods"@,
        ReferenceKind::Functions => "functions"@,
        ReferenceKind::Instruments => "instruments"@,
        ReferenceKind::Networks => "networks"@,
        ReferenceKind::PhysicalElements => "physicalElements"@,
        ReferenceKind::States => "states"@,
        ReferenceKind::Units => "units"@,
    }
}

/// The fields of the entries of a vocabulary.
pub open spec fn reference_fields(kind: ReferenceKind) -> Seq<Field> {
    match kind {
        ReferenceKind::Dcos => dco_fields(),
        ReferenceKind::Durations => duration_fields(),
        ReferenceKind::Elements => element_reference_fields(),
        ReferenceKind::ForecastPeriods => forecast_period_fields(),
        ReferenceKind::Functions => function_fields(),
        ReferenceKind::Instruments => instrument_fields(),
        ReferenceKind::Networks => network_fields(),
        ReferenceKind::PhysicalElements => physical_element_fields(),
        ReferenceKind::States => state_fields(),
        ReferenceKind::Units => unit_fields(),
    }
}

/// The entries that a document holds for a vocabulary: it is an object with
/// the array of entries under the vocabulary's key.
pub open spec fn reference_entries_of(json: Json, kind: ReferenceKind) -> Option<Seq<Seq<CellModel>>> {
    match json.member(reference_key(kind)) {
        Some(list) => records_of(list, reference_fields(kind)),
        None => None,
    }
}

/// The table of a vocabulary: one row for each entry, pruned.
pub open spec fn reference_table(kind: ReferenceKind, entries: Seq<Seq<CellModel>>) -> TableModel {
    table_of(reference_fields(kind), entries).pruned()
}

/// What the transform of a reference document gives: the empty table for a
/// tag that names no vocabulary, and otherwise the table of the entries, or
/// the refusal of the document.
pub open spec fn reference_outcome(document: Seq<char>, tag: Seq<char>) -> Result<TableModel, TransformError> {
    match kind_of_tag(tag) {
        None => Ok(TableModel::bare(0)),
        Some(kind) => match parsed_document(document) {
            None => Err(TransformError::MalformedInput { document: 0, cause: Cause::Syntax }),
            Some(json) => match reference_entries_of(json, kind) {
                None => Err(TransformError::MalformedInput { document: 0, cause: Cause::Shape }),
                Some(entries) => Ok(reference_table(kind, entries)),
            },
        },
    }
}

/// Finds the vocabulary that a tag names.
pub fn reference_kind(tag: &str) -> (r: Option<ReferenceKind>)
    ensures
        r == kind_of_tag(tag@),
{
    let tag: String = tag.to_owned();
    if tag == "dcos".to_owned() {
        Some(ReferenceKind::Dcos)
    } else if tag == "durations".to_owned() {
        Some(ReferenceKind::Durations)
    } else if tag == "elements".to_owned() {
        Some(ReferenceKind::Elements)
    } else if tag == "forecastPeriods".to_owned() {
        Some(ReferenceKind::ForecastPeriods)
    } else if tag == "functions".to_owned() {
        Some(ReferenceKind::Functions)
    } else if tag == "instruments".to_owned() {
        Some(ReferenceKind::Instruments)
    } else if tag == "networks".to_owned() {
        Some(ReferenceKind::Networks)
    } else if tag == "physicalElements".to_owned() {
        Some(ReferenceKind::PhysicalElements)
    } else if tag == "states".to_owned() {
        Some(ReferenceKind::States)
    } else if tag == "units".to_owned() {
        Some(ReferenceKind::Units)
    } else {
        None
    }
}

/// The key of a vocabulary.
pub fn reference_tag(kind: ReferenceKind) -> (tag: &'static str)
    ensures
        tag@ == reference_key(kind),
        kind_of_tag(tag@) == Some(kind),
{
    proof {
        reveal_strlit("dcos");
        reveal_strlit("durations");
        reveal_strlit("elements");
        reveal_strlit("forecastPeriods");
        reveal_strlit("functions");
        reveal_strlit("instruments");
        reveal_strlit("networks");
        reveal_strlit("physicalElements");
        reveal_strlit("states");
        reveal_strlit("units");
        assert("dcos"@.len() == 4 && "durations"@.len() == 9 && "elements"@.len() == 8);
        assert("forecastPeriods"@.len() == 15 && "functions"@.len() == 9 && "instruments"@.len() == 11);
        assert("networks"@.len() == 8 && "physicalElements"@.len() == 16 && "states"@.len() == 6);
        assert("units"@.len() == 5);
        assert("durations"@[0] == 'd' && "functions"@[0] == 'f');
        assert("elements"@[0] == 'e' && "networks"@[0] == 'n');
    }
    match kind {
        ReferenceKind::Dcos => "dcos",
        ReferenceKind::Durations => "durations",
        ReferenceKind::Elements => "elements",
        ReferenceKind::ForecastPeriods => "forecastPeriods",
        ReferenceKind::Functions => "functions",
        ReferenceKind::Instruments => "instruments",
        ReferenceKind::Networks => "networks",
        ReferenceKind::PhysicalElements => "physicalElements",
        ReferenceKind::States => "states",
        ReferenceKind::Units => "units",
    }
}

/// The field list of a vocabulary.
pub fn reference_schema(kind: ReferenceKind) -> (fields: Vec<Field>)
    ensures
        fields@ == reference_fields(kind),
{
    match kind {
        ReferenceKind::Dcos => dco_schema(),
        ReferenceKind::Durations => duration_schema(),
        ReferenceKind::Elements => element_reference_schema(),
        ReferenceKind::ForecastPeriods => forecast_period_schema(),
        ReferenceKind::Functions => function_schema(),
        ReferenceKind::Instruments => instrument_schema(),
        ReferenceKind::Networks => network_schema(),
        ReferenceKind::PhysicalElements => physical_element_schema(),
        ReferenceKind::States => state_schema(),
        ReferenceKind::Units => unit_schema(),
    }
}

/// Decodes the entries of a vocabulary from a document, or returns `None`
/// where the document does not hold the list.
pub fn decode_reference(json: &Json, kind: ReferenceKind) -> (r: Option<Vec<Vec<Cell>>>)
    ensures
        match r {
            Some(entries) => reference_entries_of(*json, kind) == Some(rows_model(entries@)) && rows_fit(
                rows_model(entries@),
                reference_fields(kind),
            ),
            None => reference_entries_of(*json, kind) is None,
        },
{
    let list = match json.get(reference_tag(kind)) {
        Some(list) => list,
        None => {
            return None;
        },
    };
    let fields = reference_schema(kind);
    let entries = decode_records(list, &fields);
    proof {
        if entries is Some {
            decoded_rows_fit(*list, reference_fields(kind));
        }
    }
    entries
}

/// Builds the table of a vocabulary from its entries.
pub fn build_reference_table(kind: ReferenceKind, entries: Vec<Vec<Cell>>) -> (table: Table)
    requires
        rows_fit(rows_model(entries@), reference_fields(kind)),
    ensures
        table@ == reference_table(kind, rows_model(entries@)),
        table@.wf(),
{
    let fields = reference_schema(kind);
    proof {
        table_of_is_well_formed(reference_fields(kind), rows_model(entries@));
        pruning_keeps_well_formed(table_of(reference_fields(kind), rows_model(entries@)));
        assert forall|i: int| 0 <= i < entries@.len() implies (#[trigger] entries@[i])@.len()
            == fields@.len() by {
            assert(row_fits(rows_model(entries@)[i], reference_fields(kind)));
        }
    }
    drop_empty_columns(table_from_rows(&fields, entries))
}

/// Turns a reference document into the table of the vocabulary that the tag
/// names.
///
/// A tag that names no vocabulary gives the table without rows and without
/// columns. Otherwise the document is parsed and decoded, and is refused
/// where it is not JSON or does not hold the list under the tag; the table
/// has one row for each entry and is pruned.
pub fn parse_station_reference_json(document: &str, reference_type: &str) -> (r: Result<
    Table,
    TransformError,
>)
    ensures
        match reference_outcome(document@, reference_type@) {
            Ok(model) => r matches Ok(table) && table@ == model && table@.wf(),
            Err(e) => r == Err::<Table, TransformError>(e),
        },
        kind_of_tag(reference_type@) is None ==> (r matches Ok(table) && table@ == TableModel::bare(0)),
{
    let kind = match reference_kind(reference_type) {
        Some(kind) => kind,
        None => {
            return Ok(Table::bare(0));
        },
    };
    let json = match parse_document(document) {
        Some(json) => json,
        None => {
            return Err(TransformError::MalformedInput { document: 0, cause: Cause::Syntax });
        },
    };
    let entries = match decode_reference(&json, kind) {
        Some(entries) => entries,
        None => {
            return Err(TransformError::MalformedInput { document: 0, cause: Cause::Shape });
        },
    };
    Ok(build_reference_table(kind, entries))
}

} // verus!

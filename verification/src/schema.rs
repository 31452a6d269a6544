//! Field lists: for each kind of record, the declared fields in their order.
//!
//! A field list serves twice. The decoder reads it to find the members of a
//! record in a document, and the table builder reads it to name and type the
//! columns, which stand in the order of the list.

use crate::table::{Cell, CellModel, ColumnKind, cell_wf, cells_model, rows_model};
use vstd::prelude::*;

verus! {

/// One declared field of a record: the key under which a document holds it,
/// the name of the column it becomes, the kind of its values, and whether a
/// record must have it.
#[derive(Debug, Clone, Copy, PartialEq, Eq)]
pub struct Field {
    pub key: &'static str,
    pub name: &'static str,
    pub kind: ColumnKind,
    pub required: bool,
}

/// A cell suits a field when it is of the field's kind, and is present where
/// the field is required.
pub open spec fn cell_fits(cell: CellModel, field: Field) -> bool {
    &&& cell_wf(cell, field.kind)
    &&& field.required ==> !(cell is Missing)
}

/// A row suits a field list when it has one suitable cell for each field.
pub open spec fn row_fits(row: Seq<CellModel>, fields: Seq<Field>) -> bool {
    &&& row.len() == fields.len()
    &&& forall|j: int| 0 <= j < fields.len() ==> cell_fits(#[trigger] row[j], fields[j])
}

/// Every row of a run suits the field list.
pub open spec fn rows_fit(rows: Seq<Seq<CellModel>>, fields: Seq<Field>) -> bool {
    forall|i: int| 0 <= i < rows.len() ==> row_fits(#[trigger] rows[i], fields)
}

/// Whether a cell suits a field.
pub fn cell_suits(cell: &Cell, field: &Field) -> (r: bool)
    ensures
        r == cell_fits(cell@, *field),
{
    match cell {
        Cell::Missing => !field.required,
        _ => cell.suits(field.kind),
    }
}

/// Whether a row suits a field list.
pub fn row_suits(cells: &Vec<Cell>, fields: &Vec<Field>) -> (r: bool)
    ensures
        r == row_fits(cells_model(cells@), fields@),
{
    if cells.len() != fields.len() {
        return false;
    }
    let mut j: usize = 0;
    while j < fields.len()
        invariant
            j <= fields@.len(),
            cells@.len() == fields@.len(),
            forall|k: int| 0 <= k < j ==> cell_fits(#[trigger] cells_model(cells@)[k], fields@[k]),
        decreases fields@.len() - j,
    {
        if !cell_suits(&cells[j], &fields[j]) {
            assert(!cell_fits(cells_model(cells@)[j as int], fields@[j as int]));
            return false;
        }
        j += 1;
    }
    true
}

/// Whether every row of a run suits a field list.
pub fn rows_suit(rows: &Vec<Vec<Cell>>, fields: &Vec<Field>) -> (r: bool)
    ensures
        r == rows_fit(rows_model(rows@), fields@),
{
    let mut i: usize = 0;
    while i < rows.len()
        invariant
            i <= rows@.len(),
            forall|k: int| 0 <= k < i ==> row_fits(#[trigger] rows_model(rows@)[k], fields@),
        decreases rows@.len() - i,
    {
        if !row_suits(&rows[i], fields) {
            assert(!row_fits(rows_model(rows@)[i as int], fields@));
            return false;
        }
        i += 1;
    }
    true
}

/// The descriptor of an element measured at a station.
pub open spec fn element_fields() -> Seq<Field> {
    seq![
        Field { key: "elementCode", name: "element_code", kind: ColumnKind::Text, required: true },
        Field { key: "ordinal", name: "ordinal", kind: ColumnKind::Integer, required: true },
        Field { key: "heightDepth", name: "height_depth", kind: ColumnKind::Integer, required: false },
        Field { key: "durationName", name: "duration_name", kind: ColumnKind::Text, required: true },
        Field { key: "dataPrecision", name: "data_precision", kind: ColumnKind::Integer, required: true },
        Field { key: "storedUnitCode", name: "stored_unit_code", kind: ColumnKind::Text, required: true },
        Field { key: "originalUnitCode", name: "original_unit_code", kind: ColumnKind::Text, required: true },
        Field { key: "beginDate", name: "begin_date", kind: ColumnKind::Text, required: true },
        Field { key: "endDate", name: "end_date", kind: ColumnKind::Text, required: true },
        Field { key: "derivedData", name: "derived_data", kind: ColumnKind::Logical, required: true },
    ]
}

/// The field list `element_fields`.
pub fn element_schema() -> (fields: Vec<Field>)
    ensures
        fields@ == element_fields(),
{
    let fields = vec![
        Field { key: "elementCode", name: "element_code", kind: ColumnKind::Text, required: true },
        Field { key: "ordinal", name: "ordinal", kind: ColumnKind::Integer, required: true },
        Field { key: "heightDepth", name: "height_depth", kind: ColumnKind::Integer, required: false },
        Field { key: "durationName", name: "duration_name", kind: ColumnKind::Text, required: true },
        Field { key: "dataPrecision", name: "data_precision", kind: ColumnKind::Integer, required: true },
        Field { key: "storedUnitCode", name: "stored_unit_code", kind: ColumnKind::Text, required: true },
        Field { key: "originalUnitCode", name: "original_unit_code", kind: ColumnKind::Text, required: true },
        Field { key: "beginDate", name: "begin_date", kind: ColumnKind::Text, required: true },
        Field { key: "endDate", name: "end_date", kind: ColumnKind::Text, required: true },
        Field { key: "derivedData", name: "derived_data", kind: ColumnKind::Logical, required: true },
    ];
    assert(fields@ =~= element_fields());
    fields
}

/// One observation of an element. Every field may be absent.
pub open spec fn observation_fields() -> Seq<Field> {
    seq![
        Field { key: "date", name: "date", kind: ColumnKind::Text, required: false },
        Field { key: "month", name: "month", kind: ColumnKind::Integer, required: false },
        Field { key: "monthPart", name: "month_part", kind: ColumnKind::Text, required: false },
        Field { key: "year", name: "year", kind: ColumnKind::Integer, required: false },
        Field { key: "collectionDate", name: "collection_date", kind: ColumnKind::Text, required: false },
        Field { key: "value", name: "value", kind: ColumnKind::Double, required: false },
        Field { key: "qcFlag", name: "qc_flag", kind: ColumnKind::Text, required: false },
        Field { key: "qaFlag", name: "qa_flag", kind: ColumnKind::Text, required: false },
        Field { key: "origValue", name: "orig_value", kind: ColumnKind::Double, required: false },
        Field { key: "origQcFlag", name: "orig_qc_flag", kind: ColumnKind::Text, required: false },
        Field { key: "average", name: "average", kind: ColumnKind::Double, required: false },
        Field { key: "median", name: "median", kind: ColumnKind::Integer, required: false },
    ]
}

/// The field list `observation_fields`.
pub fn observation_schema() -> (fields: Vec<Field>)
    ensures
        fields@ == observation_fields(),
{
    let fields = vec![
        Field { key: "date", name: "date", kind: ColumnKind::Text, required: false },
        Field { key: "month", name: "month", kind: ColumnKind::Integer, required: false },
        Field { key: "monthPart", name: "month_part", kind: ColumnKind::Text, required: false },
        Field { key: "year", name: "year", kind: ColumnKind::Integer, required: false },
        Field { key: "collectionDate", name: "collection_date", kind: ColumnKind::Text, required: false },
        Field { key: "value", name: "value", kind: ColumnKind::Double, required: false },
        Field { key: "qcFlag", name: "qc_flag", kind: ColumnKind::Text, required: false },
        Field { key: "qaFlag", name: "qa_flag", kind: ColumnKind::Text, required: false },
        Field { key: "origValue", name: "orig_value", kind: ColumnKind::Double, required: false },
        Field { key: "origQcFlag", name: "orig_qc_flag", kind: ColumnKind::Text, required: false },
        Field { key: "average", name: "average", kind: ColumnKind::Double, required: false },
        Field { key: "median", name: "median", kind: ColumnKind::Integer, required: false },
    ];
    assert(fields@ =~= observation_fields());
    fields
}

/// The fields of a forecast that a document holds as scalars.
pub open spec fn forecast_scalar_fields() -> Seq<Field> {
    seq![
        Field { key: "elementCode", name: "element_code", kind: ColumnKind::Text, required: true },
        Field { key: "forecastStatus", name: "forecast_status", kind: ColumnKind::Text, required: true },
        Field { key: "issueDate", name: "issue_date", kind: ColumnKind::Text, required: true },
        Field { key: "periodNormal", name: "period_normal", kind: ColumnKind::Double, required: false },
        Field { key: "publicationDate", name: "publication_date", kind: ColumnKind::Text, required: true },
        Field { key: "unitCode", name: "unit_code", kind: ColumnKind::Text, required: true },
    ]
}

/// The field list `forecast_scalar_fields`.
pub fn forecast_scalar_schema() -> (fields: Vec<Field>)
    ensures
        fields@ == forecast_scalar_fields(),
{
    let fields = vec![
        Field { key: "elementCode", name: "element_code", kind: ColumnKind::Text, required: true },
        Field { key: "forecastStatus", name: "forecast_status", kind: ColumnKind::Text, required: true },
        Field { key: "issueDate", name: "issue_date", kind: ColumnKind::Text, required: true },
        Field { key: "periodNormal", name: "period_normal", kind: ColumnKind::Double, required: false },
        Field { key: "publicationDate", name: "publication_date", kind: ColumnKind::Text, required: true },
        Field { key: "unitCode", name: "unit_code", kind: ColumnKind::Text, required: true },
    ];
    assert(fields@ =~= forecast_scalar_fields());
    fields
}

/// The identity and location of a station.
pub open spec fn station_fields() -> Seq<Field> {
    seq![
        Field { key: "stationTriplet", name: "station_triplet", kind: ColumnKind::Text, required: true },
        Field { key: "stationId", name: "station_id", kind: ColumnKind::Text, required: true },
        Field { key: "stateCode", name: "state_code", kind: ColumnKind::Text, required: true },
        Field { key: "networkCode", name: "network_code", kind: ColumnKind::Text, required: true },
        Field { key: "name", name: "name", kind: ColumnKind::Text, required: false },
        Field { key: "dcoCode", name: "dco_code", kind: ColumnKind::Text, required: false },
        Field { key: "countyName", name: "county_name", kind: ColumnKind::Text, required: false },
        Field { key: "huc", name: "huc", kind: ColumnKind::Text, required: false },
        Field { key: "elevation", name: "elevation", kind: ColumnKind::Double, required: false },
        Field { key: "latitude", name: "latitude", kind: ColumnKind::Double, required: true },
        Field { key: "longitude", name: "longitude", kind: ColumnKind::Double, required: true },
        Field { key: "dataTimeZone", name: "data_time_zone", kind: ColumnKind::Double, required: false },
        Field { key: "pedonCode", name: "pedon_code", kind: ColumnKind::Text, required: false },
        Field { key: "shefId", name: "shef_id", kind: ColumnKind::Text, required: false },
        Field { key: "beginDate", name: "begin_date", kind: ColumnKind::Text, required: false },
        Field { key: "endDate", name: "end_date", kind: ColumnKind::Text, required: false },
    ]
}

/// The field list `station_fields`.
pub fn station_schema() -> (fields: Vec<Field>)
    ensures
        fields@ == station_fields(),
{
    let fields = vec![
        Field { key: "stationTriplet", name: "station_triplet", kind: ColumnKind::Text, required: true },
        Field { key: "stationId", name: "station_id", kind: ColumnKind::Text, required: true },
        Field { key: "stateCode", name: "state_code", kind: ColumnKind::Text, required: true },
        Field { key: "networkCode", name: "network_code", kind: ColumnKind::Text, required: true },
        Field { key: "name", name: "name", kind: ColumnKind::Text, required: false },
        Field { key: "dcoCode", name: "dco_code", kind: ColumnKind::Text, required: false },
        Field { key: "countyName", name: "county_name", kind: ColumnKind::Text, required: false },
        Field { key: "huc", name: "huc", kind: ColumnKind::Text, required: false },
        Field { key: "elevation", name: "elevation", kind: ColumnKind::Double, required: false },
        Field { key: "latitude", name: "latitude", kind: ColumnKind::Double, required: true },
        Field { key: "longitude", name: "longitude", kind: ColumnKind::Double, required: true },
        Field { key: "dataTimeZone", name: "data_time_zone", kind: ColumnKind::Double, required: false },
        Field { key: "pedonCode", name: "pedon_code", kind: ColumnKind::Text, required: false },
        Field { key: "shefId", name: "shef_id", kind: ColumnKind::Text, required: false },
        Field { key: "beginDate", name: "begin_date", kind: ColumnKind::Text, required: false },
        Field { key: "endDate", name: "end_date", kind: ColumnKind::Text, required: false },
    ];
    assert(fields@ =~= station_fields());
    fields
}

/// The capacities of a reservoir.
pub open spec fn reservoir_fields() -> Seq<Field> {
    seq![
        Field { key: "capacity", name: "capacity", kind: ColumnKind::Integer, required: true },
        Field { key: "elevationAtCapacity", name: "elevation_at_capacity", kind: ColumnKind::Integer, required: true },
        Field { key: "usableCapacity", name: "usable_capacity", kind: ColumnKind::Integer, required: true },
    ]
}

/// The field list `reservoir_fields`.
pub fn reservoir_schema() -> (fields: Vec<Field>)
    ensures
        fields@ == reservoir_fields(),
{
    let fields = vec![
        Field { key: "capacity", name: "capacity", kind: ColumnKind::Integer, required: true },
        Field { key: "elevationAtCapacity", name: "elevation_at_capacity", kind: ColumnKind::Integer, required: true },
        Field { key: "usableCapacity", name: "usable_capacity", kind: ColumnKind::Integer, required: true },
    ];
    assert(fields@ =~= reservoir_fields());
    fields
}

/// The fields of a forecast point that a document holds as scalars.
pub open spec fn forecast_point_scalar_fields() -> Seq<Field> {
    seq![
        Field { key: "name", name: "name", kind: ColumnKind::Text, required: true },
        Field { key: "forecaster", name: "forecaster", kind: ColumnKind::Text, required: true },
    ]
}

/// The field list `forecast_point_scalar_fields`.
pub fn forecast_point_scalar_schema() -> (fields: Vec<Field>)
    ensures
        fields@ == forecast_point_scalar_fields(),
{
    let fields = vec![
        Field { key: "name", name: "name", kind: ColumnKind::Text, required: true },
        Field { key: "forecaster", name: "forecaster", kind: ColumnKind::Text, required: true },
    ];
    assert(fields@ =~= forecast_point_scalar_fields());
    fields
}

/// A data collection office.
pub open spec fn dco_fields() -> Seq<Field> {
    seq![
        Field { key: "code", name: "code", kind: ColumnKind::Text, required: true },
        Field { key: "name", name: "name", kind: ColumnKind::Text, required: true },
    ]
}

/// The field list `dco_fields`.
pub fn dco_schema() -> (fields: Vec<Field>)
    ensures
        fields@ == dco_fields(),
{
    let fields = vec![
        Field { key: "code", name: "code", kind: ColumnKind::Text, required: true },
        Field { key: "name", name: "name", kind: ColumnKind::Text, required: true },
    ];
    assert(fields@ =~= dco_fields());
    fields
}

/// A duration.
pub open spec fn duration_fields() -> Seq<Field> {
    seq![
        Field { key: "code", name: "code", kind: ColumnKind::Text, required: true },
        Field { key: "name", name: "name", kind: ColumnKind::Text, required: true },
        Field { key: "durationMinutes", name: "duration_minutes", kind: ColumnKind::Text, required: true },
    ]
}

/// The field list `duration_fields`.
pub fn duration_schema() -> (fields: Vec<Field>)
    ensures
        fields@ == duration_fields(),
{
    let fields = vec![
        Field { key: "code", name: "code", kind: ColumnKind::Text, required: true },
        Field { key: "name", name: "name", kind: ColumnKind::Text, required: true },
        Field { key: "durationMinutes", name: "duration_minutes", kind: ColumnKind::Text, required: true },
    ];
    assert(fields@ =~= duration_fields());
    fields
}

/// An element of the vocabulary of elements.
pub open spec fn element_reference_fields() -> Seq<Field> {
    seq![
        Field { key: "code", name: "code", kind: ColumnKind::Text, required: true },
        Field { key: "name", name: "name", kind: ColumnKind::Text, required: true },
        Field { key: "physicalElementName", name: "physical_element_name", kind: ColumnKind::Text, required: true },
        Field { key: "functionCode", name: "function_code", kind: ColumnKind::Text, required: true },
        Field { key: "dataPrecision", name: "data_precision", kind: ColumnKind::Integer, required: true },
        Field { key: "description", name: "description", kind: ColumnKind::Text, required: false },
        Field { key: "storedUnitCode", name: "stored_unit_code", kind: ColumnKind::Text, required: true },
        Field { key: "englishUnitCode", name: "english_unit_code", kind: ColumnKind::Text, required: true },
        Field { key: "metricUnitCode", name: "metric_unit_code", kind: ColumnKind::Text, required: true },
    ]
}

/// The field list `element_reference_fields`.
pub fn element_reference_schema() -> (fields: Vec<Field>)
    ensures
        fields@ == element_reference_fields(),
{
    let fields = vec![
        Field { key: "code", name: "code", kind: ColumnKind::Text, required: true },
        Field { key: "name", name: "name", kind: ColumnKind::Text, required: true },
        Field { key: "physicalElementName", name: "physical_element_name", kind: ColumnKind::Text, required: true },
        Field { key: "functionCode", name: "function_code", kind: ColumnKind::Text, required: true },
        Field { key: "dataPrecision", name: "data_precision", kind: ColumnKind::Integer, required: true },
        Field { key: "description", name: "description", kind: ColumnKind::Text, required: false },
        Field { key: "storedUnitCode", name: "stored_unit_code", kind: ColumnKind::Text, required: true },
        Field { key: "englishUnitCode", name: "english_unit_code", kind: ColumnKind::Text, required: true },
        Field { key: "metricUnitCode", name: "metric_unit_code", kind: ColumnKind::Text, required: true },
    ];
    assert(fields@ =~= element_reference_fields());
    fields
}

/// A forecast period.
pub open spec fn forecast_period_fields() -> Seq<Field> {
    seq![
        Field { key: "code", name: "code", kind: ColumnKind::Text, required: true },
        Field { key: "name", name: "name", kind: ColumnKind::Text, required: true },
        Field { key: "description", name: "description", kind: ColumnKind::Text, required: false },
        Field { key: "beginMonthDay", name: "begin_month_day", kind: ColumnKind::Text, required: false },
        Field { key: "endMonthDay", name: "end_month_day", kind: ColumnKind::Text, required: false },
    ]
}

/// The field list `forecast_period_fields`.
pub fn forecast_period_schema() -> (fields: Vec<Field>)
    ensures
        fields@ == forecast_period_fields(),
{
    let fields = vec![
        Field { key: "code", name: "code", kind: ColumnKind::Text, required: true },
        Field { key: "name", name: "name", kind: ColumnKind::Text, required: true },
        Field { key: "description", name: "description", kind: ColumnKind::Text, required: false },
        Field { key: "beginMonthDay", name: "begin_month_day", kind: ColumnKind::Text, required: false },
        Field { key: "endMonthDay", name: "end_month_day", kind: ColumnKind::Text, required: false },
    ];
    assert(fields@ =~= forecast_period_fields());
    fields
}

/// A function.
pub open spec fn function_fields() -> Seq<Field> {
    seq![
        Field { key: "code", name: "code", kind: ColumnKind::Text, required: true },
        Field { key: "abbreviation", name: "abbreviation", kind: ColumnKind::Text, required: true },
        Field { key: "name", name: "name", kind: ColumnKind::Text, required: true },
    ]
}

/// The field list `function_fields`.
pub fn function_schema() -> (fields: Vec<Field>)
    ensures
        fields@ == function_fields(),
{
    let fields = vec![
        Field { key: "code", name: "code", kind: ColumnKind::Text, required: true },
        Field { key: "abbreviation", name: "abbreviation", kind: ColumnKind::Text, required: true },
        Field { key: "name", name: "name", kind: ColumnKind::Text, required: true },
    ];
    assert(fields@ =~= function_fields());
    fields
}

/// An instrument.
pub open spec fn instrument_fields() -> Seq<Field> {
    seq![
        Field { key: "name", name: "name", kind: ColumnKind::Text, required: true },
        Field { key: "transducerLength", name: "transducer_length", kind: ColumnKind::Integer, required: true },
        Field { key: "dataPrecisionAdjustment", name: "data_precision_adjustment", kind: ColumnKind::Integer, required: true },
        Field { key: "manufacturer", name: "manufacturer", kind: ColumnKind::Text, required: true },
        Field { key: "model", name: "model", kind: ColumnKind::Text, required: false },
    ]
}

/// The field list `instrument_fields`.
pub fn instrument_schema() -> (fields: Vec<Field>)
    ensures
        fields@ == instrument_fields(),
{
    let fields = vec![
        Field { key: "name", name: "name", kind: ColumnKind::Text, required: true },
        Field { key: "transducerLength", name: "transducer_length", kind: ColumnKind::Integer, required: true },
        Field { key: "dataPrecisionAdjustment", name: "data_precision_adjustment", kind: ColumnKind::Integer, required: true },
        Field { key: "manufacturer", name: "manufacturer", kind: ColumnKind::Text, required: true },
        Field { key: "model", name: "model", kind: ColumnKind::Text, required: false },
    ];
    assert(fields@ =~= instrument_fields());
    fields
}

/// A network.
pub open spec fn network_fields() -> Seq<Field> {
    seq![
        Field { key: "code", name: "code", kind: ColumnKind::Text, required: true },
        Field { key: "name", name: "name", kind: ColumnKind::Text, required: true },
        Field { key: "description", name: "description", kind: ColumnKind::Text, required: true },
    ]
}

/// The field list `network_fields`.
pub fn network_schema() -> (fields: Vec<Field>)
    ensures
        fields@ == network_fields(),
{
    let fields = vec![
        Field { key: "code", name: "code", kind: ColumnKind::Text, required: true },
        Field { key: "name", name: "name", kind: ColumnKind::Text, required: true },
        Field { key: "description", name: "description", kind: ColumnKind::Text, required: true },
    ];
    assert(fields@ =~= network_fields());
    fields
}

/// A physical element.
pub open spec fn physical_element_fields() -> Seq<Field> {
    seq![
        Field { key: "name", name: "name", kind: ColumnKind::Text, required: true },
        Field { key: "shefPhysicalElementCode", name: "shef_physical_element_code", kind: ColumnKind::Text, required: false },
    ]
}

/// The field list `physical_element_fields`.
pub fn physical_element_schema() -> (fields: Vec<Field>)
    ensures
        fields@ == physical_element_fields(),
{
    let fields = vec![
        Field { key: "name", name: "name", kind: ColumnKind::Text, required: true },
        Field { key: "shefPhysicalElementCode", name: "shef_physical_element_code", kind: ColumnKind::Text, required: false },
    ];
    assert(fields@ =~= physical_element_fields());
    fields
}

/// A state.
pub open spec fn state_fields() -> Seq<Field> {
    seq![
        Field { key: "code", name: "code", kind: ColumnKind::Text, required: true },
        Field { key: "fipsNumber", name: "fips_number", kind: ColumnKind::Text, required: true },
        Field { key: "name", name: "name", kind: ColumnKind::Text, required: true },
        Field { key: "countryCode", name: "country_code", kind: ColumnKind::Text, required: true },
    ]
}

/// The field list `state_fields`.
pub fn state_schema() -> (fields: Vec<Field>)
    ensures
        fields@ == state_fields(),
{
    let fields = vec![
        Field { key: "code", name: "code", kind: ColumnKind::Text, required: true },
        Field { key: "fipsNumber", name: "fips_number", kind: ColumnKind::Text, required: true },
        Field { key: "name", name: "name", kind: ColumnKind::Text, required: true },
        Field { key: "countryCode", name: "country_code", kind: ColumnKind::Text, required: true },
    ];
    assert(fields@ =~= state_fields());
    fields
}

/// A unit.
pub open spec fn unit_fields() -> Seq<Field> {
    seq![
        Field { key: "code", name: "code", kind: ColumnKind::Text, required: true },
        Field { key: "singularName", name: "singular_name", kind: ColumnKind::Text, required: true },
        Field { key: "pluralName", name: "plural_name", kind: ColumnKind::Text, required: false },
        Field { key: "description", name: "description", kind: ColumnKind::Text, required: false },
    ]
}

/// The field list `unit_fields`.
pub fn unit_schema() -> (fields: Vec<Field>)
    ensures
        fields@ == unit_fields(),
{
    let fields = vec![
        Field { key: "code", name: "code", kind: ColumnKind::Text, required: true },
        Field { key: "singularName", name: "singular_name", kind: ColumnKind::Text, required: true },
        Field { key: "pluralName", name: "plural_name", kind: ColumnKind::Text, required: false },
        Field { key: "description", name: "description", kind: ColumnKind::Text, required: false },
    ];
    assert(fields@ =~= unit_fields());
    fields
}

/// One entry of a forecast: the label of a probability and the value forecast for it.
pub open spec fn forecast_value_fields() -> Seq<Field> {
    seq![
        Field { key: "probability", name: "probability", kind: ColumnKind::Text, required: true },
        Field { key: "value", name: "value", kind: ColumnKind::Double, required: true },
    ]
}

/// The field list `forecast_value_fields`.
pub fn forecast_value_schema() -> (fields: Vec<Field>)
    ensures
        fields@ == forecast_value_fields(),
{
    let fields = vec![
        Field { key: "probability", name: "probability", kind: ColumnKind::Text, required: true },
        Field { key: "value", name: "value", kind: ColumnKind::Double, required: true },
    ];
    assert(fields@ =~= forecast_value_fields());
    fields
}

/// One exceedence probability of a forecast point.
pub open spec fn exceedence_fields() -> Seq<Field> {
    seq![
        Field { key: "exceedenceProbability", name: "exceedence_probability", kind: ColumnKind::Integer, required: true },
    ]
}

/// The field list `exceedence_fields`.
pub fn exceedence_schema() -> (fields: Vec<Field>)
    ensures
        fields@ == exceedence_fields(),
{
    let fields = vec![
        Field { key: "exceedenceProbability", name: "exceedence_probability", kind: ColumnKind::Integer, required: true },
    ];
    assert(fields@ =~= exceedence_fields());
    fields
}


/// The station triplet, which every row of a station carries.
pub open spec fn triplet_field() -> Field {
    Field { key: "stationTriplet", name: "station_triplet", kind: ColumnKind::Text, required: true }
}

/// The name of the forecast point, which every row of a forecast carries.
pub open spec fn point_name_field() -> Field {
    Field { key: "forecastPointName", name: "forecast_point_name", kind: ColumnKind::Text, required: true }
}

/// The period of a forecast: the parts that a document lists, joined by
/// colons into one text.
pub open spec fn period_field() -> Field {
    Field { key: "forecastPeriod", name: "forecast_period", kind: ColumnKind::Text, required: true }
}

/// The fields of a forecast: the scalar ones, with the period in second
/// place.
pub open spec fn forecast_fields() -> Seq<Field> {
    forecast_scalar_fields().insert(1, period_field())
}

/// The field list `forecast_fields`.
pub fn forecast_schema() -> (fields: Vec<Field>)
    ensures
        fields@ == forecast_fields(),
{
    let mut fields = forecast_scalar_schema();
    fields.insert(
        1,
        Field { key: "forecastPeriod", name: "forecast_period", kind: ColumnKind::Text, required: true },
    );
    fields
}

/// The columns of the table of station data: the station triplet, the
/// descriptor of the element, and the table of its observations.
pub open spec fn dataset_columns() -> Seq<Field> {
    seq![triplet_field()] + element_fields() + seq![
        Field { key: "values", name: "element_values", kind: ColumnKind::Nested, required: true },
    ]
}

/// The field list `dataset_columns`.
pub fn dataset_schema() -> (fields: Vec<Field>)
    ensures
        fields@ == dataset_columns(),
{
    let mut fields = vec![
        Field { key: "stationTriplet", name: "station_triplet", kind: ColumnKind::Text, required: true },
    ];
    let mut element = element_schema();
    fields.append(&mut element);
    fields.push(Field { key: "values", name: "element_values", kind: ColumnKind::Nested, required: true });
    assert(fields@ =~= dataset_columns());
    fields
}

/// The columns of the table of forecasts: the station triplet, the name of
/// the forecast point, the fields of the forecast, and the table of its
/// values.
pub open spec fn forecast_columns() -> Seq<Field> {
    seq![triplet_field(), point_name_field()] + forecast_fields() + seq![
        Field { key: "forecastValues", name: "forecast_values", kind: ColumnKind::Nested, required: true },
    ]
}

/// The field list `forecast_columns`.
pub fn forecast_table_schema() -> (fields: Vec<Field>)
    ensures
        fields@ == forecast_columns(),
{
    let mut fields = vec![
        Field { key: "stationTriplet", name: "station_triplet", kind: ColumnKind::Text, required: true },
        Field { key: "forecastPointName", name: "forecast_point_name", kind: ColumnKind::Text, required: true },
    ];
    let mut forecast = forecast_schema();
    fields.append(&mut forecast);
    fields.push(
        Field { key: "forecastValues", name: "forecast_values", kind: ColumnKind::Nested, required: true },
    );
    assert(fields@ =~= forecast_columns());
    fields
}

/// The columns of the table of a forecast point: its scalar fields and the
/// table of its exceedence probabilities.
pub open spec fn forecast_point_columns() -> Seq<Field> {
    forecast_point_scalar_fields() + seq![
        Field {
            key: "exceedenceProbabilities",
            name: "exceedence_probabilities",
            kind: ColumnKind::Nested,
            required: true,
        },
    ]
}

/// The field list `forecast_point_columns`.
pub fn forecast_point_schema() -> (fields: Vec<Field>)
    ensures
        fields@ == forecast_point_columns(),
{
    let mut fields = forecast_point_scalar_schema();
    fields.push(
        Field {
            key: "exceedenceProbabilities",
            name: "exceedence_probabilities",
            kind: ColumnKind::Nested,
            required: true,
        },
    );
    assert(fields@ =~= forecast_point_columns());
    fields
}

/// The columns of the table of station metadata: the fields of the station,
/// then one table-valued column each for its forecast point, its reservoir
/// and its elements, none of which a station must have.
pub open spec fn metadata_columns() -> Seq<Field> {
    station_fields() + seq![
        Field { key: "forecastPoint", name: "forecast_metadata", kind: ColumnKind::Nested, required: false },
        Field { key: "reservoirMetadata", name: "reservoir_metadata", kind: ColumnKind::Nested, required: false },
        Field { key: "stationElements", name: "element_metadata", kind: ColumnKind::Nested, required: false },
    ]
}

/// The field list `metadata_columns`.
pub fn metadata_schema() -> (fields: Vec<Field>)
    ensures
        fields@ == metadata_columns(),
{
    let mut fields = station_schema();
    fields.push(
        Field { key: "forecastPoint", name: "forecast_metadata", kind: ColumnKind::Nested, required: false },
    );
    fields.push(
        Field { key: "reservoirMetadata", name: "reservoir_metadata", kind: ColumnKind::Nested, required: false },
    );
    fields.push(
        Field { key: "stationElements", name: "element_metadata", kind: ColumnKind::Nested, required: false },
    );
    assert(fields@ =~= metadata_columns());
    fields
}

/// The place of the latitude among the fields of a station.
pub const LATITUDE_AT: usize = 9;

/// The place of the longitude among the fields of a station.
pub const LONGITUDE_AT: usize = 10;

} // verus!

//! Station metadata: one record for each station, with its location and, where
//! the station has them, its forecast point, its reservoir and its elements.
//!
//! The table has one row for each station. Each of the three optional parts
//! is a nested table in a column of its own, and a missing cell where the
//! station does not have that part. Beside the table stand the point of each
//! row, longitude first, and the bounding box of all points.

use crate::builder::{column_of, table_from_rows, table_of, table_of_is_well_formed};
use crate::decode::{
    all_of, decode_integer, decode_record, decode_records, decoded_row_fits, decoded_rows_fit, integer_of,
    optional_of, record_of, records_of,
};
use crate::error::{Cause, TransformError, batch_failure_stays, batch_of, parsed_batch, texts_of};
use crate::geometry::{
    BoundingBox, COORDINATE_REFERENCE_SYSTEM, GeometryColumn, Point, bounding_box, is_envelope,
};
use crate::json::{Json, parse_document};
use crate::prune::{
    drop_empty_columns, keeps, pruning_empties_table_without_rows, pruning_keeps_well_formed,
};
use crate::schema::{
    LATITUDE_AT, LONGITUDE_AT, cell_fits, element_fields, element_schema, exceedence_fields,
    exceedence_schema, forecast_point_columns, forecast_point_scalar_fields, forecast_point_scalar_schema,
    forecast_point_schema, metadata_columns, metadata_schema, reservoir_fields, reservoir_schema, row_fits,
    row_suits, rows_fit, rows_suit, station_fields, station_schema,
};
use crate::table::{Cell, CellModel, ColumnModel, Table, TableModel, cells_model, rows_model};
use vstd::prelude::*;

verus! {

/// The forecast point of a station: its name and forecaster, and its
/// exceedence probabilities in their order.
#[derive(Debug, PartialEq, Eq)]
pub struct ForecastPointInfo {
    pub descriptor: Vec<Cell>,
    pub exceedence_probabilities: Vec<i32>,
}

/// The metadata of one station.
#[derive(Debug, PartialEq, Eq)]
pub struct StationMetadataRecord {
    pub station: Vec<Cell>,
    pub forecast_point: Option<ForecastPointInfo>,
    pub reservoir: Option<Vec<Cell>>,
    pub elements: Option<Vec<Vec<Cell>>>,
}

/// The table of station metadata with its geometry: the point of each row,
/// in the order of the rows, and the bounding box of the points.
#[derive(Debug, PartialEq, Eq)]
pub struct StationTable {
    pub table: Table,
    pub geometry: GeometryColumn,
    pub bounding_box: BoundingBox,
}

/// The mathematical value of a forecast point.
pub struct ForecastPointModel {
    pub descriptor: Seq<CellModel>,
    pub exceedence_probabilities: Seq<i32>,
}

/// The mathematical value of a station's metadata.
pub struct StationMetadataModel {
    pub station: Seq<CellModel>,
    pub forecast_point: Option<ForecastPointModel>,
    pub reservoir: Option<Seq<CellModel>>,
    pub elements: Option<Seq<Seq<CellModel>>>,
}

impl View for ForecastPointInfo {
    type V = ForecastPointModel;

    open spec fn view(&self) -> ForecastPointModel {
        ForecastPointModel {
            descriptor: cells_model(self.descriptor@),
            exceedence_probabilities: self.exceedence_probabilities@,
        }
    }
}

impl View for StationMetadataRecord {
    type V = StationMetadataModel;

    open spec fn view(&self) -> StationMetadataModel {
        StationMetadataModel {
            station: cells_model(self.station@),
            forecast_point: match self.forecast_point {
                Some(info) => Some(info@),
                None => None,
            },
            reservoir: match self.reservoir {
                Some(cells) => Some(cells_model(cells@)),
                None => None,
            },
            elements: match self.elements {
                Some(rows) => Some(rows_model(rows@)),
                None => None,
            },
        }
    }
}

/// The values of a run of metadata records, in order.
pub open spec fn metadata_model(records: Seq<StationMetadataRecord>) -> Seq<StationMetadataModel> {
    Seq::new(records.len(), |i: int| records[i]@)
}

impl ForecastPointModel {
    /// The name and forecaster suit their field list.
    pub open spec fn wf(self) -> bool {
        row_fits(self.descriptor, forecast_point_scalar_fields())
    }
}

impl StationMetadataModel {
    /// Every part suits its field list.
    pub open spec fn wf(self) -> bool {
        &&& row_fits(self.station, station_fields())
        &&& self.forecast_point matches Some(info) ==> info.wf()
        &&& self.reservoir matches Some(cells) ==> row_fits(cells, reservoir_fields())
        &&& self.elements matches Some(rows) ==> rows_fit(rows, element_fields())
    }
}

/// Every record of a run is in order.
pub open spec fn metadata_wf(records: Seq<StationMetadataModel>) -> bool {
    forall|i: int| 0 <= i < records.len() ==> (#[trigger] records[i]).wf()
}

/// The forecast point that a value describes: an object with its name and
/// forecaster, and an array of integers under `exceedenceProbabilities`.
pub open spec fn forecast_point_of(json: Json) -> Option<ForecastPointModel> {
    match (record_of(json, forecast_point_scalar_fields()), json.member("exceedenceProbabilities"@)) {
        (Some(descriptor), Some(Json::Array(items))) => match all_of(
            items@,
            |item: Json| integer_of(item),
        ) {
            Some(exceedence_probabilities) => Some(
                ForecastPointModel { descriptor, exceedence_probabilities },
            ),
            None => None,
        },
        _ => None,
    }
}

/// The metadata that a value describes: an object with the fields of the
/// station, and with each of `forecastPoint`, `reservoirMetadata` and
/// `stationElements` either absent, `null`, or of its shape.
pub open spec fn metadata_of(json: Json) -> Option<StationMetadataModel> {
    match (
        record_of(json, station_fields()),
        optional_of(json, "forecastPoint"@, |value: Json| forecast_point_of(value)),
        optional_of(json, "reservoirMetadata"@, |value: Json| record_of(value, reservoir_fields())),
        optional_of(json, "stationElements"@, |value: Json| records_of(value, element_fields())),
    ) {
        (Some(station), Some(forecast_point), Some(reservoir), Some(elements)) => Some(
            StationMetadataModel { station, forecast_point, reservoir, elements },
        ),
        _ => None,
    }
}

/// The records that a document describes: an array of station metadata.
pub open spec fn metadata_set_of(json: Json) -> Option<Seq<StationMetadataModel>> {
    match json {
        Json::Array(items) => all_of(items@, |item: Json| metadata_of(item)),
        _ => None,
    }
}

/// The rows of the table of exceedence probabilities: one cell each.
pub open spec fn exceedence_rows(probabilities: Seq<i32>) -> Seq<Seq<CellModel>> {
    Seq::new(probabilities.len(), |i: int| seq![CellModel::Integer(probabilities[i])])
}

/// The table of exceedence probabilities: one row each, pruned.
pub open spec fn exceedence_table(probabilities: Seq<i32>) -> TableModel {
    table_of(exceedence_fields(), exceedence_rows(probabilities)).pruned()
}

/// The one row of the table of a forecast point.
pub open spec fn forecast_point_row(info: ForecastPointModel) -> Seq<CellModel> {
    info.descriptor + seq![CellModel::Nested(exceedence_table(info.exceedence_probabilities))]
}

/// The table of a forecast point: one row, pruned.
pub open spec fn forecast_point_table(info: ForecastPointModel) -> TableModel {
    table_of(forecast_point_columns(), seq![forecast_point_row(info)]).pruned()
}

/// The table of a reservoir: one row, pruned.
pub open spec fn reservoir_table(cells: Seq<CellModel>) -> TableModel {
    table_of(reservoir_fields(), seq![cells]).pruned()
}

/// The table of a station's elements: one row each, pruned.
pub open spec fn elements_table(rows: Seq<Seq<CellModel>>) -> TableModel {
    table_of(element_fields(), rows).pruned()
}

/// The cell of an optional part: its table, or missing.
pub open spec fn nested_or_missing(table: Option<TableModel>) -> CellModel {
    match table {
        Some(table) => CellModel::Nested(table),
        None => CellModel::Missing,
    }
}

/// The row of one station: its fields, then the cells of its forecast
/// point, its reservoir and its elements.
pub open spec fn metadata_row(record: StationMetadataModel) -> Seq<CellModel> {
    record.station + seq![
        nested_or_missing(
            match record.forecast_point {
                Some(info) => Some(forecast_point_table(info)),
                None => None,
            },
        ),
        nested_or_missing(
            match record.reservoir {
                Some(cells) => Some(reservoir_table(cells)),
                None => None,
            },
        ),
        nested_or_missing(
            match record.elements {
                Some(rows) => Some(elements_table(rows)),
                None => None,
            },
        ),
    ]
}

/// The rows of the table of station metadata: one for each record.
pub open spec fn metadata_rows(records: Seq<StationMetadataModel>) -> Seq<Seq<CellModel>> {
    Seq::new(records.len(), |i: int| metadata_row(records[i]))
}

/// The table of station metadata: one row for each record, pruned.
pub open spec fn metadata_table(records: Seq<StationMetadataModel>) -> TableModel {
    table_of(metadata_columns(), metadata_rows(records)).pruned()
}

/// The number that a row holds at a place, as its bit pattern; zero where
/// the cell there is no number.
pub open spec fn coordinate(cells: Seq<CellModel>, at: int) -> u64 {
    if 0 <= at < cells.len() {
        match cells[at] {
            CellModel::Double(bits) => bits,
            _ => 0,
        }
    } else {
        0
    }
}

/// The point of a station: its longitude and its latitude, in this order.
pub open spec fn station_point(record: StationMetadataModel) -> Point {
    Point {
        x: coordinate(record.station, LONGITUDE_AT as int),
        y: coordinate(record.station, LATITUDE_AT as int),
    }
}

/// The points of the stations, in the order of the records.
pub open spec fn station_points(records: Seq<StationMetadataModel>) -> Seq<Point> {
    Seq::new(records.len(), |i: int| station_point(records[i]))
}

/// In a record that is in order the longitude and the latitude are numbers.
pub proof fn location_is_present(record: StationMetadataModel)
    requires
        record.wf(),
    ensures
        record.station[LONGITUDE_AT as int] == CellModel::Double(station_point(record).x),
        record.station[LATITUDE_AT as int] == CellModel::Double(station_point(record).y),
        station_fields()[LONGITUDE_AT as int].name@ == "longitude"@,
        station_fields()[LATITUDE_AT as int].name@ == "latitude"@,
{
    assert(cell_fits(record.station[LONGITUDE_AT as int], station_fields()[LONGITUDE_AT as int]));
    assert(cell_fits(record.station[LATITUDE_AT as int], station_fields()[LATITUDE_AT as int]));
}

/// The table of exceedence probabilities is well formed.
pub proof fn exceedence_table_is_well_formed(probabilities: Seq<i32>)
    ensures
        exceedence_table(probabilities).wf(),
{
    let rows = exceedence_rows(probabilities);
    assert forall|i: int| 0 <= i < rows.len() implies row_fits(#[trigger] rows[i], exceedence_fields()) by {
        assert(rows[i][0] == CellModel::Integer(probabilities[i]));
    }
    table_of_is_well_formed(exceedence_fields(), rows);
    pruning_keeps_well_formed(table_of(exceedence_fields(), rows));
}

/// The table of a forecast point in order is well formed.
pub proof fn forecast_point_table_is_well_formed(info: ForecastPointModel)
    requires
        info.wf(),
    ensures
        forecast_point_table(info).wf(),
{
    let row = forecast_point_row(info);
    let columns = forecast_point_columns();
    exceedence_table_is_well_formed(info.exceedence_probabilities);
    assert forall|j: int| 0 <= j < columns.len() implies cell_fits(#[trigger] row[j], columns[j]) by {
        if j < 2 {
            assert(row[j] == info.descriptor[j]);
            assert(columns[j] == forecast_point_scalar_fields()[j]);
            assert(cell_fits(info.descriptor[j], forecast_point_scalar_fields()[j]));
        }
    }
    let rows = seq![row];
    assert forall|i: int| 0 <= i < rows.len() implies row_fits(#[trigger] rows[i], columns) by {}
    table_of_is_well_formed(columns, rows);
    pruning_keeps_well_formed(table_of(columns, rows));
}

/// The table of a reservoir in order is well formed.
pub proof fn reservoir_table_is_well_formed(cells: Seq<CellModel>)
    requires
        row_fits(cells, reservoir_fields()),
    ensures
        reservoir_table(cells).wf(),
{
    let rows = seq![cells];
    assert forall|i: int| 0 <= i < rows.len() implies row_fits(#[trigger] rows[i], reservoir_fields()) by {}
    table_of_is_well_formed(reservoir_fields(), rows);
    pruning_keeps_well_formed(table_of(reservoir_fields(), rows));
}

/// The table of a station's elements in order is well formed.
pub proof fn elements_table_is_well_formed(rows: Seq<Seq<CellModel>>)
    requires
        rows_fit(rows, element_fields()),
    ensures
        elements_table(rows).wf(),
{
    table_of_is_well_formed(element_fields(), rows);
    pruning_keeps_well_formed(table_of(element_fields(), rows));
}

/// The row of a record in order suits the columns of the metadata table.
pub proof fn metadata_row_fits(record: StationMetadataModel)
    requires
        record.wf(),
    ensures
        row_fits(metadata_row(record), metadata_columns()),
{
    let row = metadata_row(record);
    let columns = metadata_columns();
    if record.forecast_point is Some {
        forecast_point_table_is_well_formed(record.forecast_point.unwrap());
    }
    if record.reservoir is Some {
        reservoir_table_is_well_formed(record.reservoir.unwrap());
    }
    if record.elements is Some {
        elements_table_is_well_formed(record.elements.unwrap());
    }
    assert(row.len() == columns.len());
    assert forall|j: int| 0 <= j < columns.len() implies cell_fits(#[trigger] row[j], columns[j]) by {
        if j < 16 {
            assert(row[j] == record.station[j]);
            assert(columns[j] == station_fields()[j]);
            assert(cell_fits(record.station[j], station_fields()[j]));
        }
    }
}

/// The table of station metadata is well formed, and has no columns where
/// there are no records.
pub proof fn metadata_table_is_well_formed(records: Seq<StationMetadataModel>)
    requires
        metadata_wf(records),
    ensures
        metadata_table(records).wf(),
        records.len() == 0 ==> metadata_table(records) == TableModel::bare(0),
{
    let rows = metadata_rows(records);
    assert forall|i: int| 0 <= i < rows.len() implies row_fits(#[trigger] rows[i], metadata_columns()) by {
        assert(records[i].wf());
        metadata_row_fits(records[i]);
    }
    table_of_is_well_formed(metadata_columns(), rows);
    pruning_keeps_well_formed(table_of(metadata_columns(), rows));
    if records.len() == 0 {
        pruning_empties_table_without_rows(table_of(metadata_columns(), rows));
    }
}

/// The column of the table of station metadata that a place among the
/// fields of a station makes, before pruning.
pub open spec fn station_column(records: Seq<StationMetadataModel>, at: int) -> ColumnModel {
    column_of(metadata_columns(), metadata_rows(records), at)
}

/// The geometry follows the rows of the table. Where there are records, the
/// pruned table still has the columns `longitude` and `latitude`, and in
/// every row they hold the coordinates of the point of that row.
pub proof fn points_follow_the_rows(records: Seq<StationMetadataModel>)
    requires
        metadata_wf(records),
        records.len() > 0,
    ensures
        metadata_table(records).rows == station_points(records).len(),
        metadata_table(records).columns.contains(station_column(records, LONGITUDE_AT as int)),
        metadata_table(records).columns.contains(station_column(records, LATITUDE_AT as int)),
        station_column(records, LONGITUDE_AT as int).name == "longitude"@,
        station_column(records, LATITUDE_AT as int).name == "latitude"@,
        station_column(records, LONGITUDE_AT as int).cells == Seq::new(
            records.len(),
            |i: int| CellModel::Double(station_points(records)[i].x),
        ),
        station_column(records, LATITUDE_AT as int).cells == Seq::new(
            records.len(),
            |i: int| CellModel::Double(station_points(records)[i].y),
        ),
{
    let whole = table_of(metadata_columns(), metadata_rows(records));
    let longitude = station_column(records, LONGITUDE_AT as int);
    let latitude = station_column(records, LATITUDE_AT as int);
    assert(metadata_columns()[LONGITUDE_AT as int] == station_fields()[LONGITUDE_AT as int]);
    assert(metadata_columns()[LATITUDE_AT as int] == station_fields()[LATITUDE_AT as int]);
    assert forall|i: int| 0 <= i < records.len() implies {
        &&& #[trigger] longitude.cells[i] == CellModel::Double(station_points(records)[i].x)
        &&& latitude.cells[i] == CellModel::Double(station_points(records)[i].y)
    } by {
        assert(records[i].wf());
        location_is_present(records[i]);
        assert(metadata_row(records[i])[LONGITUDE_AT as int] == records[i].station[LONGITUDE_AT as int]);
        assert(metadata_row(records[i])[LATITUDE_AT as int] == records[i].station[LATITUDE_AT as int]);
    }
    assert(longitude.cells =~= Seq::new(
        records.len(),
        |i: int| CellModel::Double(station_points(records)[i].x),
    ));
    assert(latitude.cells =~= Seq::new(
        records.len(),
        |i: int| CellModel::Double(station_points(records)[i].y),
    ));
    assert(!(longitude.cells[0] is Missing));
    assert(!(latitude.cells[0] is Missing));
    assert(whole.columns[LONGITUDE_AT as int] == longitude);
    assert(whole.columns[LATITUDE_AT as int] == latitude);
    whole.columns.lemma_filter_contains(keeps(), LONGITUDE_AT as int);
    whole.columns.lemma_filter_contains(keeps(), LATITUDE_AT as int);
    location_is_present(records[0]);
}

impl ForecastPointInfo {
    /// Whether the name and forecaster suit their field list.
    pub fn is_well_formed(&self) -> (r: bool)
        ensures
            r == self@.wf(),
    {
        row_suits(&self.descriptor, &forecast_point_scalar_schema())
    }
}

impl StationMetadataRecord {
    /// Whether every part suits its field list.
    pub fn is_well_formed(&self) -> (r: bool)
        ensures
            r == self@.wf(),
    {
        let station = row_suits(&self.station, &station_schema());
        let forecast_point = match &self.forecast_point {
            Some(info) => info.is_well_formed(),
            None => true,
        };
        let reservoir = match &self.reservoir {
            Some(cells) => row_suits(cells, &reservoir_schema()),
            None => true,
        };
        let elements = match &self.elements {
            Some(rows) => rows_suit(rows, &element_schema()),
            None => true,
        };
        station && forecast_point && reservoir && elements
    }
}

/// Whether every record of a run is in order.
pub fn metadata_are_well_formed(records: &Vec<StationMetadataRecord>) -> (r: bool)
    ensures
        r == metadata_wf(metadata_model(records@)),
{
    let mut i: usize = 0;
    while i < records.len()
        invariant
            i <= records@.len(),
            forall|c: int| 0 <= c < i ==> (#[trigger] metadata_model(records@)[c]).wf(),
        decreases records@.len() - i,
    {
        if !records[i].is_well_formed() {
            assert(!metadata_model(records@)[i as int].wf());
            return false;
        }
        i += 1;
    }
    true
}

/// Decodes a forecast point.
pub fn decode_forecast_point(json: &Json) -> (r: Option<ForecastPointInfo>)
    ensures
        match r {
            Some(info) => forecast_point_of(*json) == Some(info@) && info@.wf(),
            None => forecast_point_of(*json) is None,
        },
{
    let fields = forecast_point_scalar_schema();
    let descriptor = match decode_record(json, &fields) {
        Some(cells) => cells,
        None => {
            return None;
        },
    };
    let items = match json.get("exceedenceProbabilities") {
        Some(Json::Array(items)) => items,
        _ => {
            return None;
        },
    };
    let ghost decode = |item: Json| integer_of(item);
    let mut probabilities: Vec<i32> = Vec::new();
    let mut k: usize = 0;
    while k < items.len()
        invariant
            record_of(*json, forecast_point_scalar_fields()) == Some(cells_model(descriptor@)),
            json.member("exceedenceProbabilities"@) == Some(Json::Array(*items)),
            k <= items@.len(),
            probabilities@.len() == k,
            decode == |item: Json| integer_of(item),
            forall|c: int| 0 <= c < k ==> decode(#[trigger] items@[c]) == Some(probabilities@[c]),
        decreases items@.len() - k,
    {
        match decode_integer(&items[k]) {
            Some(p) => {
                probabilities.push(p);
            },
            None => {
                assert(decode(items@[k as int]) is None);
                return None;
            },
        }
        k += 1;
    }
    proof {
        assert(all_of(items@, decode).unwrap() =~= probabilities@);
        decoded_row_fits(*json, forecast_point_scalar_fields());
    }
    Some(ForecastPointInfo { descriptor, exceedence_probabilities: probabilities })
}

/// Decodes the metadata of one station.
pub fn decode_station_metadata(json: &Json) -> (r: Option<StationMetadataRecord>)
    ensures
        match r {
            Some(record) => metadata_of(*json) == Some(record@) && record@.wf(),
            None => metadata_of(*json) is None,
        },
{
    let fields = station_schema();
    let station = match decode_record(json, &fields) {
        Some(cells) => cells,
        None => {
            return None;
        },
    };
    let forecast_point = match json.get("forecastPoint") {
        None => None,
        Some(Json::Null) => None,
        Some(value) => match decode_forecast_point(value) {
            Some(info) => Some(info),
            None => {
                return None;
            },
        },
    };
    let reservoir = match json.get("reservoirMetadata") {
        None => None,
        Some(Json::Null) => None,
        Some(value) => {
            let fields = reservoir_schema();
            match decode_record(value, &fields) {
                Some(cells) => {
                    proof {
                        decoded_row_fits(*value, reservoir_fields());
                    }
                    Some(cells)
                },
                None => {
                    return None;
                },
            }
        },
    };
    let elements = match json.get("stationElements") {
        None => None,
        Some(Json::Null) => None,
        Some(value) => {
            let fields = element_schema();
            match decode_records(value, &fields) {
                Some(rows) => {
                    proof {
                        decoded_rows_fit(*value, element_fields());
                    }
                    Some(rows)
                },
                None => {
                    return None;
                },
            }
        },
    };
    proof {
        decoded_row_fits(*json, station_fields());
    }
    Some(StationMetadataRecord { station, forecast_point, reservoir, elements })
}

/// Decodes the records of one document, in the order of the document, or
/// returns `None` where the document is not an array of station metadata.
pub fn decode_station_metadataset(json: &Json) -> (r: Option<Vec<StationMetadataRecord>>)
    ensures
        match r {
            Some(records) => metadata_set_of(*json) == Some(metadata_model(records@)) && metadata_wf(
                metadata_model(records@),
            ),
            None => metadata_set_of(*json) is None,
        },
{
    match json {
        Json::Array(items) => {
            let ghost decode = |item: Json| metadata_of(item);
            let mut records: Vec<StationMetadataRecord> = Vec::new();
            let mut i: usize = 0;
            while i < items.len()
                invariant
                    *json == Json::Array(*items),
                    i <= items@.len(),
                    records@.len() == i,
                    decode == |item: Json| metadata_of(item),
                    forall|c: int| 0 <= c < i ==> decode(#[trigger] items@[c]) == Some(records@[c]@),
                    forall|c: int| 0 <= c < i ==> (#[trigger] records@[c])@.wf(),
                decreases items@.len() - i,
            {
                match decode_station_metadata(&items[i]) {
                    Some(record) => {
                        records.push(record);
                    },
                    None => {
                        assert(decode(items@[i as int]) is None);
                        return None;
                    },
                }
                i += 1;
            }
            proof {
                assert(all_of(items@, decode).unwrap() =~= metadata_model(records@));
            }
            Some(records)
        },
        _ => None,
    }
}

/// Builds the table of a forecast point.
pub fn build_forecast_point_table(info: ForecastPointInfo) -> (table: Table)
    requires
        info@.wf(),
    ensures
        table@ == forecast_point_table(info@),
        table@.wf(),
{
    let ForecastPointInfo { descriptor, exceedence_probabilities } = info;
    let mut inner_rows: Vec<Vec<Cell>> = Vec::new();
    let mut i: usize = 0;
    while i < exceedence_probabilities.len()
        invariant
            i <= exceedence_probabilities@.len(),
            inner_rows@.len() == i,
            forall|k: int|
                0 <= k < i ==> cells_model((#[trigger] inner_rows@[k])@) == seq![
                    CellModel::Integer(exceedence_probabilities@[k]),
                ],
            forall|k: int| 0 <= k < i ==> (#[trigger] inner_rows@[k])@.len() == 1,
        decreases exceedence_probabilities@.len() - i,
    {
        let mut row: Vec<Cell> = Vec::new();
        row.push(Cell::Integer(exceedence_probabilities[i]));
        assert(cells_model(row@) =~= seq![CellModel::Integer(exceedence_probabilities@[i as int])]);
        inner_rows.push(row);
        i += 1;
    }
    assert(rows_model(inner_rows@) =~= exceedence_rows(exceedence_probabilities@));
    let inner_fields = exceedence_schema();
    let inner = drop_empty_columns(table_from_rows(&inner_fields, inner_rows));
    let mut row = descriptor;
    row.push(Cell::Nested(inner));
    assert(cells_model(row@) =~= forecast_point_row(info@));
    let mut rows: Vec<Vec<Cell>> = Vec::new();
    rows.push(row);
    assert(rows_model(rows@) =~= seq![forecast_point_row(info@)]);
    let fields = forecast_point_schema();
    proof {
        forecast_point_table_is_well_formed(info@);
    }
    drop_empty_columns(table_from_rows(&fields, rows))
}

/// Builds the table of a reservoir.
pub fn build_reservoir_table(cells: Vec<Cell>) -> (table: Table)
    requires
        row_fits(cells_model(cells@), reservoir_fields()),
    ensures
        table@ == reservoir_table(cells_model(cells@)),
        table@.wf(),
{
    let ghost model = cells_model(cells@);
    let mut rows: Vec<Vec<Cell>> = Vec::new();
    rows.push(cells);
    assert(rows_model(rows@) =~= seq![model]);
    let fields = reservoir_schema();
    proof {
        reservoir_table_is_well_formed(model);
    }
    drop_empty_columns(table_from_rows(&fields, rows))
}

/// Builds the table of a station's elements.
pub fn build_elements_table(rows: Vec<Vec<Cell>>) -> (table: Table)
    requires
        rows_fit(rows_model(rows@), element_fields()),
    ensures
        table@ == elements_table(rows_model(rows@)),
        table@.wf(),
{
    let fields = element_schema();
    proof {
        elements_table_is_well_formed(rows_model(rows@));
        assert forall|i: int| 0 <= i < rows@.len() implies (#[trigger] rows@[i])@.len() == fields@.len() by {
            assert(row_fits(rows_model(rows@)[i], element_fields()));
        }
    }
    drop_empty_columns(table_from_rows(&fields, rows))
}

/// Reads the number at a place of a row.
pub fn read_coordinate(cells: &Vec<Cell>, at: usize) -> (bits: u64)
    ensures
        bits == coordinate(cells_model(cells@), at as int),
{
    if at < cells.len() {
        match &cells[at] {
            Cell::Double(bits) => *bits,
            _ => 0,
        }
    } else {
        0
    }
}

/// Flattens station metadata into its table, with the geometry.
///
/// The table has one row for each record, in order: the fields of the
/// station, then `forecast_metadata`, `reservoir_metadata` and
/// `element_metadata`, each the pruned table of that part or a missing cell
/// where the station has none. The table itself is pruned. The geometry has
/// the point of each record in the same order, longitude first, and the
/// bounding box is the envelope of these points, empty where there are no
/// records.
pub fn flatten_metadata(records: Vec<StationMetadataRecord>) -> (out: StationTable)
    requires
        metadata_wf(metadata_model(records@)),
    ensures
        out.table@ == metadata_table(metadata_model(records@)),
        out.table@.wf(),
        records@.len() == 0 ==> out.table@ == TableModel::bare(0),
        out.geometry.crs == COORDINATE_REFERENCE_SYSTEM,
        out.geometry.points@ == station_points(metadata_model(records@)),
        out.bounding_box.crs == COORDINATE_REFERENCE_SYSTEM,
        is_envelope(out.bounding_box.extent, station_points(metadata_model(records@))),
        records@.len() == 0 <==> out.bounding_box.extent is Empty,
{
    let ghost model = metadata_model(records@);
    let mut points: Vec<Point> = Vec::new();
    let mut i: usize = 0;
    while i < records.len()
        invariant
            i <= records@.len(),
            model == metadata_model(records@),
            points@.len() == i,
            forall|k: int| 0 <= k < i ==> points@[k] == station_point(#[trigger] model[k]),
        decreases records@.len() - i,
    {
        let record = &records[i];
        assert(model[i as int] == record@);
        let x = read_coordinate(&record.station, LONGITUDE_AT);
        let y = read_coordinate(&record.station, LATITUDE_AT);
        points.push(Point { x, y });
        i += 1;
    }
    assert(points@ =~= station_points(model));
    let mut rows: Vec<Vec<Cell>> = Vec::new();
    for record in it: records.into_iter()
        invariant
            it.seq() == records@,
            model == metadata_model(records@),
            metadata_wf(model),
            rows@.len() == it.index(),
            forall|k: int| 0 <= k < it.index() ==> cells_model((#[trigger] rows@[k])@) == metadata_row(model[k]),
            forall|k: int| 0 <= k < it.index() ==> (#[trigger] rows@[k])@.len() == 19,
    {
        let ghost here = model[it.index() as int];
        assert(here == record@);
        assert(here.wf());
        let StationMetadataRecord { station, forecast_point, reservoir, elements } = record;
        let forecast_cell = match forecast_point {
            Some(info) => Cell::Nested(build_forecast_point_table(info)),
            None => Cell::Missing,
        };
        let reservoir_cell = match reservoir {
            Some(cells) => Cell::Nested(build_reservoir_table(cells)),
            None => Cell::Missing,
        };
        let elements_cell = match elements {
            Some(element_rows) => Cell::Nested(build_elements_table(element_rows)),
            None => Cell::Missing,
        };
        let mut row = station;
        row.push(forecast_cell);
        row.push(reservoir_cell);
        row.push(elements_cell);
        assert(cells_model(row@) =~= metadata_row(here));
        rows.push(row);
    }
    assert(rows_model(rows@) =~= metadata_rows(model));
    let fields = metadata_schema();
    proof {
        metadata_table_is_well_formed(model);
    }
    let table = drop_empty_columns(table_from_rows(&fields, rows));
    let bbox = bounding_box(&points);
    StationTable {
        table,
        geometry: GeometryColumn { crs: COORDINATE_REFERENCE_SYSTEM, points },
        bounding_box: bbox,
    }
}

/// The records of a batch of documents, or the refusal of the first
/// document that is not a JSON document or not an array of station metadata.
pub open spec fn metadata_batch(texts: Seq<Seq<char>>) -> Result<Seq<StationMetadataModel>, TransformError> {
    batch_of(parsed_batch(texts), |json: Json| metadata_set_of(json), texts.len() as int)
}

/// Turns a batch of station metadata responses into one table with its
/// geometry.
///
/// Every document is parsed and decoded, in order. The first document that
/// is not JSON, or not an array of station metadata, is reported, and no
/// table is made. Otherwise the records of all documents, in the order of
/// the batch, are flattened. A batch without documents gives the table
/// without rows and without columns, no points, and the empty bounding box.
pub fn parse_station_metadataset_json(documents: &Vec<String>) -> (r: Result<StationTable, TransformError>)
    ensures
        match metadata_batch(texts_of(documents@)) {
            Ok(records) => r matches Ok(out) && {
                &&& out.table@ == metadata_table(records)
                &&& out.table@.wf()
                &&& out.geometry.crs == COORDINATE_REFERENCE_SYSTEM
                &&& out.geometry.points@ == station_points(records)
                &&& out.bounding_box.crs == COORDINATE_REFERENCE_SYSTEM
                &&& is_envelope(out.bounding_box.extent, station_points(records))
            },
            Err(e) => r == Err::<StationTable, TransformError>(e),
        },
        documents@.len() == 0 ==> (r matches Ok(out) && out.table@ == TableModel::bare(0)
            && out.geometry.points@.len() == 0 && out.bounding_box.extent is Empty),
{
    let ghost texts = texts_of(documents@);
    let ghost parsed = parsed_batch(texts);
    let ghost decode = |json: Json| metadata_set_of(json);
    let mut records: Vec<StationMetadataRecord> = Vec::new();
    let mut i: usize = 0;
    assert(metadata_model(records@) =~= Seq::empty());
    while i < documents.len()
        invariant
            i <= documents@.len(),
            texts == texts_of(documents@),
            parsed == parsed_batch(texts),
            decode == |json: Json| metadata_set_of(json),
            batch_of(parsed, decode, i as int) == Ok::<Seq<StationMetadataModel>, TransformError>(
                metadata_model(records@),
            ),
            metadata_wf(metadata_model(records@)),
            i == 0 ==> records@.len() == 0,
        decreases documents@.len() - i,
    {
        let ghost before = metadata_model(records@);
        assert(parsed[i as int] == crate::json::parsed_document(documents@[i as int]@));
        let json = match parse_document(documents[i].as_str()) {
            Some(json) => json,
            None => {
                proof {
                    batch_failure_stays(parsed, decode, i + 1, documents@.len() as int);
                }
                return Err(TransformError::MalformedInput { document: i, cause: Cause::Syntax });
            },
        };
        let mut decoded = match decode_station_metadataset(&json) {
            Some(decoded) => decoded,
            None => {
                proof {
                    assert(decode(json) is None);
                    batch_failure_stays(parsed, decode, i + 1, documents@.len() as int);
                }
                return Err(TransformError::MalformedInput { document: i, cause: Cause::Shape });
            },
        };
        let ghost more = metadata_model(decoded@);
        assert(decode(json) == Some(more));
        records.append(&mut decoded);
        assert(metadata_model(records@) =~= before + more);
        i += 1;
    }
    Ok(flatten_metadata(records))
}

} // verus!

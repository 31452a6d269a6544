//! Station data: for each station the series of its elements, and for each
//! element its observations.
//!
//! The table has one row for each element of each station. The row carries
//! the station's triplet and the descriptor of the element, and holds the
//! observations of the element as one nested table.

use crate::builder::{table_from_rows, table_of, table_of_is_well_formed};
use crate::decode::{
    all_of, decode_record, decode_records, decode_text, decoded_row_fits, decoded_rows_fit, record_of,
    records_of, text_member,
};
use crate::error::{Cause, TransformError, batch_failure_stays, batch_of, parsed_batch, texts_of};
use crate::json::{Json, parse_document};
use crate::prune::{drop_empty_columns, pruning_empties_table_without_rows, pruning_keeps_well_formed};
use crate::schema::{
    cell_fits, dataset_columns, dataset_schema, element_fields, element_schema, observation_fields,
    observation_schema, row_fits, row_suits, rows_fit, rows_suit,
};
use crate::table::{Cell, CellModel, Table, TableModel, cells_model, rows_model};
use vstd::prelude::*;

verus! {

/// The series of one element at a station: the descriptor of the element
/// and its observations in their order.
#[derive(Debug, PartialEq, Eq)]
pub struct ElementSeries {
    pub element: Vec<Cell>,
    pub observations: Vec<Vec<Cell>>,
}

/// One station of a response: its triplet and the series of its elements in
/// their order.
#[derive(Debug, PartialEq, Eq)]
pub struct StationRecord {
    pub station_triplet: String,
    pub series: Vec<ElementSeries>,
}

/// The mathematical value of an element's series.
pub struct ElementSeriesModel {
    pub element: Seq<CellModel>,
    pub observations: Seq<Seq<CellModel>>,
}

/// The mathematical value of a station's record.
pub struct StationRecordModel {
    pub station_triplet: Seq<char>,
    pub series: Seq<ElementSeriesModel>,
}

impl View for ElementSeries {
    type V = ElementSeriesModel;

    open spec fn view(&self) -> ElementSeriesModel {
        ElementSeriesModel {
            element: cells_model(self.element@),
            observations: rows_model(self.observations@),
        }
    }
}

/// The values of a run of series, in order.
pub open spec fn series_model(series: Seq<ElementSeries>) -> Seq<ElementSeriesModel> {
    Seq::new(series.len(), |k: int| series[k]@)
}

impl View for StationRecord {
    type V = StationRecordModel;

    open spec fn view(&self) -> StationRecordModel {
        StationRecordModel { station_triplet: self.station_triplet@, series: series_model(self.series@) }
    }
}

/// The values of a run of station records, in order.
pub open spec fn stations_model(stations: Seq<StationRecord>) -> Seq<StationRecordModel> {
    Seq::new(stations.len(), |i: int| stations[i]@)
}

impl ElementSeriesModel {
    /// The descriptor and every observation suit their field lists.
    pub open spec fn wf(self) -> bool {
        &&& row_fits(self.element, element_fields())
        &&& rows_fit(self.observations, observation_fields())
    }
}

impl StationRecordModel {
    /// Every series of the station is in order.
    pub open spec fn wf(self) -> bool {
        forall|k: int| 0 <= k < self.series.len() ==> (#[trigger] self.series[k]).wf()
    }
}

/// Every station of a run is in order.
pub open spec fn stations_wf(stations: Seq<StationRecordModel>) -> bool {
    forall|i: int| 0 <= i < stations.len() ==> (#[trigger] stations[i]).wf()
}

/// The series that a value describes: an object with the descriptor of the
/// element under `stationElement` and the array of its observations under
/// `values`.
pub open spec fn series_of(json: Json) -> Option<ElementSeriesModel> {
    match (json.member("stationElement"@), json.member("values"@)) {
        (Some(element), Some(values)) => match (
            record_of(element, element_fields()),
            records_of(values, observation_fields()),
        ) {
            (Some(element), Some(observations)) => Some(ElementSeriesModel { element, observations }),
            _ => None,
        },
        _ => None,
    }
}

/// The station that a value describes: an object with the triplet as a text
/// under `stationTriplet` and the array of its series under `data`.
pub open spec fn station_of(json: Json) -> Option<StationRecordModel> {
    match (text_member(json, "stationTriplet"@), json.member("data"@)) {
        (Some(station_triplet), Some(Json::Array(items))) => match all_of(
            items@,
            |item: Json| series_of(item),
        ) {
            Some(series) => Some(StationRecordModel { station_triplet, series }),
            None => None,
        },
        _ => None,
    }
}

/// The stations that a document describes: an array of stations.
pub open spec fn stations_of(json: Json) -> Option<Seq<StationRecordModel>> {
    match json {
        Json::Array(items) => all_of(items@, |item: Json| station_of(item)),
        _ => None,
    }
}

/// The table of an element's observations: one row each, pruned.
pub open spec fn observations_table(observations: Seq<Seq<CellModel>>) -> TableModel {
    table_of(observation_fields(), observations).pruned()
}

/// The row of one series: the station's triplet, the descriptor of the
/// element, and the table of the observations.
pub open spec fn series_row(station_triplet: Seq<char>, series: ElementSeriesModel) -> Seq<CellModel> {
    seq![CellModel::Text(station_triplet)] + series.element + seq![
        CellModel::Nested(observations_table(series.observations)),
    ]
}

/// The rows of one station: one for each of its series, in order.
pub open spec fn station_rows(station: StationRecordModel) -> Seq<Seq<CellModel>> {
    Seq::new(station.series.len(), |k: int| series_row(station.station_triplet, station.series[k]))
}

/// The rows of the first `n` stations: those of each station in turn.
pub open spec fn dataset_rows(stations: Seq<StationRecordModel>, n: int) -> Seq<Seq<CellModel>>
    decreases n,
{
    if n <= 0 {
        Seq::empty()
    } else {
        dataset_rows(stations, n - 1) + station_rows(stations[n - 1])
    }
}

/// The table of station data: the rows of all stations under the columns of
/// the data set, pruned.
pub open spec fn dataset_table(stations: Seq<StationRecordModel>) -> TableModel {
    table_of(dataset_columns(), dataset_rows(stations, stations.len() as int)).pruned()
}

/// The table of an element's observations is well formed.
pub proof fn observations_table_is_well_formed(observations: Seq<Seq<CellModel>>)
    requires
        rows_fit(observations, observation_fields()),
    ensures
        observations_table(observations).wf(),
{
    table_of_is_well_formed(observation_fields(), observations);
    pruning_keeps_well_formed(table_of(observation_fields(), observations));
}

/// The row of a series in order suits the columns of the data set.
pub proof fn series_row_fits(station_triplet: Seq<char>, series: ElementSeriesModel)
    requires
        series.wf(),
    ensures
        row_fits(series_row(station_triplet, series), dataset_columns()),
{
    let row = series_row(station_triplet, series);
    let columns = dataset_columns();
    observations_table_is_well_formed(series.observations);
    assert(row.len() == columns.len());
    assert forall|j: int| 0 <= j < columns.len() implies cell_fits(#[trigger] row[j], columns[j]) by {
        if 1 <= j < 11 {
            assert(row[j] == series.element[j - 1]);
            assert(columns[j] == element_fields()[j - 1]);
            assert(cell_fits(series.element[j - 1], element_fields()[j - 1]));
        }
    }
}

/// The rows of stations in order suit the columns of the data set.
pub proof fn dataset_rows_fit(stations: Seq<StationRecordModel>, n: int)
    requires
        stations_wf(stations),
        0 <= n <= stations.len(),
    ensures
        rows_fit(dataset_rows(stations, n), dataset_columns()),
    decreases n,
{
    if n > 0 {
        dataset_rows_fit(stations, n - 1);
        let front = dataset_rows(stations, n - 1);
        let station = stations[n - 1];
        let rows = dataset_rows(stations, n);
        assert(station.wf());
        assert forall|i: int| 0 <= i < rows.len() implies row_fits(#[trigger] rows[i], dataset_columns()) by {
            if i < front.len() {
                assert(rows[i] == front[i]);
            } else {
                let k = i - front.len();
                assert(rows[i] == station_rows(station)[k]);
                assert(station.series[k].wf());
                series_row_fits(station.station_triplet, station.series[k]);
            }
        }
    }
}

/// The table of station data is well formed, and has no columns where there
/// are no stations.
pub proof fn dataset_table_is_well_formed(stations: Seq<StationRecordModel>)
    requires
        stations_wf(stations),
    ensures
        dataset_table(stations).wf(),
        stations.len() == 0 ==> dataset_table(stations) == TableModel::bare(0),
{
    let rows = dataset_rows(stations, stations.len() as int);
    dataset_rows_fit(stations, stations.len() as int);
    table_of_is_well_formed(dataset_columns(), rows);
    pruning_keeps_well_formed(table_of(dataset_columns(), rows));
    if stations.len() == 0 {
        pruning_empties_table_without_rows(table_of(dataset_columns(), rows));
    }
}

impl ElementSeries {
    /// Whether the descriptor and every observation suit their field lists.
    pub fn is_well_formed(&self) -> (r: bool)
        ensures
            r == self@.wf(),
    {
        row_suits(&self.element, &element_schema()) && rows_suit(&self.observations, &observation_schema())
    }
}

impl StationRecord {
    /// Whether every series of the station is in order.
    pub fn is_well_formed(&self) -> (r: bool)
        ensures
            r == self@.wf(),
    {
        let mut k: usize = 0;
        while k < self.series.len()
            invariant
                k <= self.series@.len(),
                forall|c: int| 0 <= c < k ==> (#[trigger] self@.series[c]).wf(),
            decreases self.series@.len() - k,
        {
            if !self.series[k].is_well_formed() {
                assert(!self@.series[k as int].wf());
                return false;
            }
            k += 1;
        }
        true
    }
}

/// Whether every station of a run is in order.
pub fn stations_are_well_formed(stations: &Vec<StationRecord>) -> (r: bool)
    ensures
        r == stations_wf(stations_model(stations@)),
{
    let mut i: usize = 0;
    while i < stations.len()
        invariant
            i <= stations@.len(),
            forall|c: int| 0 <= c < i ==> (#[trigger] stations_model(stations@)[c]).wf(),
        decreases stations@.len() - i,
    {
        if !stations[i].is_well_formed() {
            assert(!stations_model(stations@)[i as int].wf());
            return false;
        }
        i += 1;
    }
    true
}

/// Decodes the series of one element.
pub fn decode_series(json: &Json) -> (r: Option<ElementSeries>)
    ensures
        match r {
            Some(series) => series_of(*json) == Some(series@) && series@.wf(),
            None => series_of(*json) is None,
        },
{
    let element_json = match json.get("stationElement") {
        Some(value) => value,
        None => {
            return None;
        },
    };
    let values_json = match json.get("values") {
        Some(value) => value,
        None => {
            return None;
        },
    };
    let element_list = element_schema();
    let element = match decode_record(element_json, &element_list) {
        Some(cells) => cells,
        None => {
            return None;
        },
    };
    let observation_list = observation_schema();
    let observations = match decode_records(values_json, &observation_list) {
        Some(rows) => rows,
        None => {
            return None;
        },
    };
    proof {
        decoded_row_fits(*element_json, element_fields());
        decoded_rows_fit(*values_json, observation_fields());
    }
    Some(ElementSeries { element, observations })
}

/// Decodes one station.
pub fn decode_station(json: &Json) -> (r: Option<StationRecord>)
    ensures
        match r {
            Some(station) => station_of(*json) == Some(station@) && station@.wf(),
            None => station_of(*json) is None,
        },
{
    let station_triplet = match decode_text(json, "stationTriplet") {
        Some(text) => text,
        None => {
            return None;
        },
    };
    let items = match json.get("data") {
        Some(Json::Array(items)) => items,
        _ => {
            return None;
        },
    };
    let ghost decode = |item: Json| series_of(item);
    let mut series: Vec<ElementSeries> = Vec::new();
    let mut k: usize = 0;
    while k < items.len()
        invariant
            text_member(*json, "stationTriplet"@) == Some(station_triplet@),
            json.member("data"@) == Some(Json::Array(*items)),
            k <= items@.len(),
            series@.len() == k,
            decode == |item: Json| series_of(item),
            forall|c: int| 0 <= c < k ==> decode(#[trigger] items@[c]) == Some(series@[c]@),
            forall|c: int| 0 <= c < k ==> (#[trigger] series@[c])@.wf(),
        decreases items@.len() - k,
    {
        match decode_series(&items[k]) {
            Some(one) => {
                series.push(one);
            },
            None => {
                assert(decode(items@[k as int]) is None);
                return None;
            },
        }
        k += 1;
    }
    let station = StationRecord { station_triplet, series };
    proof {
        assert(all_of(items@, decode).unwrap() =~= station@.series);
    }
    Some(station)
}

/// Decodes the stations of one document, in the order of the document, or
/// returns `None` where the document is not an array of stations.
pub fn decode_station_dataset(json: &Json) -> (r: Option<Vec<StationRecord>>)
    ensures
        match r {
            Some(stations) => stations_of(*json) == Some(stations_model(stations@)) && stations_wf(
                stations_model(stations@),
            ),
            None => stations_of(*json) is None,
        },
{
    match json {
        Json::Array(items) => {
            let ghost decode = |item: Json| station_of(item);
            let mut stations: Vec<StationRecord> = Vec::new();
            let mut i: usize = 0;
            while i < items.len()
                invariant
                    *json == Json::Array(*items),
                    i <= items@.len(),
                    stations@.len() == i,
                    decode == |item: Json| station_of(item),
                    forall|c: int| 0 <= c < i ==> decode(#[trigger] items@[c]) == Some(stations@[c]@),
                    forall|c: int| 0 <= c < i ==> (#[trigger] stations@[c])@.wf(),
                decreases items@.len() - i,
            {
                match decode_station(&items[i]) {
                    Some(station) => {
                        stations.push(station);
                    },
                    None => {
                        assert(decode(items@[i as int]) is None);
                        return None;
                    },
                }
                i += 1;
            }
            proof {
                assert(all_of(items@, decode).unwrap() =~= stations_model(stations@));
            }
            Some(stations)
        },
        _ => None,
    }
}

/// Flattens station records into the table of station data.
///
/// The table has one row for each series of each station, stations and
/// series in their order. The columns are the station's triplet, the fields
/// of the element's descriptor, and `element_values`, whose cell is the
/// pruned table of the element's observations: a table without rows where
/// the element has none. The table itself is pruned.
pub fn flatten_dataset(stations: Vec<StationRecord>) -> (table: Table)
    requires
        stations_wf(stations_model(stations@)),
    ensures
        table@ == dataset_table(stations_model(stations@)),
        table@.wf(),
        stations@.len() == 0 ==> table@ == TableModel::bare(0),
{
    let observation_list = observation_schema();
    let ghost model = stations_model(stations@);
    let mut rows: Vec<Vec<Cell>> = Vec::new();
    assert(rows_model(rows@) =~= dataset_rows(model, 0));
    for station in it: stations.into_iter()
        invariant
            it.seq() == stations@,
            model == stations_model(stations@),
            stations_wf(model),
            observation_list@ == observation_fields(),
            rows_model(rows@) == dataset_rows(model, it.index() as int),
            forall|i: int| 0 <= i < rows@.len() ==> (#[trigger] rows@[i])@.len() == 12,
    {
        let ghost done = it.index() as int;
        let ghost before = rows_model(rows@);
        let ghost here = model[done];
        assert(here == station@);
        assert(here.wf());
        let StationRecord { station_triplet, series } = station;
        assert(before + station_rows(here).take(0) =~= before);
        for one in jt: series.into_iter()
            invariant
                jt.seq() == series@,
                here.station_triplet == station_triplet@,
                here.series == series_model(series@),
                here.wf(),
                observation_list@ == observation_fields(),
                rows_model(rows@) == before + station_rows(here).take(jt.index() as int),
                forall|i: int| 0 <= i < rows@.len() ==> (#[trigger] rows@[i])@.len() == 12,
        {
            let ghost at = jt.index() as int;
            let ghost so_far = rows_model(rows@);
            assert(one@ == here.series[at]);
            assert(here.series[at].wf());
            let ElementSeries { element, observations } = one;
            let mut element = element;
            let ghost element_cells = cells_model(element@);
            assert forall|i: int| 0 <= i < observations@.len() implies (#[trigger] observations@[i])@.len()
                == observation_list@.len() by {
                assert(row_fits(rows_model(observations@)[i], observation_fields()));
            }
            let nested = drop_empty_columns(table_from_rows(&observation_list, observations));
            let mut row: Vec<Cell> = Vec::new();
            row.push(Cell::Text(station_triplet.clone()));
            row.append(&mut element);
            row.push(Cell::Nested(nested));
            assert(cells_model(row@) =~= series_row(here.station_triplet, here.series[at]));
            rows.push(row);
            assert(rows_model(rows@) =~= so_far.push(series_row(here.station_triplet, here.series[at])));
            assert(station_rows(here).take(at + 1) =~= station_rows(here).take(at).push(
                station_rows(here)[at],
            ));
            assert(rows_model(rows@) =~= before + station_rows(here).take(at + 1));
        }
        assert(station_rows(here).take(station_rows(here).len() as int) =~= station_rows(here));
    }
    let fields = dataset_schema();
    proof {
        dataset_table_is_well_formed(model);
    }
    drop_empty_columns(table_from_rows(&fields, rows))
}

/// The stations of a batch of documents, or the refusal of the first
/// document that is not a JSON document or not an array of stations.
pub open spec fn dataset_batch(texts: Seq<Seq<char>>) -> Result<Seq<StationRecordModel>, TransformError> {
    batch_of(parsed_batch(texts), |json: Json| stations_of(json), texts.len() as int)
}

/// Turns a batch of station data responses into one table.
///
/// Every document is parsed and decoded, in order. The first document that
/// is not JSON, or not an array of stations, is reported, and no table is
/// made. Otherwise the stations of all documents, in the order of the batch,
/// are flattened into one pruned table. A batch without documents gives the
/// table without rows and without columns.
pub fn parse_station_dataset_json(documents: &Vec<String>) -> (r: Result<Table, TransformError>)
    ensures
        match dataset_batch(texts_of(documents@)) {
            Ok(stations) => r matches Ok(table) && table@ == dataset_table(stations) && table@.wf(),
            Err(e) => r == Err::<Table, TransformError>(e),
        },
        documents@.len() == 0 ==> (r matches Ok(table) && table@ == TableModel::bare(0)),
{
    let ghost texts = texts_of(documents@);
    let ghost parsed = parsed_batch(texts);
    let ghost decode = |json: Json| stations_of(json);
    let mut stations: Vec<StationRecord> = Vec::new();
    let mut i: usize = 0;
    assert(stations_model(stations@) =~= Seq::empty());
    while i < documents.len()
        invariant
            i <= documents@.len(),
            texts == texts_of(documents@),
            parsed == parsed_batch(texts),
            decode == |json: Json| stations_of(json),
            batch_of(parsed, decode, i as int) == Ok::<Seq<StationRecordModel>, TransformError>(
                stations_model(stations@),
            ),
            stations_wf(stations_model(stations@)),
        decreases documents@.len() - i,
    {
        let ghost before = stations_model(stations@);
        assert(parsed[i as int] == crate::json::parsed_document(documents@[i as int]@));
        let json = match parse_document(documents[i].as_str()) {
            Some(json) => json,
            None => {
                proof {
                    batch_failure_stays(parsed, decode, i + 1, documents@.len() as int);
                }
                return Err(TransformError::MalformedInput { document: i, cause: Cause::Syntax });
            },
        };
        let mut decoded = match decode_station_dataset(&json) {
            Some(decoded) => decoded,
            None => {
                proof {
                    assert(decode(json) is None);
                    batch_failure_stays(parsed, decode, i + 1, documents@.len() as int);
                }
                return Err(TransformError::MalformedInput { document: i, cause: Cause::Shape });
            },
        };
        let ghost more = stations_model(decoded@);
        assert(decode(json) == Some(more));
        stations.append(&mut decoded);
        assert(stations_model(stations@) =~= before + more);
        i += 1;
    }
    proof {
        if documents@.len() == 0 {
            assert(stations@.len() == 0);
        }
    }
    Ok(flatten_dataset(stations))
}

} // verus!

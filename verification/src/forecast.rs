//! Forecasts: for each station and forecast point the forecasts of its
//! elements, and for each forecast its values by probability.
//!
//! The table has one row for each forecast of each station. The row carries
//! the station's triplet and the name of the forecast point, and holds the
//! values of the forecast as a nested table of two columns: the label of the
//! probability and the value forecast for it.

use crate::builder::{table_from_rows, table_of, table_of_is_well_formed};
use crate::decode::{
    all_of, decode_record, decode_scalar, decode_text, decoded_row_fits, record_of, scalar_of, text_member,
};
use crate::error::{Cause, TransformError, batch_failure_stays, batch_of, parsed_batch, texts_of};
use crate::json::{Json, Member, parse_document};
use crate::prune::{drop_empty_columns, pruning_empties_table_without_rows, pruning_keeps_well_formed};
use crate::schema::{
    cell_fits, forecast_columns, forecast_fields, forecast_scalar_fields, forecast_scalar_schema,
    forecast_schema, forecast_table_schema, forecast_value_fields, forecast_value_schema, row_fits,
    row_suits, rows_fit, rows_suit,
};
use crate::table::{Cell, CellModel, ColumnKind, Table, TableModel, cells_model, rows_model};
use vstd::prelude::*;
use vstd::string::StringExecFns;

verus! {

/// One forecast of an element: its fields, the period among them, and its
/// values, one row for each probability.
#[derive(Debug, PartialEq, Eq)]
pub struct ForecastSeries {
    pub descriptor: Vec<Cell>,
    pub values: Vec<Vec<Cell>>,
}

/// The forecasts of one station and forecast point.
#[derive(Debug, PartialEq, Eq)]
pub struct StationForecast {
    pub station_triplet: String,
    pub forecast_point_name: String,
    pub series: Vec<ForecastSeries>,
}

/// The mathematical value of a forecast.
pub struct ForecastSeriesModel {
    pub descriptor: Seq<CellModel>,
    pub values: Seq<Seq<CellModel>>,
}

/// The mathematical value of a station's forecasts.
pub struct StationForecastModel {
    pub station_triplet: Seq<char>,
    pub forecast_point_name: Seq<char>,
    pub series: Seq<ForecastSeriesModel>,
}

impl View for ForecastSeries {
    type V = ForecastSeriesModel;

    open spec fn view(&self) -> ForecastSeriesModel {
        ForecastSeriesModel { descriptor: cells_model(self.descriptor@), values: rows_model(self.values@) }
    }
}

/// The values of a run of forecasts, in order.
pub open spec fn forecast_series_model(series: Seq<ForecastSeries>) -> Seq<ForecastSeriesModel> {
    Seq::new(series.len(), |k: int| series[k]@)
}

impl View for StationForecast {
    type V = StationForecastModel;

    open spec fn view(&self) -> StationForecastModel {
        StationForecastModel {
            station_triplet: self.station_triplet@,
            forecast_point_name: self.forecast_point_name@,
            series: forecast_series_model(self.series@),
        }
    }
}

/// The values of a run of station forecasts, in order.
pub open spec fn forecasts_model(stations: Seq<StationForecast>) -> Seq<StationForecastModel> {
    Seq::new(stations.len(), |i: int| stations[i]@)
}

impl ForecastSeriesModel {
    /// The fields and every value suit their field lists.
    pub open spec fn wf(self) -> bool {
        &&& row_fits(self.descriptor, forecast_fields())
        &&& rows_fit(self.values, forecast_value_fields())
    }
}

impl StationForecastModel {
    /// Every forecast of the station is in order.
    pub open spec fn wf(self) -> bool {
        forall|k: int| 0 <= k < self.series.len() ==> (#[trigger] self.series[k]).wf()
    }
}

/// Every station of a run is in order.
pub open spec fn forecasts_wf(stations: Seq<StationForecastModel>) -> bool {
    forall|i: int| 0 <= i < stations.len() ==> (#[trigger] stations[i]).wf()
}

/// The first `n` texts, with a colon between each two.
pub open spec fn joined(parts: Seq<Seq<char>>, n: int) -> Seq<char>
    decreases n,
{
    if n <= 0 {
        Seq::empty()
    } else if n == 1 {
        parts[0]
    } else {
        joined(parts, n - 1) + seq![':'] + parts[n - 1]
    }
}

/// The text that a value is, where it is one.
pub open spec fn text_of(json: Json) -> Option<Seq<char>> {
    match json {
        Json::Text(s) => Some(s@),
        _ => None,
    }
}

/// The period that a value describes: an array of texts, joined by colons.
pub open spec fn period_of(json: Json) -> Option<Seq<char>> {
    match json {
        Json::Array(items) => match all_of(items@, |item: Json| text_of(item)) {
            Some(parts) => Some(joined(parts, parts.len() as int)),
            None => None,
        },
        _ => None,
    }
}

/// The row that a member of the values makes: its key as the label of the
/// probability, and its value, which is a number.
pub open spec fn forecast_value_of(member: Member) -> Option<Seq<CellModel>> {
    match scalar_of(member.value, ColumnKind::Double) {
        Some(cell) => Some(seq![CellModel::Text(member.key@), cell]),
        None => None,
    }
}

/// The rows that a value makes as the values of a forecast: it is an object,
/// and each member makes a row, in the order of the members.
pub open spec fn forecast_values_of(json: Json) -> Option<Seq<Seq<CellModel>>> {
    match json {
        Json::Object(members) => if forall|i: int|
            0 <= i < members@.len() ==> forecast_value_of(#[trigger] members@[i]) is Some {
            Some(Seq::new(members@.len(), |i: int| forecast_value_of(members@[i]).unwrap()))
        } else {
            None
        },
        _ => None,
    }
}

/// The forecast that a value describes: an object with the scalar fields of
/// a forecast, the period under `forecastPeriod` and the values under
/// `forecastValues`.
pub open spec fn forecast_of(json: Json) -> Option<ForecastSeriesModel> {
    match (
        record_of(json, forecast_scalar_fields()),
        json.member("forecastPeriod"@),
        json.member("forecastValues"@),
    ) {
        (Some(scalars), Some(period), Some(values)) => match (period_of(period), forecast_values_of(values)) {
            (Some(period), Some(values)) => Some(
                ForecastSeriesModel { descriptor: scalars.insert(1, CellModel::Text(period)), values },
            ),
            _ => None,
        },
        _ => None,
    }
}

/// The station that a value describes: an object with the triplet under
/// `stationTriplet`, the name of the forecast point under
/// `forecastPointName`, and the array of its forecasts under `data`.
pub open spec fn station_forecast_of(json: Json) -> Option<StationForecastModel> {
    match (
        text_member(json, "stationTriplet"@),
        text_member(json, "forecastPointName"@),
        json.member("data"@),
    ) {
        (Some(station_triplet), Some(forecast_point_name), Some(Json::Array(items))) => match all_of(
            items@,
            |item: Json| forecast_of(item),
        ) {
            Some(series) => Some(StationForecastModel { station_triplet, forecast_point_name, series }),
            None => None,
        },
        _ => None,
    }
}

/// The stations that a document describes: an array of station forecasts.
pub open spec fn forecast_set_of(json: Json) -> Option<Seq<StationForecastModel>> {
    match json {
        Json::Array(items) => all_of(items@, |item: Json| station_forecast_of(item)),
        _ => None,
    }
}

/// The table of a forecast's values: one row each, pruned.
pub open spec fn forecast_values_table(values: Seq<Seq<CellModel>>) -> TableModel {
    table_of(forecast_value_fields(), values).pruned()
}

/// The row of one forecast: the station's triplet, the name of the forecast
/// point, the fields of the forecast, and the table of its values.
pub open spec fn forecast_row(
    station_triplet: Seq<char>,
    forecast_point_name: Seq<char>,
    series: ForecastSeriesModel,
) -> Seq<CellModel> {
    seq![CellModel::Text(station_triplet), CellModel::Text(forecast_point_name)] + series.descriptor + seq![
        CellModel::Nested(forecast_values_table(series.values)),
    ]
}

/// The rows of one station: one for each of its forecasts, in order.
pub open spec fn station_forecast_rows(station: StationForecastModel) -> Seq<Seq<CellModel>> {
    Seq::new(
        station.series.len(),
        |k: int| forecast_row(station.station_triplet, station.forecast_point_name, station.series[k]),
    )
}

/// The rows of the first `n` stations: those of each station in turn.
pub open spec fn forecast_rows(stations: Seq<StationForecastModel>, n: int) -> Seq<Seq<CellModel>>
    decreases n,
{
    if n <= 0 {
        Seq::empty()
    } else {
        forecast_rows(stations, n - 1) + station_forecast_rows(stations[n - 1])
    }
}

/// The table of forecasts: the rows of all stations under the columns of
/// the forecast table, pruned.
pub open spec fn forecast_table(stations: Seq<StationForecastModel>) -> TableModel {
    table_of(forecast_columns(), forecast_rows(stations, stations.len() as int)).pruned()
}

/// The table of a forecast's values is well formed.
pub proof fn forecast_values_table_is_well_formed(values: Seq<Seq<CellModel>>)
    requires
        rows_fit(values, forecast_value_fields()),
    ensures
        forecast_values_table(values).wf(),
{
    table_of_is_well_formed(forecast_value_fields(), values);
    pruning_keeps_well_formed(table_of(forecast_value_fields(), values));
}

/// The row of a forecast in order suits the columns of the forecast table.
pub proof fn forecast_row_fits(
    station_triplet: Seq<char>,
    forecast_point_name: Seq<char>,
    series: ForecastSeriesModel,
)
    requires
        series.wf(),
    ensures
        row_fits(forecast_row(station_triplet, forecast_point_name, series), forecast_columns()),
{
    let row = forecast_row(station_triplet, forecast_point_name, series);
    let columns = forecast_columns();
    forecast_values_table_is_well_formed(series.values);
    assert(forecast_fields().len() == 7);
    assert(row.len() == columns.len());
    assert forall|j: int| 0 <= j < columns.len() implies cell_fits(#[trigger] row[j], columns[j]) by {
        if 2 <= j < 9 {
            assert(row[j] == series.descriptor[j - 2]);
            assert(columns[j] == forecast_fields()[j - 2]);
            assert(cell_fits(series.descriptor[j - 2], forecast_fields()[j - 2]));
        }
    }
}

/// The rows of stations in order suit the columns of the forecast table.
pub proof fn forecast_rows_fit(stations: Seq<StationForecastModel>, n: int)
    requires
        forecasts_wf(stations),
        0 <= n <= stations.len(),
    ensures
        rows_fit(forecast_rows(stations, n), forecast_columns()),
    decreases n,
{
    if n > 0 {
        forecast_rows_fit(stations, n - 1);
        let front = forecast_rows(stations, n - 1);
        let station = stations[n - 1];
        let rows = forecast_rows(stations, n);
        assert(station.wf());
        assert forall|i: int| 0 <= i < rows.len() implies row_fits(#[trigger] rows[i], forecast_columns()) by {
            if i < front.len() {
                assert(rows[i] == front[i]);
            } else {
                let k = i - front.len();
                assert(rows[i] == station_forecast_rows(station)[k]);
                assert(station.series[k].wf());
                forecast_row_fits(station.station_triplet, station.forecast_point_name, station.series[k]);
            }
        }
    }
}

/// The table of forecasts is well formed, and has no columns where there
/// are no stations.
pub proof fn forecast_table_is_well_formed(stations: Seq<StationForecastModel>)
    requires
        forecasts_wf(stations),
    ensures
        forecast_table(stations).wf(),
        stations.len() == 0 ==> forecast_table(stations) == TableModel::bare(0),
{
    let rows = forecast_rows(stations, stations.len() as int);
    forecast_rows_fit(stations, stations.len() as int);
    table_of_is_well_formed(forecast_columns(), rows);
    pruning_keeps_well_formed(table_of(forecast_columns(), rows));
    if stations.len() == 0 {
        pruning_empties_table_without_rows(table_of(forecast_columns(), rows));
    }
}

/// The fields of a decoded forecast, with the period put in, suit the field
/// list of a forecast.
pub proof fn forecast_descriptor_fits(scalars: Seq<CellModel>, period: Seq<char>)
    requires
        row_fits(scalars, forecast_scalar_fields()),
    ensures
        row_fits(scalars.insert(1, CellModel::Text(period)), forecast_fields()),
{
    let row = scalars.insert(1, CellModel::Text(period));
    let fields = forecast_fields();
    assert(forecast_scalar_fields().len() == 6);
    assert(row.len() == 7 && fields.len() == 7);
    assert forall|j: int| 0 <= j < fields.len() implies cell_fits(#[trigger] row[j], fields[j]) by {
        if j == 0 {
            assert(row[0] == scalars[0]);
            assert(fields[0] == forecast_scalar_fields()[0]);
            assert(cell_fits(scalars[0], forecast_scalar_fields()[0]));
        } else if j >= 2 {
            assert(row[j] == scalars[j - 1]);
            assert(fields[j] == forecast_scalar_fields()[j - 1]);
            assert(cell_fits(scalars[j - 1], forecast_scalar_fields()[j - 1]));
        }
    }
}

impl ForecastSeries {
    /// Whether the fields and every value suit their field lists.
    pub fn is_well_formed(&self) -> (r: bool)
        ensures
            r == self@.wf(),
    {
        row_suits(&self.descriptor, &forecast_schema()) && rows_suit(&self.values, &forecast_value_schema())
    }
}

impl StationForecast {
    /// Whether every forecast of the station is in order.
    pub fn is_well_formed(&self) -> (r: bool)
        ensures
            r == self@.wf(),
    {
        let mut k: usize = 0;
        while k < self.series.len()
            invariant
                k <= self.series@.len(),
                forall|c: int| 0 <= c < k ==> (#[trigger] self@.series[c]).wf(),
            decreases self.series@.len() - k,
        {
            if !self.series[k].is_well_formed() {
                assert(!self@.series[k as int].wf());
                return false;
            }
            k += 1;
        }
        true
    }
}

/// Whether every station of a run is in order.
pub fn forecasts_are_well_formed(stations: &Vec<StationForecast>) -> (r: bool)
    ensures
        r == forecasts_wf(forecasts_model(stations@)),
{
    let mut i: usize = 0;
    while i < stations.len()
        invariant
            i <= stations@.len(),
            forall|c: int| 0 <= c < i ==> (#[trigger] forecasts_model(stations@)[c]).wf(),
        decreases stations@.len() - i,
    {
        if !stations[i].is_well_formed() {
            assert(!forecasts_model(stations@)[i as int].wf());
            return false;
        }
        i += 1;
    }
    true
}

/// Decodes the period of a forecast.
pub fn decode_period(json: &Json) -> (r: Option<String>)
    ensures
        match r {
            Some(period) => period_of(*json) == Some(period@),
            None => period_of(*json) is None,
        },
{
    match json {
        Json::Array(items) => {
            let ghost decode = |item: Json| text_of(item);
            let ghost mut parts: Seq<Seq<char>> = Seq::empty();
            let mut period = String::new();
            let mut k: usize = 0;
            while k < items.len()
                invariant
                    *json == Json::Array(*items),
                    k <= items@.len(),
                    parts.len() == k,
                    decode == |item: Json| text_of(item),
                    forall|c: int| 0 <= c < k ==> decode(#[trigger] items@[c]) == Some(parts[c]),
                    period@ == joined(parts, k as int),
                decreases items@.len() - k,
            {
                match &items[k] {
                    Json::Text(part) => {
                        let ghost before = parts;
                        if k > 0 {
                            proof {
                                reveal_strlit(":");
                            }
                            period.append(":");
                            assert(":"@ =~= seq![':']);
                        }
                        period.append(part.as_str());
                        proof {
                            parts = parts.push(part@);
                            joined_ignores_the_rest(before, parts, k as int);
                        }
                    },
                    _ => {
                        assert(decode(items@[k as int]) is None);
                        return None;
                    },
                }
                k += 1;
            }
            proof {
                assert(all_of(items@, decode).unwrap() =~= parts);
            }
            Some(period)
        },
        _ => None,
    }
}

/// Joining the first `n` texts looks at no text after them.
pub proof fn joined_ignores_the_rest(parts: Seq<Seq<char>>, others: Seq<Seq<char>>, n: int)
    requires
        0 <= n <= parts.len(),
        n <= others.len(),
        forall|i: int| 0 <= i < n ==> parts[i] == others[i],
    ensures
        joined(parts, n) == joined(others, n),
    decreases n,
{
    if n > 1 {
        joined_ignores_the_rest(parts, others, n - 1);
    }
}

/// Decodes the values of a forecast.
pub fn decode_forecast_values(json: &Json) -> (r: Option<Vec<Vec<Cell>>>)
    ensures
        match r {
            Some(rows) => forecast_values_of(*json) == Some(rows_model(rows@)) && rows_fit(
                rows_model(rows@),
                forecast_value_fields(),
            ),
            None => forecast_values_of(*json) is None,
        },
{
    match json {
        Json::Object(members) => {
            let mut rows: Vec<Vec<Cell>> = Vec::new();
            let mut i: usize = 0;
            while i < members.len()
                invariant
                    *json == Json::Object(*members),
                    i <= members@.len(),
                    rows@.len() == i,
                    forall|c: int|
                        0 <= c < i ==> forecast_value_of(#[trigger] members@[c]) == Some(
                            cells_model(rows@[c]@),
                        ),
                decreases members@.len() - i,
            {
                let member = &members[i];
                match decode_scalar(&member.value, ColumnKind::Double) {
                    Some(cell) => {
                        let mut row: Vec<Cell> = Vec::new();
                        row.push(Cell::Text(member.key.clone()));
                        row.push(cell);
                        assert(cells_model(row@) =~= forecast_value_of(*member).unwrap());
                        rows.push(row);
                    },
                    None => {
                        assert(forecast_value_of(members@[i as int]) is None);
                        return None;
                    },
                }
                i += 1;
            }
            proof {
                assert(forecast_values_of(*json).unwrap() =~= rows_model(rows@));
                assert forall|c: int| 0 <= c < rows@.len() implies row_fits(
                    #[trigger] rows_model(rows@)[c],
                    forecast_value_fields(),
                ) by {
                    assert(forecast_value_of(members@[c]) == Some(cells_model(rows@[c]@)));
                }
            }
            Some(rows)
        },
        _ => None,
    }
}

/// Decodes one forecast.
pub fn decode_forecast(json: &Json) -> (r: Option<ForecastSeries>)
    ensures
        match r {
            Some(series) => forecast_of(*json) == Some(series@) && series@.wf(),
            None => forecast_of(*json) is None,
        },
{
    let fields = forecast_scalar_schema();
    let mut descriptor = match decode_record(json, &fields) {
        Some(cells) => cells,
        None => {
            return None;
        },
    };
    let period_json = match json.get("forecastPeriod") {
        Some(value) => value,
        None => {
            return None;
        },
    };
    let values_json = match json.get("forecastValues") {
        Some(value) => value,
        None => {
            return None;
        },
    };
    let period = match decode_period(period_json) {
        Some(period) => period,
        None => {
            return None;
        },
    };
    let values = match decode_forecast_values(values_json) {
        Some(rows) => rows,
        None => {
            return None;
        },
    };
    let ghost scalars = cells_model(descriptor@);
    proof {
        decoded_row_fits(*json, forecast_scalar_fields());
        forecast_descriptor_fits(scalars, period@);
    }
    descriptor.insert(1, Cell::Text(period));
    assert(cells_model(descriptor@) =~= scalars.insert(1, CellModel::Text(period@)));
    Some(ForecastSeries { descriptor, values })
}

/// Decodes one station with its forecasts.
pub fn decode_station_forecast(json: &Json) -> (r: Option<StationForecast>)
    ensures
        match r {
            Some(station) => station_forecast_of(*json) == Some(station@) && station@.wf(),
            None => station_forecast_of(*json) is None,
        },
{
    let station_triplet = match decode_text(json, "stationTriplet") {
        Some(text) => text,
        None => {
            return None;
        },
    };
    let forecast_point_name = match decode_text(json, "forecastPointName") {
        Some(text) => text,
        None => {
            return None;
        },
    };
    let items = match json.get("data") {
        Some(Json::Array(items)) => items,
        _ => {
            return None;
        },
    };
    let ghost decode = |item: Json| forecast_of(item);
    let mut series: Vec<ForecastSeries> = Vec::new();
    let mut k: usize = 0;
    while k < items.len()
        invariant
            text_member(*json, "stationTriplet"@) == Some(station_triplet@),
            text_member(*json, "forecastPointName"@) == Some(forecast_point_name@),
            json.member("data"@) == Some(Json::Array(*items)),
            k <= items@.len(),
            series@.len() == k,
            decode == |item: Json| forecast_of(item),
            forall|c: int| 0 <= c < k ==> decode(#[trigger] items@[c]) == Some(series@[c]@),
            forall|c: int| 0 <= c < k ==> (#[trigger] series@[c])@.wf(),
        decreases items@.len() - k,
    {
        match decode_forecast(&items[k]) {
            Some(one) => {
                series.push(one);
            },
            None => {
                assert(decode(items@[k as int]) is None);
                return None;
            },
        }
        k += 1;
    }
    let station = StationForecast { station_triplet, forecast_point_name, series };
    proof {
        assert(all_of(items@, decode).unwrap() =~= station@.series);
    }
    Some(station)
}

/// Decodes the stations of one document, in the order of the document, or
/// returns `None` where the document is not an array of station forecasts.
pub fn decode_station_forecast_set(json: &Json) -> (r: Option<Vec<StationForecast>>)
    ensures
        match r {
            Some(stations) => forecast_set_of(*json) == Some(forecasts_model(stations@)) && forecasts_wf(
                forecasts_model(stations@),
            ),
            None => forecast_set_of(*json) is None,
        },
{
    match json {
        Json::Array(items) => {
            let ghost decode = |item: Json| station_forecast_of(item);
            let mut stations: Vec<StationForecast> = Vec::new();
            let mut i: usize = 0;
            while i < items.len()
                invariant
                    *json == Json::Array(*items),
                    i <= items@.len(),
                    stations@.len() == i,
                    decode == |item: Json| station_forecast_of(item),
                    forall|c: int| 0 <= c < i ==> decode(#[trigger] items@[c]) == Some(stations@[c]@),
                    forall|c: int| 0 <= c < i ==> (#[trigger] stations@[c])@.wf(),
                decreases items@.len() - i,
            {
                match decode_station_forecast(&items[i]) {
                    Some(station) => {
                        stations.push(station);
                    },
                    None => {
                        assert(decode(items@[i as int]) is None);
                        return None;
                    },
                }
                i += 1;
            }
            proof {
                assert(all_of(items@, decode).unwrap() =~= forecasts_model(stations@));
            }
            Some(stations)
        },
        _ => None,
    }
}

/// Flattens station forecasts into the table of forecasts.
///
/// The table has one row for each forecast of each station, stations and
/// forecasts in their order. The columns are the station's triplet, the name
/// of the forecast point, the fields of the forecast, and `forecast_values`,
/// whose cell is the pruned table of the forecast's values. The table itself
/// is pruned.
pub fn flatten_forecasts(stations: Vec<StationForecast>) -> (table: Table)
    requires
        forecasts_wf(forecasts_model(stations@)),
    ensures
        table@ == forecast_table(forecasts_model(stations@)),
        table@.wf(),
        stations@.len() == 0 ==> table@ == TableModel::bare(0),
{
    let value_list = forecast_value_schema();
    let ghost model = forecasts_model(stations@);
    let mut rows: Vec<Vec<Cell>> = Vec::new();
    assert(rows_model(rows@) =~= forecast_rows(model, 0));
    for station in it: stations.into_iter()
        invariant
            it.seq() == stations@,
            model == forecasts_model(stations@),
            forecasts_wf(model),
            value_list@ == forecast_value_fields(),
            rows_model(rows@) == forecast_rows(model, it.index() as int),
            forall|i: int| 0 <= i < rows@.len() ==> (#[trigger] rows@[i])@.len() == 10,
    {
        let ghost done = it.index() as int;
        let ghost before = rows_model(rows@);
        let ghost here = model[done];
        assert(here == station@);
        assert(here.wf());
        let StationForecast { station_triplet, forecast_point_name, series } = station;
        assert(before + station_forecast_rows(here).take(0) =~= before);
        for one in jt: series.into_iter()
            invariant
                jt.seq() == series@,
                here.station_triplet == station_triplet@,
                here.forecast_point_name == forecast_point_name@,
                here.series == forecast_series_model(series@),
                here.wf(),
                value_list@ == forecast_value_fields(),
                rows_model(rows@) == before + station_forecast_rows(here).take(jt.index() as int),
                forall|i: int| 0 <= i < rows@.len() ==> (#[trigger] rows@[i])@.len() == 10,
        {
            let ghost at = jt.index() as int;
            let ghost so_far = rows_model(rows@);
            assert(one@ == here.series[at]);
            assert(here.series[at].wf());
            let ForecastSeries { descriptor, values } = one;
            let mut descriptor = descriptor;
            assert forall|i: int| 0 <= i < values@.len() implies (#[trigger] values@[i])@.len()
                == value_list@.len() by {
                assert(row_fits(rows_model(values@)[i], forecast_value_fields()));
            }
            assert(forecast_fields().len() == 7);
            let nested = drop_empty_columns(table_from_rows(&value_list, values));
            let mut row: Vec<Cell> = Vec::new();
            row.push(Cell::Text(station_triplet.clone()));
            row.push(Cell::Text(forecast_point_name.clone()));
            row.append(&mut descriptor);
            row.push(Cell::Nested(nested));
            let ghost expected = forecast_row(here.station_triplet, here.forecast_point_name, here.series[at]);
            assert(cells_model(row@) =~= expected);
            rows.push(row);
            assert(rows_model(rows@) =~= so_far.push(expected));
            assert(station_forecast_rows(here).take(at + 1) =~= station_forecast_rows(here).take(at).push(
                station_forecast_rows(here)[at],
            ));
            assert(rows_model(rows@) =~= before + station_forecast_rows(here).take(at + 1));
        }
        assert(station_forecast_rows(here).take(station_forecast_rows(here).len() as int)
            =~= station_forecast_rows(here));
    }
    let fields = forecast_table_schema();
    proof {
        forecast_table_is_well_formed(model);
    }
    drop_empty_columns(table_from_rows(&fields, rows))
}

/// The stations of a batch of documents, or the refusal of the first
/// document that is not a JSON document or not an array of station
/// forecasts.
pub open spec fn forecast_batch(texts: Seq<Seq<char>>) -> Result<Seq<StationForecastModel>, TransformError> {
    batch_of(parsed_batch(texts), |json: Json| forecast_set_of(json), texts.len() as int)
}

/// Turns a batch of forecast responses into one table.
///
/// Every document is parsed and decoded, in order. The first document that
/// is not JSON, or not an array of station forecasts, is reported, and no
/// table is made. Otherwise the forecasts of all documents, in the order of
/// the batch, are flattened into one pruned table. A batch without documents
/// gives the table without rows and without columns.
pub fn parse_station_forecast_set_json(documents: &Vec<String>) -> (r: Result<Table, TransformError>)
    ensures
        match forecast_batch(texts_of(documents@)) {
            Ok(stations) => r matches Ok(table) && table@ == forecast_table(stations) && table@.wf(),
            Err(e) => r == Err::<Table, TransformError>(e),
        },
        documents@.len() == 0 ==> (r matches Ok(table) && table@ == TableModel::bare(0)),
{
    let ghost texts = texts_of(documents@);
    let ghost parsed = parsed_batch(texts);
    let ghost decode = |json: Json| forecast_set_of(json);
    let mut stations: Vec<StationForecast> = Vec::new();
    let mut i: usize = 0;
    assert(forecasts_model(stations@) =~= Seq::empty());
    while i < documents.len()
        invariant
            i <= documents@.len(),
            texts == texts_of(documents@),
            parsed == parsed_batch(texts),
            decode == |json: Json| forecast_set_of(json),
            batch_of(parsed, decode, i as int) == Ok::<Seq<StationForecastModel>, TransformError>(
                forecasts_model(stations@),
            ),
            forecasts_wf(forecasts_model(stations@)),
            i == 0 ==> stations@.len() == 0,
        decreases documents@.len() - i,
    {
        let ghost before = forecasts_model(stations@);
        assert(parsed[i as int] == crate::json::parsed_document(documents@[i as int]@));
        let json = match parse_document(documents[i].as_str()) {
            Some(json) => json,
            None => {
                proof {
                    batch_failure_stays(parsed, decode, i + 1, documents@.len() as int);
                }
                return Err(TransformError::MalformedInput { document: i, cause: Cause::Syntax });
            },
        };
        let mut decoded = match decode_station_forecast_set(&json) {
            Some(decoded) => decoded,
            None => {
                proof {
                    assert(decode(json) is None);
                    batch_failure_stays(parsed, decode, i + 1, documents@.len() as int);
                }
                return Err(TransformError::MalformedInput { document: i, cause: Cause::Shape });
            },
        };
        let ghost more = forecasts_model(decoded@);
        assert(decode(json) == Some(more));
        stations.append(&mut decoded);
        assert(forecasts_model(stations@) =~= before + more);
        i += 1;
    }
    Ok(flatten_forecasts(stations))
}

} // verus!

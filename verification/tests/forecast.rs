use awdb::error::{Cause, TransformError};
use awdb::forecast::{decode_station_forecast_set, flatten_forecasts, parse_station_forecast_set_json};
use awdb::json::parse_document;
use awdb::table::{Cell, ColumnKind, Table};

fn forecast(element: &str, period: &str, normal: &str, values: &str) -> String {
    format!(
        "{{\"elementCode\":\"{}\",\"forecastPeriod\":{},\"forecastStatus\":\"final\",\
         \"issueDate\":\"2024-03-01\",\"periodNormal\":{},\"publicationDate\":\"2024-03-05\",\
         \"unitCode\":\"kac_ft\",\"forecastValues\":{}}}",
        element, period, normal, values
    )
}

fn station(triplet: &str, point: &str, forecasts: &[String]) -> String {
    format!(
        "{{\"stationTriplet\":\"{}\",\"forecastPointName\":\"{}\",\"data\":[{}]}}",
        triplet,
        point,
        forecasts.join(",")
    )
}

fn text(s: &str) -> Cell {
    Cell::Text(s.to_string())
}

fn names(table: &Table) -> Vec<String> {
    table.columns.iter().map(|c| c.name.clone()).collect()
}

#[test]
fn forecast_flattens_to_one_row_per_forecast() {
    let document = format!(
        "[{},{}]",
        station(
            "13185000:ID:USGS",
            "Boise R nr Twin Springs",
            &[
                forecast("SRVO", "[\"04-01\",\"07-31\"]", "610.5", "{\"50\":600,\"10\":800.5,\"90\":420}"),
                forecast("SRVO", "[\"04-01\",\"09-30\"]", "null", "{\"50\":650}"),
            ]
        ),
        station("13186000:ID:USGS", "SF Boise", &[forecast("SRVO", "[\"03-01\"]", "1", "{}")])
    );
    let table = parse_station_forecast_set_json(&vec![document]).unwrap();
    assert_eq!(table.rows, 3);
    assert_eq!(
        names(&table),
        vec![
            "station_triplet",
            "forecast_point_name",
            "element_code",
            "forecast_period",
            "forecast_status",
            "issue_date",
            "period_normal",
            "publication_date",
            "unit_code",
            "forecast_values"
        ]
    );
    assert_eq!(
        table.column("station_triplet").unwrap().cells,
        vec![text("13185000:ID:USGS"), text("13185000:ID:USGS"), text("13186000:ID:USGS")]
    );
    assert_eq!(
        table.column("forecast_point_name").unwrap().cells,
        vec![text("Boise R nr Twin Springs"), text("Boise R nr Twin Springs"), text("SF Boise")]
    );
    assert_eq!(
        table.column("forecast_period").unwrap().cells,
        vec![text("04-01:07-31"), text("04-01:09-30"), text("03-01")]
    );
    assert_eq!(
        table.column("period_normal").unwrap().cells,
        vec![Cell::Double(610.5f64.to_bits()), Cell::Missing, Cell::Double(1.0f64.to_bits())]
    );
}

#[test]
fn forecast_values_come_in_the_order_of_their_labels() {
    let document = format!(
        "[{}]",
        station(
            "1:ID:USGS",
            "P",
            &[forecast("SRVO", "[\"04-01\",\"07-31\"]", "1", "{\"50\":600,\"10\":800.5,\"90\":420}")]
        )
    );
    let table = parse_station_forecast_set_json(&vec![document]).unwrap();
    let values = table.column("forecast_values").unwrap();
    assert_eq!(values.kind, ColumnKind::Nested);
    let inner = match &values.cells[0] {
        Cell::Nested(inner) => inner,
        other => panic!("not a table: {:?}", other),
    };
    assert_eq!(inner.rows, 3);
    assert_eq!(names(inner), vec!["probability", "value"]);
    assert_eq!(inner.columns[0].cells, vec![text("10"), text("50"), text("90")]);
    assert_eq!(
        inner.columns[1].cells,
        vec![
            Cell::Double(800.5f64.to_bits()),
            Cell::Double(600.0f64.to_bits()),
            Cell::Double(420.0f64.to_bits())
        ]
    );
}

#[test]
fn forecast_without_values_has_a_table_without_rows() {
    let document = format!("[{}]", station("1:ID:USGS", "P", &[forecast("SRVO", "[]", "1", "{}")]));
    let table = parse_station_forecast_set_json(&vec![document]).unwrap();
    assert_eq!(
        table.column("forecast_values").unwrap().cells,
        vec![Cell::Nested(Table { rows: 0, columns: vec![] })]
    );
    assert_eq!(table.column("forecast_period").unwrap().cells, vec![text("")]);
}

#[test]
fn forecast_refuses_a_value_that_is_no_number() {
    let document =
        format!("[{}]", station("1:ID:USGS", "P", &[forecast("SRVO", "[\"a\"]", "1", "{\"50\":null}")]));
    let r = parse_station_forecast_set_json(&vec![document]);
    assert_eq!(r, Err(TransformError::MalformedInput { document: 0, cause: Cause::Shape }));
}

#[test]
fn forecast_refuses_a_period_that_is_no_list_of_texts() {
    let document =
        format!("[{}]", station("1:ID:USGS", "P", &[forecast("SRVO", "[\"a\",1]", "1", "{\"50\":1}")]));
    let r = parse_station_forecast_set_json(&vec![document]);
    assert_eq!(r, Err(TransformError::MalformedInput { document: 0, cause: Cause::Shape }));
    let document =
        format!("[{}]", station("1:ID:USGS", "P", &[forecast("SRVO", "\"04-01\"", "1", "{\"50\":1}")]));
    let r = parse_station_forecast_set_json(&vec![document]);
    assert_eq!(r, Err(TransformError::MalformedInput { document: 0, cause: Cause::Shape }));
}

#[test]
fn forecast_reports_the_document_that_is_not_json() {
    let good = format!("[{}]", station("1:ID:USGS", "P", &[]));
    let r = parse_station_forecast_set_json(&vec![good.clone(), good, "{\"a\":}".to_string()]);
    assert_eq!(r, Err(TransformError::MalformedInput { document: 2, cause: Cause::Syntax }));
}

#[test]
fn forecast_refuses_a_document_that_is_no_array() {
    let r = parse_station_forecast_set_json(&vec![station("1:ID:USGS", "P", &[])]);
    assert_eq!(r, Err(TransformError::MalformedInput { document: 0, cause: Cause::Shape }));
}

#[test]
fn empty_forecast_batch_gives_table_without_rows_and_columns() {
    let table = parse_station_forecast_set_json(&vec![]).unwrap();
    assert_eq!(table, Table { rows: 0, columns: vec![] });
}

#[test]
fn forecast_batch_joins_the_documents_in_order() {
    let first = format!("[{}]", station("1:ID:USGS", "P", &[forecast("SRVO", "[\"a\"]", "1", "{}")]));
    let second = format!("[{}]", station("2:ID:USGS", "Q", &[forecast("JDAY", "[\"b\"]", "2", "{}")]));
    let table = parse_station_forecast_set_json(&vec![first, second]).unwrap();
    assert_eq!(table.column("element_code").unwrap().cells, vec![text("SRVO"), text("JDAY")]);
}

#[test]
fn decoded_forecasts_are_typed_records() {
    let document = format!(
        "[{}]",
        station("1:ID:USGS", "P", &[forecast("SRVO", "[\"04-01\",\"07-31\"]", "1", "{\"70\":3,\"30\":4}")])
    );
    let json = parse_document(&document).unwrap();
    let stations = decode_station_forecast_set(&json).unwrap();
    assert_eq!(stations.len(), 1);
    assert_eq!(stations[0].forecast_point_name, "P");
    assert_eq!(stations[0].series[0].descriptor.len(), 7);
    assert_eq!(stations[0].series[0].descriptor[0], text("SRVO"));
    assert_eq!(stations[0].series[0].descriptor[1], text("04-01:07-31"));
    assert_eq!(stations[0].series[0].descriptor[2], text("final"));
    assert_eq!(
        stations[0].series[0].values,
        vec![
            vec![text("30"), Cell::Double(4.0f64.to_bits())],
            vec![text("70"), Cell::Double(3.0f64.to_bits())]
        ]
    );
    let table = flatten_forecasts(stations);
    assert_eq!(table.rows, 1);
    for column in &table.columns {
        assert_eq!(column.cells.len(), 1);
    }
}

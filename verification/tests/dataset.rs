use awdb::dataset::{
    decode_station_dataset, flatten_dataset, parse_station_dataset_json, ElementSeries, StationRecord,
};
use awdb::error::{Cause, TransformError};
use awdb::json::parse_document;
use awdb::table::{Cell, ColumnKind, Table};

fn element(code: &str, ordinal: i32) -> String {
    format!(
        "{{\"elementCode\":\"{}\",\"ordinal\":{},\"durationName\":\"DAILY\",\"dataPrecision\":1,\
         \"storedUnitCode\":\"in\",\"originalUnitCode\":\"in\",\"beginDate\":\"1990-10-01 00:00\",\
         \"endDate\":\"2100-01-01 00:00\",\"derivedData\":false}}",
        code, ordinal
    )
}

fn two_elements_three_observations() -> String {
    let values = "[{\"date\":\"2024-01-01\",\"value\":10.5},{\"date\":\"2024-01-02\",\"value\":11},\
                  {\"date\":\"2024-01-03\",\"value\":12.25,\"qcFlag\":\"V\"}]";
    format!(
        "[{{\"stationTriplet\":\"ABC:1:SNOW\",\"data\":[{{\"stationElement\":{},\"values\":{}}},\
         {{\"stationElement\":{},\"values\":{}}}]}}]",
        element("SNWD", 1),
        values,
        element("WTEQ", 2),
        values
    )
}

fn names(table: &Table) -> Vec<String> {
    table.columns.iter().map(|c| c.name.clone()).collect()
}

fn text(s: &str) -> Cell {
    Cell::Text(s.to_string())
}

#[test]
fn dataset_flattens_to_one_row_per_element() {
    let table = parse_station_dataset_json(&vec![two_elements_three_observations()]).unwrap();
    assert_eq!(table.rows, 2);
    let triplet = table.column("station_triplet").unwrap();
    assert_eq!(triplet.cells, vec![text("ABC:1:SNOW"), text("ABC:1:SNOW")]);
    let values = table.column("element_values").unwrap();
    assert_eq!(values.kind, ColumnKind::Nested);
    assert_eq!(values.cells.len(), 2);
    for cell in &values.cells {
        match cell {
            Cell::Nested(inner) => assert_eq!(inner.rows, 3),
            other => panic!("not a table: {:?}", other),
        }
    }
}

#[test]
fn dataset_columns_stand_in_declared_order_without_the_empty_ones() {
    let table = parse_station_dataset_json(&vec![two_elements_three_observations()]).unwrap();
    assert_eq!(
        names(&table),
        vec![
            "station_triplet",
            "element_code",
            "ordinal",
            "duration_name",
            "data_precision",
            "stored_unit_code",
            "original_unit_code",
            "begin_date",
            "end_date",
            "derived_data",
            "element_values"
        ]
    );
    assert_eq!(table.column("element_code").unwrap().cells, vec![text("SNWD"), text("WTEQ")]);
    assert_eq!(table.column("ordinal").unwrap().cells, vec![Cell::Integer(1), Cell::Integer(2)]);
    assert_eq!(
        table.column("derived_data").unwrap().cells,
        vec![Cell::Logical(false), Cell::Logical(false)]
    );
    assert!(table.column("height_depth").is_none());
}

#[test]
fn observations_keep_only_the_columns_that_hold_values() {
    let table = parse_station_dataset_json(&vec![two_elements_three_observations()]).unwrap();
    let inner = match &table.column("element_values").unwrap().cells[0] {
        Cell::Nested(inner) => inner,
        other => panic!("not a table: {:?}", other),
    };
    assert_eq!(names(inner), vec!["date", "value", "qc_flag"]);
    assert_eq!(
        inner.column("value").unwrap().cells,
        vec![
            Cell::Double(10.5f64.to_bits()),
            Cell::Double(11.0f64.to_bits()),
            Cell::Double(12.25f64.to_bits())
        ]
    );
    assert_eq!(
        inner.column("qc_flag").unwrap().cells,
        vec![Cell::Missing, Cell::Missing, text("V")]
    );
}

#[test]
fn every_column_has_one_cell_for_each_row() {
    let table = parse_station_dataset_json(&vec![
        two_elements_three_observations(),
        two_elements_three_observations(),
    ])
    .unwrap();
    assert_eq!(table.rows, 4);
    for column in &table.columns {
        assert_eq!(column.cells.len(), table.rows);
        for cell in &column.cells {
            if let Cell::Nested(inner) = cell {
                for inner_column in &inner.columns {
                    assert_eq!(inner_column.cells.len(), inner.rows);
                }
            }
        }
    }
}

#[test]
fn element_without_observations_has_a_table_without_rows() {
    let document = format!(
        "[{{\"stationTriplet\":\"X:1:SNTL\",\"data\":[{{\"stationElement\":{},\"values\":[]}}]}}]",
        element("PREC", 1)
    );
    let table = parse_station_dataset_json(&vec![document]).unwrap();
    assert_eq!(table.rows, 1);
    let values = table.column("element_values").unwrap();
    assert_eq!(values.cells, vec![Cell::Nested(Table { rows: 0, columns: vec![] })]);
}

#[test]
fn station_without_elements_gives_no_row() {
    let document = "[{\"stationTriplet\":\"X:1:SNTL\",\"data\":[]}]".to_string();
    let table = parse_station_dataset_json(&vec![document]).unwrap();
    assert_eq!(table, Table { rows: 0, columns: vec![] });
}

#[test]
fn empty_dataset_batch_gives_table_without_rows_and_columns() {
    let table = parse_station_dataset_json(&vec![]).unwrap();
    assert_eq!(table, Table { rows: 0, columns: vec![] });
}

#[test]
fn dataset_batch_keeps_the_order_of_the_documents() {
    let first = format!(
        "[{{\"stationTriplet\":\"A:1:SNTL\",\"data\":[{{\"stationElement\":{},\"values\":[]}}]}}]",
        element("PREC", 1)
    );
    let second = format!(
        "[{{\"stationTriplet\":\"B:2:SNTL\",\"data\":[{{\"stationElement\":{},\"values\":[]}}]}}]",
        element("TAVG", 1)
    );
    let table = parse_station_dataset_json(&vec![first, second]).unwrap();
    assert_eq!(table.column("station_triplet").unwrap().cells, vec![text("A:1:SNTL"), text("B:2:SNTL")]);
    assert_eq!(table.column("element_code").unwrap().cells, vec![text("PREC"), text("TAVG")]);
}

#[test]
fn dataset_reports_the_document_that_is_not_json() {
    let r = parse_station_dataset_json(&vec![two_elements_three_observations(), "[{".to_string()]);
    assert_eq!(r, Err(TransformError::MalformedInput { document: 1, cause: Cause::Syntax }));
}

#[test]
fn dataset_reports_the_first_document_of_the_wrong_shape() {
    let r = parse_station_dataset_json(&vec![
        "[]".to_string(),
        "{\"stationTriplet\":\"A:1:SNTL\"}".to_string(),
        "not json".to_string(),
    ]);
    assert_eq!(r, Err(TransformError::MalformedInput { document: 1, cause: Cause::Shape }));
}

#[test]
fn dataset_refuses_a_station_without_its_triplet() {
    let r = parse_station_dataset_json(&vec!["[{\"data\":[]}]".to_string()]);
    assert_eq!(r, Err(TransformError::MalformedInput { document: 0, cause: Cause::Shape }));
}

#[test]
fn dataset_refuses_a_required_field_that_is_null() {
    let bad = element("SNWD", 1).replace("\"DAILY\"", "null");
    let document =
        format!("[{{\"stationTriplet\":\"A:1:SNTL\",\"data\":[{{\"stationElement\":{},\"values\":[]}}]}}]", bad);
    let r = parse_station_dataset_json(&vec![document]);
    assert_eq!(r, Err(TransformError::MalformedInput { document: 0, cause: Cause::Shape }));
}

#[test]
fn dataset_refuses_a_fraction_where_an_integer_is_declared() {
    let bad = element("SNWD", 1).replace("\"dataPrecision\":1", "\"dataPrecision\":1.5");
    let document =
        format!("[{{\"stationTriplet\":\"A:1:SNTL\",\"data\":[{{\"stationElement\":{},\"values\":[]}}]}}]", bad);
    let r = parse_station_dataset_json(&vec![document]);
    assert_eq!(r, Err(TransformError::MalformedInput { document: 0, cause: Cause::Shape }));
}

#[test]
fn dataset_refuses_an_integer_beyond_32_bits() {
    let bad = element("SNWD", 1).replace("\"dataPrecision\":1", "\"dataPrecision\":2147483648");
    let document =
        format!("[{{\"stationTriplet\":\"A:1:SNTL\",\"data\":[{{\"stationElement\":{},\"values\":[]}}]}}]", bad);
    let r = parse_station_dataset_json(&vec![document]);
    assert_eq!(r, Err(TransformError::MalformedInput { document: 0, cause: Cause::Shape }));
}

#[test]
fn dataset_passes_over_members_that_are_not_declared() {
    let with_more = element("SNWD", 1).replace("{\"elementCode\"", "{\"remark\":[1,2],\"elementCode\"");
    let document = format!(
        "[{{\"stationTriplet\":\"A:1:SNTL\",\"more\":true,\"data\":[{{\"stationElement\":{},\"values\":[]}}]}}]",
        with_more
    );
    let table = parse_station_dataset_json(&vec![document]).unwrap();
    assert_eq!(table.rows, 1);
    assert!(table.column("remark").is_none());
}

#[test]
fn optional_height_depth_is_kept_where_one_row_has_it() {
    let with_depth = element("SMS", 1).replace("\"ordinal\":1", "\"ordinal\":1,\"heightDepth\":-20");
    let document = format!(
        "[{{\"stationTriplet\":\"A:1:SCAN\",\"data\":[{{\"stationElement\":{},\"values\":[]}},\
         {{\"stationElement\":{},\"values\":[]}}]}}]",
        with_depth,
        element("PREC", 1)
    );
    let table = parse_station_dataset_json(&vec![document]).unwrap();
    assert_eq!(table.column("height_depth").unwrap().cells, vec![Cell::Integer(-20), Cell::Missing]);
    assert_eq!(table.columns[3].name, "height_depth");
}

#[test]
fn decoded_stations_are_typed_records() {
    let json = parse_document(&two_elements_three_observations()).unwrap();
    let stations = decode_station_dataset(&json).unwrap();
    assert_eq!(stations.len(), 1);
    assert_eq!(stations[0].station_triplet, "ABC:1:SNOW");
    assert_eq!(stations[0].series.len(), 2);
    assert_eq!(stations[0].series[0].element.len(), 10);
    assert_eq!(stations[0].series[0].element[0], text("SNWD"));
    assert_eq!(stations[0].series[0].element[2], Cell::Missing);
    assert_eq!(stations[0].series[1].observations.len(), 3);
    assert_eq!(stations[0].series[1].observations[0].len(), 12);
    assert_eq!(stations[0].series[1].observations[0][0], text("2024-01-01"));
    assert_eq!(stations[0].series[1].observations[1][5], Cell::Double(11.0f64.to_bits()));
}

#[test]
fn flatten_takes_records_made_by_hand() {
    let descriptor = vec![
        text("WTEQ"),
        Cell::Integer(1),
        Cell::Missing,
        text("DAILY"),
        Cell::Integer(1),
        text("in"),
        text("in"),
        text("1990-10-01"),
        text("2100-01-01"),
        Cell::Logical(true),
    ];
    let mut observation: Vec<Cell> = Vec::new();
    for _ in 0..12 {
        observation.push(Cell::Missing);
    }
    observation[3] = Cell::Integer(2024);
    let stations = vec![StationRecord {
        station_triplet: "302:OR:SNTL".to_string(),
        series: vec![ElementSeries { element: descriptor, observations: vec![observation] }],
    }];
    let table = flatten_dataset(stations);
    assert_eq!(table.rows, 1);
    assert_eq!(table.column("derived_data").unwrap().cells, vec![Cell::Logical(true)]);
    match &table.column("element_values").unwrap().cells[0] {
        Cell::Nested(inner) => {
            assert_eq!(names(inner), vec!["year"]);
            assert_eq!(inner.columns[0].cells, vec![Cell::Integer(2024)]);
        },
        other => panic!("not a table: {:?}", other),
    }
}

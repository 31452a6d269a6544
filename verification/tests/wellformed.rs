use awdb::dataset::{stations_are_well_formed, ElementSeries, StationRecord};
use awdb::forecast::{forecasts_are_well_formed, ForecastSeries, StationForecast};
use awdb::json::parse_document;
use awdb::metadata::{
    build_elements_table, build_forecast_point_table, build_reservoir_table, decode_station_metadataset,
    metadata_are_well_formed, ForecastPointInfo,
};
use awdb::reference::{build_reference_table, decode_reference, ReferenceKind};
use awdb::schema::{cell_suits, dco_schema, element_schema, reservoir_schema, row_suits, rows_suit, Field};
use awdb::table::{Cell, Column, ColumnKind, Table};

fn text(s: &str) -> Cell {
    Cell::Text(s.to_string())
}

fn column(name: &str, kind: ColumnKind, cells: Vec<Cell>) -> Column {
    Column { name: name.to_string(), kind, cells }
}

fn descriptor() -> Vec<Cell> {
    vec![
        text("WTEQ"),
        Cell::Integer(1),
        Cell::Missing,
        text("DAILY"),
        Cell::Integer(1),
        text("in"),
        text("in"),
        text("1990-10-01"),
        text("2100-01-01"),
        Cell::Logical(true),
    ]
}

#[test]
fn table_checks_lengths_kinds_and_nested_tables() {
    let good = Table {
        rows: 2,
        columns: vec![
            column("a", ColumnKind::Integer, vec![Cell::Integer(1), Cell::Missing]),
            column(
                "b",
                ColumnKind::Nested,
                vec![
                    Cell::Nested(Table { rows: 0, columns: vec![column("x", ColumnKind::Text, vec![])] }),
                    Cell::Missing,
                ],
            ),
        ],
    };
    assert!(good.is_well_formed());
    assert!(Table::bare(5).is_well_formed());
    let short = Table { rows: 2, columns: vec![column("a", ColumnKind::Integer, vec![Cell::Integer(1)])] };
    assert!(!short.is_well_formed());
    let mixed =
        Table { rows: 2, columns: vec![column("a", ColumnKind::Integer, vec![Cell::Integer(1), text("2")])] };
    assert!(!mixed.is_well_formed());
    let nested_in_scalar = Table {
        rows: 1,
        columns: vec![column("a", ColumnKind::Text, vec![Cell::Nested(Table::bare(0))])],
    };
    assert!(!nested_in_scalar.is_well_formed());
    let bad_inside = Table {
        rows: 1,
        columns: vec![column(
            "a",
            ColumnKind::Nested,
            vec![Cell::Nested(Table { rows: 3, columns: vec![column("x", ColumnKind::Text, vec![])] })],
        )],
    };
    assert!(!bad_inside.is_well_formed());
}

#[test]
fn cell_suits_its_field_by_kind_and_presence() {
    let needed = Field { key: "k", name: "k", kind: ColumnKind::Double, required: true };
    let allowed = Field { key: "k", name: "k", kind: ColumnKind::Double, required: false };
    assert!(cell_suits(&Cell::Double(0), &needed));
    assert!(!cell_suits(&Cell::Missing, &needed));
    assert!(cell_suits(&Cell::Missing, &allowed));
    assert!(!cell_suits(&Cell::Integer(0), &allowed));
    assert!(!cell_suits(&text("0"), &needed));
}

#[test]
fn row_suits_its_field_list_cell_by_cell() {
    let fields = element_schema();
    assert!(row_suits(&descriptor(), &fields));
    let mut short = descriptor();
    short.pop();
    assert!(!row_suits(&short, &fields));
    let mut wrong = descriptor();
    wrong[1] = text("1");
    assert!(!row_suits(&wrong, &fields));
    let mut absent = descriptor();
    absent[0] = Cell::Missing;
    assert!(!row_suits(&absent, &fields));
    assert!(rows_suit(&vec![descriptor(), descriptor()], &fields));
    assert!(!rows_suit(&vec![descriptor(), wrong], &fields));
    assert!(rows_suit(&vec![], &fields));
}

#[test]
fn station_records_are_checked_through_all_their_series() {
    let mut observation: Vec<Cell> = Vec::new();
    for _ in 0..12 {
        observation.push(Cell::Missing);
    }
    let good = StationRecord {
        station_triplet: "1:OR:SNTL".to_string(),
        series: vec![ElementSeries { element: descriptor(), observations: vec![observation] }],
    };
    assert!(good.is_well_formed());
    let bad = StationRecord {
        station_triplet: "1:OR:SNTL".to_string(),
        series: vec![ElementSeries { element: descriptor(), observations: vec![vec![Cell::Missing]] }],
    };
    assert!(!bad.is_well_formed());
    assert!(!stations_are_well_formed(&vec![good, bad]));
    assert!(stations_are_well_formed(&vec![]));
}

#[test]
fn station_forecasts_are_checked_through_all_their_forecasts() {
    let fields = vec![
        text("SRVO"),
        text("04-01:07-31"),
        text("final"),
        text("2024-03-01"),
        Cell::Missing,
        text("2024-03-05"),
        text("kac_ft"),
    ];
    let good = StationForecast {
        station_triplet: "1:ID:USGS".to_string(),
        forecast_point_name: "P".to_string(),
        series: vec![ForecastSeries { descriptor: fields, values: vec![vec![text("50"), Cell::Double(1)]] }],
    };
    assert!(good.is_well_formed());
    let bad = StationForecast {
        station_triplet: "1:ID:USGS".to_string(),
        forecast_point_name: "P".to_string(),
        series: vec![ForecastSeries { descriptor: descriptor(), values: vec![] }],
    };
    assert!(!bad.is_well_formed());
    assert!(forecasts_are_well_formed(&vec![good]));
    assert!(!forecasts_are_well_formed(&vec![bad]));
}

#[test]
fn decoded_metadata_is_well_formed() {
    let document = "[{\"stationTriplet\":\"1:OR:SNTL\",\"stationId\":\"1\",\"stateCode\":\"OR\",\
                    \"networkCode\":\"SNTL\",\"latitude\":45.0,\"longitude\":-120.5,\
                    \"reservoirMetadata\":{\"capacity\":1,\"elevationAtCapacity\":2,\"usableCapacity\":3}}]";
    let mut records = decode_station_metadataset(&parse_document(document).unwrap()).unwrap();
    assert!(metadata_are_well_formed(&records));
    records[0].station[9] = Cell::Missing;
    assert!(!records[0].is_well_formed());
    assert!(!metadata_are_well_formed(&records));
}

#[test]
fn tables_of_the_optional_parts_have_their_columns() {
    let reservoir = build_reservoir_table(vec![Cell::Integer(1), Cell::Integer(2), Cell::Integer(3)]);
    assert_eq!(reservoir.rows, 1);
    assert_eq!(reservoir.columns.len(), 3);
    assert_eq!(reservoir.columns[2], column("usable_capacity", ColumnKind::Integer, vec![Cell::Integer(3)]));
    assert!(row_suits(&vec![Cell::Integer(1), Cell::Integer(2), Cell::Integer(3)], &reservoir_schema()));

    let elements = build_elements_table(vec![descriptor(), descriptor()]);
    assert_eq!(elements.rows, 2);
    assert_eq!(elements.columns.len(), 9);
    assert!(elements.is_well_formed());

    let point = build_forecast_point_table(ForecastPointInfo {
        descriptor: vec![text("Fork"), text("jdoe")],
        exceedence_probabilities: vec![30, 70],
    });
    assert_eq!(point.rows, 1);
    assert!(point.is_well_formed());
    match &point.columns[2].cells[0] {
        Cell::Nested(inner) => {
            assert_eq!(
                inner.columns,
                vec![column(
                    "exceedence_probability",
                    ColumnKind::Integer,
                    vec![Cell::Integer(30), Cell::Integer(70)]
                )]
            );
        },
        other => panic!("not a table: {:?}", other),
    }
}

#[test]
fn reference_entries_decode_and_build_apart() {
    let json = parse_document("{\"dcos\":[{\"code\":\"OR\",\"name\":\"Oregon\"}],\"states\":3}").unwrap();
    let entries = decode_reference(&json, ReferenceKind::Dcos).unwrap();
    assert_eq!(entries, vec![vec![text("OR"), text("Oregon")]]);
    assert!(rows_suit(&entries, &dco_schema()));
    assert_eq!(decode_reference(&json, ReferenceKind::States), None);
    assert_eq!(decode_reference(&json, ReferenceKind::Units), None);
    let table = build_reference_table(ReferenceKind::Dcos, entries);
    assert_eq!(table.rows, 1);
    assert_eq!(table.columns[1], column("name", ColumnKind::Text, vec![text("Oregon")]));
}

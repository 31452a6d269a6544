use awdb::error::{Cause, TransformError};
use awdb::reference::{
    parse_station_reference_json, reference_kind, reference_schema, reference_tag, ReferenceKind,
};
use awdb::table::{Cell, Table};

fn text(s: &str) -> Cell {
    Cell::Text(s.to_string())
}

fn names(table: &Table) -> Vec<String> {
    table.columns.iter().map(|c| c.name.clone()).collect()
}

fn all_kinds() -> Vec<ReferenceKind> {
    vec![
        ReferenceKind::Dcos,
        ReferenceKind::Durations,
        ReferenceKind::Elements,
        ReferenceKind::ForecastPeriods,
        ReferenceKind::Functions,
        ReferenceKind::Instruments,
        ReferenceKind::Networks,
        ReferenceKind::PhysicalElements,
        ReferenceKind::States,
        ReferenceKind::Units,
    ]
}

#[test]
fn unknown_reference_tag_gives_the_empty_table() {
    let table = parse_station_reference_json("{\"dcos\":[]}", "bogus").unwrap();
    assert_eq!(table, Table { rows: 0, columns: vec![] });
}

#[test]
fn unknown_reference_tag_does_not_look_at_the_document() {
    let table = parse_station_reference_json("this is not json", "bogus").unwrap();
    assert_eq!(table, Table { rows: 0, columns: vec![] });
    let table = parse_station_reference_json("", "Dcos").unwrap();
    assert_eq!(table, Table { rows: 0, columns: vec![] });
}

#[test]
fn every_tag_names_its_vocabulary() {
    let tags = [
        "dcos",
        "durations",
        "elements",
        "forecastPeriods",
        "functions",
        "instruments",
        "networks",
        "physicalElements",
        "states",
        "units",
    ];
    let kinds = all_kinds();
    for i in 0..10 {
        assert_eq!(reference_kind(tags[i]), Some(kinds[i]));
        assert_eq!(reference_tag(kinds[i]), tags[i]);
    }
    assert_eq!(reference_kind("bogus"), None);
    assert_eq!(reference_kind(""), None);
    assert_eq!(reference_kind("forecastperiods"), None);
}

#[test]
fn every_vocabulary_has_its_columns() {
    let widths = [2, 3, 9, 5, 3, 5, 3, 2, 4, 4];
    let kinds = all_kinds();
    for i in 0..10 {
        assert_eq!(reference_schema(kinds[i]).len(), widths[i]);
    }
}

#[test]
fn dcos_become_a_table_of_codes_and_names() {
    let document = "{\"dcos\":[{\"code\":\"OR\",\"name\":\"Oregon DCO\"},{\"code\":\"ID\",\"name\":\"Idaho DCO\"}]}";
    let table = parse_station_reference_json(document, "dcos").unwrap();
    assert_eq!(table.rows, 2);
    assert_eq!(names(&table), vec!["code", "name"]);
    assert_eq!(table.columns[0].cells, vec![text("OR"), text("ID")]);
    assert_eq!(table.columns[1].cells, vec![text("Oregon DCO"), text("Idaho DCO")]);
}

#[test]
fn durations_keep_their_minutes_as_text() {
    let document = "{\"durations\":[{\"code\":\"DAILY\",\"name\":\"daily\",\"durationMinutes\":\"1440\"}]}";
    let table = parse_station_reference_json(document, "durations").unwrap();
    assert_eq!(names(&table), vec!["code", "name", "duration_minutes"]);
    assert_eq!(table.columns[2].cells, vec![text("1440")]);
    let document = "{\"durations\":[{\"code\":\"DAILY\",\"name\":\"daily\",\"durationMinutes\":1440}]}";
    let r = parse_station_reference_json(document, "durations");
    assert_eq!(r, Err(TransformError::MalformedInput { document: 0, cause: Cause::Shape }));
}

#[test]
fn elements_drop_the_description_that_no_entry_has() {
    let document = "{\"elements\":[{\"code\":\"WTEQ\",\"name\":\"SWE\",\"physicalElementName\":\"swe\",\
                    \"functionCode\":\"C\",\"dataPrecision\":1,\"storedUnitCode\":\"in\",\
                    \"englishUnitCode\":\"in\",\"metricUnitCode\":\"mm\"}]}";
    let table = parse_station_reference_json(document, "elements").unwrap();
    assert_eq!(table.rows, 1);
    assert_eq!(table.columns.len(), 8);
    assert!(table.column("description").is_none());
    assert_eq!(table.column("data_precision").unwrap().cells, vec![Cell::Integer(1)]);
}

#[test]
fn forecast_periods_keep_a_column_that_one_entry_fills() {
    let document = "{\"forecastPeriods\":[{\"code\":\"A\",\"name\":\"a\",\"beginMonthDay\":\"04-01\"},\
                    {\"code\":\"B\",\"name\":\"b\",\"description\":null}]}";
    let table = parse_station_reference_json(document, "forecastPeriods").unwrap();
    assert_eq!(names(&table), vec!["code", "name", "begin_month_day"]);
    assert_eq!(table.columns[2].cells, vec![text("04-01"), Cell::Missing]);
}

#[test]
fn other_vocabularies_decode_by_their_fields() {
    let table = parse_station_reference_json(
        "{\"functions\":[{\"code\":\"C\",\"abbreviation\":\"col\",\"name\":\"collected\"}]}",
        "functions",
    )
    .unwrap();
    assert_eq!(names(&table), vec!["code", "abbreviation", "name"]);
    let table = parse_station_reference_json(
        "{\"instruments\":[{\"name\":\"pillow\",\"transducerLength\":100,\"dataPrecisionAdjustment\":0,\
         \"manufacturer\":\"acme\"}]}",
        "instruments",
    )
    .unwrap();
    assert_eq!(names(&table), vec!["name", "transducer_length", "data_precision_adjustment", "manufacturer"]);
    assert_eq!(table.columns[1].cells, vec![Cell::Integer(100)]);
    let table = parse_station_reference_json(
        "{\"networks\":[{\"code\":\"SNTL\",\"name\":\"SNOTEL\",\"description\":\"snow telemetry\"}]}",
        "networks",
    )
    .unwrap();
    assert_eq!(names(&table), vec!["code", "name", "description"]);
    let table = parse_station_reference_json(
        "{\"physicalElements\":[{\"name\":\"swe\",\"shefPhysicalElementCode\":\"SW\"}]}",
        "physicalElements",
    )
    .unwrap();
    assert_eq!(names(&table), vec!["name", "shef_physical_element_code"]);
    let table = parse_station_reference_json(
        "{\"states\":[{\"code\":\"OR\",\"fipsNumber\":\"41\",\"name\":\"Oregon\",\"countryCode\":\"US\"}]}",
        "states",
    )
    .unwrap();
    assert_eq!(names(&table), vec!["code", "fips_number", "name", "country_code"]);
    let table = parse_station_reference_json(
        "{\"units\":[{\"code\":\"in\",\"singularName\":\"inch\",\"pluralName\":\"inches\"}]}",
        "units",
    )
    .unwrap();
    assert_eq!(names(&table), vec!["code", "singular_name", "plural_name"]);
}

#[test]
fn empty_vocabulary_gives_the_empty_table() {
    let table = parse_station_reference_json("{\"states\":[]}", "states").unwrap();
    assert_eq!(table, Table { rows: 0, columns: vec![] });
}

#[test]
fn reference_refuses_a_document_without_the_list() {
    let r = parse_station_reference_json("{\"dcos\":[]}", "states");
    assert_eq!(r, Err(TransformError::MalformedInput { document: 0, cause: Cause::Shape }));
    let r = parse_station_reference_json("[]", "states");
    assert_eq!(r, Err(TransformError::MalformedInput { document: 0, cause: Cause::Shape }));
    let r = parse_station_reference_json("{\"states\":null}", "states");
    assert_eq!(r, Err(TransformError::MalformedInput { document: 0, cause: Cause::Shape }));
}

#[test]
fn reference_refuses_an_entry_without_a_required_field() {
    let r = parse_station_reference_json("{\"dcos\":[{\"code\":\"OR\"}]}", "dcos");
    assert_eq!(r, Err(TransformError::MalformedInput { document: 0, cause: Cause::Shape }));
}

#[test]
fn reference_refuses_a_document_that_is_not_json() {
    let r = parse_station_reference_json("{\"dcos\":[", "dcos");
    assert_eq!(r, Err(TransformError::MalformedInput { document: 0, cause: Cause::Syntax }));
}

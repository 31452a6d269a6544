use awdb::decode::{decode_integer, decode_record, decode_records, decode_scalar, decode_text};
use awdb::json::{find_member, parse_document, Json, JsonNumber, Member};
use awdb::schema::{element_schema, observation_schema, Field};
use awdb::table::{Cell, ColumnKind};

fn text(s: &str) -> Cell {
    Cell::Text(s.to_string())
}

fn member(key: &str, value: Json) -> Member {
    Member { key: key.to_string(), value }
}

fn whole(i: i64) -> Json {
    Json::Number(JsonNumber { integer: Some(i), double_bits: Some((i as f64).to_bits()) })
}

#[test]
fn parser_hands_over_every_kind_of_value() {
    let json = parse_document("{\"z\":null,\"a\":[true,-3,2.5,\"x\"],\"m\":{}}").unwrap();
    assert_eq!(
        json,
        Json::Object(vec![
            member(
                "a",
                Json::Array(vec![
                    Json::Bool(true),
                    whole(-3),
                    Json::Number(JsonNumber { integer: None, double_bits: Some(2.5f64.to_bits()) }),
                    Json::Text("x".to_string()),
                ])
            ),
            member("m", Json::Object(vec![])),
            member("z", Json::Null),
        ])
    );
}

#[test]
fn parser_refuses_what_is_not_one_document() {
    assert!(parse_document("").is_none());
    assert!(parse_document("{").is_none());
    assert!(parse_document("[1,]").is_none());
    assert!(parse_document("[] []").is_none());
    assert!(parse_document("nul").is_none());
    assert_eq!(parse_document(" [ ] "), Some(Json::Array(vec![])));
    assert_eq!(parse_document("null"), Some(Json::Null));
}

#[test]
fn numbers_carry_their_integer_where_they_have_one() {
    assert_eq!(parse_document("7"), Some(whole(7)));
    assert_eq!(
        parse_document("7.0"),
        Some(Json::Number(JsonNumber { integer: None, double_bits: Some(7.0f64.to_bits()) }))
    );
    assert_eq!(
        parse_document("18446744073709551615"),
        Some(Json::Number(JsonNumber { integer: None, double_bits: Some((u64::MAX as f64).to_bits()) }))
    );
    assert_eq!(parse_document("-9223372036854775808"), Some(whole(i64::MIN)));
    assert_eq!(
        parse_document("1e2"),
        Some(Json::Number(JsonNumber { integer: None, double_bits: Some(100.0f64.to_bits()) }))
    );
}

#[test]
fn last_of_two_members_with_one_key_stays() {
    assert_eq!(parse_document("{\"a\":1,\"a\":2}"), Some(Json::Object(vec![member("a", whole(2))])));
}

#[test]
fn lookup_finds_the_first_member_of_a_key() {
    let members = vec![member("a", whole(1)), member("b", whole(2)), member("a", whole(3))];
    assert_eq!(find_member(&members, "a"), Some(&whole(1)));
    assert_eq!(find_member(&members, "b"), Some(&whole(2)));
    assert_eq!(find_member(&members, "c"), None);
    assert_eq!(find_member(&vec![], "a"), None);
    let object = Json::Object(members);
    assert_eq!(object.get("b"), Some(&whole(2)));
    assert_eq!(Json::Array(vec![]).get("b"), None);
    assert_eq!(Json::Null.get("b"), None);
}

#[test]
fn scalars_decode_by_the_kind_of_their_column() {
    assert_eq!(decode_scalar(&Json::Bool(true), ColumnKind::Logical), Some(Cell::Logical(true)));
    assert_eq!(decode_scalar(&whole(5), ColumnKind::Logical), None);
    assert_eq!(decode_scalar(&whole(5), ColumnKind::Integer), Some(Cell::Integer(5)));
    assert_eq!(decode_scalar(&whole(2147483647), ColumnKind::Integer), Some(Cell::Integer(i32::MAX)));
    assert_eq!(decode_scalar(&whole(-2147483648), ColumnKind::Integer), Some(Cell::Integer(i32::MIN)));
    assert_eq!(decode_scalar(&whole(2147483648), ColumnKind::Integer), None);
    assert_eq!(decode_scalar(&whole(-2147483649), ColumnKind::Integer), None);
    assert_eq!(decode_scalar(&whole(5), ColumnKind::Double), Some(Cell::Double(5.0f64.to_bits())));
    assert_eq!(decode_scalar(&whole(5), ColumnKind::Text), None);
    assert_eq!(decode_scalar(&Json::Text("5".to_string()), ColumnKind::Text), Some(text("5")));
    assert_eq!(decode_scalar(&Json::Text("5".to_string()), ColumnKind::Integer), None);
    assert_eq!(decode_scalar(&Json::Text("5".to_string()), ColumnKind::Nested), None);
    assert_eq!(decode_scalar(&Json::Null, ColumnKind::Text), None);
    let half = parse_document("0.5").unwrap();
    assert_eq!(decode_scalar(&half, ColumnKind::Integer), None);
    assert_eq!(decode_scalar(&half, ColumnKind::Double), Some(Cell::Double(0.5f64.to_bits())));
    assert_eq!(decode_integer(&whole(12)), Some(12));
    assert_eq!(decode_integer(&half), None);
}

#[test]
fn record_decodes_in_declared_order_whatever_the_order_of_the_members() {
    let fields = vec![
        Field { key: "firstKey", name: "first_key", kind: ColumnKind::Text, required: true },
        Field { key: "n", name: "n", kind: ColumnKind::Integer, required: false },
        Field { key: "ok", name: "ok", kind: ColumnKind::Logical, required: false },
    ];
    let json = parse_document("{\"ok\":null,\"zzz\":1,\"firstKey\":\"v\"}").unwrap();
    assert_eq!(decode_record(&json, &fields), Some(vec![text("v"), Cell::Missing, Cell::Missing]));
    let json = parse_document("{\"n\":4,\"ok\":true,\"firstKey\":\"\"}").unwrap();
    assert_eq!(decode_record(&json, &fields), Some(vec![text(""), Cell::Integer(4), Cell::Logical(true)]));
    let json = parse_document("{\"n\":4,\"ok\":true}").unwrap();
    assert_eq!(decode_record(&json, &fields), None);
    let json = parse_document("{\"n\":\"4\",\"firstKey\":\"v\"}").unwrap();
    assert_eq!(decode_record(&json, &fields), None);
    let json = parse_document("[\"v\",4,true]").unwrap();
    assert_eq!(decode_record(&json, &fields), None);
    let json = parse_document("{\"first_key\":\"v\"}").unwrap();
    assert_eq!(decode_record(&json, &fields), None);
}

#[test]
fn records_decode_each_item_of_an_array() {
    let fields = observation_schema();
    let json = parse_document("[{\"year\":2001},{},{\"median\":3}]").unwrap();
    let rows = decode_records(&json, &fields).unwrap();
    assert_eq!(rows.len(), 3);
    for row in &rows {
        assert_eq!(row.len(), 12);
    }
    assert_eq!(rows[0][3], Cell::Integer(2001));
    assert_eq!(rows[1], (0..12).map(|_| Cell::Missing).collect::<Vec<Cell>>());
    assert_eq!(rows[2][11], Cell::Integer(3));
    let json = parse_document("[{\"year\":2001},{\"year\":\"x\"}]").unwrap();
    assert_eq!(decode_records(&json, &fields), None);
    let json = parse_document("[{\"year\":2001},7]").unwrap();
    assert_eq!(decode_records(&json, &fields), None);
    let json = parse_document("{\"year\":2001}").unwrap();
    assert_eq!(decode_records(&json, &fields), None);
    assert_eq!(decode_records(&parse_document("[]").unwrap(), &element_schema()), Some(vec![]));
}

#[test]
fn text_member_must_be_there_and_be_a_text() {
    let json = parse_document("{\"a\":\"x\",\"b\":1,\"c\":null}").unwrap();
    assert_eq!(decode_text(&json, "a"), Some("x".to_string()));
    assert_eq!(decode_text(&json, "b"), None);
    assert_eq!(decode_text(&json, "c"), None);
    assert_eq!(decode_text(&json, "d"), None);
    assert_eq!(decode_text(&Json::Text("a".to_string()), "a"), None);
}

use osm_rs::decimal::Decimal;
use osm_rs::json::DecodeError;
use osm_rs::nominatim::GeocodeResponse;
use osm_rs::overpass::OverpassResponse;

fn geocode_object(lat: &str, importance: &str) -> String {
    format!(
        "{{\"place_id\":132886201,\"license\":\"ODbL\",\"osm_type\":\"relation\",\
         \"osm_id\":2315704,\"lat\":{lat},\"lon\":\"-71.060511\",\
         \"class\":\"boundary\",\"type\":\"administrative\",\"place_rank\":16,\
         \"importance\":{importance},\"addresstype\":\"city\",\"name\":\"Boston\",\
         \"display_name\":\"Boston, Suffolk County, Massachusetts, United States\",\
         \"boundingbox\":{{\"xmin\":\"42.2279112\",\"ymin\":\"-71.1912490\",\
         \"xmax\":\"42.3969775\",\"ymax\":\"-70.8044881\"}}}}"
    )
}

#[test]
fn decimal_grammar_accepts() {
    for t in [
        "0",
        "7",
        "42",
        "-71.060511",
        "42.3554334",
        "0.5",
        "-0.7690429687500001",
        "1e5",
        "2E10",
        "-0.5e-7",
        "6378137.0",
        "1e+3",
        ".5",
        "1.",
        "+5",
        "-.25",
        "1.e5",
        "7.E-2",
    ] {
        assert!(Decimal::from_text(t).is_some(), "should accept {t}");
    }
}

#[test]
fn decimal_grammar_rejects() {
    for t in [
        "", "-", "+", ".", "+.", "-.", "1e", "1e+", "e5", "abc", "1.2.3", " 1", "1 ", "NaN",
        "inf", "Infinity", "--1", "1..2", "0x10", "1,5", ".e5",
    ] {
        assert!(Decimal::from_text(t).is_none(), "should reject {t}");
    }
}

#[test]
fn decimal_keeps_text_unchanged() {
    let d = Decimal::new("42.3554334".to_string()).unwrap();
    assert_eq!(d.as_str(), "42.3554334");
    let d2 = d.clone();
    assert_eq!(d2.as_str(), "42.3554334");
}

#[test]
fn geocode_decode_coerces_string_and_number() {
    let body = geocode_object("\"42.3554334\"", "0.5");
    let r = GeocodeResponse::from_json(&body).expect("decodes");
    assert_eq!(r.lat.as_str(), "42.3554334");
    assert_eq!(r.importance.as_str(), "0.5");
    assert_eq!(r.lon.as_str(), "-71.060511");
    assert_eq!(r.place_id, 132886201);
    assert_eq!(r.osm_id, 2315704);
    assert_eq!(r.osm_type, "relation");
    assert_eq!(r.class, "boundary");
    assert_eq!(r.place_type, "administrative");
    assert_eq!(r.place_rank, 16);
    assert_eq!(r.addresstype, "city");
    assert_eq!(r.name, "Boston");
    assert_eq!(r.license, Some("ODbL".to_string()));
    assert_eq!(r.boundingbox.xmin.as_str(), "42.2279112");
    assert_eq!(r.boundingbox.ymax.as_str(), "-70.8044881");
}

#[test]
fn geocode_decode_numbers_as_numbers() {
    let body = geocode_object("42.3554334", "0.5");
    let r = GeocodeResponse::from_json(&body).expect("decodes");
    assert_eq!(r.lat.as_str(), "42.3554334");
    assert_eq!(r.importance.as_str(), "0.5");
}

#[test]
fn geocode_decode_missing_license_is_none() {
    let body = geocode_object("\"42.3554334\"", "0.5").replace("\"license\":\"ODbL\",", "");
    let r = GeocodeResponse::from_json(&body).expect("decodes");
    assert_eq!(r.license, None);
}

#[test]
fn geocode_list_decode_keeps_order_and_accepts_empty() {
    let empty = GeocodeResponse::list_from_json("[]").expect("empty list decodes");
    assert!(empty.is_empty());

    let body = format!(
        "[{},{}]",
        geocode_object("\"1.5\"", "0.25"),
        geocode_object("\"2.5\"", "0.75")
    );
    let list = GeocodeResponse::list_from_json(&body).expect("list decodes");
    assert_eq!(list.len(), 2);
    assert_eq!(list[0].lat.as_str(), "1.5");
    assert_eq!(list[1].lat.as_str(), "2.5");
}

#[test]
fn decode_error_syntax_on_malformed_body() {
    assert_eq!(
        GeocodeResponse::from_json("{not json").unwrap_err(),
        DecodeError::Syntax
    );
    assert_eq!(
        OverpassResponse::from_json("").unwrap_err(),
        DecodeError::Syntax
    );
}

#[test]
fn decode_error_shape_on_missing_or_wrong_field() {
    let body = geocode_object("\"42.3554334\"", "0.5").replace("\"name\":\"Boston\",", "");
    assert_eq!(
        GeocodeResponse::from_json(&body).unwrap_err(),
        DecodeError::Shape
    );
    let body = geocode_object("\"42.3554334\"", "0.5").replace("132886201", "\"x\"");
    assert_eq!(
        GeocodeResponse::from_json(&body).unwrap_err(),
        DecodeError::Shape
    );
    assert_eq!(
        GeocodeResponse::list_from_json("{}").unwrap_err(),
        DecodeError::Shape
    );
}

#[test]
fn decode_error_number_on_unparsable_numeric() {
    let body = geocode_object("\"not a number\"", "0.5");
    assert_eq!(
        GeocodeResponse::from_json(&body).unwrap_err(),
        DecodeError::Number
    );
    let body = geocode_object("null", "0.5");
    assert_eq!(
        GeocodeResponse::from_json(&body).unwrap_err(),
        DecodeError::Number
    );
}

#[test]
fn overpass_decode_zero_elements_is_empty_not_error() {
    let body = "{\"version\":0.6,\"generator\":\"Overpass API\",\
                \"osm3s\":{\"timestamp_osm_base\":\"2024-01-01T00:00:00Z\",\
                \"copyright\":\"The data included in this document is from \
                www.openstreetmap.org.\"},\"elements\":[]}";
    let r = OverpassResponse::from_json(body).expect("decodes");
    assert!(r.elements.is_empty());
    assert_eq!(r.version.as_str(), "0.6");
    assert_eq!(r.generator, "Overpass API");
    assert_eq!(r.osm3s.timestamp_osm_base, "2024-01-01T00:00:00Z");
}

#[test]
fn overpass_decode_nodes_and_tags() {
    let body = "{\"version\":0.6,\"generator\":\"g\",\
                \"osm3s\":{\"timestamp_osm_base\":\"t\",\"copyright\":\"c\"},\
                \"elements\":[\
                {\"id\":3029040667,\"lat\":42.3601,\"lon\":-71.0589,\
                 \"tags\":{\"amenity\":\"cafe\",\"name\":\"Espresso\"}},\
                {\"id\":7,\"lat\":1,\"lon\":2,\"tags\":{}}]}";
    let r = OverpassResponse::from_json(body).expect("decodes");
    assert_eq!(r.elements.len(), 2);
    let n = &r.elements[0];
    assert_eq!(n.id, 3029040667);
    assert_eq!(n.lat.as_str(), "42.3601");
    assert_eq!(n.lon.as_str(), "-71.0589");
    let mut tags = n.tags.clone();
    tags.sort();
    assert_eq!(
        tags,
        vec![
            ("amenity".to_string(), "cafe".to_string()),
            ("name".to_string(), "Espresso".to_string()),
        ]
    );
    assert!(r.elements[1].tags.is_empty());
}

#[test]
fn overpass_decode_rejects_string_version_and_coords() {
    let body = "{\"version\":\"0.6\",\"generator\":\"g\",\
                \"osm3s\":{\"timestamp_osm_base\":\"t\",\"copyright\":\"c\"},\
                \"elements\":[]}";
    assert_eq!(
        OverpassResponse::from_json(body).unwrap_err(),
        DecodeError::Shape
    );
    let body = "{\"version\":0.6,\"generator\":\"g\",\
                \"osm3s\":{\"timestamp_osm_base\":\"t\",\"copyright\":\"c\"},\
                \"elements\":[{\"id\":7,\"lat\":\"1\",\"lon\":2,\"tags\":{}}]}";
    assert_eq!(
        OverpassResponse::from_json(body).unwrap_err(),
        DecodeError::Shape
    );
}

#[test]
fn bounding_box_decode_coerces_both_forms() {
    let body = geocode_object("\"1\"", "1").replace(
        "\"xmin\":\"42.2279112\"",
        "\"xmin\":42.2279112",
    );
    let r = GeocodeResponse::from_json(&body).expect("decodes");
    assert_eq!(r.boundingbox.xmin.as_str(), "42.2279112");

    let body = geocode_object("\"1\"", "1").replace(
        "\"xmin\":\"42.2279112\"",
        "\"xmin\":\"bad\"",
    );
    assert_eq!(
        GeocodeResponse::from_json(&body).unwrap_err(),
        DecodeError::Number
    );
}

#[test]
fn geocode_decode_accepts_float_parse_forms() {
    let body = geocode_object("\".5\"", "\"1.\"");
    let r = GeocodeResponse::from_json(&body).expect("decodes");
    assert_eq!(r.lat.as_str(), ".5");
    assert_eq!(r.importance.as_str(), "1.");
}

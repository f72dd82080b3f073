use osm_rs::decimal::Decimal;
use osm_rs::nominatim::{Config, Geocode, ReverseGeocode};
use osm_rs::overpass::BoundingBox;
use osm_rs::overpass::Config as OverpassConfig;

fn dec(s: &str) -> Decimal {
    Decimal::from_text(s).expect("valid decimal text")
}

#[test]
fn free_text_dominates_structured_fields() {
    let g = Geocode {
        q: Some("Boston".to_string()),
        street: Some("1 Main St".to_string()),
        city: Some("Boston".to_string()),
        county: None,
        state: Some("MA".to_string()),
        country: None,
        postalcode: Some("02118".to_string()),
    };
    let params = g.to_params();
    assert_eq!(params, vec![("q".to_string(), "Boston".to_string())]);
}

#[test]
fn structured_fields_emitted_in_field_order() {
    let g = Geocode {
        q: None,
        street: None,
        city: Some("Boston".to_string()),
        county: None,
        state: Some("MA".to_string()),
        country: None,
        postalcode: None,
    };
    let params = g.to_params();
    assert_eq!(
        params,
        vec![
            ("city".to_string(), "Boston".to_string()),
            ("state".to_string(), "MA".to_string()),
        ]
    );
}

#[test]
fn no_fields_no_params() {
    let g = Geocode {
        q: None,
        street: None,
        city: None,
        county: None,
        state: None,
        country: None,
        postalcode: None,
    };
    assert!(g.to_params().is_empty());
}

#[test]
fn all_structured_fields_emitted() {
    let g = Geocode {
        q: None,
        street: Some("s".to_string()),
        city: Some("ci".to_string()),
        county: Some("co".to_string()),
        state: Some("st".to_string()),
        country: Some("cy".to_string()),
        postalcode: Some("pc".to_string()),
    };
    let params = g.to_params();
    assert_eq!(
        params,
        vec![
            ("street".to_string(), "s".to_string()),
            ("city".to_string(), "ci".to_string()),
            ("county".to_string(), "co".to_string()),
            ("state".to_string(), "st".to_string()),
            ("country".to_string(), "cy".to_string()),
            ("postalcode".to_string(), "pc".to_string()),
        ]
    );
}

#[test]
fn new_sets_free_text_only() {
    let g = Geocode::new("Boston".to_string());
    assert_eq!(g.q, Some("Boston".to_string()));
    assert!(g.street.is_none());
    assert!(g.city.is_none());
    assert!(g.county.is_none());
    assert!(g.state.is_none());
    assert!(g.country.is_none());
    assert!(g.postalcode.is_none());
    let params = g.to_params();
    assert_eq!(params, vec![("q".to_string(), "Boston".to_string())]);
}

#[test]
fn reverse_geocode_params() {
    let g = ReverseGeocode {
        lat: dec("42.3554334"),
        lon: dec("-71.060511"),
    };
    let params = g.to_params();
    assert_eq!(
        params,
        vec![
            ("lat".to_string(), "42.3554334".to_string()),
            ("lon".to_string(), "-71.060511".to_string()),
        ]
    );
}

#[test]
fn search_url_appends_format() {
    let c = Config {
        url: "https://nominatim.openstreetmap.org/search".to_string(),
        timeout: 25,
    };
    assert_eq!(
        c.search_url(),
        "https://nominatim.openstreetmap.org/search?format=json"
    );
}

#[test]
fn user_agent_names_the_library() {
    assert_eq!(osm_rs::nominatim::user_agent(), "osm_rs/0.1.0");
}

#[test]
fn bounding_box_query_south_west_north_east() {
    let c = OverpassConfig {
        url: "https://overpass-api.de/api/interpreter".to_string(),
        timeout: 25,
        key: "amenity".to_string(),
        val: "cafe".to_string(),
    };
    let b = BoundingBox {
        xmin: dec("51.30"),
        ymin: dec("-0.77"),
        xmax: dec("51.82"),
        ymax: dec("0.53"),
    };
    assert_eq!(
        b.query_body(&c),
        "[out:json];node[\"amenity\"=\"cafe\"](-0.77,51.30,0.53,51.82);out center;"
    );
}

#[test]
fn bounding_box_query_full_precision() {
    let c = OverpassConfig {
        url: "https://overpass-api.de/api/interpreter".to_string(),
        timeout: 25,
        key: "amenity".to_string(),
        val: "cafe".to_string(),
    };
    let b = BoundingBox {
        xmin: dec("51.305219521963295"),
        ymin: dec("-0.7690429687500001"),
        xmax: dec("51.82219818336938"),
        ymax: dec("0.5273437500000064"),
    };
    assert_eq!(
        b.query_body(&c),
        "[out:json];node[\"amenity\"=\"cafe\"](-0.7690429687500001,51.305219521963295,0.5273437500000064,51.82219818336938);out center;"
    );
}

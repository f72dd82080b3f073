//! Location search and reverse geocoding (Nominatim).
//!
//! A [`Geocode`] or [`ReverseGeocode`] descriptor renders the GET
//! parameters for a query; [`GeocodeResponse`] decoding turns the JSON
//! response back into typed values. Issuing the HTTP request itself is the
//! caller's part.

use vstd::prelude::*;
use vstd::string::StringExecFns;
use crate::decimal::Decimal;
use crate::decimal::is_decimal_text;
use crate::json::DecodeError;
use crate::json::array_of;
use crate::json::doc_of;
use crate::json::field_of;
use crate::json::get_decimal_coerced;
use crate::json::get_field;
use crate::json::get_opt_string;
use crate::json::get_string;
use crate::json::get_u64;
use crate::json::parse_document;
use crate::json::root_array;
use crate::json::spec_field_coerced;
use crate::json::spec_field_str;
use crate::json::spec_field_u64;
use crate::json::spec_opt_field_str;
use crate::json::spec_opt_field_str_ok;
use crate::overpass::BoundingBox;

verus! {

/// The user agent every outbound request carries: library name and version.
pub fn user_agent() -> (r: &'static str)
    ensures
        r@ == "osm_rs/0.1.0"@,
{
    "osm_rs/0.1.0"
}

/// Geocoding configuration: the service endpoint and a timeout in seconds
/// for the transport to apply. The timeout is only carried here; enforcing
/// it is the transport's part.
#[derive(Clone)]
pub struct Config {
    pub url: String,
    pub timeout: u8,
}

impl Config {
    /// The endpoint with the constant `format=json` parameter appended,
    /// the form every geocoding request is sent under.
    pub fn search_url(&self) -> (r: String)
        ensures
            r@ == self.url@ + "?format=json"@,
    {
        let mut u = self.url.clone();
        u.append("?format=json");
        u
    }
}

/// A search query: either free text in `q`, or any subset of the
/// structured address fields. All fields are optional; an unset field is
/// not sent at all. When `q` is set it dominates: the structured fields
/// are ignored entirely.
#[derive(Debug, Clone)]
pub struct Geocode {
    pub q: Option<String>,
    pub street: Option<String>,
    pub city: Option<String>,
    pub county: Option<String>,
    pub state: Option<String>,
    pub country: Option<String>,
    pub postalcode: Option<String>,
}

/// The single parameter entry `key` = `v` when `v` is set, nothing when it
/// is not.
pub open spec fn opt_param(key: Seq<char>, v: Option<String>) -> Seq<(Seq<char>, Seq<char>)> {
    match v {
        Some(s) => seq![(key, s@)],
        None => Seq::empty(),
    }
}

/// The parameters a [`Geocode`] query sends: exactly `q` when it is set,
/// else one entry per set structured field, in field order; an unset field
/// is never sent, not even as an empty string.
pub open spec fn spec_params(g: Geocode) -> Seq<(Seq<char>, Seq<char>)> {
    if g.q is Some {
        seq![("q"@, g.q->0@)]
    } else {
        opt_param("street"@, g.street) + opt_param("city"@, g.city) + opt_param(
            "county"@,
            g.county,
        ) + opt_param("state"@, g.state) + opt_param("country"@, g.country) + opt_param(
            "postalcode"@,
            g.postalcode,
        )
    }
}

/// Appends `key` = `v` to `params` when `v` is set; appends nothing when it
/// is not.
fn push_opt(params: &mut Vec<(String, String)>, key: &str, v: &Option<String>)
    ensures
        final(params).deep_view() == old(params).deep_view() + opt_param(key@, *v),
{
    match v {
        Some(s) => {
            params.push((key.to_owned(), s.clone()));
            proof {
                assert(final(params).deep_view() =~= old(params).deep_view() + opt_param(key@, *v));
            }
        },
        None => {
            proof {
                assert(final(params).deep_view() =~= old(params).deep_view() + opt_param(key@, *v));
            }
        },
    }
}

impl Geocode {
    /// A free-text query for `s`, no structured field set.
    pub fn new(s: String) -> (r: Self)
        ensures
            r.q == Some(s),
            r.street is None,
            r.city is None,
            r.county is None,
            r.state is None,
            r.country is None,
            r.postalcode is None,
    {
        Self {
            q: Some(s),
            street: None,
            city: None,
            county: None,
            state: None,
            country: None,
            postalcode: None,
        }
    }

    /// Renders the GET parameters of this query, exactly as
    /// [`spec_params`] states them.
    pub fn to_params(&self) -> (r: Vec<(String, String)>)
        ensures
            r.deep_view() == spec_params(*self),
    {
        let mut params: Vec<(String, String)> = Vec::new();
        match &self.q {
            Some(q) => {
                params.push(("q".to_owned(), q.clone()));
                proof {
                    assert(params.deep_view() =~= spec_params(*self));
                }
            },
            None => {
                push_opt(&mut params, "street", &self.street);
                push_opt(&mut params, "city", &self.city);
                push_opt(&mut params, "county", &self.county);
                push_opt(&mut params, "state", &self.state);
                push_opt(&mut params, "country", &self.country);
                push_opt(&mut params, "postalcode", &self.postalcode);
                proof {
                    assert(params.deep_view() =~= spec_params(*self));
                }
            },
        }
        params
    }
}

/// Free text dominates: whenever `q` is set, the rendered parameters are
/// the single `q` entry, whatever the structured fields hold.
pub proof fn lemma_free_text_dominates(g: Geocode)
    requires
        g.q is Some,
    ensures
        spec_params(g) == seq![("q"@, g.q->0@)],
{
}

/// A query with no field set sends no parameter at all.
pub proof fn lemma_no_fields_no_params(g: Geocode)
    requires
        g.q is None,
        g.street is None,
        g.city is None,
        g.county is None,
        g.state is None,
        g.country is None,
        g.postalcode is None,
    ensures
        spec_params(g) =~= Seq::<(Seq<char>, Seq<char>)>::empty(),
{
}

/// A reverse-geocode query: a mandatory coordinate pair, held as decimal
/// text.
#[derive(Debug)]
pub struct ReverseGeocode {
    pub lon: Decimal,
    pub lat: Decimal,
}

impl ReverseGeocode {
    pub open spec fn wf(&self) -> bool {
        &&& self.lat.wf()
        &&& self.lon.wf()
    }

    /// Renders the GET parameters of this query: exactly `lat` and `lon`,
    /// written with their full decimal text.
    pub fn to_params(&self) -> (r: Vec<(String, String)>)
        ensures
            r.deep_view() == seq![("lat"@, self.lat@), ("lon"@, self.lon@)],
    {
        let mut params: Vec<(String, String)> = Vec::new();
        params.push(("lat".to_owned(), self.lat.as_str().to_owned()));
        params.push(("lon".to_owned(), self.lon.as_str().to_owned()));
        proof {
            assert(params.deep_view() =~= seq![("lat"@, self.lat@), ("lon"@, self.lon@)]);
        }
        params
    }
}

/// One decoded geocoding result: place identity, classification, display
/// fields, rank and importance, the bounding box, and the coordinates.
/// `lat`, `lon`, `importance` and the bounding box arrive as JSON numbers
/// or as strings holding decimal text; both forms decode.
#[derive(Debug)]
pub struct GeocodeResponse {
    pub place_id: u64,
    pub license: Option<String>,
    pub osm_type: String,
    pub osm_id: u64,
    pub lat: Decimal,
    pub lon: Decimal,
    pub class: String,
    pub place_type: String,
    pub place_rank: u64,
    pub importance: Decimal,
    pub addresstype: String,
    pub name: String,
    pub display_name: String,
    pub boundingbox: BoundingBox,
}

impl GeocodeResponse {
    pub open spec fn wf(&self) -> bool {
        &&& self.lat.wf()
        &&& self.lon.wf()
        &&& self.importance.wf()
        &&& self.boundingbox.wf()
    }

    /// The JSON object `v` has a result's shape: every field of
    /// [`GeocodeResponse`] present with its kind (`license` may be missing
    /// or null), the coercible fields a number or decimal-text string, the
    /// JSON field `type` standing for `place_type`.
    pub open spec fn spec_ok(v: serde_json::Value) -> bool {
        &&& spec_field_u64(v, "place_id"@) is Some
        &&& spec_opt_field_str_ok(v, "license"@)
        &&& spec_field_str(v, "osm_type"@) is Some
        &&& spec_field_u64(v, "osm_id"@) is Some
        &&& spec_field_coerced(v, "lat"@) matches Some(t) && is_decimal_text(t)
        &&& spec_field_coerced(v, "lon"@) matches Some(t) && is_decimal_text(t)
        &&& spec_field_str(v, "class"@) is Some
        &&& spec_field_str(v, "type"@) is Some
        &&& spec_field_u64(v, "place_rank"@) is Some
        &&& spec_field_coerced(v, "importance"@) matches Some(t) && is_decimal_text(t)
        &&& spec_field_str(v, "addresstype"@) is Some
        &&& spec_field_str(v, "name"@) is Some
        &&& spec_field_str(v, "display_name"@) is Some
        &&& field_of(v, "boundingbox"@) is Some
        &&& BoundingBox::spec_ok(field_of(v, "boundingbox"@)->0)
    }

    /// The result `self` holds exactly what the JSON object `v` carries,
    /// the coerced numeric fields verbatim as their text.
    pub open spec fn spec_matches(self, v: serde_json::Value) -> bool {
        &&& self.place_id == spec_field_u64(v, "place_id"@)->0
        &&& self.license is Some <==> spec_opt_field_str(v, "license"@) is Some
        &&& self.license is Some ==> self.license->0@ == spec_opt_field_str(v, "license"@)->0
        &&& self.osm_type@ == spec_field_str(v, "osm_type"@)->0
        &&& self.osm_id == spec_field_u64(v, "osm_id"@)->0
        &&& self.lat@ == spec_field_coerced(v, "lat"@)->0
        &&& self.lon@ == spec_field_coerced(v, "lon"@)->0
        &&& self.class@ == spec_field_str(v, "class"@)->0
        &&& self.place_type@ == spec_field_str(v, "type"@)->0
        &&& self.place_rank == spec_field_u64(v, "place_rank"@)->0
        &&& self.importance@ == spec_field_coerced(v, "importance"@)->0
        &&& self.addresstype@ == spec_field_str(v, "addresstype"@)->0
        &&& self.name@ == spec_field_str(v, "name"@)->0
        &&& self.display_name@ == spec_field_str(v, "display_name"@)->0
        &&& self.boundingbox.spec_matches(field_of(v, "boundingbox"@)->0)
    }

    /// Every element of the JSON array `v` has a result's shape.
    pub open spec fn spec_list_ok(v: serde_json::Value) -> bool {
        &&& array_of(v) is Some
        &&& forall|i: int|
            0 <= i < array_of(v)->0.len() ==> #[trigger] Self::spec_ok(array_of(v)->0[i])
    }

    /// Decodes one result object: it decodes exactly when the object has a
    /// result's shape, and then every field is what the object carries.
    pub fn from_json_value(v: &serde_json::Value) -> (r: Result<GeocodeResponse, DecodeError>)
        ensures
            r is Ok <==> Self::spec_ok(*v),
            r is Ok ==> r->Ok_0.spec_matches(*v) && r->Ok_0.wf(),
            r is Err ==> r->Err_0 == DecodeError::Shape || r->Err_0 == DecodeError::Number,
    {
        let place_id = match get_u64(v, "place_id") {
            Ok(n) => n,
            Err(e) => {
                return Err(e);
            },
        };
        let license = match get_opt_string(v, "license") {
            Ok(s) => s,
            Err(e) => {
                return Err(e);
            },
        };
        let osm_type = match get_string(v, "osm_type") {
            Ok(s) => s,
            Err(e) => {
                return Err(e);
            },
        };
        let osm_id = match get_u64(v, "osm_id") {
            Ok(n) => n,
            Err(e) => {
                return Err(e);
            },
        };
        let lat = match get_decimal_coerced(v, "lat") {
            Ok(d) => d,
            Err(e) => {
                return Err(e);
            },
        };
        let lon = match get_decimal_coerced(v, "lon") {
            Ok(d) => d,
            Err(e) => {
                return Err(e);
            },
        };
        let class = match get_string(v, "class") {
            Ok(s) => s,
            Err(e) => {
                return Err(e);
            },
        };
        let place_type = match get_string(v, "type") {
            Ok(s) => s,
            Err(e) => {
                return Err(e);
            },
        };
        let place_rank = match get_u64(v, "place_rank") {
            Ok(n) => n,
            Err(e) => {
                return Err(e);
            },
        };
        let importance = match get_decimal_coerced(v, "importance") {
            Ok(d) => d,
            Err(e) => {
                return Err(e);
            },
        };
        let addresstype = match get_string(v, "addresstype") {
            Ok(s) => s,
            Err(e) => {
                return Err(e);
            },
        };
        let name = match get_string(v, "name") {
            Ok(s) => s,
            Err(e) => {
                return Err(e);
            },
        };
        let display_name = match get_string(v, "display_name") {
            Ok(s) => s,
            Err(e) => {
                return Err(e);
            },
        };
        let bbox = match get_field(v, "boundingbox") {
            Ok(f) => f,
            Err(e) => {
                return Err(e);
            },
        };
        let boundingbox = match BoundingBox::from_json_value(bbox) {
            Ok(b) => b,
            Err(e) => {
                return Err(e);
            },
        };
        Ok(
            GeocodeResponse {
                place_id,
                license,
                osm_type,
                osm_id,
                lat,
                lon,
                class,
                place_type,
                place_rank,
                importance,
                addresstype,
                name,
                display_name,
                boundingbox,
            },
        )
    }

    /// Decodes a reverse-geocoding response body: one JSON object. It
    /// succeeds exactly when the body is well-formed JSON of a result's
    /// shape (an array body or a malformed object is an error); the syntax
    /// error comes exactly when the body is not JSON.
    pub fn from_json(body: &str) -> (r: Result<GeocodeResponse, DecodeError>)
        ensures
            r is Ok <==> (doc_of(body@) matches Some(d) && Self::spec_ok(d)),
            r is Ok ==> r->Ok_0.spec_matches(doc_of(body@)->0) && r->Ok_0.wf(),
            doc_of(body@) is None <==> (r is Err && r->Err_0 == DecodeError::Syntax),
    {
        let doc = match parse_document(body) {
            Ok(v) => v,
            Err(e) => {
                return Err(e);
            },
        };
        GeocodeResponse::from_json_value(&doc)
    }

    /// Decodes a search response body: a JSON array of result objects. It
    /// succeeds exactly when the body is well-formed JSON, an array, and
    /// every element has a result's shape; the results keep the array's
    /// order and count — an empty array decodes to no results, not an
    /// error. The syntax error comes exactly when the body is not JSON.
    pub fn list_from_json(body: &str) -> (r: Result<Vec<GeocodeResponse>, DecodeError>)
        ensures
            r is Ok <==> (doc_of(body@) matches Some(d) && Self::spec_list_ok(d)),
            r is Ok ==> r->Ok_0@.len() == array_of(doc_of(body@)->0)->0.len(),
            r is Ok ==> forall|i: int|
                0 <= i < r->Ok_0@.len() ==> (#[trigger] r->Ok_0@[i]).spec_matches(
                    array_of(doc_of(body@)->0)->0[i],
                ) && r->Ok_0@[i].wf(),
            doc_of(body@) is None <==> (r is Err && r->Err_0 == DecodeError::Syntax),
    {
        let doc = match parse_document(body) {
            Ok(v) => v,
            Err(e) => {
                return Err(e);
            },
        };
        let ghost d = doc_of(body@)->0;
        let arr = match root_array(&doc) {
            Ok(a) => a,
            Err(e) => {
                return Err(e);
            },
        };
        let ghost elems = array_of(d)->0;
        let mut results: Vec<GeocodeResponse> = Vec::new();
        let mut i: usize = 0;
        while i < arr.len()
            invariant
                doc_of(body@) == Some(d),
                array_of(d) == Some(elems),
                arr@ == elems,
                0 <= i <= arr@.len(),
                results@.len() == i,
                forall|m: int|
                    0 <= m < i ==> (#[trigger] results@[m]).wf() && results@[m].spec_matches(
                        elems[m],
                    ),
                forall|m: int| 0 <= m < i ==> #[trigger] Self::spec_ok(elems[m]),
            decreases arr@.len() - i,
        {
            let one = match GeocodeResponse::from_json_value(&arr[i]) {
                Ok(g) => g,
                Err(e) => {
                    proof {
                        assert(!Self::spec_ok(array_of(d)->0[i as int]));
                        assert(!Self::spec_list_ok(d));
                    }
                    return Err(e);
                },
            };
            results.push(one);
            i += 1;
        }
        proof {
            assert forall|m: int|
                0 <= m < array_of(d)->0.len() implies #[trigger] Self::spec_ok(
                array_of(d)->0[m],
            ) by {
                assert(Self::spec_ok(elems[m]));
            }
        }
        Ok(results)
    }
}

} // verus!

//! Tag-filtered spatial queries over a bounding box (Overpass).
//!
//! A [`BoundingBox`] renders the query text that is POSTed to the service;
//! [`OverpassResponse::from_json`] decodes the response body. Issuing the
//! HTTP request itself is the caller's part.

use vstd::prelude::*;
use vstd::string::StringExecFns;
use crate::decimal::Decimal;
use crate::decimal::is_decimal_text;
use crate::json::DecodeError;
use crate::json::doc_of;
use crate::json::field_of;
use crate::json::get_array;
use crate::json::get_decimal_coerced;
use crate::json::get_decimal_number;
use crate::json::get_field;
use crate::json::get_string;
use crate::json::get_string_map;
use crate::json::get_u64;
use crate::json::parse_document;
use crate::json::spec_field_array;
use crate::json::spec_field_coerced;
use crate::json::spec_field_entries;
use crate::json::spec_field_number_text;
use crate::json::spec_field_str;
use crate::json::spec_field_u64;
use crate::json::spec_string_entries_ok;
use crate::json::str_of;

verus! {

/// Spatial-query configuration: the service endpoint, a timeout in seconds
/// for the transport to apply, and the single tag filter (attribute `key`
/// must equal `val`). The timeout is only carried here; enforcing it is the
/// transport's part.
#[derive(Debug)]
pub struct Config {
    pub url: String,
    pub timeout: u8,
    pub key: String,
    pub val: String,
}

/// A rectangular region in geographic coordinates (degrees), held as the
/// decimal text of its four boundaries. The type itself enforces no
/// ordering between `xmin`/`xmax` or `ymin`/`ymax`.
#[derive(Debug)]
pub struct BoundingBox {
    pub xmin: Decimal,
    pub ymin: Decimal,
    pub xmax: Decimal,
    pub ymax: Decimal,
}

/// Metadata returned by the spatial service.
#[derive(Debug)]
pub struct OSMMetaData {
    pub timestamp_osm_base: String,
    pub copyright: String,
}

/// One node of the map: an identifier, a coordinate pair, and its tags
/// (key to value, keys unique).
#[derive(Debug)]
pub struct Node {
    pub id: u64,
    pub lat: Decimal,
    pub lon: Decimal,
    pub tags: Vec<(String, String)>,
}

/// A decoded spatial-service response.
#[derive(Debug)]
pub struct OverpassResponse {
    pub version: Decimal,
    pub generator: String,
    pub osm3s: OSMMetaData,
    pub elements: Vec<Node>,
}

/// The tag keys of `tags` are pairwise distinct.
pub open spec fn tags_unique(tags: Seq<(String, String)>) -> bool {
    forall|i: int, j: int| 0 <= i < j < tags.len() ==> tags[i].0@ != tags[j].0@
}

impl Node {
    pub open spec fn wf(&self) -> bool {
        &&& self.lat.wf()
        &&& self.lon.wf()
        &&& tags_unique(self.tags@)
    }

    /// The JSON object `v` has the shape of a node: `id` an unsigned
    /// integer, `lat` and `lon` plain JSON numbers (no string coercion),
    /// `tags` an object of strings.
    pub open spec fn spec_ok(v: serde_json::Value) -> bool {
        &&& spec_field_u64(v, "id"@) is Some
        &&& spec_field_number_text(v, "lat"@) is Some
        &&& spec_field_number_text(v, "lon"@) is Some
        &&& spec_field_entries(v, "tags"@) matches Some(es) && spec_string_entries_ok(es)
    }

    /// The node `self` holds exactly what the JSON object `v` carries.
    pub open spec fn spec_matches(self, v: serde_json::Value) -> bool {
        &&& self.id == spec_field_u64(v, "id"@)->0
        &&& self.lat@ == spec_field_number_text(v, "lat"@)->0
        &&& self.lon@ == spec_field_number_text(v, "lon"@)->0
        &&& self.tags@.len() == spec_field_entries(v, "tags"@)->0.len()
        &&& forall|i: int|
            0 <= i < self.tags@.len() ==> (#[trigger] self.tags@[i]).0@ == spec_field_entries(
                v,
                "tags"@,
            )->0[i].0 && self.tags@[i].1@ == str_of(spec_field_entries(v, "tags"@)->0[i].1)->0
    }

    /// Decodes one element of the response's `elements` array: it decodes
    /// exactly when the object has a node's shape, and then every field,
    /// tag order included, is what the object carries.
    pub fn from_json_value(v: &serde_json::Value) -> (r: Result<Node, DecodeError>)
        ensures
            r is Ok <==> Node::spec_ok(*v),
            r is Ok ==> r->Ok_0.spec_matches(*v) && r->Ok_0.wf(),
            r is Err ==> r->Err_0 == DecodeError::Shape,
    {
        let id = match get_u64(v, "id") {
            Ok(n) => n,
            Err(e) => {
                return Err(e);
            },
        };
        let lat = match get_decimal_number(v, "lat") {
            Ok(d) => d,
            Err(e) => {
                return Err(e);
            },
        };
        let lon = match get_decimal_number(v, "lon") {
            Ok(d) => d,
            Err(e) => {
                return Err(e);
            },
        };
        let tags = match get_string_map(v, "tags") {
            Ok(t) => t,
            Err(e) => {
                return Err(e);
            },
        };
        Ok(Node { id, lat, lon, tags })
    }
}

impl BoundingBox {
    pub open spec fn wf(&self) -> bool {
        &&& self.xmin.wf()
        &&& self.ymin.wf()
        &&& self.xmax.wf()
        &&& self.ymax.wf()
    }

    /// The query text for this box under the tag filter `key` = `val`:
    /// `[out:json];node["key"="val"](ymin,xmin,ymax,xmax);out center;`,
    /// the boundaries in south,west,north,east order.
    pub open spec fn spec_query(self, key: Seq<char>, val: Seq<char>) -> Seq<char> {
        "[out:json];node[\""@ + key + "\"=\""@ + val + "\"]("@ + self.ymin@ + ","@ + self.xmin@
            + ","@ + self.ymax@ + ","@ + self.xmax@ + ");out center;"@
    }

    /// Renders the body of the spatial query for `config`'s tag filter,
    /// exactly as [`Self::spec_query`] states it, the boundaries written
    /// with their full decimal text (no rounding).
    pub fn query_body(&self, config: &Config) -> (r: String)
        ensures
            r@ == self.spec_query(config.key@, config.val@),
    {
        let mut q = String::from_str("[out:json];node[\"");
        q.append(config.key.as_str());
        q.append("\"=\"");
        q.append(config.val.as_str());
        q.append("\"](");
        q.append(self.ymin.as_str());
        q.append(",");
        q.append(self.xmin.as_str());
        q.append(",");
        q.append(self.ymax.as_str());
        q.append(",");
        q.append(self.xmax.as_str());
        q.append(");out center;");
        q
    }

    /// The JSON object `v` has a bounding box's shape: fields `xmin`,
    /// `ymin`, `xmax`, `ymax`, each a number or a decimal-text string.
    pub open spec fn spec_ok(v: serde_json::Value) -> bool {
        &&& spec_field_coerced(v, "xmin"@) matches Some(t) && is_decimal_text(t)
        &&& spec_field_coerced(v, "ymin"@) matches Some(t) && is_decimal_text(t)
        &&& spec_field_coerced(v, "xmax"@) matches Some(t) && is_decimal_text(t)
        &&& spec_field_coerced(v, "ymax"@) matches Some(t) && is_decimal_text(t)
    }

    /// The box `self` holds exactly the four coerced texts of `v`.
    pub open spec fn spec_matches(self, v: serde_json::Value) -> bool {
        &&& self.xmin@ == spec_field_coerced(v, "xmin"@)->0
        &&& self.ymin@ == spec_field_coerced(v, "ymin"@)->0
        &&& self.xmax@ == spec_field_coerced(v, "xmax"@)->0
        &&& self.ymax@ == spec_field_coerced(v, "ymax"@)->0
    }

    /// Decodes a bounding box: it decodes exactly when the object has that
    /// shape, and then each boundary keeps the field's text verbatim.
    pub fn from_json_value(v: &serde_json::Value) -> (r: Result<BoundingBox, DecodeError>)
        ensures
            r is Ok <==> Self::spec_ok(*v),
            r is Ok ==> r->Ok_0.spec_matches(*v) && r->Ok_0.wf(),
            r is Err ==> r->Err_0 == DecodeError::Shape || r->Err_0 == DecodeError::Number,
    {
        let xmin = match get_decimal_coerced(v, "xmin") {
            Ok(d) => d,
            Err(e) => {
                return Err(e);
            },
        };
        let ymin = match get_decimal_coerced(v, "ymin") {
            Ok(d) => d,
            Err(e) => {
                return Err(e);
            },
        };
        let xmax = match get_decimal_coerced(v, "xmax") {
            Ok(d) => d,
            Err(e) => {
                return Err(e);
            },
        };
        let ymax = match get_decimal_coerced(v, "ymax") {
            Ok(d) => d,
            Err(e) => {
                return Err(e);
            },
        };
        Ok(BoundingBox { xmin, ymin, xmax, ymax })
    }
}

impl OSMMetaData {
    /// The JSON object `v` has the metadata shape: two string fields.
    pub open spec fn spec_ok(v: serde_json::Value) -> bool {
        &&& spec_field_str(v, "timestamp_osm_base"@) is Some
        &&& spec_field_str(v, "copyright"@) is Some
    }

    /// The metadata `self` holds exactly the two strings of `v`.
    pub open spec fn spec_matches(self, v: serde_json::Value) -> bool {
        &&& self.timestamp_osm_base@ == spec_field_str(v, "timestamp_osm_base"@)->0
        &&& self.copyright@ == spec_field_str(v, "copyright"@)->0
    }

    /// Decodes the response's metadata object: it decodes exactly when both
    /// string fields are present.
    pub fn from_json_value(v: &serde_json::Value) -> (r: Result<OSMMetaData, DecodeError>)
        ensures
            r is Ok <==> Self::spec_ok(*v),
            r is Ok ==> r->Ok_0.spec_matches(*v),
            r is Err ==> r->Err_0 == DecodeError::Shape,
    {
        let timestamp_osm_base = match get_string(v, "timestamp_osm_base") {
            Ok(s) => s,
            Err(e) => {
                return Err(e);
            },
        };
        let copyright = match get_string(v, "copyright") {
            Ok(s) => s,
            Err(e) => {
                return Err(e);
            },
        };
        Ok(OSMMetaData { timestamp_osm_base, copyright })
    }
}

impl OverpassResponse {
    pub open spec fn wf(&self) -> bool {
        &&& self.version.wf()
        &&& forall|i: int| 0 <= i < self.elements@.len() ==> (#[trigger] self.elements@[i]).wf()
    }

    /// The JSON document `v` has the response shape: `version` a JSON
    /// number, `generator` a string, `osm3s` the metadata object,
    /// `elements` an array of node objects.
    pub open spec fn spec_ok(v: serde_json::Value) -> bool {
        &&& spec_field_number_text(v, "version"@) is Some
        &&& spec_field_str(v, "generator"@) is Some
        &&& field_of(v, "osm3s"@) is Some
        &&& OSMMetaData::spec_ok(field_of(v, "osm3s"@)->0)
        &&& spec_field_array(v, "elements"@) is Some
        &&& forall|i: int|
            0 <= i < spec_field_array(v, "elements"@)->0.len() ==> #[trigger] Node::spec_ok(
                spec_field_array(v, "elements"@)->0[i],
            )
    }

    /// The response `self` holds exactly what the document `v` carries; the
    /// elements keep the array's order and count.
    pub open spec fn spec_matches(self, v: serde_json::Value) -> bool {
        &&& self.version@ == spec_field_number_text(v, "version"@)->0
        &&& self.generator@ == spec_field_str(v, "generator"@)->0
        &&& self.osm3s.spec_matches(field_of(v, "osm3s"@)->0)
        &&& self.elements@.len() == spec_field_array(v, "elements"@)->0.len()
        &&& forall|i: int|
            0 <= i < self.elements@.len() ==> (#[trigger] self.elements@[i]).spec_matches(
                spec_field_array(v, "elements"@)->0[i],
            )
    }

    /// Decodes a spatial-service response body. It succeeds exactly when
    /// the body is well-formed JSON of the response shape; the result then
    /// carries the document's fields, the elements in the array's order and
    /// count — an empty `elements` array decodes to a response with no
    /// nodes, not an error. The syntax error comes exactly when the body is
    /// not JSON.
    pub fn from_json(body: &str) -> (r: Result<OverpassResponse, DecodeError>)
        ensures
            r is Ok <==> (doc_of(body@) matches Some(d) && Self::spec_ok(d)),
            r is Ok ==> r->Ok_0.spec_matches(doc_of(body@)->0) && r->Ok_0.wf(),
            doc_of(body@) is None <==> (r is Err && r->Err_0 == DecodeError::Syntax),
    {
        let doc = match parse_document(body) {
            Ok(v) => v,
            Err(e) => {
                return Err(e);
            },
        };
        let ghost d = doc_of(body@)->0;
        let version = match get_decimal_number(&doc, "version") {
            Ok(d) => d,
            Err(e) => {
                return Err(e);
            },
        };
        let generator = match get_string(&doc, "generator") {
            Ok(s) => s,
            Err(e) => {
                return Err(e);
            },
        };
        let meta = match get_field(&doc, "osm3s") {
            Ok(f) => f,
            Err(e) => {
                return Err(e);
            },
        };
        let osm3s = match OSMMetaData::from_json_value(meta) {
            Ok(m) => m,
            Err(e) => {
                return Err(e);
            },
        };
        let arr = match get_array(&doc, "elements") {
            Ok(a) => a,
            Err(e) => {
                return Err(e);
            },
        };
        let ghost elems = spec_field_array(d, "elements"@)->0;
        let mut elements: Vec<Node> = Vec::new();
        let mut i: usize = 0;
        while i < arr.len()
            invariant
                doc_of(body@) == Some(d),
                spec_field_array(d, "elements"@) == Some(elems),
                arr@ == elems,
                0 <= i <= arr@.len(),
                elements@.len() == i,
                forall|m: int|
                    0 <= m < i ==> (#[trigger] elements@[m]).wf() && elements@[m].spec_matches(
                        elems[m],
                    ),
                forall|m: int| 0 <= m < i ==> #[trigger] Node::spec_ok(elems[m]),
            decreases arr@.len() - i,
        {
            let node = match Node::from_json_value(&arr[i]) {
                Ok(n) => n,
                Err(e) => {
                    proof {
                        assert(!Node::spec_ok(spec_field_array(d, "elements"@)->0[i as int]));
                        assert(!Self::spec_ok(d));
                    }
                    return Err(e);
                },
            };
            elements.push(node);
            i += 1;
        }
        proof {
            assert forall|m: int|
                0 <= m < spec_field_array(d, "elements"@)->0.len() implies #[trigger] Node::spec_ok(
                spec_field_array(d, "elements"@)->0[m],
            ) by {
                assert(Node::spec_ok(elems[m]));
            }
        }
        Ok(OverpassResponse { version, generator, osm3s, elements })
    }
}

} // verus!

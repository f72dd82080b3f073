//! Query OpenStreetMap objects with Overpass and Nominatim.
//!
//! The library builds the outgoing queries — an Overpass tag-filtered
//! spatial query over a bounding box, and Nominatim geocode /
//! reverse-geocode parameter sets — and decodes the JSON responses into
//! typed structures, coercing numbers that arrive as JSON strings.
//! Issuing the HTTP requests is left to the caller.

pub mod decimal;
pub mod json;
pub mod nominatim;
pub mod overpass;

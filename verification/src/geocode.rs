//! Location search: where to ask for a place and how the first match is
//! named for display.

use vstd::prelude::*;
use vstd::string::*;
use vstd::utf8::encode_utf8;
use crate::text::{joined, percent_encode, percent_encoded};

verus! {

/// Why a place could not be resolved.
#[derive(Debug)]
pub enum GeocodeError {
    /// The request failed or was answered with an error status.
    Http(String),
    /// The answer was not the expected document.
    Json(String),
    /// The search matched no place.
    NotFound,
}

/// The wording of a location search failure.
pub open spec fn geocode_error_text(e: GeocodeError) -> Seq<char> {
    match e {
        GeocodeError::Http(m) => "HTTP error: "@ + m@,
        GeocodeError::Json(m) => "JSON error: "@ + m@,
        GeocodeError::NotFound => "No matching location found"@,
    }
}

impl GeocodeError {
    /// The failure in words.
    pub fn message(&self) -> (r: String)
        ensures
            r@ == geocode_error_text(*self),
    {
        match self {
            GeocodeError::Http(m) => joined("HTTP error: ", m.as_str()),
            GeocodeError::Json(m) => joined("JSON error: ", m.as_str()),
            GeocodeError::NotFound => "No matching location found".to_owned(),
        }
    }
}

/// One match of the location search. Latitude and longitude are decimal
/// numerals, as they go into a forecast request.
#[derive(Debug)]
pub struct GeoMatch {
    pub name: String,
    pub latitude: String,
    pub longitude: String,
    pub country: String,
    pub admin1: String,
}

/// A resolved place: its coordinates and the label it is shown under.
#[derive(Debug)]
pub struct Place {
    pub latitude: String,
    pub longitude: String,
    pub label: String,
}

/// A resolved place as a mathematical value.
pub struct PlaceView {
    pub latitude: Seq<char>,
    pub longitude: Seq<char>,
    pub label: Seq<char>,
}

impl View for Place {
    type V = PlaceView;

    open spec fn view(&self) -> PlaceView {
        PlaceView { latitude: self.latitude@, longitude: self.longitude@, label: self.label@ }
    }
}

/// The label of a place: its name alone when the country is unknown,
/// `name (country)` when the region is unknown, else
/// `name — region, country`.
pub open spec fn label_of(name: Seq<char>, admin1: Seq<char>, country: Seq<char>) -> Seq<char> {
    if country.len() == 0 {
        name
    } else if admin1.len() == 0 {
        name + " ("@ + country + ")"@
    } else {
        name + " — "@ + admin1 + ", "@ + country
    }
}

/// The address that answers a location search for a free-text query.
pub open spec fn geocode_address(query: Seq<char>) -> Seq<char> {
    "https://geocoding-api.open-meteo.com/v1/search?name="@ + percent_encoded(encode_utf8(query))
        + "&count=1&language=en&format=json"@
}

/// The place that a list of matches resolves to: the first match.
pub open spec fn place_of(m: GeoMatch) -> PlaceView {
    PlaceView {
        latitude: m.latitude@,
        longitude: m.longitude@,
        label: label_of(m.name@, m.admin1@, m.country@),
    }
}

/// The label of a place.
pub fn display_label(name: &str, admin1: &str, country: &str) -> (label: String)
    ensures
        label@ == label_of(name@, admin1@, country@),
{
    let mut label = name.to_owned();
    if country.is_empty() {
    } else if admin1.is_empty() {
        label.append(" (");
        label.append(country);
        label.append(")");
    } else {
        label.append(" — ");
        label.append(admin1);
        label.append(", ");
        label.append(country);
    }
    label
}

/// The address that answers a location search for a free-text query.
pub fn geocode_url(query: &str) -> (r: String)
    ensures
        r@ == geocode_address(query@),
{
    let mut r = "https://geocoding-api.open-meteo.com/v1/search?name=".to_owned();
    r.append(percent_encode(query).as_str());
    r.append("&count=1&language=en&format=json");
    r
}

/// Resolves the answer of a location search to a place: the first match
/// with its label. An answer without a list of matches, or with an empty
/// one, is `NotFound`.
pub fn resolve_place(results: Option<Vec<GeoMatch>>) -> (r: Result<Place, GeocodeError>)
    ensures
        match results {
            Some(matches) if matches@.len() > 0 => r matches Ok(place) && place@ == place_of(
                matches@[0],
            ),
            _ => r matches Err(GeocodeError::NotFound),
        },
{
    match results {
        Some(matches) => {
            if matches.len() == 0 {
                return Err(GeocodeError::NotFound);
            }
            let mut matches = matches;
            let first = matches.swap_remove(0);
            let label = display_label(
                first.name.as_str(),
                first.admin1.as_str(),
                first.country.as_str(),
            );
            Ok(Place { latitude: first.latitude, longitude: first.longitude, label })
        },
        None => Err(GeocodeError::NotFound),
    }
}

} // verus!

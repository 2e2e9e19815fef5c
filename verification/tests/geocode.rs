use dashboard_core::geocode::{display_label, geocode_url, resolve_place, GeoMatch, GeocodeError};

fn place(name: &str, admin1: &str, country: &str) -> GeoMatch {
    GeoMatch {
        name: name.to_string(),
        latitude: "44.43".to_string(),
        longitude: "26.1".to_string(),
        country: country.to_string(),
        admin1: admin1.to_string(),
    }
}

#[test]
fn label_with_country_only() {
    assert_eq!(display_label("Paris", "", "France"), "Paris (France)");
}

#[test]
fn label_with_region_and_country() {
    assert_eq!(
        display_label("Cluj-Napoca", "Cluj County", "Romania"),
        "Cluj-Napoca — Cluj County, Romania"
    );
}

#[test]
fn label_without_country_is_the_name() {
    assert_eq!(display_label("X", "", ""), "X");
    assert_eq!(display_label("X", "Region", ""), "X");
}

#[test]
fn query_is_percent_encoded() {
    assert_eq!(
        geocode_url("Bucharest"),
        "https://geocoding-api.open-meteo.com/v1/search?name=Bucharest&count=1&language=en&format=json"
    );
    assert_eq!(
        geocode_url("New York"),
        "https://geocoding-api.open-meteo.com/v1/search?name=New%20York&count=1&language=en&format=json"
    );
    assert_eq!(
        geocode_url("Iași & co/é~"),
        "https://geocoding-api.open-meteo.com/v1/search?name=Ia%C8%99i%20%26%20co%2F%C3%A9~&count=1&language=en&format=json"
    );
}

#[test]
fn first_match_is_taken() {
    let r = resolve_place(Some(vec![
        place("Paris", "Île-de-France", "France"),
        place("Paris", "Texas", "United States"),
    ]));
    let p = r.unwrap();
    assert_eq!(p.label, "Paris — Île-de-France, France");
    assert_eq!(p.latitude, "44.43");
    assert_eq!(p.longitude, "26.1");
}

#[test]
fn no_match_is_not_found() {
    assert!(matches!(resolve_place(Some(Vec::new())), Err(GeocodeError::NotFound)));
    assert!(matches!(resolve_place(None), Err(GeocodeError::NotFound)));
}

#[test]
fn geocode_errors_in_words() {
    assert_eq!(GeocodeError::NotFound.message(), "No matching location found");
    assert_eq!(GeocodeError::Http("timeout".to_string()).message(), "HTTP error: timeout");
    assert_eq!(GeocodeError::Json("eof".to_string()).message(), "JSON error: eof");
}

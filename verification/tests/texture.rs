use std::collections::HashMap;
use weather_db::database_connection::{DatabaseConnection, Pixel, RegionCoord, TEXTURE_HEIGHT, TEXTURE_WIDTH};

#[test]
fn pixels_follow_known_regions() {
    let mut d = DatabaseConnection::<()>::new();
    let mut m = HashMap::new();
    m.insert(1, RegionCoord { x: 10, y: 20 });
    m.insert(3, RegionCoord { x: 0, y: 4319 });
    assert!(d.store_regions(Some(m)));
    let pixels = d.texture_pixels(&[(1, 5), (2, 7), (3, 255), (1, 9)]);
    assert_eq!(
        pixels,
        vec![
            Pixel { x: 10, y: 20, value: 5 },
            Pixel { x: 0, y: 4319, value: 255 },
            Pixel { x: 10, y: 20, value: 9 },
        ]
    );
    assert_eq!((TEXTURE_WIDTH, TEXTURE_HEIGHT), (8640, 4320));
}

#[test]
fn failed_region_fetch_keeps_old_coordinates() {
    let mut d = DatabaseConnection::<()>::new();
    assert!(!d.store_regions(None));
    assert!(d.region_coords.is_empty());
    assert!(d.texture_pixels(&[(1, 1)]).is_empty());
}

use weather_db::database_connection::{
    country_centers, field_query, same_text, PREC_COUNTRY_QUERY, PREC_QUERY, TMAX_QUERY,
    TMIN_COUNTRY_QUERY,
};

#[test]
fn weather_field_queries() {
    assert_eq!(field_query("wp_prec", false), Some(PREC_QUERY));
    assert_eq!(field_query("wp_prec", true), Some(PREC_COUNTRY_QUERY));
    assert_eq!(field_query("wp_tmin", true), Some(TMIN_COUNTRY_QUERY));
    assert_eq!(field_query("wp_tmax", false), Some(TMAX_QUERY));
    assert_eq!(field_query("wp_region_id", false), None);
    assert_eq!(field_query("", true), None);
    assert!(same_text("äb", "äb"));
    assert!(!same_text("ab", "abc"));
}

#[test]
fn country_centers_widen() {
    let rows = vec![("France".to_string(), -3i16, 4000i16), ("Chad".to_string(), 0, -1)];
    assert_eq!(
        country_centers(&rows),
        vec![("France".to_string(), (-3, 4000)), ("Chad".to_string(), (0, -1))]
    );
}

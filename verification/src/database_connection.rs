pub mod connection;
pub mod pool_config;
pub mod query_laws;

use vstd::prelude::*;
use std::collections::HashMap;
use crate::database_connection::connection::PGConnection;
use crate::database_initializer::data_files::bytes_end_with;

verus! {

broadcast use vstd::std_specs::hash::group_hash_axioms;

/// Where a region lies in the world texture.
#[derive(Clone, Copy, PartialEq, Eq, Debug)]
pub struct RegionCoord {
    pub x: i32,
    pub y: i32,
}

/// The width of the world texture, in pixels.
pub const TEXTURE_WIDTH: i64 = 8640;

/// The height of the world texture, in pixels.
pub const TEXTURE_HEIGHT: i64 = 4320;

/// A pixel to set in the world texture: its place, and the value that its
/// gray level is made from.
#[derive(Clone, Copy, PartialEq, Eq, Debug)]
pub struct Pixel {
    pub x: i32,
    pub y: i32,
    pub value: i32,
}

/// The pixels of the data points, in their order: one for each point whose
/// region has known coordinates, at those coordinates, with the point's value.
pub open spec fn pixels_spec(coords: Map<i32, RegionCoord>, data: Seq<(i32, i32)>) -> Seq<Pixel>
    decreases data.len(),
{
    if data.len() == 0 {
        Seq::empty()
    } else {
        let rest = pixels_spec(coords, data.drop_last());
        let point = data.last();
        if coords.contains_key(point.0) {
            rest.push(Pixel { x: coords[point.0].x, y: coords[point.0].y, value: point.1 })
        } else {
            rest
        }
    }
}

/// The query of a weather field at a time point.
pub const PREC_QUERY: &'static str = "SELECT wp_region_id, wp_prec FROM weatherpoints WHERE wp_timepoint_id = $1";

/// The query of a weather field at a time point.
pub const TMIN_QUERY: &'static str = "SELECT wp_region_id, wp_tmin FROM weatherpoints WHERE wp_timepoint_id = $1";

/// The query of a weather field at a time point.
pub const TMAX_QUERY: &'static str = "SELECT wp_region_id, wp_tmax FROM weatherpoints WHERE wp_timepoint_id = $1";

/// The query of a weather field at a time point, within one country.
pub const PREC_COUNTRY_QUERY: &'static str = "SELECT wp_region_id, wp_prec FROM weatherpoints JOIN region_in_country ON ric_region_id = wp_region_id WHERE wp_timepoint_id = $1 AND ric_iso_a3 = $2";

/// The query of a weather field at a time point, within one country.
pub const TMIN_COUNTRY_QUERY: &'static str = "SELECT wp_region_id, wp_tmin FROM weatherpoints JOIN region_in_country ON ric_region_id = wp_region_id WHERE wp_timepoint_id = $1 AND ric_iso_a3 = $2";

/// The query of a weather field at a time point, within one country.
pub const TMAX_COUNTRY_QUERY: &'static str = "SELECT wp_region_id, wp_tmax FROM weatherpoints JOIN region_in_country ON ric_region_id = wp_region_id WHERE wp_timepoint_id = $1 AND ric_iso_a3 = $2";

/// The query of the two temperatures of every region at a time point.
pub const TEMPERATURES_QUERY: &'static str = "SELECT wp_region_id, wp_tmin, wp_tmax FROM weatherpoints WHERE wp_timepoint_id = $1::int4";

/// The query for a weather field, one of "wp_prec", "wp_tmin" and "wp_tmax";
/// over all regions, or over those of one country.
pub open spec fn field_query_spec(field: Seq<char>, per_country: bool) -> Option<Seq<char>> {
    if field == "wp_prec"@ {
        Some(if per_country { PREC_COUNTRY_QUERY@ } else { PREC_QUERY@ })
    } else if field == "wp_tmin"@ {
        Some(if per_country { TMIN_COUNTRY_QUERY@ } else { TMIN_QUERY@ })
    } else if field == "wp_tmax"@ {
        Some(if per_country { TMAX_COUNTRY_QUERY@ } else { TMAX_QUERY@ })
    } else {
        None
    }
}

/// Whether two strings are the same text.
pub fn same_text(a: &str, b: &str) -> (r: bool)
    ensures
        r == (a@ == b@),
{
    let ab = a.as_bytes();
    let bb = b.as_bytes();
    let r: bool = ab.len() == bb.len() && bytes_end_with(ab, bb);
    proof {
        broadcast use vstd::utf8::encode_utf8_decode_utf8;

        if r {
            assert(ab@.subrange(0, ab@.len() as int) =~= ab@);
            assert(ab@ =~= bb@);
            assert(vstd::utf8::decode_utf8(ab@) == a@);
            assert(vstd::utf8::decode_utf8(bb@) == b@);
        }
        if a@ == b@ {
            assert(ab@.subrange(0, ab@.len() as int) =~= ab@);
        }
    }
    r
}

/// The query for a weather field; `None` for any other field name.
pub fn field_query(field: &str, per_country: bool) -> (q: Option<&'static str>)
    ensures
        match q {
            Some(s) => field_query_spec(field@, per_country) == Some(s@),
            None => field_query_spec(field@, per_country) is None,
        },
{
    if same_text(field, "wp_prec") {
        Some(if per_country { PREC_COUNTRY_QUERY } else { PREC_QUERY })
    } else if same_text(field, "wp_tmin") {
        Some(if per_country { TMIN_COUNTRY_QUERY } else { TMIN_QUERY })
    } else if same_text(field, "wp_tmax") {
        Some(if per_country { TMAX_COUNTRY_QUERY } else { TMAX_QUERY })
    } else {
        None
    }
}

/// The center of each country row (name, x, y), the coordinates widened to
/// 32 bits, in the order of the rows.
pub fn country_centers(rows: &[(String, i16, i16)]) -> (centers: Vec<(String, (i32, i32))>)
    ensures
        centers@.len() == rows@.len(),
        forall|i: int|
            0 <= i < rows@.len() ==> centers@[i].0@ == rows@[i].0@ && centers@[i].1 == (
                rows@[i].1 as i32,
                rows@[i].2 as i32,
            ),
{
    let mut centers: Vec<(String, (i32, i32))> = Vec::new();
    let mut i: usize = 0;
    while i < rows.len()
        invariant
            i <= rows@.len(),
            centers@.len() == i,
            forall|j: int|
                0 <= j < i ==> centers@[j].0@ == rows@[j].0@ && centers@[j].1 == (
                    rows@[j].1 as i32,
                    rows@[j].2 as i32,
                ),
        decreases rows@.len() - i,
    {
        let row = &rows[i];
        centers.push((row.0.clone(), (row.1 as i32, row.2 as i32)));
        i = i + 1;
    }
    centers
}

/// The database connection that a user interface holds, with the
/// coordinates of each region, by region id.
pub struct DatabaseConnection<P> {
    pub connection: PGConnection<P>,
    pub region_coords: HashMap<i32, RegionCoord>,
}

impl<P> DatabaseConnection<P> {
    pub fn new() -> (d: Self)
        ensures
            d.connection@.pool is None,
            d.connection@.role == Seq::<char>::empty(),
            d.region_coords@ == Map::<i32, RegionCoord>::empty(),
    {
        DatabaseConnection { connection: PGConnection::new(), region_coords: HashMap::new() }
    }

    /// Keeps the region coordinates that were fetched after connecting, if
    /// any were: then the connection is ready.
    pub fn store_regions(&mut self, regions: Option<HashMap<i32, RegionCoord>>) -> (r: bool)
        ensures
            r == regions is Some,
            final(self).connection == old(self).connection,
            final(self).region_coords@ == (match regions {
                Some(m) => m@,
                None => old(self).region_coords@,
            }),
    {
        match regions {
            Some(m) => {
                self.region_coords = m;
                true
            },
            None => false,
        }
    }

    /// The pixels to set for `data`, pairs of a region id and a value.
    pub fn texture_pixels(&self, data: &[(i32, i32)]) -> (pixels: Vec<Pixel>)
        ensures
            pixels@ == pixels_spec(self.region_coords@, data@),
    {
        let mut pixels: Vec<Pixel> = Vec::new();
        let mut i: usize = 0;
        while i < data.len()
            invariant
                i <= data@.len(),
                pixels@ == pixels_spec(self.region_coords@, data@.take(i as int)),
            decreases data@.len() - i,
        {
            assert(data@.take(i + 1).drop_last() =~= data@.take(i as int));
            assert(data@.take(i + 1).last() == data@[i as int]);
            let point: (i32, i32) = data[i];
            match self.region_coords.get(&point.0) {
                Some(region) => {
                    pixels.push(Pixel { x: region.x, y: region.y, value: point.1 });
                },
                None => {},
            }
            i = i + 1;
        }
        assert(data@.take(data@.len() as int) =~= data@);
        pixels
    }
}

} // verus!

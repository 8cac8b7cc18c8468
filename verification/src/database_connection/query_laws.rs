use vstd::prelude::*;
use crate::database_connection::{
    field_query_spec, pixels_spec, Pixel, RegionCoord, PREC_COUNTRY_QUERY, PREC_QUERY,
    TMAX_COUNTRY_QUERY, TMAX_QUERY, TMIN_COUNTRY_QUERY, TMIN_QUERY,
};

verus! {

/// The pixels of a field's data are, in the order of the data, those of the
/// points whose region has coordinates, each at its region's place and
/// carrying the point's value unchanged.
pub proof fn pixels_carry_the_values_of_the_located_points(
    coords: Map<i32, RegionCoord>,
    data: Seq<(i32, i32)>,
)
    ensures
        pixels_spec(coords, data) == data.filter(|p: (i32, i32)| coords.contains_key(p.0)).map_values(
            |p: (i32, i32)| Pixel { x: coords[p.0].x, y: coords[p.0].y, value: p.1 },
        ),
    decreases data.len(),
{
    let located = |p: (i32, i32)| coords.contains_key(p.0);
    let paint = |p: (i32, i32)| Pixel { x: coords[p.0].x, y: coords[p.0].y, value: p.1 };
    if data.len() > 0 {
        pixels_carry_the_values_of_the_located_points(coords, data.drop_last());
        let rest = data.drop_last().filter(located);
        assert(data.drop_last().push(data.last()) =~= data);
        data.drop_last().lemma_filter_push(data.last(), located);
        if located(data.last()) {
            assert(data.filter(located) == rest.push(data.last()));
            assert(rest.push(data.last()).map_values(paint) =~= rest.map_values(paint).push(
                paint(data.last()),
            ));
        } else {
            assert(data.filter(located) == rest);
        }
    } else {
        reveal(Seq::filter);
        assert(data.filter(located) =~= Seq::<(i32, i32)>::empty());
        assert(data.filter(located).map_values(paint) =~= Seq::<Pixel>::empty());
    }
}

/// The query for each of the three weather fields selects the region id and
/// that field, and no other; over all regions it filters by the time point
/// alone, within a country by the time point and the country's code. Any
/// other field name has no query.
pub proof fn each_field_query_selects_its_field(field: Seq<char>, per_country: bool)
    ensures
        field_query_spec(field, per_country) is Some <==> (field == "wp_prec"@ || field
            == "wp_tmin"@ || field == "wp_tmax"@),
        field_query_spec(field, per_country) matches Some(q) ==> {
            &&& q.len() >= 28
            &&& q.subrange(0, 28) == "SELECT wp_region_id, "@ + field
            &&& q.subrange(28, 47) == " FROM weatherpoints"@
            &&& !per_country ==> q.subrange(47, q.len() as int)
                == " WHERE wp_timepoint_id = $1"@
            &&& per_country ==> q.subrange(q.len() - 20, q.len() as int)
                == " AND ric_iso_a3 = $2"@
        },
{
    reveal_strlit("wp_prec");
    reveal_strlit("wp_tmin");
    reveal_strlit("wp_tmax");
    reveal_strlit("SELECT wp_region_id, ");
    reveal_strlit(" FROM weatherpoints");
    reveal_strlit(" WHERE wp_timepoint_id = $1");
    reveal_strlit(" AND ric_iso_a3 = $2");
    reveal_strlit("SELECT wp_region_id, wp_prec FROM weatherpoints WHERE wp_timepoint_id = $1");
    reveal_strlit("SELECT wp_region_id, wp_tmin FROM weatherpoints WHERE wp_timepoint_id = $1");
    reveal_strlit("SELECT wp_region_id, wp_tmax FROM weatherpoints WHERE wp_timepoint_id = $1");
    reveal_strlit(
        "SELECT wp_region_id, wp_prec FROM weatherpoints JOIN region_in_country ON ric_region_id = wp_region_id WHERE wp_timepoint_id = $1 AND ric_iso_a3 = $2",
    );
    reveal_strlit(
        "SELECT wp_region_id, wp_tmin FROM weatherpoints JOIN region_in_country ON ric_region_id = wp_region_id WHERE wp_timepoint_id = $1 AND ric_iso_a3 = $2",
    );
    reveal_strlit(
        "SELECT wp_region_id, wp_tmax FROM weatherpoints JOIN region_in_country ON ric_region_id = wp_region_id WHERE wp_timepoint_id = $1 AND ric_iso_a3 = $2",
    );
    if let Some(q) = field_query_spec(field, per_country) {
        assert(q.subrange(0, 28) =~= "SELECT wp_region_id, "@ + field);
        assert(q.subrange(28, 47) =~= " FROM weatherpoints"@);
        if per_country {
            assert(q.subrange(q.len() - 20, q.len() as int) =~= " AND ric_iso_a3 = $2"@);
        } else {
            assert(q.subrange(47, q.len() as int) =~= " WHERE wp_timepoint_id = $1"@);
        }
    }
}

} // verus!

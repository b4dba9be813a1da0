use punter::raster::normalized_numerators;

#[test]
fn centre_pixel_maps_to_origin() {
    assert_eq!(normalized_numerators(512, 384, 1024, 768), (0, 0));
}

#[test]
fn centre_pixel_of_odd_raster_is_within_one_unit() {
    // pixel (7/2, 5/2) == (3, 2): numerators one unit from zero at most
    let (nx, ny) = normalized_numerators(3, 2, 7, 5);
    assert_eq!(nx, -1);
    assert_eq!(ny, 1);
}

#[test]
fn left_edge_maps_to_minus_one() {
    // numerator -width over denominator width: exactly -1
    assert_eq!(normalized_numerators(0, 384, 1024, 768), (-1024, 0));
}

#[test]
fn corners_span_the_frame() {
    assert_eq!(normalized_numerators(0, 0, 1024, 768), (-1024, 768));
    assert_eq!(normalized_numerators(1023, 767, 1024, 768), (1022, -766));
}

#[test]
fn numerators_match_half_width_normalisation() {
    // dividing the numerators by the width gives the same floating-point
    // values as the half-width form (column - w/2)/(w/2), (h/2 - row)/(w/2)
    let cases = [
        (0u32, 0u32, 1024u32, 768u32),
        (100, 200, 640, 480),
        (639, 479, 640, 480),
        (3, 2, 7, 5),
    ];
    for (c, r, w, h) in cases {
        let (nx, ny) = normalized_numerators(c, r, w, h);
        let half_w = w as f32 * 0.5f32;
        let half_h = h as f32 * 0.5f32;
        let fx = (c as f32 - half_w) / half_w;
        let fy = (half_h - r as f32) / half_w;
        assert_eq!(nx as f32 / w as f32, fx);
        assert_eq!(ny as f32 / w as f32, fy);
    }
}

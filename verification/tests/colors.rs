use rusty_hue::colors::{
    color_gamut_a, color_gamut_b, color_gamut_c, color_gamut_lookup, gamut_for_class, ColorGamut,
    DomainError, GamutPoint, COORD_LIMIT, RGB, XY,
};

/// A coordinate in ten-thousandths.
fn units(v: f64) -> i64 {
    (v * 10000.0).round() as i64
}

fn point(x: f64, y: f64) -> GamutPoint {
    GamutPoint { x: units(x), y: units(y) }
}

fn triangle(red: (f64, f64), green: (f64, f64), blue: (f64, f64)) -> ColorGamut {
    ColorGamut::new(point(red.0, red.1), point(green.0, green.1), point(blue.0, blue.1)).unwrap()
}

fn rgb_to_xy() {
    let rgb = RGB { r: 100, g: 100, b: 100 };
    let xy = XY::from_rgb(rgb);

    assert_eq!(xy.x, units(0.32272673));
    assert_eq!(xy.y, units(0.32902290));
    assert_eq!(xy.brightness, 32);

    let rgb = RGB { r: 100, g: 10, b: 100 };
    let xy = XY::from_rgb(rgb);

    assert_eq!(xy.x, units(0.3834));
    assert_eq!(xy.y, units(0.1605));
    assert_eq!(xy.brightness, 11);
}

fn xy_to_rgb() {
    let xy = XY { x: units(0.32272673), y: units(0.32902290), brightness: 35 };
    let rgb = RGB::from_xy(xy).unwrap();

    assert_eq!(rgb.r, 103);
    assert_eq!(rgb.g, 103);
    assert_eq!(rgb.b, 103);
}

#[test]
fn colors_rgb_to_xy() {
    rgb_to_xy();
}

#[test]
fn lib_rgb_to_xy() {
    rgb_to_xy();
}

#[test]
fn colors_xy_to_rgb() {
    xy_to_rgb();
}

#[test]
fn lib_xy_to_rgb() {
    xy_to_rgb();
}

#[test]
fn point_in_triangle() {
    let point = point(3.5, 1.5);
    let triangle = triangle((4.0, 1.0), (5.0, 3.0), (2.0, 1.0));
    assert!(triangle.point_in_gamut(&point));
}

#[test]
fn point_not_in_triangle() {
    let point = point(1.0, 3.0);
    let triangle = triangle((4.0, 1.0), (5.0, 3.0), (2.0, 1.0));
    assert!(!triangle.point_in_gamut(&point));
}

#[test]
fn closest_point_on_line() {
    let p = point(1.0, 2.0);
    let a = point(2.0, 1.0);
    let b = point(2.0, 3.0);

    let new_point = p.closest_point_on_line(&a, &b).unwrap();

    assert_eq!(new_point.x, units(2.0));
    assert_eq!(new_point.y, units(2.0));
}

#[test]
fn distance_between_points() {
    let a = point(1.0, 2.0);
    let b = point(2.0, 2.0);

    assert_eq!(a.distance_to(&b), units(1.0) as u64);
}

#[test]
fn closest_point_on_triangle() {
    let p = point(1.0, 2.0);
    let triangle = triangle((2.0, 1.0), (2.0, 3.0), (3.0, 2.0));

    let new_point = triangle.closest_point(&p);

    assert_eq!(new_point.x, units(2.0));
    assert_eq!(new_point.y, units(2.0));
}

#[test]
fn gamut_lookup() {
    assert_eq!(color_gamut_lookup("LLC007"), Some('A'));
    assert_eq!(color_gamut_lookup("LCT003"), Some('B'));
    assert_eq!(color_gamut_lookup("LST002"), Some('C'));
    assert_eq!(color_gamut_lookup("WRONG"), None);
}

#[test]
fn every_listed_model_has_its_class() {
    for id in ["LST001", "LLC005", "LLC006", "LLC007", "LLC010", "LLC011", "LLC012", "LLC013", "LLC014"] {
        assert_eq!(color_gamut_lookup(id), Some('A'));
    }
    for id in ["LCT001", "LCT002", "LCT003", "LMM001"] {
        assert_eq!(color_gamut_lookup(id), Some('B'));
    }
    for id in ["LCT010", "LCT011", "LCT014", "LCT015", "LCT016", "LLC020", "LST002", "LCT012"] {
        assert_eq!(color_gamut_lookup(id), Some('C'));
    }
    for id in ["", "LCT", "LCT0011", "lct001", "LCT00", "LLC0071"] {
        assert_eq!(color_gamut_lookup(id), None);
    }
}

#[test]
fn classes_have_their_gamuts() {
    assert_eq!(gamut_for_class('A').unwrap().red(), color_gamut_a().red());
    assert_eq!(gamut_for_class('B').unwrap().green(), color_gamut_b().green());
    assert_eq!(gamut_for_class('C').unwrap().blue(), color_gamut_c().blue());
    assert!(gamut_for_class('D').is_none());
    assert!(gamut_for_class('a').is_none());
    assert_eq!(color_gamut_a().red(), point(0.704, 0.296));
    assert_eq!(color_gamut_a().green(), point(0.2151, 0.7106));
    assert_eq!(color_gamut_a().blue(), point(0.138, 0.08));
    assert_eq!(color_gamut_b().red(), point(0.675, 0.322));
    assert_eq!(color_gamut_b().green(), point(0.409, 0.518));
    assert_eq!(color_gamut_b().blue(), point(0.167, 0.04));
    assert_eq!(color_gamut_c().red(), point(0.692, 0.308));
    assert_eq!(color_gamut_c().green(), point(0.17, 0.07));
    assert_eq!(color_gamut_c().blue(), point(0.153, 0.048));
}

#[test]
fn round_trip_stays_within_two() {
    for (r, g, b) in [(100u8, 100u8, 100u8), (100, 10, 100), (255, 255, 255), (0, 255, 0), (255, 255, 0), (12, 200, 77)] {
        let back = RGB::from_xy(XY::from_rgb(RGB { r, g, b })).unwrap();
        assert!((back.r as i32 - r as i32).abs() <= 2, "{:?}", back);
        assert!((back.g as i32 - g as i32).abs() <= 2, "{:?}", back);
        assert!((back.b as i32 - b as i32).abs() <= 2, "{:?}", back);
    }
}

#[test]
fn round_trip_exact_values() {
    assert_eq!(RGB::from_xy(XY::from_rgb(RGB { r: 100, g: 100, b: 100 })), Ok(RGB { r: 99, g: 99, b: 99 }));
    assert_eq!(RGB::from_xy(XY::from_rgb(RGB { r: 100, g: 10, b: 100 })), Ok(RGB { r: 98, g: 9, b: 98 }));
    assert_eq!(RGB::from_xy(XY::from_rgb(RGB { r: 255, g: 255, b: 255 })), Ok(RGB { r: 254, g: 255, b: 255 }));
}

#[test]
fn black_gets_the_neutral_point() {
    let xy = XY::from_rgb(RGB { r: 0, g: 0, b: 0 });
    assert_eq!(xy, XY { x: 3227, y: 3290, brightness: 0 });
    assert_eq!(RGB::from_xy(xy), Ok(RGB { r: 0, g: 0, b: 0 }));
}

#[test]
fn primaries_to_xy() {
    assert_eq!(XY::from_rgb(RGB { r: 255, g: 0, b: 0 }), XY { x: 7006, y: 2993, brightness: 72 });
    assert_eq!(XY::from_rgb(RGB { r: 0, g: 255, b: 0 }), XY { x: 1724, y: 7468, brightness: 170 });
    assert_eq!(XY::from_rgb(RGB { r: 0, g: 0, b: 255 }), XY { x: 1355, y: 399, brightness: 12 });
    assert_eq!(XY::from_rgb(RGB { r: 255, g: 255, b: 255 }), XY { x: 3227, y: 3290, brightness: 254 });
}

#[test]
fn xy_to_rgb_clamps() {
    assert_eq!(RGB::from_xy(XY { x: 3227, y: 3290, brightness: 254 }), Ok(RGB { r: 254, g: 255, b: 255 }));
    assert_eq!(RGB::from_xy(XY { x: 7006, y: 2993, brightness: 254 }), Ok(RGB { r: 255, g: 0, b: 0 }));
    assert_eq!(RGB::from_xy(XY { x: 3227, y: 3290, brightness: 0 }), Ok(RGB { r: 0, g: 0, b: 0 }));
    assert_eq!(RGB::from_xy(XY { x: 1000, y: -3000, brightness: 200 }), Ok(RGB { r: 84, g: 255, b: 0 }));
}

#[test]
fn xy_to_rgb_without_y_fails() {
    assert_eq!(RGB::from_xy(XY { x: 3227, y: 0, brightness: 35 }), Err(DomainError::ZeroY));
    assert_eq!(RGB::from_xy(XY { x: 0, y: 0, brightness: 0 }), Err(DomainError::ZeroY));
}

#[test]
fn projection_on_degenerate_line_fails() {
    let p = point(1.0, 2.0);
    let a = point(2.0, 1.0);
    assert_eq!(p.closest_point_on_line(&a, &a), Err(DomainError::DegenerateLine));
    let far = GamutPoint::new(COORD_LIMIT + 1, 0);
    assert_eq!(far.closest_point_on_line(&a, &p), Err(DomainError::OutOfRange));
    assert_eq!(p.closest_point_on_line(&far, &far), Err(DomainError::OutOfRange));
    assert_eq!(p.closest_point_on_line(&a, &far), Err(DomainError::OutOfRange));
    let edge = GamutPoint::new(COORD_LIMIT, -COORD_LIMIT);
    assert_eq!(edge.closest_point_on_line(&GamutPoint::new(-COORD_LIMIT, -COORD_LIMIT), &GamutPoint::new(-COORD_LIMIT, COORD_LIMIT)), Ok(GamutPoint::new(-COORD_LIMIT, -COORD_LIMIT)));
}

#[test]
fn projection_rounds_to_the_nearest_point() {
    let p = GamutPoint::new(0, 0);
    let a = GamutPoint::new(1, 0);
    let b = GamutPoint::new(0, 2);
    // the foot of the perpendicular is (0.8, 0.4)
    assert_eq!(p.closest_point_on_line(&a, &b), Ok(GamutPoint::new(1, 0)));
    let p = GamutPoint::new(3, 3);
    let a = GamutPoint::new(0, 0);
    let b = GamutPoint::new(2, 0);
    // beyond the end of the segment: the line is not cut off
    assert_eq!(p.closest_point_on_line(&a, &b), Ok(GamutPoint::new(3, 0)));
    let b = GamutPoint::new(1, 1);
    // the feet are (1, 1) and (-1, -1)
    assert_eq!(GamutPoint::new(0, 2).closest_point_on_line(&a, &b), Ok(GamutPoint::new(1, 1)));
    assert_eq!(GamutPoint::new(0, -2).closest_point_on_line(&a, &b), Ok(GamutPoint::new(-1, -1)));
}

#[test]
fn grid_points_of_a_line_stay() {
    let a = GamutPoint::new(0, 0);
    let b = GamutPoint::new(1, 1);
    // the line passes through a corner of the cell of each
    assert!(GamutPoint::new(0, 1).is_near_line(&a, &b));
    assert_eq!(GamutPoint::new(0, 1).closest_point_on_line(&a, &b), Ok(GamutPoint::new(0, 1)));
    assert_eq!(GamutPoint::new(0, -1).closest_point_on_line(&a, &b), Ok(GamutPoint::new(0, -1)));
    assert_eq!(GamutPoint::new(7, 7).closest_point_on_line(&a, &b), Ok(GamutPoint::new(7, 7)));
    assert!(!GamutPoint::new(0, 2).is_near_line(&a, &b));
    // only the points of a line along an axis are its grid points
    let b = GamutPoint::new(10, 0);
    assert!(GamutPoint::new(-5, 0).is_near_line(&a, &b));
    assert!(!GamutPoint::new(5, 1).is_near_line(&a, &b));
    assert!(!GamutPoint::new(5, -1).is_near_line(&a, &b));
}

#[test]
fn projecting_twice_is_projecting_once() {
    let a = GamutPoint::new(7040, 2960);
    let b = GamutPoint::new(2151, 7106);
    for p in [GamutPoint::new(5819, 1097), GamutPoint::new(0, 0), GamutPoint::new(9999, 1), GamutPoint::new(-3, 8000)] {
        let once = p.closest_point_on_line(&a, &b).unwrap();
        assert!(once.is_near_line(&a, &b));
        assert_eq!(once.closest_point_on_line(&a, &b), Ok(once));
    }
}

#[test]
fn sign_tells_the_sides_of_a_line() {
    let a = GamutPoint::new(0, 0);
    let b = GamutPoint::new(4, 0);
    assert!(!GamutPoint::new(1, 1).sign(&a, &b));
    assert!(GamutPoint::new(1, -1).sign(&a, &b));
    assert!(!GamutPoint::new(1, 0).sign(&a, &b));
}

#[test]
fn squared_distance_is_exact() {
    assert_eq!(GamutPoint::new(1, 2).squared_distance_to(&GamutPoint::new(4, 6)), 25);
    assert_eq!(GamutPoint::new(1, 2).distance_to(&GamutPoint::new(4, 6)), 5);
    assert_eq!(GamutPoint::new(0, 0).distance_to(&GamutPoint::new(1, 1)), 1);
    assert_eq!(GamutPoint::new(-3, 0).distance_to(&GamutPoint::new(0, 0)), 3);
}

#[test]
fn gamut_without_area_is_refused() {
    let r = ColorGamut::new(GamutPoint::new(0, 0), GamutPoint::new(1, 1), GamutPoint::new(2, 2));
    assert_eq!(r.err(), Some(DomainError::DegenerateGamut));
    let r = ColorGamut::new(GamutPoint::new(0, 0), GamutPoint::new(0, 0), GamutPoint::new(2, 3));
    assert_eq!(r.err(), Some(DomainError::DegenerateGamut));
    let r = ColorGamut::new(GamutPoint::new(COORD_LIMIT + 1, 0), GamutPoint::new(0, 1), GamutPoint::new(2, 3));
    assert_eq!(r.err(), Some(DomainError::OutOfRange));
    let r = ColorGamut::new(GamutPoint::new(COORD_LIMIT, 0), GamutPoint::new(0, -COORD_LIMIT), GamutPoint::new(2, 3));
    assert!(r.is_ok());
}

#[test]
fn nearest_point_is_the_nearest_of_the_three_projections() {
    let g = color_gamut_b();
    for p in [GamutPoint::new(9197, 6366), GamutPoint::new(100, 100), GamutPoint::new(5000, 9000), GamutPoint::new(0, 5000)] {
        assert!(!g.point_in_gamut(&p));
        let r = g.closest_point(&p);
        let first = p.closest_point_on_line(&g.red(), &g.green()).unwrap();
        let second = p.closest_point_on_line(&g.green(), &g.blue()).unwrap();
        let third = p.closest_point_on_line(&g.blue(), &g.red()).unwrap();
        assert!(r == first || r == second || r == third);
        let d = p.squared_distance_to(&r);
        assert!(d <= p.squared_distance_to(&first));
        assert!(d <= p.squared_distance_to(&second));
        assert!(d <= p.squared_distance_to(&third));
    }
}

#[test]
fn first_edge_wins_a_tie() {
    // the point is equally far from the lines of all three edges
    let g = ColorGamut::new(GamutPoint::new(0, 0), GamutPoint::new(12, 0), GamutPoint::new(0, 12)).unwrap();
    let p = GamutPoint::new(-6, -6);
    assert!(!g.point_in_gamut(&p));
    assert_eq!(g.closest_point(&p), GamutPoint::new(-6, 0));
}

#[test]
fn adjusting_keeps_points_of_the_gamut() {
    let mut xy = XY { x: 3227, y: 3290, brightness: 32 };
    xy.adjust_for_gamut(color_gamut_a());
    assert_eq!(xy, XY { x: 3227, y: 3290, brightness: 32 });
    xy.adjust_for_gamut(color_gamut_b());
    assert_eq!(xy, XY { x: 3227, y: 3290, brightness: 32 });
}

#[test]
fn adjusting_moves_points_outside_and_keeps_brightness() {
    let mut xy = XY { x: 1355, y: 399, brightness: 12 };
    xy.adjust_for_gamut(color_gamut_b());
    assert_eq!(xy, XY { x: 1429, y: 266, brightness: 12 });
    let mut xy = XY { x: 1000, y: 2000, brightness: 200 };
    xy.adjust_for_gamut(triangle((0.2, 0.1), (0.2, 0.3), (0.3, 0.2)));
    assert_eq!(xy, XY { x: 2000, y: 2000, brightness: 200 });
}

#[test]
fn adjusting_twice_is_adjusting_once() {
    let g = triangle((0.2, 0.1), (0.2, 0.3), (0.3, 0.2));
    let mut once = XY { x: 1000, y: 2000, brightness: 7 };
    once.adjust_for_gamut(g);
    let mut twice = once;
    twice.adjust_for_gamut(g);
    assert_eq!(once, twice);
}

#[test]
fn adjusting_twice_is_adjusting_once_after_rounding() {
    let mut once = XY { x: 5819, y: 1097, brightness: 1 };
    once.adjust_for_gamut(color_gamut_a());
    assert_eq!(once, XY { x: 5354, y: 2316, brightness: 1 });
    let mut twice = once;
    twice.adjust_for_gamut(color_gamut_a());
    assert_eq!(twice, once);
    let g = ColorGamut::new(GamutPoint::new(3, 0), GamutPoint::new(0, 5), GamutPoint::new(0, 0)).unwrap();
    let mut once = XY { x: 4, y: 4, brightness: 9 };
    once.adjust_for_gamut(g);
    assert_eq!(once, XY { x: 2, y: 3, brightness: 9 });
    let mut twice = once;
    twice.adjust_for_gamut(g);
    assert_eq!(twice, once);
}

#[test]
fn adjusting_twice_is_adjusting_once_everywhere() {
    for g in [color_gamut_a(), color_gamut_b(), color_gamut_c()] {
        let mut x = -2000;
        while x <= 12000 {
            let mut y = -2000;
            while y <= 12000 {
                let mut once = XY { x, y, brightness: 3 };
                once.adjust_for_gamut(g);
                let mut twice = once;
                twice.adjust_for_gamut(g);
                assert_eq!(twice, once);
                assert!(g.is_adjustable(&GamutPoint::new(once.x, once.y)));
                y += 97;
            }
            x += 89;
        }
    }
}

#[test]
fn grid_points_of_an_edge_line_are_kept() {
    let g = color_gamut_a();
    let p = GamutPoint::new(49, 8888);
    assert!(!g.point_in_gamut(&p));
    assert!(g.is_near_edge_line(&p));
    assert_eq!(g.closest_point(&p), p);
    let mut xy = XY { x: 49, y: 8888, brightness: 200 };
    xy.adjust_for_gamut(g);
    assert_eq!(xy, XY { x: 49, y: 8888, brightness: 200 });
    assert!(!g.is_near_edge_line(&GamutPoint::new(5819, 1097)));
    assert!(g.is_adjustable(&GamutPoint::new(5819, 1097)));
    assert!(!g.is_adjustable(&GamutPoint::new(COORD_LIMIT + 1, 0)));
}

#[test]
fn unknown_model_keeps_the_chromaticity() {
    let mut xy = XY { x: 1355, y: 399, brightness: 12 };
    xy.adjust_for_model("WRONG");
    assert_eq!(xy, XY { x: 1355, y: 399, brightness: 12 });
    xy.adjust_for_model("");
    assert_eq!(xy, XY { x: 1355, y: 399, brightness: 12 });
}

#[test]
fn known_model_gets_its_gamut() {
    let mut xy = XY { x: 1355, y: 399, brightness: 12 };
    xy.adjust_for_model("LCT003");
    assert_eq!(xy, XY { x: 1429, y: 266, brightness: 12 });
    let mut by_gamut = XY { x: 1355, y: 399, brightness: 12 };
    by_gamut.adjust_for_gamut(color_gamut_a());
    let mut by_model = XY { x: 1355, y: 399, brightness: 12 };
    by_model.adjust_for_model("LLC007");
    assert_eq!(by_gamut, by_model);
}

#[test]
fn xy_string_is_the_shortest_decimal_text() {
    assert_eq!(XY { x: 5000, y: 2500, brightness: 1 }.xy_string(), "[0.5, 0.25]");
    assert_eq!(XY { x: 3227, y: 3290, brightness: 35 }.xy_string(), "[0.3227, 0.329]");
    assert_eq!(XY { x: 0, y: 10000, brightness: 0 }.xy_string(), "[0, 1]");
    assert_eq!(XY { x: -5, y: 123456, brightness: 0 }.xy_string(), "[-0.0005, 12.3456]");
    assert_eq!(XY { x: 1000, y: -20000, brightness: 0 }.xy_string(), "[0.1, -2]");
    for (x, y) in [(0.5f32, 0.25f32), (0.3227, 0.329), (1.0, 0.0), (0.0001, 0.9999), (0.04, 0.704)] {
        let xy = XY { x: units(x as f64), y: units(y as f64), brightness: 0 };
        assert_eq!(xy.xy_string(), format!("[{}, {}]", x, y));
    }
}

#[test]
fn containment_ignores_the_winding() {
    let one = triangle((4.0, 1.0), (5.0, 3.0), (2.0, 1.0));
    let other = triangle((4.0, 1.0), (2.0, 1.0), (5.0, 3.0));
    for p in [point(3.5, 1.5), point(1.0, 3.0), point(4.0, 1.5), point(0.0, 0.0), point(6.0, 6.0)] {
        assert_eq!(one.point_in_gamut(&p), other.point_in_gamut(&p));
    }
    assert!(other.point_in_gamut(&point(3.5, 1.5)));
    assert!(!other.point_in_gamut(&point(1.0, 3.0)));
}

#[test]
fn far_values_are_taken() {
    assert!(RGB::from_xy(XY { x: i64::MAX, y: i64::MIN, brightness: 255 }).is_ok());
    assert!(RGB::from_xy(XY { x: i64::MIN, y: i64::MAX, brightness: 255 }).is_ok());
    assert_eq!(RGB::from_xy(XY { x: i64::MIN, y: 0, brightness: 255 }), Err(DomainError::ZeroY));
    let g = color_gamut_a();
    assert!(!g.point_in_gamut(&GamutPoint::new(i64::MAX, i64::MAX)));
    assert!(!g.point_in_gamut(&GamutPoint::new(i64::MIN, i64::MAX)));
    assert!(!XY { x: i64::MAX, y: 0, brightness: 0 }.is_within_limit());
    assert!(XY { x: COORD_LIMIT, y: -COORD_LIMIT, brightness: 0 }.is_within_limit());
    assert!(GamutPoint::new(5, -5).is_within(5));
    assert!(!GamutPoint::new(5, -6).is_within(5));
}

#[test]
fn adjusting_for_a_model_twice_is_adjusting_once() {
    for model in ["LLC007", "LCT003", "LST002", "WRONG"] {
        for (x, y) in [(1355, 399), (5819, 1097), (3227, 3290), (0, 0), (10000, 10000), (49, 8888)] {
            let mut once = XY { x, y, brightness: 77 };
            assert!(once.is_adjustable_for_model(model));
            once.adjust_for_model(model);
            assert!(once.is_adjustable_for_model(model));
            let mut twice = once;
            twice.adjust_for_model(model);
            assert_eq!(twice, once);
        }
    }
    let far = XY { x: COORD_LIMIT + 1, y: 0, brightness: 0 };
    assert!(far.is_adjustable_for_model("WRONG"));
    assert!(!far.is_adjustable_for_model("LCT003"));
}

use bbox_2d::distance::integer_sqrt;
use bbox_2d::predicates::{feq, TOLERANCE};
use bbox_2d::text::push_decimal;
use bbox_2d::{BBox, Boxes, OutOfRange, MBR};
use std::cmp::Ordering;

/// A handful of rectangles, normalized, that touch, overlap, nest and lie apart.
fn samples() -> Vec<MBR> {
    vec![
        MBR::new(0, 0, 2, 2),
        MBR::new(2, 2, 4, 4),
        MBR::new(1, 1, 3, 3),
        MBR::new(-5, -7, -1, -2),
        MBR::new(0, 0, 0, 0),
        MBR::new(10, -3, 4, 8),
        MBR::new(-1, -1, 12, 9),
        MBR::new(5, 5, 5, 9),
        MBR::new(i32::MIN, i32::MIN, i32::MAX, i32::MAX),
        MBR::new(i32::MAX, i32::MAX, i32::MAX, i32::MAX),
        MBR::new(i32::MIN, i32::MIN, i32::MIN, i32::MIN),
    ]
}

#[test]
fn new_orders_the_corners() {
    for (x1, y1, x2, y2) in [(350, 400, 200, 250), (1, 2, 3, 4), (3, 2, 1, 4), (7, 7, 7, 7), (-1, 5, -9, -5)] {
        let m = MBR::new(x1, y1, x2, y2);
        assert!(m.minx <= m.maxx);
        assert!(m.miny <= m.maxy);
        assert_eq!(m, MBR::new(x2, y2, x1, y1));
        assert_eq!(m, MBR::new(x1, y2, x2, y1));
        assert_eq!(m.minx, x1.min(x2));
        assert_eq!(m.maxx, x1.max(x2));
        assert_eq!(m.miny, y1.min(y2));
        assert_eq!(m.maxy, y1.max(y2));
    }
}

#[test]
fn new_raw_keeps_the_bounds_as_given() {
    let m = MBR::new_raw(2, 2, -5, -2);
    assert_eq!((m.minx, m.miny, m.maxx, m.maxy), (2, 2, -5, -2));
    assert_eq!(m.width(), -7);
    assert_eq!(m.height(), -4);
    assert_eq!(m.area(), 28);
    assert_eq!(MBR::new_raw(0, 0, 3, -2).area(), -6);
}

#[test]
fn default_is_the_origin() {
    let m = MBR::new_default();
    assert_eq!(m.as_array(), [0, 0, 0, 0]);
    assert!(m.is_point());
}

#[test]
fn envelope_from_the_origin_keeps_the_origin() {
    let mut m = MBR::new_default();
    m.expand_to_include(&MBR::new(5, 5, 7, 8))
        .expand_to_include_xy(6, 9);
    assert_eq!(m.as_array(), [0, 0, 7, 9]);
}

#[test]
fn area_is_width_times_height_and_not_negative() {
    for m in samples() {
        assert!(m.area() >= 0);
        assert_eq!(m.area(), m.width() as i128 * m.height() as i128);
    }
    let all = MBR::new(i32::MIN, i32::MIN, i32::MAX, i32::MAX);
    assert_eq!(all.width(), 4_294_967_295);
    assert_eq!(all.height(), 4_294_967_295);
    assert_eq!(all.area(), 18_446_744_065_119_617_025);
}

#[test]
fn equality_is_reflexive_and_exact_on_the_grid() {
    assert_eq!(TOLERANCE, 1);
    for m in samples() {
        assert!(m.equals(&m));
        assert!(m == m);
    }
    let m = MBR::new(0, 0, 2, 2);
    assert!(!m.equals(&MBR::new(0, 0, 2, 3)));
    assert!(!m.equals(&MBR::new(0, 0, 3, 2)));
    assert!(!m.equals(&MBR::new(0, -1, 2, 2)));
    assert!(!m.equals(&MBR::new(1, 0, 2, 2)));
    assert!(feq(4, 4));
    assert!(!feq(4, 5));
    assert!(!feq(5, 4));
    assert!(!feq(i32::MIN, i32::MAX));
    assert!(!feq(i32::MAX, i32::MIN));
}

#[test]
fn intersection_is_symmetric_and_contained() {
    let all = samples();
    for a in all.iter() {
        for b in all.iter() {
            assert_eq!(a.intersection(b), b.intersection(a));
            assert_eq!(a.intersects(b), b.intersects(a));
            assert_eq!(a.disjoint(b), a.intersection(b).is_none());
            assert_eq!(a.disjoint(b), !a.intersects(b));
            if let Some(c) = a.intersection(b) {
                assert!(a.contains(&c));
                assert!(b.contains(&c));
                assert!(c.minx <= c.maxx && c.miny <= c.maxy);
            }
        }
    }
}

#[test]
fn union_contains_both_and_is_no_smaller() {
    let all = samples();
    for a in all.iter() {
        for b in all.iter() {
            let u = a.union(b);
            assert_eq!(u, a.merge(b));
            assert_eq!(u, b.union(a));
            assert!(u.contains(a));
            assert!(u.contains(b));
            assert!(u.area() >= a.area().max(b.area()));
            let mut e = *a;
            e.expand_to_include(b);
            assert_eq!(e, u);
        }
    }
    let u = MBR::new(0, 0, 1, 1).union(&MBR::new(5, 7, 6, 9));
    assert_eq!(u.as_array(), [0, 0, 6, 9]);
}

#[test]
fn distance_is_zero_on_overlap() {
    let all = samples();
    for a in all.iter() {
        for b in all.iter() {
            assert_eq!(a.distance(b), b.distance(a));
            assert_eq!(a.distance_square(b), b.distance_square(a));
            if a.intersects(b) {
                assert_eq!(a.distance(b), 0);
                assert_eq!(a.distance_square(b), 0);
                assert_eq!(a.distance_dxdy(b), (0, 0));
            } else {
                assert!(a.distance_square(b) > 0);
            }
        }
    }
}

#[test]
fn distance_squared_brackets_the_squared_distance() {
    let all = samples();
    for a in all.iter() {
        for b in all.iter() {
            let d = a.distance(b) as i128;
            let d2 = a.distance_square(b);
            assert!(d >= 0);
            assert!(d * d <= d2);
            assert!(d2 < (d + 1) * (d + 1));
            let (dx, dy) = a.distance_dxdy(b);
            if !a.intersects(b) {
                assert_eq!(d2, dx as i128 * dx as i128 + dy as i128 * dy as i128);
            }
        }
    }
}

#[test]
fn distance_of_given_rectangles() {
    let a = MBR::new(0, 0, 2, 2);
    assert_eq!(a.distance_dxdy(&MBR::new(5, 6, 8, 9)), (3, 4));
    assert_eq!(a.distance_square(&MBR::new(5, 6, 8, 9)), 25);
    assert_eq!(a.distance(&MBR::new(5, 6, 8, 9)), 5);
    assert_eq!(a.distance_dxdy(&MBR::new(-9, -8, -4, -1)), (4, 1));
    assert_eq!(a.distance_square(&MBR::new(-9, -8, -4, -1)), 17);
    assert_eq!(a.distance(&MBR::new(-9, -8, -4, -1)), 4);
    // overlap along y alone: the perpendicular distance
    assert_eq!(a.distance_dxdy(&MBR::new(7, 1, 9, 5)), (5, 0));
    assert_eq!(a.distance(&MBR::new(7, 1, 9, 5)), 5);
    // overlap along x alone
    assert_eq!(a.distance_dxdy(&MBR::new(1, -9, 9, -3)), (0, 3));
    assert_eq!(a.distance(&MBR::new(1, -9, 9, -3)), 3);
    assert_eq!(a.distance_2([5, 6]), 25);
    assert_eq!(a.distance_2([1, 1]), 0);
    assert_eq!(a.distance_2([2, 3]), 1);
}

#[test]
fn distance_across_the_whole_grid() {
    let low = MBR::new_from_pt([i32::MIN, i32::MIN]);
    let high = MBR::new_from_pt([i32::MAX, i32::MAX]);
    assert_eq!(low.distance_dxdy(&high), (4_294_967_295, 4_294_967_295));
    assert_eq!(low.distance_square(&high), 36_893_488_130_239_234_050);
    assert_eq!(low.distance(&high), 6_074_000_998);
    assert_eq!(high.distance(&low), 6_074_000_998);
}

#[test]
fn disjoint_boxes_on_a_line_are_two_apart() {
    let a = MBR::new_from_array([0, 0, 2, 0]);
    let b = MBR::new_from_array([4, 0, 7, 0]);
    assert!(a.disjoint(&b));
    assert_eq!(a.distance(&b), 2);
    assert_eq!(a.distance_square(&b), 4);
}

#[test]
fn integer_square_roots() {
    assert_eq!(integer_sqrt(0), 0);
    assert_eq!(integer_sqrt(1), 1);
    assert_eq!(integer_sqrt(2), 1);
    assert_eq!(integer_sqrt(3), 1);
    assert_eq!(integer_sqrt(4), 2);
    assert_eq!(integer_sqrt(8), 2);
    assert_eq!(integer_sqrt(9), 3);
    assert_eq!(integer_sqrt(99), 9);
    assert_eq!(integer_sqrt(100), 10);
    assert_eq!(integer_sqrt(1 << 64), 1 << 32);
    assert_eq!(integer_sqrt((1 << 64) - 1), (1 << 32) - 1);
    assert_eq!(integer_sqrt(u128::MAX), u64::MAX);
    assert_eq!(integer_sqrt(u64::MAX as u128 * u64::MAX as u128), u64::MAX);
    assert_eq!(integer_sqrt(u64::MAX as u128 * u64::MAX as u128 - 1), u64::MAX - 1);
}

#[test]
fn scenario_areas_of_two_overlapping_rectangles() {
    let a = MBR::new(350, 400, 200, 250);
    assert_eq!(a.as_tuple(), (200, 250, 350, 400));
    let b = MBR::new(300, 200, 400, 350);
    assert!(a.intersects(&b));
    assert!(!a.disjoint(&b));
    assert!(!a.equals(&b));
    let inter = a.intersection(&b).unwrap();
    assert_eq!(inter.as_array(), [300, 250, 350, 350]);
    assert_eq!(a.area(), 22500);
    assert_eq!(b.area(), 15000);
    assert_eq!(inter.area(), 5000);
    assert_eq!(a.union(&b).area(), 40000);
    assert_eq!(inter.wkt(), "POLYGON ((300 250,300 350,350 350,350 250,300 250))");
    assert!(!inter.is_point());
    assert_eq!(inter.width(), 50);
    assert_eq!(inter.height(), 100);
}

#[test]
fn scenario_expanded_intersection_holds_the_point() {
    let a = MBR::new(350, 400, 200, 250);
    let b = MBR::new(300, 200, 400, 350);
    let mut inter = a.intersection(&b).unwrap();
    // the grid points around (367.747..., 363.223...)
    let around = [[367, 363], [368, 363], [367, 364], [368, 364]];
    for p in around {
        assert!(!inter.intersects_point(&p));
    }
    inter.expand_by_delta(30, 25);
    assert_eq!(inter.as_array(), [270, 225, 380, 375]);
    assert_eq!(inter.wkt(), "POLYGON ((270 225,270 375,380 375,380 225,270 225))");
    for p in around {
        assert!(inter.intersects_point(&p));
        assert!(inter.intersects_xy(p[0], p[1]));
        assert!(inter.contains(&MBR::new_from_pt(p)));
        assert!(inter.contains_xy(p[0], p[1]));
    }
    assert_eq!(a.distance_dxdy(&MBR::new_from_pt([367, 363])), (17, 0));
    assert_eq!(a.distance(&MBR::new_from_pt([367, 363])), 17);
}

#[test]
fn wkt_of_given_rectangles() {
    assert_eq!(MBR::new(0, 0, 2, 2).wkt(), "POLYGON ((0 0,0 2,2 2,2 0,0 0))");
    assert_eq!(
        MBR::new(-10, 25, 307, -4).wkt(),
        "POLYGON ((-10 -4,-10 25,307 25,307 -4,-10 -4))"
    );
    assert_eq!(
        MBR::new(i32::MIN, 0, i32::MAX, 1000).wkt(),
        "POLYGON ((-2147483648 0,-2147483648 1000,2147483647 1000,2147483647 0,-2147483648 0))"
    );
    assert_eq!(MBR::new_raw(9, 8, 7, 6).wkt(), "POLYGON ((9 8,9 6,7 6,7 8,9 8))");
}

#[test]
fn decimal_numerals() {
    for n in [0, 1, 9, 10, 11, 99, 100, 101, 1234567890, -1, -9, -10, -100, i32::MAX, i32::MIN] {
        let mut s = String::from("x=");
        push_decimal(&mut s, n);
        assert_eq!(s, format!("x={}", n));
    }
}

#[test]
fn touching_counts_unless_completely() {
    let m = MBR::new(0, 0, 4, 4);
    // edges and corners
    assert!(m.intersects(&MBR::new(4, 0, 6, 4)));
    assert!(m.intersects(&MBR::new(4, 4, 6, 6)));
    assert!(m.intersects(&MBR::new(-3, -3, 0, 0)));
    assert!(!m.intersects(&MBR::new(5, 0, 6, 4)));
    assert!(!m.intersects(&MBR::new(0, 5, 4, 6)));
    assert!(!m.intersects(&MBR::new(-3, 0, -1, 4)));
    assert!(!m.intersects(&MBR::new(0, -3, 4, -1)));
    assert_eq!(m.intersection(&MBR::new(4, 4, 6, 6)), Some(MBR::new(4, 4, 4, 4)));
    assert_eq!(m.intersection(&MBR::new(4, 1, 6, 3)), Some(MBR::new(4, 1, 4, 3)));
    assert_eq!(m.intersection(&MBR::new(5, 1, 6, 3)), None);

    assert!(m.contains(&m));
    assert!(!m.completely_contains(&m));
    assert!(m.contains(&MBR::new(0, 1, 3, 3)));
    assert!(!m.completely_contains(&MBR::new(0, 1, 3, 3)));
    assert!(!m.completely_contains(&MBR::new(1, 0, 3, 3)));
    assert!(!m.completely_contains(&MBR::new(1, 1, 4, 3)));
    assert!(!m.completely_contains(&MBR::new(1, 1, 3, 4)));
    assert!(m.completely_contains(&MBR::new(1, 1, 3, 3)));
    assert!(!m.contains(&MBR::new(1, 1, 5, 3)));
    assert!(!m.contains(&MBR::new(1, 1, 3, 5)));
    assert!(!m.contains(&MBR::new(-1, 1, 3, 3)));
    assert!(!m.contains(&MBR::new(1, -1, 3, 3)));

    for (x, y, inside, strictly) in [
        (0, 0, true, false),
        (4, 4, true, false),
        (0, 2, true, false),
        (2, 4, true, false),
        (2, 2, true, true),
        (1, 3, true, true),
        (5, 2, false, false),
        (2, -1, false, false),
        (-1, 2, false, false),
        (2, 5, false, false),
    ] {
        assert_eq!(m.contains_xy(x, y), inside);
        assert_eq!(m.contains_point([x, y]), inside);
        assert_eq!(m.intersects_xy(x, y), inside);
        assert_eq!(m.intersects_point(&[x, y]), inside);
        assert_eq!(m.intersects_point(&[x, y, 99]), inside);
        assert_eq!(m.completely_contains_xy(x, y), strictly);
        assert_eq!(m.completely_contains_point([x, y]), strictly);
    }
}

#[test]
fn intersects_bounds_takes_corners_in_any_order() {
    let m = MBR::new(0, 0, 4, 4);
    for (p, q) in [
        ([4, 4], [6, 6]),
        ([6, 6], [4, 4]),
        ([6, 4], [4, 6]),
        ([5, 5], [6, 6]),
        ([-2, 1], [-1, 3]),
        ([1, -2], [3, -1]),
        ([1, 5], [3, 9]),
        ([-2, -2], [9, 9]),
        ([1, 1], [2, 2]),
        ([9, 2], [-9, 2]),
        ([2, 9], [2, 5]),
    ] {
        let other = MBR::new_from_bounds(p, q);
        assert_eq!(m.intersects_bounds(&p, &q), m.intersects(&other));
        assert_eq!(m.intersects_bounds(&q, &p), m.intersects(&other));
    }
    assert!(m.intersects_bounds(&[6, 6], &[4, 4]));
    assert!(!m.intersects_bounds(&[5, 5], &[6, 6]));
    assert!(!m.intersects_bounds(&[1, 5], &[3, 9]));
}

#[test]
fn expanding_to_a_point_moves_one_bound_per_axis() {
    let mut m = MBR::new(0, 0, 4, 4);
    m.expand_to_include_xy(2, 3);
    assert_eq!(m.as_array(), [0, 0, 4, 4]);
    m.expand_to_include_xy(-1, 9);
    assert_eq!(m.as_array(), [-1, 0, 4, 9]);
    m.expand_to_include_xy(7, -2);
    assert_eq!(m.as_array(), [-1, -2, 7, 9]);
    m.expand_to_include_point([-1, 9]);
    assert_eq!(m.as_array(), [-1, -2, 7, 9]);
    m.expand_to_include_point([-3, 10]).expand_to_include_point([8, -4]);
    assert_eq!(m.as_array(), [-3, -4, 8, 10]);

    // with the bounds out of order only the lower one moves
    let mut raw = MBR::new_raw(5, 5, 1, 1);
    raw.expand_to_include_xy(3, 3);
    assert_eq!(raw.as_array(), [3, 3, 1, 1]);
    let mut raw = MBR::new_raw(5, 5, 1, 1);
    raw.expand_to_include_xy(7, 7);
    assert_eq!(raw.as_array(), [5, 5, 7, 7]);
}

#[test]
fn expanding_by_a_delta_orders_the_corners_again() {
    let mut m = MBR::new(0, 0, 4, 2);
    m.expand_by_delta(1, 2);
    assert_eq!(m.as_array(), [-1, -2, 5, 4]);
    m.expand_by_delta(-1, -2);
    assert_eq!(m.as_array(), [0, 0, 4, 2]);
    m.expand_by_delta(-2, -1);
    assert_eq!(m.as_array(), [2, 1, 2, 1]);
    let mut m = MBR::new(0, 0, 4, 2);
    m.expand_by_delta(-3, -3);
    assert_eq!(m.as_array(), [1, -1, 3, 3]);
    let mut m = MBR::new(0, 0, 4, 2);
    m.expand_by_delta(0, 0).expand_by_delta(10, 0);
    assert_eq!(m.as_array(), [-10, 0, 14, 2]);
    let mut m = MBR::new(i32::MIN + 1, 0, i32::MAX - 1, 0);
    m.expand_by_delta(1, 0);
    assert_eq!(m.as_array(), [i32::MIN, 0, i32::MAX, 0]);
}

#[test]
fn translating_moves_both_corners() {
    let m = MBR::new(0, 0, 4, 2);
    assert_eq!(m.translate(3, -5).as_array(), [3, -5, 7, -3]);
    assert_eq!(m.as_array(), [0, 0, 4, 2]);
    assert_eq!(m.translate(0, 0), m);
    assert_eq!(
        m.translate(i32::MAX - 4, i32::MIN).as_array(),
        [i32::MAX - 4, i32::MIN, i32::MAX, i32::MIN + 2]
    );
    // the bounds are moved as they stand
    assert_eq!(MBR::new_raw(4, 2, 0, 0).translate(1, 1).as_array(), [5, 3, 1, 1]);
}

#[test]
fn translating_within_the_grid_or_not_at_all() {
    let m = MBR::new(0, 0, 4, 2);
    assert_eq!(m.try_translate(3, -5), Some(MBR::new(3, -5, 7, -3)));
    assert_eq!(m.try_translate(i32::MAX - 4, i32::MIN), Some(m.translate(i32::MAX - 4, i32::MIN)));
    assert_eq!(m.try_translate(i32::MAX - 3, 0), None);
    assert_eq!(m.try_translate(0, i32::MAX - 1), None);
    assert_eq!(
        m.try_translate(-1, i32::MIN).map(|t| t.as_array()),
        Some([-1, i32::MIN, 3, i32::MIN + 2])
    );
    assert_eq!(MBR::new(0, -1, 4, 2).try_translate(0, i32::MIN), None);
    assert_eq!(
        m.try_translate(i32::MIN, 0).map(|t| t.as_array()),
        Some([i32::MIN, 0, i32::MIN + 4, 2])
    );
    assert_eq!(MBR::new(-1, 0, 4, 2).try_translate(i32::MIN, 0), None);
    assert_eq!(MBR::new(-4, -2, 0, 0).try_translate(i32::MIN + 4, i32::MIN + 2).map(|t| t.as_array()),
        Some([i32::MIN, i32::MIN, i32::MIN + 4, i32::MIN + 2]));
    assert_eq!(MBR::new(-4, -2, 0, 0).try_translate(i32::MIN + 3, 0), None);
}

#[test]
fn expanding_within_the_grid_or_not_at_all() {
    let mut m = MBR::new(0, 0, 4, 2);
    assert!(m.try_expand_by_delta(1, 2));
    assert_eq!(m.as_array(), [-1, -2, 5, 4]);
    assert!(m.try_expand_by_delta(-3, -3));
    assert_eq!(m.as_array(), [2, 1, 2, 1]);
    assert!(m.try_expand_by_delta(-3, 0));
    assert_eq!(m.as_array(), [-1, 1, 5, 1]);
    let mut edge = MBR::new(i32::MIN + 1, 0, i32::MAX - 1, 0);
    assert!(!edge.try_expand_by_delta(2, 0));
    assert_eq!(edge.as_array(), [i32::MIN + 1, 0, i32::MAX - 1, 0]);
    assert!(!edge.try_expand_by_delta(0, i32::MIN));
    assert_eq!(edge.as_array(), [i32::MIN + 1, 0, i32::MAX - 1, 0]);
    assert!(edge.try_expand_by_delta(1, i32::MAX));
    assert_eq!(edge.as_array(), [i32::MIN, -i32::MAX, i32::MAX, i32::MAX]);
}

#[test]
fn centre_rounds_down() {
    assert_eq!(MBR::new(0, 0, 4, 2).centre(), [2, 1]);
    assert_eq!(MBR::new(0, 0, 5, 3).centre(), [2, 1]);
    assert_eq!(MBR::new(-5, -3, 0, 0).centre(), [-3, -2]);
    assert_eq!(MBR::new(-1, -1, 0, 0).centre(), [-1, -1]);
    assert_eq!(MBR::new(-2, -4, 2, 4).centre(), [0, 0]);
    assert_eq!(MBR::new(i32::MAX, i32::MAX, i32::MAX, i32::MAX).centre(), [i32::MAX, i32::MAX]);
    assert_eq!(MBR::new(i32::MIN, i32::MIN, i32::MIN, i32::MIN).centre(), [i32::MIN, i32::MIN]);
    assert_eq!(MBR::new(i32::MIN, i32::MIN, i32::MAX, i32::MAX).centre(), [-1, -1]);
}

#[test]
fn point_rectangles() {
    assert!(MBR::new_from_pt([3, -4]).is_point());
    assert_eq!(MBR::new_from_pt([3, -4]).as_array(), [3, -4, 3, -4]);
    assert!(!MBR::new(0, 0, 1, 0).is_point());
    assert!(!MBR::new(0, 0, 0, 1).is_point());
    assert!(!MBR::new(0, 0, 1, 1).is_point());
    assert_eq!(MBR::new_from_pt([3, -4]).area(), 0);
}

#[test]
fn corners_and_ring() {
    let m = MBR::new(3, 9, 1, 2);
    assert_eq!(m.ll(), [1, 2]);
    assert_eq!(m.ur(), [3, 9]);
    assert_eq!(m.llur(), [[1, 2], [3, 9]]);
    assert_eq!(m.as_array(), [1, 2, 3, 9]);
    assert_eq!(m.as_tuple(), (1, 2, 3, 9));
    assert_eq!(m.as_poly_array(), vec![[1, 2], [1, 9], [3, 9], [3, 2], [1, 2]]);
    assert_eq!(m.copy(), m);
    assert_eq!(*m.bbox(), m);
    assert_eq!(*BBox::bbox(&m), m);
}

#[test]
fn bounds_by_position() {
    let m = MBR::new(3, 9, 1, 2);
    assert_eq!(m.bound_at(0), Ok(1));
    assert_eq!(m.bound_at(1), Ok(2));
    assert_eq!(m.bound_at(2), Ok(3));
    assert_eq!(m.bound_at(3), Ok(9));
    assert_eq!(m.bound_at(4), Err(OutOfRange { index: 4 }));
    assert_eq!(m.bound_at(usize::MAX), Err(OutOfRange { index: usize::MAX }));
}

#[test]
fn order_is_by_the_lower_left_corner() {
    let a = MBR::new(0, 0, 9, 9);
    assert_eq!(a.cmp(&MBR::new(1, -5, 2, 2)), Ordering::Less);
    assert_eq!(a.cmp(&MBR::new(-1, 5, 2, 7)), Ordering::Greater);
    assert_eq!(a.cmp(&MBR::new(0, 1, 2, 2)), Ordering::Less);
    assert_eq!(a.cmp(&MBR::new(0, -1, 2, 2)), Ordering::Greater);
    assert_eq!(a.cmp(&MBR::new(0, 0, 2, 2)), Ordering::Equal);
    assert_eq!(a.cmp(&a), Ordering::Equal);
    assert_eq!(a.partial_cmp(&MBR::new(0, 1, 2, 2)), Some(Ordering::Less));
    assert!(a < MBR::new(0, 1, 2, 2));
    assert!(a > MBR::new(-1, 1, 2, 2));
    assert!(a <= MBR::new(0, 0, 2, 2));
    assert_eq!(
        MBR::new(i32::MIN, 0, 0, 0).cmp(&MBR::new(i32::MAX, 0, i32::MAX, 0)),
        Ordering::Less
    );
    assert_eq!(
        MBR::new(i32::MAX, 0, i32::MAX, 0).cmp(&MBR::new(i32::MIN, 0, 0, 0)),
        Ordering::Greater
    );
}

#[test]
fn conversions_order_the_corners() {
    let a: MBR = (5, 6, 1, 2).into();
    let b: MBR = [5, 6, 1, 2].into();
    assert_eq!(a.as_array(), [1, 2, 5, 6]);
    assert_eq!(b, a);
    assert_eq!(MBR::new_from_array([5, 6, 1, 2]), a);
    assert_eq!(MBR::new_from_bounds([5, 6], [1, 2]), a);
    assert_eq!(MBR::new_from_bounds([1, 6], [5, 2]), a);
    let p: MBR = (7, -7).into();
    let q: MBR = [7, -7].into();
    assert_eq!(p.as_array(), [7, -7, 7, -7]);
    assert_eq!(q, p);
}

#[test]
fn lists_of_rectangles() {
    let boxes: Boxes = vec![[4, 4, 0, 0], [1, 2, 3, 4], [9, -9, -9, 9]].into();
    assert_eq!(boxes.len(), 3);
    assert_eq!(boxes.boxes.len(), 3);
    assert_eq!(boxes.index(0).as_array(), [0, 0, 4, 4]);
    assert_eq!(boxes.index(1).as_array(), [1, 2, 3, 4]);
    assert_eq!(boxes.index(2).as_array(), [-9, -9, 9, 9]);
    assert_eq!(boxes.get(2), Some(&MBR::new(-9, -9, 9, 9)));
    assert_eq!(boxes.get(3), None);
    let none: Boxes = Vec::<[i32; 4]>::new().into();
    assert_eq!(none.len(), 0);
    assert_eq!(none.get(0), None);
}

use venn_genn::diagram::VennDiagram;
use venn_genn::point::Point;
use venn_genn::sqrt::isqrt;

fn diagram(overlap: i32, third: &str) -> VennDiagram {
    VennDiagram {
        height: 800_000,
        width: 800_000,
        center: 400_000,
        overlap,
        radius: 160_000,
        first_title: "first".to_string(),
        second_title: "second".to_string(),
        central_title: "centre".to_string(),
        third_title: third.to_string(),
        first_third_title: "1-3".to_string(),
        second_third_title: "2-3".to_string(),
        first_second_title: "1-2".to_string(),
    }
}

fn at(x: i64, y: i64) -> Point {
    Point { x, y }
}

#[test]
fn isqrt_rounds_down() {
    assert_eq!(isqrt(0), 0);
    assert_eq!(isqrt(1), 1);
    assert_eq!(isqrt(3), 1);
    assert_eq!(isqrt(4), 2);
    assert_eq!(isqrt(15), 3);
    assert_eq!(isqrt(16), 4);
    assert_eq!(isqrt(76_800_000_000), 277_128);
    assert_eq!(isqrt(999_999_999_999), 999_999);
    assert_eq!(isqrt(1_000_000_000_000), 1_000_000);
}

#[test]
fn isqrt_of_the_largest_values() {
    assert_eq!(isqrt(u128::MAX), u64::MAX);
    assert_eq!(isqrt((u64::MAX as u128) * (u64::MAX as u128)), u64::MAX);
    assert_eq!(isqrt((u64::MAX as u128) * (u64::MAX as u128) - 1), u64::MAX - 1);
}

#[test]
fn midway_rounds_each_coordinate_down() {
    assert_eq!(at(0, 0).midway_to(&at(10, 20)), at(5, 10));
    assert_eq!(at(1, 2).midway_to(&at(2, 5)), at(1, 3));
    assert_eq!(at(-1, -2).midway_to(&at(-2, -5)), at(-2, -4));
    assert_eq!(at(i64::MAX, i64::MIN).midway_to(&at(i64::MAX, i64::MIN)), at(i64::MAX, i64::MIN));
}

#[test]
fn three_way_midpoint_is_the_average() {
    assert_eq!(at(0, 0).three_way_midpoint(&at(3, 6), &at(6, 3)), at(3, 3));
    assert_eq!(at(1, 0).three_way_midpoint(&at(0, 0), &at(0, -1)), at(0, -1));
    assert_eq!(
        at(i64::MAX, 0).three_way_midpoint(&at(i64::MAX, 0), &at(i64::MAX, 0)),
        at(i64::MAX, 0)
    );
}

#[test]
fn frac_between_weighs_the_second_point() {
    assert_eq!(at(0, 0).frac_between(&at(10, 20), 1000), at(5, 10));
    assert_eq!(at(0, 0).frac_between(&at(10, 20), 0), at(0, 0));
    assert_eq!(at(0, 0).frac_between(&at(3000, -3000), 500), at(1000, -1000));
    assert_eq!(at(0, 0).frac_between(&at(3000, -3000), 2000), at(2000, -2000));
    assert_eq!(at(1, 1).frac_between(&at(2, 2), 1), at(1, 1));
    assert_eq!(at(-1, -1).frac_between(&at(-2, -2), 1), at(-2, -2));
    assert_eq!(
        at(i64::MAX, i64::MIN).frac_between(&at(i64::MAX, i64::MIN), u32::MAX),
        at(i64::MAX, i64::MIN)
    );
    assert_eq!(at(i64::MIN, 0).frac_between(&at(i64::MAX, 0), 1000), at(-1, 0));
}

#[test]
fn distance_rounds_down() {
    assert_eq!(at(0, 0).distance_to(at(3000, 4000)), 5000);
    assert_eq!(at(0, 0).distance_to(at(1, 1)), 1);
    assert_eq!(at(-2, -2).distance_to(at(-2, -2)), 0);
    assert_eq!(at(10, 0).distance_to(at(0, 0)), 10);
}

#[test]
fn circles_that_cross_give_both_crossing_points() {
    let (a, b) = at(0, 0).intersect_circle(at(6000, 0), 5000, 5000);
    assert_eq!(a, at(3000, -4000));
    assert_eq!(b, at(3000, 4000));
}

#[test]
fn circles_of_different_radii_cross() {
    let (a, b) = at(1000, 2000).intersect_circle(at(4000, 6000), 3000, 4000);
    assert_eq!(a, at(4000, 2000));
    assert_eq!(b, at(160, 4880));
    let (c, d) = at(-7001, 13).intersect_circle(at(2, -4999), 5003, 6001);
    assert_eq!(c, at(-5998, -4889));
    assert_eq!(d, at(-2039, 644));
}

#[test]
fn crossing_points_lie_on_both_circles() {
    let cases = [
        (at(0, 0), 5000, at(6000, 0), 5000),
        (at(1000, 2000), 3000, at(4000, 6000), 4000),
        (at(-7001, 13), 5003, at(2, -4999), 6001),
        (at(0, 0), 1, at(1, 0), 1),
        (at(0, 0), 3, at(1, 1), 2),
        (at(520_000, 400_000), 160_000, at(400_000, 192_154), 160_000),
        (at(9, -9), i32::MAX, at(-1_000_000_000, 3_000_000_000), i32::MAX),
    ];
    for (p, rp, q, rq) in cases {
        let (a, b) = p.intersect_circle(q, rp, rq);
        assert!((a, b) != (p, q));
        for x in [a, b] {
            for (centre, r) in [(p, rp as i128), (q, rq as i128)] {
                let dx = (x.x - centre.x) as i128;
                let dy = (x.y - centre.y) as i128;
                let far = dx * dx + dy * dy;
                assert!(r * r - 4 * r <= far && far <= r * r + 3 * r + 2);
            }
        }
    }
}

#[test]
fn circles_that_touch_give_one_point_twice() {
    let (a, b) = at(0, 0).intersect_circle(at(10_000, 0), 5000, 5000);
    assert_eq!(a, at(5000, 0));
    assert_eq!(b, at(5000, 0));
}

#[test]
fn identical_circles_give_the_centres_back() {
    let p = at(400_000, 400_000);
    assert_eq!(p.intersect_circle(p, 160_000, 160_000), (p, p));
    assert_eq!(p.intersect_circle(p, 0, 0), (p, p));
}

#[test]
fn circles_too_far_apart_give_the_centres_back() {
    let p = at(0, 0);
    let q = at(10_001, 0);
    assert_eq!(p.intersect_circle(q, 5000, 5000), (p, q));
    let far = at(4_000_000_000_000_000_000, -4_000_000_000_000_000_000);
    let other = at(-4_000_000_000_000_000_000, 4_000_000_000_000_000_000);
    assert_eq!(far.intersect_circle(other, i32::MAX, i32::MAX), (far, other));
}

#[test]
fn a_circle_inside_the_other_gives_the_centres_back() {
    let p = at(0, 0);
    let q = at(1000, 0);
    assert_eq!(p.intersect_circle(q, 5000, 1000), (p, q));
    assert_eq!(p.intersect_circle(p, 5000, 1000), (p, p));
}

#[test]
fn negative_radii_give_the_centres_back() {
    let p = at(0, 0);
    let q = at(6000, 0);
    assert_eq!(p.intersect_circle(q, -5000, -5000), (p, q));
    assert_eq!(p.intersect_circle(q, 5000, -1000), (p, q));
    assert_eq!(p.intersect_circle(q, i32::MIN, i32::MIN), (p, q));
}

#[test]
fn the_largest_radii_cross() {
    let r = i32::MAX;
    let (a, b) = at(0, 0).intersect_circle(at(2 * r as i64, 0), r, r);
    assert_eq!(a, at(r as i64, 0));
    assert_eq!(b, at(r as i64, 0));
    let (c, d) = at(0, 0).intersect_circle(at(0, r as i64), r, r);
    assert_eq!(c, at(1_859_775_392, 1_073_741_823));
    assert_eq!(d, at(-1_859_775_393, 1_073_741_823));
}

#[test]
fn circles_that_touch_from_inside_give_one_point_twice() {
    let (a, b) = at(0, 0).intersect_circle(at(2000, 0), 5000, 3000);
    assert_eq!(a, at(5000, 0));
    assert_eq!(b, at(5000, 0));
}

#[test]
fn a_copy_of_a_diagram_has_the_same_geometry() {
    let d = diagram(40_000, "third");
    let copy = d.clone();
    assert_eq!(copy.third_title, "third");
    assert_eq!(copy.centre_three(), d.centre_three());
    assert_eq!(copy.texts(), d.texts());
    assert_eq!(copy.to_svg(), d.to_svg());
}

#[test]
fn centres_of_the_default_diagram() {
    let d = diagram(40_000, "third");
    assert_eq!(d.centre_one(), at(280_000, 400_000));
    assert_eq!(d.centre_two(), at(520_000, 400_000));
    assert_eq!(d.centre_three(), at(400_000, 192_154));
}

#[test]
fn third_centre_without_overlap_sits_at_the_apex() {
    let d = VennDiagram {
        first_title: "same".to_string(),
        second_title: "same".to_string(),
        third_title: "same".to_string(),
        ..diagram(0, "same")
    };
    // long side 320 units: 320^2 - 160^2 has the root 277.128..
    assert_eq!(d.centre_three(), at(400_000, 400_000 - 277_128));
    assert_eq!(d.centre_three().y, 122_872);
}

#[test]
fn centres_mirror_each_other_about_the_center() {
    for overlap in [0, 1, 40_000, -40_000, 160_000, 500_000, i32::MAX, i32::MIN] {
        let d = diagram(overlap, "");
        let one = d.centre_one();
        let two = d.centre_two();
        assert_eq!(one.x - 400_000, 400_000 - two.x);
        assert_eq!(one.y, two.y);
    }
}

#[test]
fn points_on_the_circles() {
    let d = diagram(40_000, "third");
    assert_eq!(d.circle_one_botleft(), at(141_436, 480_000));
    assert_eq!(d.circle_one_topright(), at(418_564, 320_000));
    assert_eq!(d.circle_two_botright(), at(658_564, 480_000));
    assert_eq!(d.circle_two_topleft(), at(381_436, 320_000));
    assert_eq!(d.circle_three_top(), at(400_000, 32_154));
    assert_eq!(d.circle_three_bot(), at(400_000, 352_154));
}

#[test]
fn own_labels_sit_on_the_centres_without_overlap() {
    for overlap in [0, -1, -40_000, i32::MIN] {
        for third in ["", "third"] {
            let d = diagram(overlap, third);
            assert_eq!(d.centre_one_text(), d.centre_one());
            assert_eq!(d.centre_two_text(), d.centre_two());
            assert_eq!(d.centre_three_text(), d.centre_three());
        }
    }
}

#[test]
fn shared_labels_sit_between_the_centres_without_overlap() {
    let d = diagram(0, "third");
    assert_eq!(d.one_two_text(), at(400_000, 400_000));
    assert_eq!(d.one_three_text(), at(320_000, 261_436));
    assert_eq!(d.two_three_text(), at(480_000, 261_436));
    assert_eq!(d.centre_text(), at(400_000, 307_624));
}

#[test]
fn two_overlapping_circles_push_their_labels_apart() {
    let d = diagram(40_000, "");
    assert_eq!(d.centre_one_text(), at(240_000, 400_000));
    assert_eq!(d.centre_two_text(), at(560_000, 400_000));
    assert_eq!(d.one_two_text(), at(400_000, 400_000));
}

#[test]
fn three_overlapping_circles_anchor_labels_by_the_crossing_points() {
    let d = diagram(40_000, "third");
    assert_eq!(d.centre_one_text(), at(254_892, 414_496));
    assert_eq!(d.centre_two_text(), at(545_107, 414_496));
    assert_eq!(d.centre_three_text(), at(400_000, 163_161));
    assert_eq!(d.one_two_text(), at(400_000, 428_992));
    assert_eq!(d.one_three_text(), at(314_892, 281_580));
    assert_eq!(d.two_three_text(), at(485_107, 281_580));
    assert_eq!(d.centre_text(), at(400_000, 330_718));
}

#[test]
fn degenerate_numbers_still_give_points() {
    for (overlap, radius) in [
        (1, 0),
        (1, -160_000),
        (500_000, 160_000),
        (i32::MAX, i32::MAX),
        (i32::MAX, i32::MIN),
        (1, i32::MAX),
        (i32::MAX, 1),
    ] {
        for center in [0, 400_000, i32::MAX, i32::MIN] {
            let d = VennDiagram { center, radius, ..diagram(overlap, "third") };
            let again = VennDiagram { center, radius, ..diagram(overlap, "third") };
            assert_eq!(d.centre_one_text(), again.centre_one_text());
            assert_eq!(d.centre_two_text(), again.centre_two_text());
            assert_eq!(d.centre_three_text(), again.centre_three_text());
            assert_eq!(d.one_two_text(), again.one_two_text());
            assert_eq!(d.one_three_text(), again.one_three_text());
            assert_eq!(d.two_three_text(), again.two_three_text());
            assert_eq!(d.centre_text(), again.centre_text());
        }
    }
}

#[test]
fn overlap_beyond_the_radius_leaves_no_crossing() {
    // The first two circles have changed sides and no longer meet the third.
    let d = diagram(500_000, "third");
    assert_eq!(d.centre_one(), at(740_000, 400_000));
    assert_eq!(d.centre_two(), at(60_000, 400_000));
    assert_eq!(d.centre_three(), at(400_000, 400_000 - 588_897));
    let (p, q) = d.centre_one().intersect_circle(d.centre_two(), 160_000, 160_000);
    assert_eq!((p, q), (d.centre_one(), d.centre_two()));
    assert_eq!(d.centre_three_text(), d.circle_three_top().midway_to(&d.centre_two()));
}

use venn_genn::diagram::VennDiagram;
use venn_genn::layout::{Circle, Text, FIRST_COLOR, SECOND_COLOR, THIRD_COLOR};
use venn_genn::point::Point;
use venn_genn::request::{venn, venn_2, DEFAULT_OVERLAP, DEFAULT_RADIUS, DEFAULT_SIZE};

fn titled(titles: [&str; 7], overlap: i32) -> VennDiagram {
    VennDiagram {
        height: 800_000,
        width: 800_000,
        center: 400_000,
        overlap,
        radius: 160_000,
        first_title: titles[0].to_string(),
        second_title: titles[1].to_string(),
        first_second_title: titles[2].to_string(),
        third_title: titles[3].to_string(),
        central_title: titles[4].to_string(),
        first_third_title: titles[5].to_string(),
        second_third_title: titles[6].to_string(),
    }
}

fn bodies(texts: &[Text]) -> Vec<String> {
    texts.iter().map(|t| t.body.clone()).collect()
}

fn text(x: i64, y: i64, body: &str) -> Text {
    Text { centre: Point { x, y }, body: body.to_string() }
}

fn circle(x: i64, y: i64, color: &str) -> Circle {
    Circle { centre: Point { x, y }, r: 160_000, color: color.to_string() }
}

#[test]
fn two_circles_with_overlap() {
    let d = titled(["A", "B", "AB", "", "", "", ""], 40_000);
    let layout = d.layout();
    assert_eq!(
        layout.circles,
        vec![circle(280_000, 400_000, "#FF00D9"), circle(520_000, 400_000, "#14CCC0")]
    );
    assert_eq!(
        layout.texts,
        vec![
            text(240_000, 400_000, "A"),
            text(560_000, 400_000, "B"),
            text(400_000, 400_000, "AB"),
        ]
    );
}

#[test]
fn colours_go_by_ordinal() {
    assert_eq!(FIRST_COLOR, "#FF00D9");
    assert_eq!(SECOND_COLOR, "#14CCC0");
    assert_eq!(THIRD_COLOR, "#FFD20E");
    let circles = titled(["a", "b", "", "c", "", "", ""], 40_000).circles();
    assert_eq!(
        circles,
        vec![
            circle(280_000, 400_000, "#FF00D9"),
            circle(520_000, 400_000, "#14CCC0"),
            circle(400_000, 192_154, "#FFD20E"),
        ]
    );
}

#[test]
fn without_a_third_title_there_are_two_circles() {
    for overlap in [-1, 0, 40_000] {
        let d = titled(["a", "b", "ab", "", "all", "ac", "bc"], overlap);
        assert_eq!(d.circles().len(), 2);
        assert_eq!(bodies(&d.texts()), ["a", "b", "ab"]);
        let d = titled(["a", "b", "", "", "all", "ac", "bc"], overlap);
        assert_eq!(d.circles().len(), 2);
        assert_eq!(bodies(&d.texts()), ["a", "b"]);
    }
}

#[test]
fn with_every_title_there_are_three_circles_and_seven_labels() {
    for overlap in [-1, 0, 40_000] {
        let d = titled(["a", "b", "ab", "c", "all", "ac", "bc"], overlap);
        assert_eq!(d.circles().len(), 3);
        assert_eq!(bodies(&d.texts()), ["a", "b", "ab", "c", "all", "ac", "bc"]);
    }
}

#[test]
fn labels_of_three_overlapping_circles() {
    let d = titled(["a", "b", "ab", "c", "all", "ac", "bc"], 40_000);
    assert_eq!(
        d.texts(),
        vec![
            text(254_892, 414_496, "a"),
            text(545_107, 414_496, "b"),
            text(400_000, 428_992, "ab"),
            text(400_000, 163_161, "c"),
            text(400_000, 330_718, "all"),
            text(314_892, 281_580, "ac"),
            text(485_107, 281_580, "bc"),
        ]
    );
}

#[test]
fn labels_of_three_circles_that_only_touch() {
    let d = titled(["a", "b", "ab", "c", "all", "ac", "bc"], 0);
    assert_eq!(
        d.texts(),
        vec![
            text(240_000, 400_000, "a"),
            text(560_000, 400_000, "b"),
            text(400_000, 400_000, "ab"),
            text(400_000, 122_872, "c"),
            text(400_000, 307_624, "all"),
            text(320_000, 261_436, "ac"),
            text(480_000, 261_436, "bc"),
        ]
    );
}

#[test]
fn regions_without_a_title_have_no_label() {
    let d = titled(["", "b", "", "c", "", "ac", ""], 40_000);
    assert_eq!(bodies(&d.texts()), ["b", "c", "ac"]);
    let d = titled(["", "", "", "c", "", "", ""], 40_000);
    assert_eq!(d.texts(), vec![text(400_000, 163_161, "c")]);
    let d = titled(["", "", "", "", "", "", ""], 40_000);
    assert!(d.texts().is_empty());
    assert_eq!(d.circles().len(), 2);
}

#[test]
fn the_same_description_gives_the_same_layout() {
    for overlap in [-40_000, 0, 40_000, 200_000] {
        for third in ["", "c"] {
            let titles = ["a", "b", "ab", third, "all", "ac", "bc"];
            let one = titled(titles, overlap).layout();
            let other = titled(titles, overlap).layout();
            assert_eq!(one, other);
            let d = titled(titles, overlap);
            assert_eq!(d.layout(), d.layout());
            assert_eq!(d.layout().circles, d.circles());
            assert_eq!(d.layout().texts, d.texts());
        }
    }
}

#[test]
fn a_request_for_two_circles_has_defaults() {
    let d = venn_2("ducks".to_string(), "moles".to_string(), "platypuses".to_string(), None, None, None);
    assert_eq!(DEFAULT_RADIUS, 160_000);
    assert_eq!(DEFAULT_SIZE, 800_000);
    assert_eq!(DEFAULT_OVERLAP, 40_000);
    assert_eq!((d.height, d.width, d.center), (800_000, 800_000, 400_000));
    assert_eq!((d.overlap, d.radius), (40_000, 160_000));
    assert_eq!(d.first_title, "ducks");
    assert_eq!(d.second_title, "moles");
    assert_eq!(d.first_second_title, "platypuses");
    assert_eq!(d.third_title, "");
    assert_eq!(d.central_title, "");
    assert_eq!(d.first_third_title, "");
    assert_eq!(d.second_third_title, "");
    assert_eq!(d.circles().len(), 2);
}

#[test]
fn a_request_for_two_circles_takes_the_given_numbers() {
    let d = venn_2("a".to_string(), "b".to_string(), "".to_string(), Some(100_000), Some(500_001), Some(0));
    assert_eq!((d.height, d.width, d.center), (500_001, 500_001, 250_000));
    assert_eq!((d.overlap, d.radius), (0, 100_000));
    let d = venn_2("a".to_string(), "b".to_string(), "".to_string(), Some(-1), Some(-3), Some(-5));
    assert_eq!((d.height, d.width, d.center), (-3, -3, -2));
    assert_eq!((d.overlap, d.radius), (-5, -1));
    let d = venn_2("a".to_string(), "b".to_string(), "".to_string(), None, Some(i32::MIN), None);
    assert_eq!(d.center, i32::MIN / 2);
    let d = venn_2("a".to_string(), "b".to_string(), "".to_string(), None, Some(i32::MAX), None);
    assert_eq!(d.center, i32::MAX / 2);
}

#[test]
fn a_request_without_optional_titles_has_two_circles() {
    let d = venn("a".to_string(), "b".to_string(), None, None, None, None, None, None, None, None);
    assert_eq!((d.height, d.width, d.center), (800_000, 800_000, 400_000));
    assert_eq!((d.overlap, d.radius), (40_000, 160_000));
    assert_eq!(d.third_title, "");
    assert_eq!(d.first_second_title, "");
    assert_eq!(d.circles().len(), 2);
    assert_eq!(bodies(&d.texts()), ["a", "b"]);
}

#[test]
fn a_request_with_every_title_has_three_circles() {
    let d = venn(
        "a".to_string(),
        "b".to_string(),
        Some("c".to_string()),
        Some("ab".to_string()),
        Some("ac".to_string()),
        Some("bc".to_string()),
        Some("all".to_string()),
        Some(100_000),
        Some(600_000),
        Some(10_000),
    );
    assert_eq!((d.height, d.width, d.center), (600_000, 600_000, 300_000));
    assert_eq!((d.overlap, d.radius), (10_000, 100_000));
    assert_eq!(d.circles().len(), 3);
    assert_eq!(bodies(&d.texts()), ["a", "b", "ab", "c", "all", "ac", "bc"]);
}

use textile_cut::cut_disposition::Vertex;
use std::cmp::Ordering;
use textile_cut::cutting_lines::{
    Line, line_horizontal_closest_to_top_comparator, line_vertical_closest_to_left_comparator,
};

#[test]
fn cross_perpend_vertical_line_test() {
    // subject vertical line
    let vert_l = Line {
        start: Vertex { pos_x: 10, pos_y: 10 },
        end: Vertex { pos_x: 10, pos_y: 20 },
    };

    // no-crossing horizontal lines
    let no_crossing_h_1 = Line {
        start: Vertex { pos_x: 5, pos_y: 10 },
        end: Vertex { pos_x: 15, pos_y: 10 },
    };

    let no_crossing_h_2 = Line {
        start: Vertex { pos_x: 10, pos_y: 12 },
        end: Vertex { pos_x: 15, pos_y: 12 },
    };

    let no_crossing_h_3 = Line {
        start: Vertex { pos_x: 5, pos_y: 18 },
        end: Vertex { pos_x: 10, pos_y: 18 },
    };

    let no_crossing_h_4 = Line {
        start: Vertex { pos_x: 5, pos_y: 20 },
        end: Vertex { pos_x: 15, pos_y: 20 },
    };

    // crossing horizontal lines
    let crossing_h = Line {
        start: Vertex { pos_x: 5, pos_y: 15 },
        end: Vertex { pos_x: 15, pos_y: 15 },
    };

    assert!(!vert_l.cross_perpend(&no_crossing_h_1));
    assert!(!vert_l.cross_perpend(&no_crossing_h_2));
    assert!(!vert_l.cross_perpend(&no_crossing_h_3));
    assert!(!vert_l.cross_perpend(&no_crossing_h_4));

    assert_eq!(vert_l.cross_perpend(&crossing_h), true);
}

#[test]
fn cross_perpend_horizontal_line_test() {
    // subject horizontal line
    let horiz_l = Line {
        start: Vertex { pos_x: 10, pos_y: 10 },
        end: Vertex { pos_x: 20, pos_y: 10 },
    };

    // no-crossing vertical lines
    let no_crossing_v_1 = Line {
        start: Vertex { pos_x: 10, pos_y: 5 },
        end: Vertex { pos_x: 10, pos_y: 15 },
    };

    let no_crossing_v_2 = Line {
        start: Vertex { pos_x: 12, pos_y: 5 },
        end: Vertex { pos_x: 12, pos_y: 10 },
    };

    let no_crossing_v_3 = Line {
        start: Vertex { pos_x: 18, pos_y: 10 },
        end: Vertex { pos_x: 18, pos_y: 15 },
    };

    let no_crossing_v_4 = Line {
        start: Vertex { pos_x: 20, pos_y: 5 },
        end: Vertex { pos_x: 20, pos_y: 15 },
    };

    // crossing vertical lines
    let crossing_v = Line {
        start: Vertex { pos_x: 15, pos_y: 5 },
        end: Vertex { pos_x: 15, pos_y: 15 },
    };

    assert!(!horiz_l.cross_perpend(&no_crossing_v_1));
    assert!(!horiz_l.cross_perpend(&no_crossing_v_2));
    assert!(!horiz_l.cross_perpend(&no_crossing_v_3));
    assert!(!horiz_l.cross_perpend(&no_crossing_v_4));

    assert!(horiz_l.cross_perpend(&crossing_v));
}

#[test]
fn is_vertical_and_same_level_test() {
    let v = Line { start: Vertex { pos_x: 4, pos_y: 0 }, end: Vertex { pos_x: 4, pos_y: 9 } };
    let v2 = Line { start: Vertex { pos_x: 4, pos_y: 20 }, end: Vertex { pos_x: 4, pos_y: 30 } };
    let v3 = Line { start: Vertex { pos_x: 5, pos_y: 0 }, end: Vertex { pos_x: 5, pos_y: 9 } };
    let h = Line { start: Vertex { pos_x: 0, pos_y: 4 }, end: Vertex { pos_x: 9, pos_y: 4 } };
    let h2 = Line { start: Vertex { pos_x: 20, pos_y: 4 }, end: Vertex { pos_x: 30, pos_y: 4 } };

    assert!(v.is_vertical());
    assert!(!h.is_vertical());
    assert!(v.is_same_level(&v2));
    assert!(!v.is_same_level(&v3));
    assert!(h.is_same_level(&h2));
    assert!(!v.is_same_level(&h));
}

#[test]
fn combine_test() {
    let a = Line { start: Vertex { pos_x: 4, pos_y: 0 }, end: Vertex { pos_x: 4, pos_y: 9 } };
    let b = Line { start: Vertex { pos_x: 4, pos_y: 20 }, end: Vertex { pos_x: 4, pos_y: 30 } };
    let union_span = a.combine(&b);
    assert_eq!(union_span, Line {
        start: Vertex { pos_x: 4, pos_y: 0 },
        end: Vertex { pos_x: 4, pos_y: 30 },
    });

    let h1 = Line { start: Vertex { pos_x: 7, pos_y: 4 }, end: Vertex { pos_x: 9, pos_y: 4 } };
    let h2 = Line { start: Vertex { pos_x: 0, pos_y: 4 }, end: Vertex { pos_x: 8, pos_y: 4 } };
    assert_eq!(h1.combine(&h2), Line {
        start: Vertex { pos_x: 0, pos_y: 4 },
        end: Vertex { pos_x: 9, pos_y: 4 },
    });
}

#[test]
fn line_comparators_test() {
    let a = Line { start: Vertex { pos_x: 1, pos_y: 5 }, end: Vertex { pos_x: 1, pos_y: 9 } };
    let b = Line { start: Vertex { pos_x: 2, pos_y: 1 }, end: Vertex { pos_x: 2, pos_y: 9 } };
    assert_eq!(line_vertical_closest_to_left_comparator(&a, &b), Ordering::Less);
    assert_eq!(line_vertical_closest_to_left_comparator(&b, &a), Ordering::Greater);
    assert_eq!(line_vertical_closest_to_left_comparator(&a, &a), Ordering::Equal);

    assert_eq!(line_horizontal_closest_to_top_comparator(&b, &a), Ordering::Less);
    assert_eq!(line_horizontal_closest_to_top_comparator(&a, &b), Ordering::Greater);
    assert_eq!(line_horizontal_closest_to_top_comparator(&b, &b), Ordering::Equal);
}

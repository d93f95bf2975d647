use textile_cut::cut_disposition::{
    CutDispositionInput, PositionedRectangle, Rectangle, Vertex,
};
use textile_cut::cut_disposition_service::{
    create_available_vertices_for_positioning, create_available_vertices_for_prohibited_area,
    intersect, is_within_boundaries, organize_main_rectangles, organize_showcase_rectangles,
    organized_disposition, rectangle_maximum_y_comparator,
    rectangle_wider_and_longer_comparator, vertex_closest_to_top_and_left_comparator,
};
use std::cmp::Ordering;

#[test]
fn organize_main_rectangles_test() {
    let prohibited_area = PositionedRectangle {
        id: 10,
        width: 160,
        length: 60,
        top_left_vertex: Vertex { pos_x: 0, pos_y: 0 },
    };
    let rect1 = Rectangle { id: 1, width: 120, length: 40 };
    let rect2 = Rectangle { id: 2, width: 40, length: 70 };
    let rect3 = Rectangle { id: 3, width: 20, length: 40 };
    let rect_no_fit = Rectangle { id: 4, width: 20, length: 40 };

    let rectangles_list = vec![
        rect1.clone(),
        rect2.clone(),
        rect3.clone(),
        rect_no_fit.clone(),
    ];

    let prohibited_area_list = vec![prohibited_area];

    let spacing = 10;
    let max_length = 110;
    let max_width = 200;

    // action
    let main_rectangle_organized = organize_main_rectangles(
        max_length,
        spacing,
        max_width,
        &rectangles_list,
        &prohibited_area_list,
    );

    // assertion
    let p_rect1 =
        PositionedRectangle::new_from_rectangle_and_vertex(&rect1, &Vertex { pos_x: 0, pos_y: 60 });
    let p_rect2 = PositionedRectangle::new_from_rectangle_and_vertex(
        &rect2,
        &Vertex { pos_x: 160, pos_y: 0 },
    );
    let p_rect3 = PositionedRectangle::new_from_rectangle_and_vertex(
        &rect3,
        &Vertex { pos_x: 130, pos_y: 60 },
    );

    assert!(main_rectangle_organized
        .unused_rectangles_list
        .iter()
        .any(|item| item.equals(&rect_no_fit)));
    assert!(main_rectangle_organized
        .positioned_rectangles_list
        .iter()
        .any(|item| item.equals(&p_rect1)));
    assert!(main_rectangle_organized
        .positioned_rectangles_list
        .iter()
        .any(|item| item.equals(&p_rect2)));
    assert!(main_rectangle_organized
        .positioned_rectangles_list
        .iter()
        .any(|item| item.equals(&p_rect3)));

    assert_eq!(100, main_rectangle_organized.length_used);
}

/*
Assert that vertices are generated correctly
for spacing = 3
    (1, 0)
        X

      (1, 3)    (6, 3)      (9, 3)
    X   | --------- |       X
 (0, 3) |     5     |
        |           |
        | 7         |
        |           |
        |           |
        |-----------|
    (1, 10)      (6, 10)

        X
    (1, 13)
*/
#[test]
fn create_available_vertices_for_prohibited_area_test() {
    // input
    let top_left_vertex = Vertex { pos_x: 1, pos_y: 3 };

    let prohibited_area: PositionedRectangle = PositionedRectangle {
        id: 1,
        width: 5,
        length: 7,
        top_left_vertex,
    };

    // expect
    let vertices = vec![
        Vertex { pos_x: 6, pos_y: 3 },
        Vertex { pos_x: 1, pos_y: 10 },
        Vertex { pos_x: 1, pos_y: 0 },
        Vertex { pos_x: 0, pos_y: 3 },
    ];

    // assert
    assert_eq!(vertices, create_available_vertices_for_prohibited_area(&prohibited_area));
}

/*
Assert that vertices are generated correctly
for spacing = 3
(1, 3)      (6, 3)      (9, 3)
    | --------- |       X
    |     5     |
    |           |
    | 7         |
    |           |
    |           |
    |-----------|
(1, 10)      (6, 10)

    X
(1, 13)
*/
#[test]
fn create_available_vertices_for_positioning_test() {
    // input
    let top_left_vertex = Vertex { pos_x: 1, pos_y: 3 };

    let positioned_rectangle: PositionedRectangle = PositionedRectangle {
        id: 1,
        width: 5,
        length: 7,
        top_left_vertex,
    };

    let spacing = 3;

    // expect
    let vertices = vec![
        Vertex { pos_x: 9, pos_y: 3 },
        Vertex { pos_x: 1, pos_y: 13 },
    ];

    // assert
    assert_eq!(
        vertices,
        create_available_vertices_for_positioning(&positioned_rectangle, spacing)
    );
}

#[test]
fn rectangle_wider_and_longer_comparator_test() {
    // input
    let mut rectangle_list_unordered = vec![
        Rectangle { id: 1, width: 10, length: 2 },
        Rectangle { id: 2, width: 10, length: 5 },
        Rectangle { id: 3, width: 3, length: 2 },
        Rectangle { id: 4, width: 5, length: 10 },
        Rectangle { id: 5, width: 10, length: 2 },
    ];

    // expect
    let rectangle_list_ordered = vec![
        Rectangle { id: 2, width: 10, length: 5 },
        Rectangle { id: 1, width: 10, length: 2 },
        Rectangle { id: 5, width: 10, length: 2 },
        Rectangle { id: 4, width: 5, length: 10 },
        Rectangle { id: 3, width: 3, length: 2 },
    ];

    // action
    rectangle_list_unordered.sort_by(rectangle_wider_and_longer_comparator);

    // assert
    assert_eq!(rectangle_list_ordered, rectangle_list_unordered);
}

/*

    (3,5)       (7,5)
    X           X
        (5,7)
        X
    (3, 9)      (7, 9)
    X           X
*/
#[test]
fn vertex_closest_to_top_and_left_comparator_test() {
    // input
    let mut vertex_list_unordered = vec![
        Vertex { pos_x: 3, pos_y: 5 },
        Vertex { pos_x: 5, pos_y: 7 },
        Vertex { pos_x: 7, pos_y: 9 },
        Vertex { pos_x: 3, pos_y: 9 },
        Vertex { pos_x: 7, pos_y: 5 },
    ];

    // expect
    let vertex_list_ordered = vec![
        Vertex { pos_x: 3, pos_y: 5 },
        Vertex { pos_x: 7, pos_y: 5 },
        Vertex { pos_x: 5, pos_y: 7 },
        Vertex { pos_x: 3, pos_y: 9 },
        Vertex { pos_x: 7, pos_y: 9 },
    ];

    // action
    vertex_list_unordered.sort_by(vertex_closest_to_top_and_left_comparator);

    // assert
    assert_eq!(vertex_list_ordered, vertex_list_unordered);
}

#[test]
fn is_within_boundaries_test() {
    // input
    let max_width = 5;
    let max_length = 10;

    let partially_outside_left = PositionedRectangle {
        id: 1,
        width: 2,
        length: 2,
        top_left_vertex: Vertex { pos_x: -1, pos_y: 0 },
    };

    let partially_outside_top = PositionedRectangle {
        id: 1,
        width: 2,
        length: 2,
        top_left_vertex: Vertex { pos_x: 0, pos_y: -1 },
    };

    let partially_outside_rigth = PositionedRectangle {
        id: 1,
        width: 2,
        length: 2,
        top_left_vertex: Vertex { pos_x: 4, pos_y: 0 },
    };

    let partially_outside_bottom = PositionedRectangle {
        id: 1,
        width: 2,
        length: 2,
        top_left_vertex: Vertex { pos_x: 0, pos_y: 9 },
    };

    let partially_outside_rigth_bottom = PositionedRectangle {
        id: 1,
        width: 2,
        length: 2,
        top_left_vertex: Vertex { pos_x: 4, pos_y: 9 },
    };

    let inside = PositionedRectangle {
        id: 1,
        width: 2,
        length: 2,
        top_left_vertex: Vertex { pos_x: 1, pos_y: 4 },
    };

    let inside_left_top_corner = PositionedRectangle {
        id: 1,
        width: 2,
        length: 2,
        top_left_vertex: Vertex { pos_x: 0, pos_y: 0 },
    };

    let inside_rigth_bottom_corner = PositionedRectangle {
        id: 1,
        width: 2,
        length: 2,
        top_left_vertex: Vertex { pos_x: 3, pos_y: 8 },
    };

    // assert
    assert!(!is_within_boundaries(&partially_outside_left, max_width, max_length));
    assert!(!is_within_boundaries(&partially_outside_top, max_width, max_length));
    assert!(!is_within_boundaries(&partially_outside_rigth, max_width, max_length));
    assert!(!is_within_boundaries(&partially_outside_bottom, max_width, max_length));
    assert!(!is_within_boundaries(&partially_outside_rigth_bottom, max_width, max_length));

    assert!(is_within_boundaries(&inside, max_width, max_length));
    assert!(is_within_boundaries(&inside_left_top_corner, max_width, max_length));
    assert!(is_within_boundaries(&inside_rigth_bottom_corner, max_width, max_length));
}

#[test]
fn intersect_no_spacing_test() {
    // input
    let spacing = 0;

    // intersect

    // sides

    let subject = PositionedRectangle {
        id: 1,
        width: 30,
        length: 50,
        top_left_vertex: Vertex { pos_x: 30, pos_y: 50 },
    };

    let intersect_left = PositionedRectangle {
        id: 2,
        width: 20,
        length: 30,
        top_left_vertex: Vertex { pos_x: 20, pos_y: 50 },
    };

    let intersect_top = PositionedRectangle {
        id: 2,
        width: 20,
        length: 30,
        top_left_vertex: Vertex { pos_x: 30, pos_y: 30 },
    };

    let intersect_rigth = PositionedRectangle {
        id: 2,
        width: 20,
        length: 30,
        top_left_vertex: Vertex { pos_x: 50, pos_y: 50 },
    };

    let intersect_bottom = PositionedRectangle {
        id: 2,
        width: 20,
        length: 30,
        top_left_vertex: Vertex { pos_x: 30, pos_y: 90 },
    };

    // inside

    let intersect_inside_middle = PositionedRectangle {
        id: 2,
        width: 20,
        length: 30,
        top_left_vertex: Vertex { pos_x: 35, pos_y: 60 },
    };

    let intersect_inside_top_left = PositionedRectangle {
        id: 2,
        width: 20,
        length: 30,
        top_left_vertex: Vertex { pos_x: 30, pos_y: 50 },
    };

    let intersect_inside_bottom_rigth = PositionedRectangle {
        id: 2,
        width: 20,
        length: 30,
        top_left_vertex: Vertex { pos_x: 40, pos_y: 70 },
    };

    // no intersect

    // sides no touch

    let left = PositionedRectangle {
        id: 2,
        width: 20,
        length: 30,
        top_left_vertex: Vertex { pos_x: 0, pos_y: 50 },
    };

    let top = PositionedRectangle {
        id: 2,
        width: 20,
        length: 30,
        top_left_vertex: Vertex { pos_x: 30, pos_y: 10 },
    };

    let rigth = PositionedRectangle {
        id: 2,
        width: 20,
        length: 30,
        top_left_vertex: Vertex { pos_x: 70, pos_y: 50 },
    };

    let bottom = PositionedRectangle {
        id: 2,
        width: 20,
        length: 30,
        top_left_vertex: Vertex { pos_x: 30, pos_y: 110 },
    };

    // sides touch

    let left_touch = PositionedRectangle {
        id: 2,
        width: 20,
        length: 30,
        top_left_vertex: Vertex { pos_x: 10, pos_y: 50 },
    };

    let top_touch = PositionedRectangle {
        id: 2,
        width: 20,
        length: 30,
        top_left_vertex: Vertex { pos_x: 30, pos_y: 20 },
    };

    let rigth_touch = PositionedRectangle {
        id: 2,
        width: 20,
        length: 30,
        top_left_vertex: Vertex { pos_x: 60, pos_y: 50 },
    };

    let bottom_touch = PositionedRectangle {
        id: 2,
        width: 20,
        length: 30,
        top_left_vertex: Vertex { pos_x: 30, pos_y: 100 },
    };

    // assertion
    assert!(intersect(&subject, &intersect_left, spacing));
    assert!(intersect(&subject, &intersect_top, spacing));
    assert!(intersect(&subject, &intersect_rigth, spacing));
    assert!(intersect(&subject, &intersect_bottom, spacing));

    assert!(intersect(&subject, &intersect_inside_middle, spacing));
    assert!(intersect(&subject, &intersect_inside_top_left, spacing));
    assert!(intersect(&subject, &intersect_inside_bottom_rigth, spacing));

    assert!(!intersect(&subject, &left, spacing));
    assert!(!intersect(&subject, &top, spacing));
    assert!(!intersect(&subject, &rigth, spacing));
    assert!(!intersect(&subject, &bottom, spacing));

    assert!(!intersect(&subject, &left_touch, spacing));
    assert!(!intersect(&subject, &top_touch, spacing));
    assert!(!intersect(&subject, &rigth_touch, spacing));
    assert!(!intersect(&subject, &bottom_touch, spacing));
}

#[test]
fn intersect_with_spacing_test() {
    // input
    let spacing = 5;

    // intersect

    // sides

    let subject = PositionedRectangle {
        id: 1,
        width: 30,
        length: 50,
        top_left_vertex: Vertex { pos_x: 30, pos_y: 50 },
    };

    let intersect_left = PositionedRectangle {
        id: 2,
        width: 20,
        length: 30,
        top_left_vertex: Vertex { pos_x: 15, pos_y: 50 },
    };

    let intersect_top = PositionedRectangle {
        id: 2,
        width: 20,
        length: 30,
        top_left_vertex: Vertex { pos_x: 30, pos_y: 25 },
    };

    let intersect_rigth = PositionedRectangle {
        id: 2,
        width: 20,
        length: 30,
        top_left_vertex: Vertex { pos_x: 55, pos_y: 50 },
    };

    let intersect_bottom = PositionedRectangle {
        id: 2,
        width: 20,
        length: 30,
        top_left_vertex: Vertex { pos_x: 30, pos_y: 95 },
    };

    // inside

    let intersect_inside_middle = PositionedRectangle {
        id: 2,
        width: 20,
        length: 30,
        top_left_vertex: Vertex { pos_x: 35, pos_y: 60 },
    };

    let intersect_inside_top_left = PositionedRectangle {
        id: 2,
        width: 20,
        length: 30,
        top_left_vertex: Vertex { pos_x: 25, pos_y: 45 },
    };

    let intersect_inside_bottom_rigth = PositionedRectangle {
        id: 2,
        width: 20,
        length: 30,
        top_left_vertex: Vertex { pos_x: 45, pos_y: 75 },
    };

    // no intersect

    // sides no touch

    let left = PositionedRectangle {
        id: 2,
        width: 20,
        length: 30,
        top_left_vertex: Vertex { pos_x: 0, pos_y: 50 },
    };

    let top = PositionedRectangle {
        id: 2,
        width: 20,
        length: 30,
        top_left_vertex: Vertex { pos_x: 30, pos_y: 10 },
    };

    let rigth = PositionedRectangle {
        id: 2,
        width: 20,
        length: 30,
        top_left_vertex: Vertex { pos_x: 70, pos_y: 50 },
    };

    let bottom = PositionedRectangle {
        id: 2,
        width: 20,
        length: 30,
        top_left_vertex: Vertex { pos_x: 30, pos_y: 110 },
    };

    // sides touch

    let left_touch = PositionedRectangle {
        id: 2,
        width: 20,
        length: 30,
        top_left_vertex: Vertex { pos_x: 5, pos_y: 50 },
    };

    let top_touch = PositionedRectangle {
        id: 2,
        width: 20,
        length: 30,
        top_left_vertex: Vertex { pos_x: 30, pos_y: 15 },
    };

    let rigth_touch = PositionedRectangle {
        id: 2,
        width: 20,
        length: 30,
        top_left_vertex: Vertex { pos_x: 65, pos_y: 50 },
    };

    let bottom_touch = PositionedRectangle {
        id: 2,
        width: 20,
        length: 30,
        top_left_vertex: Vertex { pos_x: 30, pos_y: 105 },
    };

    // assertion
    assert!(intersect(&subject, &intersect_left, spacing));
    assert!(intersect(&subject, &intersect_top, spacing));
    assert!(intersect(&subject, &intersect_rigth, spacing));
    assert!(intersect(&subject, &intersect_bottom, spacing));

    assert!(intersect(&subject, &intersect_inside_middle, spacing));
    assert!(intersect(&subject, &intersect_inside_top_left, spacing));
    assert!(intersect(&subject, &intersect_inside_bottom_rigth, spacing));

    assert!(!intersect(&subject, &left, spacing));
    assert!(!intersect(&subject, &top, spacing));
    assert!(!intersect(&subject, &rigth, spacing));
    assert!(!intersect(&subject, &bottom, spacing));

    assert!(!intersect(&subject, &left_touch, spacing));
    assert!(!intersect(&subject, &top_touch, spacing));
    assert!(!intersect(&subject, &rigth_touch, spacing));
    assert!(!intersect(&subject, &bottom_touch, spacing));
}

#[test]
fn organize_showcase_rectangles_test() {
    let showcase = Rectangle { id: 9, width: 50, length: 25 };
    let pool = vec![Vertex { pos_x: 0, pos_y: 0 }];
    let placed: Vec<PositionedRectangle> = Vec::new();
    let zones: Vec<PositionedRectangle> = Vec::new();

    let fillers = organize_showcase_rectangles(showcase, 0, 100, &zones, &pool, &placed, 50);

    let positions: Vec<(i32, i32)> = fillers
        .iter()
        .map(|f| (f.top_left_vertex.pos_x, f.top_left_vertex.pos_y))
        .collect();
    assert_eq!(positions, vec![(0, 0), (50, 0), (0, 25), (50, 25)]);
    assert!(fillers.iter().all(|f| f.id == 9 && f.width == 50 && f.length == 25));
}

fn scenario_input() -> CutDispositionInput {
    CutDispositionInput {
        rectangles_list: vec![
            Rectangle { id: 1, width: 120, length: 40 },
            Rectangle { id: 2, width: 40, length: 70 },
            Rectangle { id: 3, width: 20, length: 40 },
            Rectangle { id: 4, width: 20, length: 40 },
        ],
        prohibited_area_list: vec![PositionedRectangle {
            id: 10,
            width: 160,
            length: 60,
            top_left_vertex: Vertex { pos_x: 0, pos_y: 0 },
        }],
        showcase: Some(Rectangle { id: 5, width: 30, length: 15 }),
        spacing: Some(10),
        max_length: 110,
        defined_length: None,
        defined_width: 200,
    }
}

#[test]
fn organized_disposition_idempotence_test() {
    let input = scenario_input();
    let first = organized_disposition(&input);
    let second = organized_disposition(&input);
    assert_eq!(first, second);
}

#[test]
fn organized_disposition_laws_test() {
    let input = scenario_input();
    let out = organized_disposition(&input);
    let spacing = input.spacing.unwrap_or(0);

    // no placed piece conflicts with another placed piece or a prohibited area
    let placed = &out.positioned_rectangles_list;
    for (i, a) in placed.iter().enumerate() {
        for (j, b) in placed.iter().enumerate() {
            if i != j {
                assert!(!intersect(a, b, spacing));
            }
        }
        for zone in &out.prohibited_area_list {
            assert!(!intersect(a, zone, 0));
        }
        assert!(is_within_boundaries(a, input.defined_width, input.max_length));
    }

    // fillers stay inside the consumed length, clear of everything
    for (i, f) in out.showcase_rectangles_located_list.iter().enumerate() {
        assert!(is_within_boundaries(f, input.defined_width, out.length_used));
        for p in placed {
            assert!(!intersect(f, p, spacing));
        }
        for zone in &out.prohibited_area_list {
            assert!(!intersect(f, zone, 0));
        }
        for (j, g) in out.showcase_rectangles_located_list.iter().enumerate() {
            if i != j {
                assert!(!intersect(f, g, spacing));
            }
        }
    }

    // conservation: placed and unplaced ids together are the input ids
    let mut seen: Vec<u32> = placed.iter().map(|p| p.id).collect();
    seen.extend(out.unused_rectangles_list.iter().map(|r| r.id));
    seen.sort();
    let mut expected: Vec<u32> = input.rectangles_list.iter().map(|r| r.id).collect();
    expected.sort();
    assert_eq!(seen, expected);

    // the totals of the run
    assert_eq!(out.length_used, 100);
    assert_eq!(out.total_area, 200 * 110);
    let placed_area: i128 = placed.iter().map(|p| (p.width as i128) * (p.length as i128)).sum();
    let filler_area: i128 = out
        .showcase_rectangles_located_list
        .iter()
        .map(|p| (p.width as i128) * (p.length as i128))
        .sum();
    assert_eq!(out.used_area, placed_area + filler_area);
}

#[test]
fn rectangle_maximum_y_comparator_test() {
    let shallow = PositionedRectangle {
        id: 1,
        width: 10,
        length: 20,
        top_left_vertex: Vertex { pos_x: 0, pos_y: 10 },
    };
    let deep = PositionedRectangle {
        id: 2,
        width: 10,
        length: 50,
        top_left_vertex: Vertex { pos_x: 0, pos_y: 10 },
    };
    let same_bottom = PositionedRectangle {
        id: 3,
        width: 10,
        length: 10,
        top_left_vertex: Vertex { pos_x: 5, pos_y: 20 },
    };
    assert_eq!(rectangle_maximum_y_comparator(&shallow, &deep), Ordering::Less);
    assert_eq!(rectangle_maximum_y_comparator(&deep, &shallow), Ordering::Greater);
    assert_eq!(rectangle_maximum_y_comparator(&shallow, &same_bottom), Ordering::Equal);
}

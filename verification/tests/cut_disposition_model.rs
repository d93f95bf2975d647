use textile_cut::app_error::DEFAULT_ERROR_CODE;
use textile_cut::cut_disposition::{
    ConfigCutDispositionInput, CutDispositionState, PositionedRectangle,
    PositionedRectangleVertices, Rectangle, Vertex,
};

/*
Assert that vertices are generated correctly
for (x, y)
top-left    top-right
(1, 3)      (6, 3)
    | --------- |
    |     5     |
    |           |
    | 7         |
    |           |
    |           |
    |-----------|
(1, 10)      (6, 10)
bottom-left  bottom-right
*/
#[test]
fn get_vertices_test() {
    // input
    let top_left_vertex = Vertex { pos_x: 1, pos_y: 3 };

    let rectangle = PositionedRectangle {
        id: 1,
        width: 5,
        length: 7,
        top_left_vertex: top_left_vertex.clone(),
    };

    // expect
    let vertices = PositionedRectangleVertices {
        top_left_vertex,
        top_rigth_vertex: Vertex { pos_x: 6, pos_y: 3 },
        bottom_left_vertex: Vertex { pos_x: 1, pos_y: 10 },
        bottom_rigth_vertex: Vertex { pos_x: 6, pos_y: 10 },
    };

    // assert
    assert_eq!(vertices, rectangle.get_vertices());
}

#[test]
fn equals_methods_test() {
    let a = Rectangle { id: 1, width: 10, length: 20 };
    let b = Rectangle { id: 1, width: 10, length: 20 };
    let c = Rectangle { id: 2, width: 10, length: 20 };
    assert!(a.equals(&b));
    assert!(!a.equals(&c));

    let v1 = Vertex { pos_x: 3, pos_y: 4 };
    let v2 = Vertex { pos_x: 3, pos_y: 4 };
    let v3 = Vertex { pos_x: 3, pos_y: 5 };
    assert!(v1.equals(&v2));
    assert!(!v1.equals(&v3));

    let p1 = PositionedRectangle::new_from_rectangle_and_vertex(&a, &v1);
    let p2 = PositionedRectangle::new_from_rectangle_and_vertex(&b, &v2);
    let p3 = PositionedRectangle::new_from_rectangle_and_vertex(&c, &v1);
    assert!(p1.equals(&p2));
    assert!(!p1.equals(&p3));
}

#[test]
fn state_add_and_get_pieces_test() {
    let mut state = CutDispositionState::new();
    let r1 = state.add_piece(&Rectangle { id: 0, width: 10, length: 20 });
    let r2 = state.add_piece(&Rectangle { id: 0, width: 30, length: 40 });
    assert_eq!(r1.id, 1);
    assert_eq!(r2.id, 2);
    let pieces = state.get_pieces();
    assert_eq!(pieces.len(), 2);
    assert_eq!(pieces[0], Rectangle { id: 1, width: 10, length: 20 });
    assert_eq!(pieces[1], Rectangle { id: 2, width: 30, length: 40 });
}

#[test]
fn state_remove_piece_test() {
    let mut state = CutDispositionState::new();
    state.add_piece(&Rectangle { id: 0, width: 10, length: 20 });
    state.add_piece(&Rectangle { id: 0, width: 30, length: 40 });

    let removed = state.remove_piece(1).expect("piece 1 should be there");
    assert_eq!(removed, Rectangle { id: 1, width: 10, length: 20 });
    assert_eq!(state.get_pieces().len(), 1);

    let missing = state.remove_piece(7);
    assert!(missing.is_err());
    assert_eq!(missing.unwrap_err().status, DEFAULT_ERROR_CODE);
    assert_eq!(state.get_pieces().len(), 1);
}

#[test]
fn state_edit_piece_test() {
    let mut state = CutDispositionState::new();
    state.add_piece(&Rectangle { id: 0, width: 10, length: 20 });
    let edited = state
        .edit_piece(Rectangle { id: 1, width: 99, length: 98 })
        .expect("piece 1 should be editable");
    assert_eq!(edited, Rectangle { id: 1, width: 99, length: 98 });
    assert_eq!(state.get_pieces()[0], Rectangle { id: 1, width: 99, length: 98 });

    assert!(state.edit_piece(Rectangle { id: 5, width: 1, length: 1 }).is_err());
}

#[test]
fn state_showcase_test() {
    let mut state = CutDispositionState::new();
    assert!(state.get_showcase().is_none());
    assert!(state.remove_showcase(1).is_err());

    // adding the showcase hands out a fresh id and sets the single shape;
    // the piece list is untouched
    let added = state.add_showcase(&Rectangle { id: 0, width: 5, length: 6 });
    assert_eq!(added, Rectangle { id: 1, width: 5, length: 6 });
    assert_eq!(state.get_showcase(), Some(added));
    assert!(state.get_pieces().is_empty());

    // editing replaces the shape under its id; a foreign id is rejected
    let edited = state
        .edit_showcase(Rectangle { id: 1, width: 7, length: 8 })
        .expect("showcase 1 is editable");
    assert_eq!(state.get_showcase(), Some(edited));
    assert!(state.edit_showcase(Rectangle { id: 9, width: 1, length: 1 }).is_err());

    // removal asks for the right id and clears the shape
    assert!(state.remove_showcase(2).is_err());
    let removed = state.remove_showcase(1).expect("showcase 1 is removable");
    assert_eq!(removed, edited);
    assert!(state.get_showcase().is_none());
}

#[test]
fn state_prohibited_area_test() {
    let mut state = CutDispositionState::new();
    let area = state.add_prohibited_area(&PositionedRectangle {
        id: 0,
        width: 10,
        length: 10,
        top_left_vertex: Vertex { pos_x: 2, pos_y: 3 },
    });
    assert_eq!(area.id, 1);
    assert_eq!(state.get_prohibited_area().len(), 1);

    let got = state.get_prohibited_area_by_id(1).expect("area 1 should be there");
    assert_eq!(got, area);
    assert!(state.get_prohibited_area_by_id(9).is_err());

    let removed = state.remove_prohibited_area(1).expect("area 1 should be removable");
    assert_eq!(removed, area);
    assert!(state.get_prohibited_area().is_empty());
    assert!(state.remove_prohibited_area(1).is_err());
}

#[test]
fn state_config_test() {
    let mut state = CutDispositionState::new();

    let bad_spacing = ConfigCutDispositionInput {
        spacing: Some(0),
        max_length: 10,
        defined_length: None,
        defined_width: 10,
    };
    assert!(state.set_config_cut_disposition_input(&bad_spacing).is_err());

    let bad_defined_length = ConfigCutDispositionInput {
        spacing: None,
        max_length: 10,
        defined_length: Some(-1),
        defined_width: 10,
    };
    assert!(state.set_config_cut_disposition_input(&bad_defined_length).is_err());

    let bad_max_length = ConfigCutDispositionInput {
        spacing: None,
        max_length: 0,
        defined_length: None,
        defined_width: 10,
    };
    assert!(state.set_config_cut_disposition_input(&bad_max_length).is_err());

    let bad_width = ConfigCutDispositionInput {
        spacing: None,
        max_length: 10,
        defined_length: None,
        defined_width: 0,
    };
    assert!(state.set_config_cut_disposition_input(&bad_width).is_err());

    let good = ConfigCutDispositionInput {
        spacing: Some(5),
        max_length: 100,
        defined_length: Some(90),
        defined_width: 200,
    };
    let set = state.set_config_cut_disposition_input(&good).expect("config is valid");
    assert_eq!(set, good);
    assert_eq!(state.get_config_cut_disposition_input(), good);

    let input = state.get_cut_disposition_input();
    assert_eq!(input.spacing, Some(5));
    assert_eq!(input.max_length, 100);
    assert_eq!(input.defined_length, Some(90));
    assert_eq!(input.defined_width, 200);

    state.reset();
    assert_eq!(state.get_config_cut_disposition_input().max_length, 0);
    assert!(state.get_pieces().is_empty());
}

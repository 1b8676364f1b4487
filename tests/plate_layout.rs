use plate_geometry::plate::{FaceNormal, GridQuad, GridVertex, PlateError, PlateLayout};

fn layout(point_count: usize, width: f32, subdivisions: usize) -> PlateLayout {
    PlateLayout::new(point_count, width > 0.0, subdivisions).unwrap()
}

fn v(slice: usize, point: usize, back: bool) -> GridVertex {
    GridVertex { slice, point, back }
}

#[test]
fn test_plate_geometry_simple() {
    let plate = layout(2, 0.5, 1);

    assert_eq!(plate.point_count(), 2);
    assert_eq!(plate.subdivisions(), 1);
    assert_eq!(plate.slice_count(), 2);

    assert_eq!(plate.front_face().len(), 1);
    assert_eq!(plate.back_face().len(), 1);
    assert_eq!(plate.left_face().len(), 1);
    assert_eq!(plate.right_face().len(), 1);
    assert_eq!(plate.top_face().len(), 1);
    assert_eq!(plate.bottom_face().len(), 1);
}

#[test]
fn test_plate_geometry_curved() {
    let plate = layout(3, 0.4, 2);

    assert_eq!(plate.point_count(), 3);
    assert_eq!(plate.subdivisions(), 2);
    assert_eq!(plate.slice_count(), 3);

    assert_eq!(plate.front_face().len(), 2);
    assert_eq!(plate.left_face().len(), 4);
    assert_eq!(plate.right_face().len(), 4);
}

#[test]
fn test_plate_geometry_normals() {
    let plate = layout(2, 0.5, 1);

    assert_eq!(plate.front_face()[0].normal, FaceNormal::AgainstExtrusion);
    assert_eq!(plate.back_face()[0].normal, FaceNormal::AlongExtrusion);
}

#[test]
fn test_plate_geometry_uvw_coordinates() {
    let plate = layout(2, 0.5, 1);
    let quad = plate.front_face()[0];

    // u comes from the point (first: 0, last: 1), v is slice / subdivisions, w the side.
    assert_eq!(quad.top_left.point, 0);
    assert_eq!(quad.top_left.slice, 0);
    assert!(!quad.top_left.back);

    assert_eq!(quad.top_right.point, plate.point_count() - 1);
    assert_eq!(quad.top_right.slice, 0);
    assert!(!quad.top_right.back);

    assert_eq!(quad.bottom_left.point, 0);
    assert_eq!(quad.bottom_left.slice, 0);
    assert!(quad.bottom_left.back);
}

#[test]
fn test_plate_geometry_too_few_points() {
    let r = PlateLayout::new(1, 0.5f32 > 0.0, 1);
    assert!(matches!(r, Err(PlateError::TooFewPoints)));
}

#[test]
fn test_plate_geometry_zero_width() {
    let r = PlateLayout::new(2, 0.0f32 > 0.0, 1);
    assert!(matches!(r, Err(PlateError::NonPositiveWidth)));
}

#[test]
fn too_few_points_is_reported_before_width() {
    let r = PlateLayout::new(0, false, 1);
    assert!(matches!(r, Err(PlateError::TooFewPoints)));
}

#[test]
fn negative_and_nan_width_are_refused() {
    assert!(matches!(PlateLayout::new(2, -1.0f32 > 0.0, 1), Err(PlateError::NonPositiveWidth)));
    assert!(matches!(PlateLayout::new(2, f32::NAN > 0.0, 1), Err(PlateError::NonPositiveWidth)));
}

#[test]
fn zero_subdivisions_become_one() {
    let plate = layout(2, 1.0, 0);
    assert_eq!(plate.subdivisions(), 1);
    assert_eq!(plate.slice_count(), 2);
    assert_eq!(plate.left_face().len(), 1);
    assert_eq!(plate.top_face().len(), 1);
}

#[test]
fn slice_count_is_one_more_than_subdivisions() {
    for s in 1..6 {
        assert_eq!(layout(4, 1.0, s).slice_count(), s + 1);
    }
}

#[test]
fn face_counts_scale_with_points_and_subdivisions() {
    let plate = layout(5, 1.0, 3);
    assert_eq!(plate.front_face().len(), 4);
    assert_eq!(plate.back_face().len(), 4);
    assert_eq!(plate.left_face().len(), 12);
    assert_eq!(plate.right_face().len(), 12);
    assert_eq!(plate.top_face().len(), 3);
    assert_eq!(plate.bottom_face().len(), 3);
}

#[test]
fn front_and_back_faces_use_first_and_last_slice() {
    let plate = layout(3, 1.0, 2);
    let front = plate.front_face();
    assert_eq!(
        front[1],
        GridQuad {
            top_left: v(0, 1, false),
            top_right: v(0, 2, false),
            bottom_left: v(0, 1, true),
            bottom_right: v(0, 2, true),
            normal: FaceNormal::AgainstExtrusion,
        }
    );
    let back = plate.back_face();
    assert_eq!(
        back[0],
        GridQuad {
            top_left: v(2, 0, true),
            top_right: v(2, 1, true),
            bottom_left: v(2, 0, false),
            bottom_right: v(2, 1, false),
            normal: FaceNormal::AlongExtrusion,
        }
    );
}

#[test]
fn left_face_runs_slice_by_slice() {
    let plate = layout(3, 1.0, 2);
    let left = plate.left_face();
    assert_eq!(
        left[3],
        GridQuad {
            top_left: v(1, 1, false),
            top_right: v(1, 2, false),
            bottom_left: v(2, 1, false),
            bottom_right: v(2, 2, false),
            normal: FaceNormal::FrontEdge { slice: 1, point: 1 },
        }
    );
    assert_eq!(left[2].normal, FaceNormal::FrontEdge { slice: 1, point: 0 });
    assert_eq!(left[1].normal, FaceNormal::FrontEdge { slice: 0, point: 1 });
}

#[test]
fn right_face_walks_back_loop_reversed() {
    let plate = layout(3, 1.0, 2);
    let right = plate.right_face();
    assert_eq!(
        right[1],
        GridQuad {
            top_left: v(0, 2, true),
            top_right: v(0, 1, true),
            bottom_left: v(1, 2, true),
            bottom_right: v(1, 1, true),
            normal: FaceNormal::BackEdge { slice: 0, point: 1 },
        }
    );
}

#[test]
fn top_and_bottom_faces_cross_the_plate_at_the_ends() {
    let plate = layout(4, 1.0, 2);
    let top = plate.top_face();
    assert_eq!(
        top[1],
        GridQuad {
            top_left: v(1, 0, false),
            top_right: v(1, 0, true),
            bottom_left: v(2, 0, false),
            bottom_right: v(2, 0, true),
            normal: FaceNormal::TopCap,
        }
    );
    let bottom = plate.bottom_face();
    assert_eq!(
        bottom[0],
        GridQuad {
            top_left: v(0, 3, true),
            top_right: v(0, 3, false),
            bottom_left: v(1, 3, true),
            bottom_right: v(1, 3, false),
            normal: FaceNormal::BottomCap,
        }
    );
}

#[test]
fn every_corner_lies_on_the_grid() {
    let plate = layout(4, 1.0, 3);
    let faces = [
        plate.front_face(),
        plate.back_face(),
        plate.left_face(),
        plate.right_face(),
        plate.top_face(),
        plate.bottom_face(),
    ];
    for face in faces.iter() {
        for q in face.iter() {
            for c in [q.top_left, q.top_right, q.bottom_left, q.bottom_right] {
                assert!(c.slice <= 3);
                assert!(c.point < 4);
            }
        }
    }
}

#[test]
fn extraction_is_repeatable() {
    let plate = layout(3, 0.4, 2);
    assert_eq!(plate.front_face(), plate.front_face());
    assert_eq!(plate.back_face(), plate.back_face());
    assert_eq!(plate.left_face(), plate.left_face());
    assert_eq!(plate.right_face(), plate.right_face());
    assert_eq!(plate.top_face(), plate.top_face());
    assert_eq!(plate.bottom_face(), plate.bottom_face());
}

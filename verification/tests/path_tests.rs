use manim_rs::path::{Path, PathCommand, PathCursor};

type Pt = (f64, f64);
type Box4 = [f64; 4];

fn fold_box(cmds: &Vec<PathCommand<Pt>>) -> Box4 {
    let mut points: Vec<Pt> = Vec::new();
    for cmd in cmds.iter() {
        match cmd {
            PathCommand::MoveTo(p) | PathCommand::LineTo(p) => points.push(*p),
            PathCommand::QuadraticTo { control, to } => {
                points.push(*control);
                points.push(*to);
            }
            PathCommand::CubicTo {
                control1,
                control2,
                to,
            } => {
                points.push(*control1);
                points.push(*control2);
                points.push(*to);
            }
            PathCommand::Close => {}
        }
    }
    let mut b: Box4 = [0.0, 0.0, 0.0, 0.0];
    if let Some(first) = points.first() {
        b = [first.0, first.1, first.0, first.1];
        for p in points.iter().skip(1) {
            b[0] = b[0].min(p.0);
            b[1] = b[1].min(p.1);
            b[2] = b[2].max(p.0);
            b[3] = b[3].max(p.1);
        }
    }
    b
}

#[test]
fn test_path_new() {
    let path: Path<Pt, Box4> = Path::new();
    assert!(path.is_empty());
    assert_eq!(path.len(), 0);
}

#[test]
fn test_path_with_capacity() {
    let path: Path<Pt, Box4> = Path::with_capacity(100);
    assert!(path.is_empty());
    assert_eq!(path.len(), 0);
}

#[test]
fn test_path_move_to() {
    let mut path: Path<Pt, Box4> = Path::new();
    path.move_to((1.0, 2.0));

    assert_eq!(path.len(), 1);
    assert_eq!(path.commands()[0], PathCommand::MoveTo((1.0, 2.0)));
}

#[test]
fn test_path_line_to() {
    let mut path: Path<Pt, Box4> = Path::new();
    path.move_to((0.0, 0.0));
    path.line_to((1.0, 1.0));

    assert_eq!(path.len(), 2);
    assert_eq!(path.commands()[1], PathCommand::LineTo((1.0, 1.0)));
}

#[test]
fn test_path_quadratic_to() {
    let mut path: Path<Pt, Box4> = Path::new();
    path.move_to((0.0, 0.0));
    path.quadratic_to((0.5, 1.0), (1.0, 0.0));

    assert_eq!(path.len(), 2);
    match path.commands()[1] {
        PathCommand::QuadraticTo { control, to } => {
            assert_eq!(control, (0.5, 1.0));
            assert_eq!(to, (1.0, 0.0));
        }
        _ => panic!("Expected QuadraticTo command"),
    }
}

#[test]
fn test_path_cubic_to() {
    let mut path: Path<Pt, Box4> = Path::new();
    path.move_to((0.0, 0.0));
    path.cubic_to((0.33, 1.0), (0.66, 1.0), (1.0, 0.0));

    assert_eq!(path.len(), 2);
    match path.commands()[1] {
        PathCommand::CubicTo {
            control1,
            control2,
            to,
        } => {
            assert_eq!(control1, (0.33, 1.0));
            assert_eq!(control2, (0.66, 1.0));
            assert_eq!(to, (1.0, 0.0));
        }
        _ => panic!("Expected CubicTo command"),
    }
}

#[test]
fn test_path_close() {
    let mut path: Path<Pt, Box4> = Path::new();
    path.move_to((0.0, 0.0));
    path.line_to((1.0, 0.0));
    path.line_to((0.5, 1.0));
    path.close();

    assert_eq!(path.len(), 4);
    assert_eq!(path.commands()[3], PathCommand::Close);
}

#[test]
fn test_path_equality() {
    let mut path1: Path<Pt, Box4> = Path::new();
    path1.move_to((0.0, 0.0));
    path1.line_to((1.0, 1.0));

    let mut path2: Path<Pt, Box4> = Path::new();
    path2.move_to((0.0, 0.0));
    path2.line_to((1.0, 1.0));

    assert_eq!(path1.commands(), path2.commands());
}

#[test]
fn test_path_clone() {
    let mut path1: Path<Pt, Box4> = Path::new();
    path1.move_to((0.0, 0.0));
    path1.line_to((1.0, 1.0));

    let path2 = path1.clone();
    assert_eq!(path1.commands(), path2.commands());
}

#[test]
fn test_path_points_extraction() {
    let mut path: Path<Pt, Box4> = Path::new();
    path.move_to((0.0, 0.0));
    path.quadratic_to((0.5, 1.0), (1.0, 0.0));
    path.cubic_to((2.0, 1.0), (3.0, 1.0), (4.0, 0.0));
    path.close();

    assert_eq!(
        path.points(),
        vec![
            (0.0, 0.0),
            (0.5, 1.0),
            (1.0, 0.0),
            (2.0, 1.0),
            (3.0, 1.0),
            (4.0, 0.0),
        ]
    );
}

#[test]
fn test_path_bounding_box_simple() {
    let mut path: Path<Pt, Box4> = Path::new();
    path.move_to((0.0, 0.0));
    path.line_to((2.0, 3.0));

    let bounds = path.bounding_box_with(fold_box);
    assert_eq!(bounds, [0.0, 0.0, 2.0, 3.0]);
}

#[test]
fn test_path_bounding_box_cached() {
    let mut path: Path<Pt, Box4> = Path::new();
    path.move_to((0.0, 0.0));
    path.line_to((1.0, 1.0));

    let bounds1 = path.bounding_box_with(fold_box);
    // A second call must hand back the cached box without recomputing.
    let bounds2 = path.bounding_box_with(|_: &Vec<PathCommand<Pt>>| -> Box4 {
        panic!("the cached box must be returned without recomputation")
    });
    assert_eq!(bounds1, bounds2);
}

#[test]
fn test_path_bounding_box_invalidated() {
    let mut path: Path<Pt, Box4> = Path::new();
    path.move_to((0.0, 0.0));
    path.line_to((1.0, 1.0));

    let bounds1 = path.bounding_box_with(fold_box);

    path.line_to((5.0, 5.0));
    // The append cleared the cache, so this recomputes from scratch and the
    // recomputed box must equal what a fresh fold of the commands yields.
    let bounds2 = path.bounding_box_with(fold_box);

    assert_ne!(bounds1, bounds2);
    assert_eq!(bounds2, [0.0, 0.0, 5.0, 5.0]);
    assert_eq!(bounds2, fold_box(&path.commands().to_vec()));
}

#[test]
fn test_path_transform() {
    let mut path: Path<Pt, Box4> = Path::new();
    path.move_to((0.0, 0.0));
    path.line_to((1.0, 0.0));

    path.apply_transform_with(|p: Pt| (p.0 + 2.0, p.1 + 3.0));

    match path.commands()[0] {
        PathCommand::MoveTo(p) => {
            assert_eq!(p, (2.0, 3.0));
        }
        _ => panic!("Expected MoveTo"),
    }

    match path.commands()[1] {
        PathCommand::LineTo(p) => {
            assert_eq!(p, (3.0, 3.0));
        }
        _ => panic!("Expected LineTo"),
    }
}

#[test]
fn test_path_transform_clears_cache() {
    let mut path: Path<Pt, Box4> = Path::new();
    path.move_to((0.0, 0.0));
    path.line_to((1.0, 1.0));

    let before = path.bounding_box_with(fold_box);
    path.apply_transform_with(|p: Pt| (p.0 * 2.0, p.1 * 2.0));
    let after = path.bounding_box_with(fold_box);

    assert_eq!(before, [0.0, 0.0, 1.0, 1.0]);
    assert_eq!(after, [0.0, 0.0, 2.0, 2.0]);
}

#[test]
fn test_cursor_new() {
    let cursor: PathCursor<Pt, Box4> = PathCursor::new((0.0, 0.0));
    assert_eq!(cursor.position(), (0.0, 0.0));
    assert!(cursor.path().is_empty());
}

#[test]
fn test_cursor_move_to() {
    let mut cursor: PathCursor<Pt, Box4> = PathCursor::new((0.0, 0.0));
    cursor.move_to((1.0, 2.0));

    assert_eq!(cursor.position(), (1.0, 2.0));
    assert_eq!(cursor.path().len(), 1);
}

#[test]
fn test_cursor_line_to() {
    let mut cursor: PathCursor<Pt, Box4> = PathCursor::new((0.0, 0.0));
    cursor.move_to((0.0, 0.0));
    cursor.line_to((1.0, 1.0));

    assert_eq!(cursor.position(), (1.0, 1.0));
    assert_eq!(cursor.path().len(), 2);
}

#[test]
fn test_cursor_into_path() {
    let mut cursor: PathCursor<Pt, Box4> = PathCursor::new((0.0, 0.0));
    cursor.move_to((0.0, 0.0));
    cursor.line_to((1.0, 1.0));

    let path = cursor.into_path();
    assert_eq!(path.len(), 2);
}

#[test]
fn test_cursor_quadratic() {
    let mut cursor: PathCursor<Pt, Box4> = PathCursor::new((0.0, 0.0));
    cursor.move_to((0.0, 0.0));
    cursor.quadratic_to((0.5, 1.0), (1.0, 0.0));

    assert_eq!(cursor.position(), (1.0, 0.0));
}

#[test]
fn test_cursor_cubic() {
    let mut cursor: PathCursor<Pt, Box4> = PathCursor::new((0.0, 0.0));
    cursor.move_to((0.0, 0.0));
    cursor.cubic_to((0.33, 1.0), (0.66, 1.0), (1.0, 0.0));

    assert_eq!(cursor.position(), (1.0, 0.0));
}

#[test]
fn test_cursor_close_keeps_position() {
    let mut cursor: PathCursor<Pt, Box4> = PathCursor::new((0.0, 0.0));
    cursor.move_to((1.0, 2.0));
    cursor.close();

    assert_eq!(cursor.position(), (1.0, 2.0));
    assert_eq!(cursor.path().commands()[1], PathCommand::Close);
}

use grid_points::point::{AdjIterator, GridPoint, GridPos, Size2d};

fn drain(mut it: AdjIterator) -> Vec<GridPos> {
    let mut v = Vec::new();
    while let Some(p) = it.next() {
        v.push(p);
    }
    v
}

#[test]
fn taxi() {
    let a: [i32; 2] = [10, 10];
    let b: [i32; 2] = [20, 20];

    let dist = GridPoint::manhattan(a, b.as_ivec2());
    assert_eq!(dist, 20);
}

#[test]
fn adj() {
    let points: Vec<GridPos> = drain([10i32, 10].adj_4());
    assert!(points.contains(&GridPos::new(10, 9)));
    assert!(points.contains(&GridPos::new(9, 10)));
    assert!(points.contains(&GridPos::new(11, 10)));
    assert!(points.contains(&GridPos::new(10, 11)));

    let points: Vec<GridPos> = drain([10i32, 10].adj_8());
    assert!(points.contains(&GridPos::new(10, 9)));
    assert!(points.contains(&GridPos::new(9, 10)));
    assert!(points.contains(&GridPos::new(11, 10)));
    assert!(points.contains(&GridPos::new(10, 11)));
    assert!(points.contains(&GridPos::new(11, 11)));
    assert!(points.contains(&GridPos::new(9, 9)));
    assert!(points.contains(&GridPos::new(11, 9)));
    assert!(points.contains(&GridPos::new(9, 11)));
}

#[test]
fn manhattan_symmetric_and_zero() {
    let a = GridPos::new(-3, 7);
    let b = GridPos::new(4, -2);
    assert_eq!(a.manhattan(b), 16);
    assert_eq!(b.manhattan(a), 16);
    assert_eq!(a.manhattan(a), 0);
    assert_eq!(GridPoint::manhattan((1u32, 1u32), GridPos::new(1, 2)), 1);
}

#[test]
fn manhattan_extreme_coordinates() {
    let a = GridPos::new(i32::MIN, i32::MIN);
    let b = GridPos::new(i32::MAX, i32::MAX);
    assert_eq!(a.manhattan(b), 2 * (u32::MAX as usize));
}

#[test]
fn chebyshev_below_manhattan() {
    let a = GridPos::new(1, 2);
    let b = GridPos::new(5, -4);
    assert_eq!(a.chebyshev(b), 6);
    assert_eq!(a.manhattan(b), 10);
    assert!(a.chebyshev(b) <= a.manhattan(b));
    assert_eq!(GridPoint::chebyshev([0i32, 0], GridPos::new(-7, 3)), 7);
}

#[test]
fn euclidean_squared_value() {
    let a = GridPos::new(0, 0);
    let b = GridPos::new(3, -4);
    assert_eq!(a.euclidean_squared(b), 25);
    let far = GridPos::new(i32::MIN, 5);
    let m = u32::MAX as usize;
    assert_eq!(far.euclidean_squared(GridPos::new(i32::MAX, 5)), m * m);
}

#[test]
fn as_index_row_major() {
    assert_eq!([3i32, 2].as_index(10), 23);
    assert_eq!((3u32, 2u32).as_index(10), 23);
    assert_eq!([0usize, 0].as_index(10), 0);
}

#[test]
fn directional_moves() {
    let p = (5i32, 5i32);
    assert_eq!(p.up(2), GridPos::new(5, 7));
    assert_eq!(p.down(2), GridPos::new(5, 3));
    assert_eq!(p.left(2), GridPos::new(3, 5));
    assert_eq!(p.right(2), GridPos::new(7, 5));
    assert_eq!(p.up(-1), GridPos::new(5, 4));
    assert_eq!(p.right(0), GridPos::new(5, 5));
    assert_eq!(p.offset(GridPos::new(-6, 1)), GridPos::new(-1, 6));
}

#[test]
fn point_len_is_coordinate_product() {
    assert_eq!(GridPoint::len(&[3i32, 4]), 12);
    assert_eq!(GridPoint::len(&GridPos::new(0, 9)), 0);
}

#[test]
fn size_width_height_area() {
    let s = (4usize, 5usize);
    assert_eq!(s.width(), 4);
    assert_eq!(s.height(), 5);
    assert_eq!(Size2d::len(&s), 20);
    assert_eq!(Size2d::len(&[2u32, 8]), 16);
    assert_eq!(Size2d::len(&GridPos::new(0, 8)), 0);
}

#[test]
fn size_of_negative_extent_wraps() {
    let s = (-1i32, 2i32);
    assert_eq!(s.width(), usize::MAX);
    assert_eq!(s.height(), 2);
}

#[test]
fn unsigned_coordinates_cast_to_i32() {
    assert_eq!((u32::MAX, 1u32).x(), -1);
    assert_eq!([7usize, 9].y(), 9);
    assert_eq!([7u32, 9].as_ivec2(), GridPos::new(7, 9));
}

#[test]
fn adj_4_exact_order() {
    let points = drain(GridPos::new(10, 10).adj_4());
    assert_eq!(
        points,
        vec![GridPos::new(10, 11), GridPos::new(10, 9), GridPos::new(9, 10), GridPos::new(11, 10)]
    );
}

#[test]
fn adj_8_exact_order() {
    let points = drain(GridPos::new(10, 10).adj_8());
    assert_eq!(
        points,
        vec![
            GridPos::new(10, 11),
            GridPos::new(10, 9),
            GridPos::new(9, 10),
            GridPos::new(11, 10),
            GridPos::new(9, 11),
            GridPos::new(11, 11),
            GridPos::new(9, 9),
            GridPos::new(11, 9),
        ]
    );
}

#[test]
fn adj_iterator_exhaustion_and_restart() {
    let origin = (10i32, 10i32);
    let mut it = origin.adj_4();
    let mut first = Vec::new();
    for _ in 0..4 {
        first.push(it.next().unwrap());
    }
    assert_eq!(it.next(), None);
    assert_eq!(it.next(), None);
    assert_eq!(it.next(), None);
    let second = drain(origin.adj_4());
    assert_eq!(first, second);
}

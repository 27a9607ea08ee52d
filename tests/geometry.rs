use gdal::geometry::{polygon_wkt, Geometry, GeometryState, OGRERR_NONE};
use std::cell::Cell;

#[test]
fn lazy_geometry_starts_unbound() {
    let g = Geometry::lazy_feature_geometry();
    assert!(!g.has_gdal_ptr());
    assert!(!g.is_owned());
    assert_eq!(g.state(), GeometryState::Unbound);
    assert_eq!(g.handle_to_release(), None);
}

#[test]
fn binding_gives_an_alias() {
    let mut g = Geometry::lazy_feature_geometry();
    g.set_c_geometry(0x1000);
    assert!(g.has_gdal_ptr());
    assert!(!g.is_owned());
    assert_eq!(g.state(), GeometryState::Aliased(0x1000));
    assert_eq!(g.c_geometry(), 0x1000);
    assert_eq!(g.handle_to_release(), None);
}

#[test]
fn empty_owns_its_object() {
    let g = Geometry::empty(0x10);
    assert!(g.is_owned());
    assert_eq!(g.c_geometry(), 0x10);
    assert_eq!(g.handle_to_release(), Some(0x10));
}

#[test]
fn from_wkt_owns_the_parsed_object() {
    let g = Geometry::from_wkt(OGRERR_NONE, 0x30);
    assert_eq!(g.state(), GeometryState::Owned(0x30));
    assert_eq!(g.handle_to_release(), Some(0x30));
}

#[test]
fn convex_hull_is_a_new_owned_geometry() {
    let g = Geometry::empty(0x10);
    let hull = g.convex_hull(0x40).unwrap();
    assert_eq!(hull.state(), GeometryState::Owned(0x40));
    assert_eq!(g.state(), GeometryState::Owned(0x10));
    assert!(g.convex_hull(0).is_none());
}

#[test]
fn sub_geometry_is_never_released() {
    let g = Geometry::empty(0x10);
    let part = g._get_geometry(0x11);
    assert_eq!(part.state(), GeometryState::Aliased(0x11));
    assert_eq!(part.handle_to_release(), None);
}

#[test]
fn into_c_geometry_hands_over_the_handle() {
    let mut g = Geometry::empty(0x10);
    assert_eq!(g.into_c_geometry(), 0x10);
    assert_eq!(g.state(), GeometryState::Aliased(0x10));
    assert!(!g.is_owned());
    assert_eq!(g.handle_to_release(), None);
}

#[test]
fn add_geometry_moves_ownership_into_parent() {
    let mut parent = Geometry::empty(0x10);
    let mut sub = Geometry::empty(0x20);
    let seen = Cell::new(None);
    parent.add_geometry(&mut sub, |p: usize, c: usize| {
        seen.set(Some((p, c)));
        OGRERR_NONE
    });
    assert_eq!(seen.get(), Some((0x10, 0x20)));
    assert!(!sub.is_owned());
    assert_eq!(sub.state(), GeometryState::Aliased(0x20));
    assert_eq!(sub.handle_to_release(), None);
    assert_eq!(parent.state(), GeometryState::Owned(0x10));
}

#[test]
fn attached_part_is_no_longer_owned() {
    let mut parent = Geometry::empty(0x10);
    let mut sub = Geometry::empty(0x20);
    parent.add_geometry(&mut sub, |_p: usize, _c: usize| OGRERR_NONE);
    assert!(!sub.is_owned());
    assert_eq!(sub.handle_to_release(), None);
}

#[test]
fn attach_call_receives_parent_and_part() {
    let mut parent = Geometry::empty(0x10);
    let mut sub = Geometry::empty(0x20);
    parent.add_geometry(&mut sub, |_p: usize, _c: usize| OGRERR_NONE);
    let mut other = Geometry::empty(0x30);
    other.add_geometry(&mut Geometry::empty(0x40), |p: usize, c: usize| {
        assert_eq!((p, c), (0x30, 0x40));
        OGRERR_NONE
    });
    assert_eq!(other.state(), GeometryState::Owned(0x30));
}

#[test]
fn bbox_lists_corners_clockwise_from_north_west() {
    let text = Geometry::bbox(
        &format!("{}", 0.0_f64),
        &format!("{}", 0.0_f64),
        &format!("{}", 1.0_f64),
        &format!("{}", 1.0_f64),
    );
    assert_eq!(text, "POLYGON ((0 1, 1 1, 1 0, 0 0, 0 1))");
}

#[test]
fn bbox_with_fractional_and_negative_coordinates() {
    let text = Geometry::bbox(
        &format!("{}", -10.5_f64),
        &format!("{}", -2.25_f64),
        &format!("{}", 3.75_f64),
        &format!("{}", 8.0_f64),
    );
    assert_eq!(text, "POLYGON ((-10.5 8, 3.75 8, 3.75 -2.25, -10.5 -2.25, -10.5 8))");
}

#[test]
fn polygon_wkt_of_empty_and_single_point_rings() {
    assert_eq!(polygon_wkt(&vec![]), "POLYGON (())");
    assert_eq!(polygon_wkt(&vec![("1".to_string(), "2".to_string())]), "POLYGON ((1 2))");
}

#[test]
fn get_point_vec_reads_every_index_in_order() {
    let g = Geometry::from_wkt(OGRERR_NONE, 0x50);
    let ring: Vec<(f64, f64, f64)> = vec![
        (0.0, 0.0, 0.0),
        (0.0, 1.0, 0.0),
        (1.0, 1.0, 0.0),
        (1.0, 0.0, 0.0),
        (0.0, 0.0, 0.0),
    ];
    let points = g.get_point_vec(5, |i: i32| ring[i as usize]);
    assert_eq!(points, ring);
}

#[test]
fn get_point_vec_of_no_points() {
    let g = Geometry::empty(0x50);
    let none: Vec<(f64, f64, f64)> = g.get_point_vec(0, |_i: i32| panic!("no point to read"));
    assert!(none.is_empty());
    let negative: Vec<(f64, f64, f64)> = g.get_point_vec(-3, |_i: i32| panic!("no point to read"));
    assert!(negative.is_empty());
}

use gdal::feature::{Defn, Feature, Field, FieldError, FieldKind, OFT_INTEGER, OFT_REAL, OFT_STRING};
use gdal::geometry::{Geometry, GeometryState, OGRERR_NONE};
use std::cell::Cell;
use gdal::layer::Layer;

fn field(name: &str, field_type: i32) -> Field {
    Field { name: name.to_string(), field_type }
}

fn roads_defn() -> Defn {
    Defn::_with_c_defn(
        0x900,
        vec![
            field("highway", OFT_STRING),
            field("lanes", OFT_INTEGER),
            field("speed", OFT_REAL),
            field("lanes", OFT_STRING),
            field("opened", 9),
        ],
    )
}

#[test]
fn field_lookup_finds_first_field_of_name() {
    let defn = roads_defn();
    assert_eq!(defn.c_defn(), 0x900);
    assert_eq!(defn.field_count(), 5);
    assert_eq!(defn.field_index("highway"), Some(0));
    assert_eq!(defn.field_index("lanes"), Some(1));
    assert_eq!(defn.field("highway"), Ok((0, FieldKind::Text)));
    assert_eq!(defn.field("lanes"), Ok((1, FieldKind::Integer)));
    assert_eq!(defn.field("speed"), Ok((2, FieldKind::Real)));
}

#[test]
fn field_lookup_of_absent_name() {
    let defn = roads_defn();
    assert_eq!(defn.field_index("Highway"), None);
    assert_eq!(defn.field("Highway"), Err(FieldError::FieldNotFound));
    assert_eq!(defn.field(""), Err(FieldError::FieldNotFound));
    let empty = Defn::_with_c_defn(0x901, vec![]);
    assert_eq!(empty.field("highway"), Err(FieldError::FieldNotFound));
}

#[test]
fn field_lookup_of_unsupported_type() {
    let defn = roads_defn();
    assert_eq!(defn.field("opened"), Err(FieldError::UnsupportedType(9)));
}

#[test]
fn feature_binds_its_geometry_once() {
    let defn = roads_defn();
    let mut feature = Feature::_with_c_feature(&defn, 0x700);
    assert_eq!(feature.c_feature(), 0x700);
    assert_eq!(feature.geometry().state(), GeometryState::Unbound);
    feature.bind_geometry(|| 0x710);
    assert_eq!(feature.geometry().state(), GeometryState::Aliased(0x710));
    feature.bind_geometry(|| -> usize { panic!("the geometry handle is fetched once") });
    assert_eq!(feature.geometry().state(), GeometryState::Aliased(0x710));
    assert_eq!(feature.geometry().handle_to_release(), None);
    assert_eq!(feature.field("speed"), Ok((2, FieldKind::Real)));
    assert_eq!(feature.defn().c_defn(), 0x900);
}

#[test]
fn iterator_yields_each_feature_then_ends() {
    let layer = Layer::_with_c_layer(0x800, roads_defn());
    assert_eq!(layer.c_layer(), 0x800);
    let reset = Cell::new(None);
    let mut it = layer.features(|c: usize| reset.set(Some(c)));
    assert_eq!(reset.get(), Some(0x800));
    assert_eq!(it.c_layer(), 0x800);
    let mut seen = Vec::new();
    for c in [0x701usize, 0x702, 0x703, 0] {
        match it.next(c) {
            Some(f) => {
                assert_eq!(f.geometry().state(), GeometryState::Unbound);
                assert_eq!(f.defn().c_defn(), 0x900);
                seen.push(f.c_feature());
            }
            None => break,
        }
    }
    assert_eq!(seen, vec![0x701, 0x702, 0x703]);
}

#[test]
fn iterator_over_empty_layer_ends_at_once() {
    let layer = Layer::_with_c_layer(0x800, Defn::_with_c_defn(0x901, vec![]));
    let resets = Cell::new(0);
    let mut it = layer.features(|_c: usize| resets.set(resets.get() + 1));
    assert!(it.next(0).is_none());
    let mut again = layer.features(|_c: usize| resets.set(resets.get() + 1));
    assert!(again.next(0).is_none());
    assert_eq!(resets.get(), 2);
}

#[test]
fn spatial_filter_arguments() {
    let layer = Layer::_with_c_layer(0x800, roads_defn());
    let g = Geometry::empty(0x10);
    assert_eq!(layer.set_spatial_filter(&g), (0x800, 0x10));
    assert_eq!(layer.clear_spatial_filter(), (0x800, 0));
}

#[test]
fn create_feature_takes_the_geometry() {
    let mut layer = Layer::_with_c_layer(0x800, roads_defn());
    let mut g = Geometry::empty(0x10);
    let calls = std::cell::RefCell::new(Vec::new());
    layer.create_feature(
        &mut g,
        |c_defn: usize| {
            calls.borrow_mut().push(("new", c_defn, 0));
            0x777
        },
        |c_feature: usize, c_geometry: usize| {
            calls.borrow_mut().push(("set", c_feature, c_geometry));
            OGRERR_NONE
        },
        |c_layer: usize, c_feature: usize| {
            calls.borrow_mut().push(("write", c_layer, c_feature));
            OGRERR_NONE
        },
    );
    assert_eq!(
        calls.into_inner(),
        vec![("new", 0x900, 0), ("set", 0x777, 0x10), ("write", 0x800, 0x777)]
    );
    assert_eq!(g.state(), GeometryState::Aliased(0x10));
    assert_eq!(g.handle_to_release(), None);
    assert_eq!(layer.defn().c_defn(), 0x900);
}

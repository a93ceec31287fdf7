use opencascade::shell::{LOFT_CHECK_COMPATIBILITY, LOFT_SOLID};
use opencascade::{Compound, Edge, Error, Shape, ShapeKind, Shell, Wire};

fn wire(id: u32) -> Wire<u32> {
    Wire::try_from_shape(Shape::new(ShapeKind::Wire, id)).unwrap()
}

#[test]
fn loft_without_wires_fails() {
    let r = Shell::loft_sections(Vec::<Wire<u32>>::new());
    assert!(matches!(r, Err(Error::TooFewWires { given: 0 })));
}

#[test]
fn loft_with_one_wire_fails() {
    let r = Shell::loft_sections(vec![wire(1)]);
    assert!(matches!(r, Err(Error::TooFewWires { given: 1 })));
}

#[test]
fn loft_keeps_the_order_of_sections() {
    let sections = Shell::loft_sections(vec![wire(3), wire(1), wire(2)]).unwrap();
    let ids: Vec<u32> = sections.iter().map(|w| *w.handle()).collect();
    assert_eq!(ids, vec![3, 1, 2]);
}

#[test]
fn loft_settings() {
    assert!(!LOFT_SOLID);
    assert!(LOFT_CHECK_COMPATIBILITY);
}

#[test]
fn loft_result_must_be_a_shell() {
    let ok = Shell::from_loft(Some(Shape::new(ShapeKind::Shell, 8))).unwrap();
    assert_eq!(*ok.handle(), 8);
    assert!(matches!(
        Shell::from_loft(Some(Shape::new(ShapeKind::Compound, 8))),
        Err(Error::KindMismatch { expected: ShapeKind::Shell, actual: ShapeKind::Compound })
    ));
    assert!(matches!(Shell::<u32>::from_loft(None), Err(Error::KernelOperationFailure)));
}

#[test]
fn volume_of_open_geometry_is_a_kind_mismatch() {
    let r = Shell::from_volume(Some(Shape::new(ShapeKind::Compound, 5)));
    assert!(matches!(
        r,
        Err(Error::KindMismatch { expected: ShapeKind::Solid, actual: ShapeKind::Compound })
    ));
}

#[test]
fn volume_yields_the_solid() {
    let solid = Shell::from_volume(Some(Shape::new(ShapeKind::Solid, 5))).unwrap();
    assert_eq!(*solid.handle(), 5);
    assert!(matches!(Shell::<u32>::from_volume(None), Err(Error::KernelOperationFailure)));
}

#[test]
fn assembly_result_must_be_a_compound() {
    let c = Compound::from_assembly(Some(Shape::new(ShapeKind::Compound, 2))).unwrap();
    assert_eq!(*c.handle(), 2);
    assert!(matches!(
        Compound::from_assembly(Some(Shape::new(ShapeKind::Solid, 2))),
        Err(Error::KindMismatch { expected: ShapeKind::Compound, actual: ShapeKind::Solid })
    ));
    assert!(matches!(Compound::<u32>::from_assembly(None), Err(Error::KernelOperationFailure)));
}

#[test]
fn fillet_replaces_the_shape() {
    let mut s = Shape::new(ShapeKind::Solid, 1u32);
    assert_eq!(s.apply_fillet(Some(Shape::new(ShapeKind::Solid, 2))), Ok(()));
    assert_eq!(*s.handle(), 2);
    assert_eq!(s.apply_fillet(None), Err(Error::KernelOperationFailure));
    assert_eq!(*s.handle(), 2);
    assert_eq!(s.kind(), ShapeKind::Solid);
}

#[test]
fn export_failure_is_reported() {
    assert_eq!(Shape::<u32>::export_status(true), Ok(()));
    assert_eq!(Shape::<u32>::export_status(false), Err(Error::ExportFailure));
}

#[test]
fn explored_edges_keep_their_order() {
    let found = vec![
        Shape::new(ShapeKind::Edge, 4u32),
        Shape::new(ShapeKind::Edge, 2),
        Shape::new(ShapeKind::Edge, 9),
    ];
    let edges = Edge::try_from_shapes(found).unwrap();
    let ids: Vec<u32> = edges.iter().map(|e| *e.handle()).collect();
    assert_eq!(ids, vec![4, 2, 9]);
}

#[test]
fn explored_shapes_without_edges_give_no_edges() {
    let edges = Edge::try_from_shapes(Vec::<Shape<u32>>::new()).unwrap();
    assert!(edges.is_empty());
}

#[test]
fn explored_non_edge_is_reported() {
    let found = vec![
        Shape::new(ShapeKind::Edge, 1u32),
        Shape::new(ShapeKind::Wire, 2),
        Shape::new(ShapeKind::Face, 3),
    ];
    assert!(matches!(
        Edge::try_from_shapes(found),
        Err(Error::KindMismatch { expected: ShapeKind::Edge, actual: ShapeKind::Wire })
    ));
}

use brep_compound::CastError;
use brep_compound::Compound;
use brep_compound::Shape;
use brep_compound::ShapeKind;

fn leaf(kind: ShapeKind, topo: u64, geom: u64) -> Shape {
    Shape::new(kind, topo, geom, false)
}

#[test]
fn classify_reports_the_construction_kind() {
    let kinds = [
        ShapeKind::Vertex,
        ShapeKind::Edge,
        ShapeKind::Wire,
        ShapeKind::Face,
        ShapeKind::Shell,
        ShapeKind::Solid,
        ShapeKind::Compound,
        ShapeKind::CompoundSolid,
    ];
    for (i, k) in kinds.iter().enumerate() {
        let s = leaf(*k, i as u64, 0);
        assert_eq!(s.classify(), *k);
    }
}

#[test]
fn downcast_succeeds_exactly_on_compounds() {
    let empty: Vec<Shape> = Vec::new();
    let c = Compound::from_shapes(&empty).into_shape();
    assert!(Compound::downcast_from_shape(&c).is_ok());

    let others = [
        ShapeKind::Vertex,
        ShapeKind::Edge,
        ShapeKind::Wire,
        ShapeKind::Face,
        ShapeKind::Shell,
        ShapeKind::Solid,
        ShapeKind::CompoundSolid,
    ];
    for (i, k) in others.iter().enumerate() {
        let s = leaf(*k, i as u64, 0);
        let e: CastError = Compound::downcast_from_shape(&s).unwrap_err();
        assert_eq!(e.expected, ShapeKind::Compound);
        assert_eq!(e.actual, *k);
    }
}

#[test]
fn empty_aggregation_yields_zero_children() {
    let empty: Vec<Shape> = Vec::new();
    let c = Compound::from_shapes(&empty);
    assert_eq!(c.child_count(), 0);
    assert_eq!(c.as_shape().classify(), ShapeKind::Compound);
}

#[test]
fn aggregation_references_the_same_topology() {
    let s1 = leaf(ShapeKind::Face, 7, 70);
    let s2 = leaf(ShapeKind::Shell, 8, 80);
    let c = Compound::from_shapes(&vec![s1.share(), s2.share()]);
    assert_eq!(c.child_count(), 2);
    // The children are handles to the very same topological data as the
    // inputs: identical generation and topology id, nothing duplicated.
    assert_eq!(c.child(0).gen_id(), s1.gen_id());
    assert_eq!(c.child(0).topo_id(), s1.topo_id());
    assert_eq!(c.child(0).geom_id(), s1.geom_id());
    assert_eq!(c.child(1).gen_id(), s2.gen_id());
    assert_eq!(c.child(1).topo_id(), s2.topo_id());
    assert_eq!(c.child(1).geom_id(), s2.geom_id());
}

#[test]
fn aggregation_keeps_order_and_mixes_kinds() {
    let parts = vec![
        leaf(ShapeKind::Face, 1, 10),
        leaf(ShapeKind::Solid, 2, 20),
        leaf(ShapeKind::Shell, 3, 30),
        Compound::from_shapes(&Vec::new()).into_shape(),
    ];
    let c = Compound::from_shapes(&parts);
    assert_eq!(c.child_count(), 4);
    assert_eq!(c.child(0).classify(), ShapeKind::Face);
    assert_eq!(c.child(1).classify(), ShapeKind::Solid);
    assert_eq!(c.child(2).classify(), ShapeKind::Shell);
    assert_eq!(c.child(3).classify(), ShapeKind::Compound);
}

#[test]
fn nested_aggregation_is_preserved() {
    let inner = Compound::from_shapes(&vec![leaf(ShapeKind::Solid, 5, 50)]);
    let outer = Compound::from_shapes(&vec![inner.into_shape(), leaf(ShapeKind::Face, 6, 60)]);
    assert_eq!(outer.child_count(), 2);
    assert_eq!(outer.child(0).classify(), ShapeKind::Compound);
    assert_eq!(outer.child(1).classify(), ShapeKind::Face);
}

#[test]
fn share_refers_to_the_same_topology() {
    let s = Shape::new(ShapeKind::Solid, 42, 420, true);
    let t = s.share();
    assert_eq!(t.classify(), ShapeKind::Solid);
    assert_eq!(t.gen_id(), s.gen_id());
    assert_eq!(t.topo_id(), s.topo_id());
    assert_eq!(t.geom_id(), s.geom_id());
    assert_eq!(t.has_mesh(), s.has_mesh());
}

#[test]
fn clone_is_independent_of_its_source() {
    let s1 = Shape::new(ShapeKind::Face, 1, 10, true);
    let s2 = Shape::new(ShapeKind::Solid, 2, 20, false);
    let c = Compound::from_shapes(&vec![s1, s2]);
    let c2 = c.clone();

    // Identical geometry: same structure, kinds and geometric content.
    assert_eq!(c2.as_shape().classify(), ShapeKind::Compound);
    assert_eq!(c2.child_count(), c.child_count());
    for i in 0..c.child_count() {
        assert_eq!(c2.child(i).classify(), c.child(i).classify());
        assert_eq!(c2.child(i).geom_id(), c.child(i).geom_id());
        assert_eq!(c2.child(i).topo_id(), c.child(i).topo_id());
        // ... but in a generation the source never reaches: the copy shares
        // no kernel-resident topology with the source.
        assert_ne!(c2.child(i).gen_id(), c.child(i).gen_id());
    }

    // Cached (derived) representations are deliberately not duplicated.
    assert!(c.child(0).has_mesh());
    assert!(!c2.child(0).has_mesh());

    // The source is untouched by the copy.
    assert_eq!(c.child_count(), 2);
    assert_eq!(c.child(0).classify(), ShapeKind::Face);
    assert_eq!(c.child(0).gen_id(), 0);
}

#[test]
fn clone_of_an_empty_compound() {
    let c = Compound::from_shapes(&Vec::new());
    let c2 = c.clone();
    assert_eq!(c2.child_count(), 0);
    assert_eq!(c2.as_shape().classify(), ShapeKind::Compound);
    assert_ne!(c2.as_shape().gen_id(), c.as_shape().gen_id());
}

#[test]
fn clone_of_a_clone_is_independent_again() {
    let c = Compound::from_shapes(&vec![leaf(ShapeKind::Shell, 3, 30)]);
    let c2 = c.clone();
    let c3 = c2.clone();
    assert_ne!(c3.child(0).gen_id(), c2.child(0).gen_id());
    assert_ne!(c3.child(0).gen_id(), c.child(0).gen_id());
    assert_eq!(c3.child(0).topo_id(), c.child(0).topo_id());
    assert_eq!(c3.child(0).geom_id(), c.child(0).geom_id());
}

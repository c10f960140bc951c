//! Mathematical model of kind-tagged shape handles.
//!
//! A handle is modeled by [`ShapeModel`]: its runtime kind, the identity of
//! the kernel-resident topological datum it refers to, the geometric content
//! of that datum, whether a derived (cached tessellation) representation is
//! attached, and the ordered child handles of an aggregate.
//!
//! Topological identity is the pair `(gen, topo)`: two handles refer to the
//! same kernel-resident topology exactly when both components agree.  A deep
//! structural copy duplicates every topological datum it reaches, so the model
//! places every duplicated datum in a fresh generation, which makes the copy
//! share nothing with its source.

use vstd::prelude::*;

verus! {

/// Runtime topological classification of a shape handle.  Determined when the
/// handle is constructed and immutable afterwards.
#[derive(Clone, Copy, Debug, PartialEq, Eq, Structural)]
pub enum ShapeKind {
    Vertex,
    Edge,
    Wire,
    Face,
    Shell,
    Solid,
    Compound,
    CompoundSolid,
}

/// Model of one shape handle.
///
/// `children` is meaningful for aggregates: a compound is an ordered sequence
/// of child handles of arbitrary, possibly mixed, kinds, including nested
/// compounds.  Handles the library itself never looks inside (vertices,
/// edges, faces, shells, solids, compound-solids) are modeled without
/// children.  The aggregation graph is a tree, so a compound can never
/// contain itself, directly or transitively.
#[verifier::ext_equal]
pub ghost struct ShapeModel {
    pub kind: ShapeKind,
    pub gen: int,
    pub topo: int,
    pub geom: int,
    pub mesh: bool,
    pub children: Seq<ShapeModel>,
}

/// The handle `m`, or some handle reachable through its children, refers to
/// the topological datum with identity `(g, t)`.
pub open spec fn mentions(m: ShapeModel, g: int, t: int) -> bool
    decreases m,
{
    ||| (m.gen == g && m.topo == t)
    ||| exists|i: int| 0 <= i < m.children.len() && mentions(#[trigger] m.children[i], g, t)
}

/// Some kernel-resident topology is reachable from both `a` and `b`.
pub open spec fn shares_topo(a: ShapeModel, b: ShapeModel) -> bool {
    exists|g: int, t: int| mentions(a, g, t) && mentions(b, g, t)
}

/// Every generation reachable from `m` lies below `bound`.
pub open spec fn gens_below(m: ShapeModel, bound: int) -> bool {
    forall|g: int, t: int| mentions(m, g, t) ==> g < bound
}

/// `a` and `b` carry identical geometry: the same kinds, the same geometric
/// content, and structurally equal children.  Topological identity and cached
/// data are ignored; this is the sense in which a deep copy, or a repeated
/// reconstruction of the same input, is "the same shape".
pub open spec fn same_geometry(a: ShapeModel, b: ShapeModel) -> bool
    decreases a,
{
    &&& a.kind == b.kind
    &&& a.geom == b.geom
    &&& a.children.len() == b.children.len()
    &&& forall|i: int|
        0 <= i < a.children.len() ==> same_geometry(#[trigger] a.children[i], b.children[i])
}

/// No handle reachable from `m` carries a cached (derived) representation.
pub open spec fn mesh_free(m: ShapeModel) -> bool
    decreases m,
{
    &&& !m.mesh
    &&& forall|i: int| 0 <= i < m.children.len() ==> mesh_free(#[trigger] m.children[i])
}

/// `dst` is a deep structural copy of `src` whose duplicated topology lives
/// entirely in generation `g`: kinds, local topology ids, and geometric
/// content are preserved node for node, no cached representation is copied,
/// and every node of the copy carries generation `g`.
pub open spec fn copy_with_gen(src: ShapeModel, dst: ShapeModel, g: int) -> bool
    decreases src,
{
    &&& dst.kind == src.kind
    &&& dst.gen == g
    &&& dst.topo == src.topo
    &&& dst.geom == src.geom
    &&& !dst.mesh
    &&& dst.children.len() == src.children.len()
    &&& forall|i: int|
        0 <= i < src.children.len() ==> copy_with_gen(
            #[trigger] src.children[i],
            dst.children[i],
            g,
        )
}

/// A deep copy carries the same geometry as its source.
pub proof fn lemma_copy_same_geometry(src: ShapeModel, dst: ShapeModel, g: int)
    requires
        copy_with_gen(src, dst, g),
    ensures
        same_geometry(src, dst),
    decreases src,
{
    assert forall|i: int| 0 <= i < src.children.len() implies same_geometry(
        #[trigger] src.children[i],
        dst.children[i],
    ) by {
        lemma_copy_same_geometry(src.children[i], dst.children[i], g);
    }
}

/// A deep copy carries no cached representation anywhere.
pub proof fn lemma_copy_mesh_free(src: ShapeModel, dst: ShapeModel, g: int)
    requires
        copy_with_gen(src, dst, g),
    ensures
        mesh_free(dst),
    decreases src,
{
    assert forall|i: int| 0 <= i < dst.children.len() implies mesh_free(
        #[trigger] dst.children[i],
    ) by {
        lemma_copy_mesh_free(src.children[i], dst.children[i], g);
    }
}

/// Every identity reachable from a deep copy lies in the copy's generation.
pub proof fn lemma_copy_gen_only(src: ShapeModel, dst: ShapeModel, g: int)
    requires
        copy_with_gen(src, dst, g),
    ensures
        forall|g2: int, t: int| mentions(dst, g2, t) ==> g2 == g,
    decreases src,
{
    assert forall|g2: int, t: int| mentions(dst, g2, t) implies g2 == g by {
        if !(dst.gen == g2 && dst.topo == t) {
            let i = choose|i: int|
                0 <= i < dst.children.len() && mentions(#[trigger] dst.children[i], g2, t);
            lemma_copy_gen_only(src.children[i], dst.children[i], g);
        }
    }
}

/// A deep copy into a generation its source never reaches shares no
/// kernel-resident topology with that source.
pub proof fn lemma_copy_shares_nothing(src: ShapeModel, dst: ShapeModel, g: int)
    requires
        copy_with_gen(src, dst, g),
        gens_below(src, g),
    ensures
        !shares_topo(src, dst),
{
    lemma_copy_gen_only(src, dst, g);
    assert forall|g2: int, t: int| !(mentions(src, g2, t) && mentions(dst, g2, t)) by {
        if mentions(src, g2, t) {
            assert(g2 < g);
        }
    }
}

} // verus!

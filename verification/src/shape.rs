//! Kind-tagged shape handles, typed views of them, and the compound
//! aggregate.

use vstd::prelude::*;

use crate::model::ShapeKind;
use crate::model::ShapeModel;
use crate::model::copy_with_gen;
use crate::model::gens_below;
use crate::model::lemma_copy_mesh_free;
use crate::model::lemma_copy_same_geometry;
use crate::model::lemma_copy_shares_nothing;
use crate::model::mentions;
use crate::model::mesh_free;
use crate::model::same_geometry;
use crate::model::shares_topo;

verus! {

/// An opaque, kind-tagged handle to kernel-resident topology.
///
/// A handle records the runtime kind of the shape it refers to, the identity
/// `(gen, topo)` of the underlying topological datum, the geometric content
/// `geom` of that datum, and whether a derived (cached tessellation)
/// representation `mesh` is attached.  A compound handle additionally owns
/// the ordered sequence of child handles it aggregates.
///
/// The kind of a handle never changes after construction; narrowing a
/// generic handle to a kind-specific view is only possible through the
/// explicit, fallible downcasts below.
#[derive(Debug)]
pub struct Shape {
    pub(crate) kind: ShapeKind,
    pub(crate) gen: u64,
    pub(crate) topo: u64,
    pub(crate) geom: u64,
    pub(crate) mesh: bool,
    pub(crate) children: Vec<Shape>,
}

impl View for Shape {
    type V = ShapeModel;

    closed spec fn view(&self) -> ShapeModel
        decreases self, 0int,
    {
        ShapeModel {
            kind: self.kind,
            gen: self.gen as int,
            topo: self.topo as int,
            geom: self.geom as int,
            mesh: self.mesh,
            children: Shape::models_prefix(self.children, self.children@.len() as int),
        }
    }
}

impl Shape {
    /// Models of the first `n` handles of `v`, in order.
    closed spec fn models_prefix(v: Vec<Shape>, n: int) -> Seq<ShapeModel>
        decreases v, n,
        via Shape::models_prefix_decreases
    {
        if 0 < n <= v@.len() {
            Shape::models_prefix(v, n - 1).push(v[n - 1]@)
        } else {
            Seq::empty()
        }
    }

    #[via_fn]
    proof fn models_prefix_decreases(v: Vec<Shape>, n: int) {
        if 0 < n <= v@.len() {
            vstd::std_specs::vec::axiom_vec_index_decreases(v, n - 1);
        }
    }

    proof fn lemma_models_prefix(v: Vec<Shape>, n: int)
        requires
            0 <= n <= v@.len(),
        ensures
            Shape::models_prefix(v, n).len() == n,
            forall|i: int| 0 <= i < n ==> Shape::models_prefix(v, n)[i] == v@[i]@,
        decreases n,
    {
        if n > 0 {
            Shape::lemma_models_prefix(v, n - 1);
            assert(Shape::models_prefix(v, n) == Shape::models_prefix(v, n - 1).push(v[n - 1]@));
        } else {
            assert(Shape::models_prefix(v, 0) == Seq::<ShapeModel>::empty());
        }
    }

    /// The model of a handle exposes its fields and the models of its
    /// children, in order.
    proof fn lemma_view(s: &Shape)
        ensures
            s@.kind == s.kind,
            s@.gen == s.gen as int,
            s@.topo == s.topo as int,
            s@.geom == s.geom as int,
            s@.mesh == s.mesh,
            s@.children.len() == s.children@.len(),
            forall|i: int| 0 <= i < s.children@.len() ==> s@.children[i] == s.children@[i]@,
    {
        Shape::lemma_models_prefix(s.children, s.children@.len() as int);
    }
}

impl Shape {
    /// A handle to a freshly constructed, externally provided topological
    /// datum: a leaf of the aggregation graph, in generation zero.
    pub fn new(kind: ShapeKind, topo: u64, geom: u64, mesh: bool) -> (s: Shape)
        ensures
            s@ == (ShapeModel {
                kind,
                gen: 0,
                topo: topo as int,
                geom: geom as int,
                mesh,
                children: Seq::<ShapeModel>::empty(),
            }),
    {
        let s = Shape { kind, gen: 0, topo, geom, mesh, children: Vec::new() };
        proof {
            Shape::lemma_view(&s);
            assert(s@.children =~= Seq::<ShapeModel>::empty());
            assert(s@ =~= (ShapeModel {
                kind,
                gen: 0,
                topo: topo as int,
                geom: geom as int,
                mesh,
                children: Seq::<ShapeModel>::empty(),
            }));
        }
        s
    }

    /// Pure inspection of the handle's runtime kind; never fails.
    pub fn classify(&self) -> (k: ShapeKind)
        ensures
            k == self@.kind,
    {
        self.kind
    }

    /// Another handle to the very same kernel-resident topology.  Nothing is
    /// copied: the new handle refers to the identical topological datum, so
    /// the two handles are indistinguishable in the model.
    pub fn share(&self) -> (s: Shape)
        ensures
            s@ == self@,
        decreases *self,
    {
        let mut kids: Vec<Shape> = Vec::new();
        let mut i: usize = 0;
        while i < self.children.len()
            invariant
                i <= self.children.len(),
                kids@.len() == i,
                forall|j: int| 0 <= j < i ==> #[trigger] kids@[j]@ == self.children@[j]@,
            decreases self.children.len() - i,
        {
            let k = self.children[i].share();
            kids.push(k);
            i = i + 1;
        }
        let s = Shape {
            kind: self.kind,
            gen: self.gen,
            topo: self.topo,
            geom: self.geom,
            mesh: self.mesh,
            children: kids,
        };
        proof {
            Shape::lemma_view(&s);
            Shape::lemma_view(self);
            assert(s@.children =~= self@.children);
            assert(s@ =~= self@);
        }
        s
    }

    /// The identity of the topological datum this handle refers to, within
    /// its generation.
    pub fn topo_id(&self) -> (t: u64)
        ensures
            t as int == self@.topo,
    {
        self.topo
    }

    /// The generation of the topological datum this handle refers to.
    pub fn gen_id(&self) -> (g: u64)
        ensures
            g as int == self@.gen,
    {
        self.gen
    }

    /// The geometric content of the topological datum this handle refers to.
    pub fn geom_id(&self) -> (g: u64)
        ensures
            g as int == self@.geom,
    {
        self.geom
    }

    /// Whether a derived (cached tessellation) representation is attached.
    pub fn has_mesh(&self) -> (m: bool)
        ensures
            m == self@.mesh,
    {
        self.mesh
    }

    /// The largest generation reachable from this handle.
    fn max_gen(&self) -> (g: u64)
        ensures
            gens_below(self@, g as int + 1),
            exists|t: int| mentions(self@, g as int, t),
        decreases *self,
    {
        proof {
            Shape::lemma_view(self);
            assert(mentions(self@, self@.gen, self@.topo));
        }
        let mut best: u64 = self.gen;
        let mut i: usize = 0;
        while i < self.children.len()
            invariant
                i <= self.children.len(),
                best as int >= self@.gen,
                exists|t: int| mentions(self@, best as int, t),
                forall|j: int|
                    0 <= j < i ==> gens_below(#[trigger] self@.children[j], best as int + 1),
            decreases self.children.len() - i,
        {
            let m = self.children[i].max_gen();
            proof {
                Shape::lemma_view(self);
                assert(self.children@[i as int]@ == self@.children[i as int]);
                if m > best {
                    let t = choose|t: int| mentions(self@.children[i as int], m as int, t);
                    assert(mentions(self@, m as int, t));
                }
            }
            if m > best {
                best = m;
            }
            i = i + 1;
        }
        proof {
            Shape::lemma_view(self);
            assert forall|g2: int, t: int| mentions(self@, g2, t) implies g2 < best as int
                + 1 by {
                if !(self@.gen == g2 && self@.topo == t) {
                    let j = choose|j: int|
                        0 <= j < self@.children.len() && mentions(
                            #[trigger] self@.children[j],
                            g2,
                            t,
                        );
                    assert(gens_below(self@.children[j], best as int + 1));
                }
            }
            assert(mentions(self@, self@.gen, self@.topo));
        }
        best
    }

    /// A deep structural copy of this handle, all of whose duplicated
    /// topology lives in generation `g`; no cached representation is copied.
    fn copy_rec(&self, g: u64) -> (r: Shape)
        ensures
            copy_with_gen(self@, r@, g as int),
        decreases *self,
    {
        let mut kids: Vec<Shape> = Vec::new();
        let mut i: usize = 0;
        while i < self.children.len()
            invariant
                i <= self.children.len(),
                kids@.len() == i,
                forall|j: int|
                    0 <= j < i ==> copy_with_gen(self@.children[j], #[trigger] kids@[j]@, g as int),
            decreases self.children.len() - i,
        {
            let k = self.children[i].copy_rec(g);
            proof {
                Shape::lemma_view(self);
                assert(self.children@[i as int]@ == self@.children[i as int]);
            }
            kids.push(k);
            i = i + 1;
        }
        let r = Shape {
            kind: self.kind,
            gen: g,
            topo: self.topo,
            geom: self.geom,
            mesh: false,
            children: kids,
        };
        proof {
            Shape::lemma_view(&r);
            Shape::lemma_view(self);
            assert(copy_with_gen(self@, r@, g as int));
        }
        r
    }
}

/// Failure of a downcast: the handle's runtime kind does not match the kind
/// the cast requested.  Always reported to the caller as a typed failure,
/// never silently coerced.
#[derive(Clone, Copy, Debug, PartialEq, Eq, Structural)]
pub struct CastError {
    /// The kind the downcast asked for.
    pub expected: ShapeKind,
    /// The kind the handle actually has.
    pub actual: ShapeKind,
}

/// The models of a sequence of handles, in order.
pub open spec fn models_of<T: View<V = ShapeModel>>(v: Seq<T>) -> Seq<ShapeModel> {
    Seq::new(v.len(), |i: int| v[i]@)
}

/// A shape handle specialized to `ShapeKind::Compound`: an ordered aggregate
/// of child handles of arbitrary, possibly mixed, kinds, including nested
/// compounds.  Insertion order is preserved but carries no geometric
/// meaning.  An empty compound is valid and represents "no shape".
///
/// Aggregation is referential: a compound's children refer to the very same
/// kernel-resident topology as the handles it was built from.  Deep copying
/// is explicit, through [`Compound::clone`].
///
/// A note on mass properties: evaluating the centroid of a compound
/// integrates over its boundary surfaces, so it is an area-weighted centroid
/// even when the children are solids, and the evaluation of a shape with
/// zero total surface area (an empty compound, in particular) is defined to
/// yield the origin, deterministically.  Both evaluations belong to the
/// kernel collaborator, outside this library.
#[derive(Debug)]
pub struct Compound {
    pub(crate) inner: Shape,
}

impl View for Compound {
    type V = ShapeModel;

    closed spec fn view(&self) -> ShapeModel {
        self.inner@
    }
}

impl Compound {
    /// A compound handle always has kind `Compound`.
    pub open spec fn wf(self) -> bool {
        self@.kind == ShapeKind::Compound
    }

    /// Referential, non-copying aggregation: creates an empty compound, then
    /// appends each input handle, in iteration order, as a child by
    /// reference.  No topology is copied, nothing is deduplicated, and the
    /// kinds of the inputs are not validated.  Always succeeds; an empty
    /// input yields an empty compound.
    pub fn from_shapes(shapes: &Vec<Shape>) -> (c: Compound)
        ensures
            c.wf(),
            c@.gen == 0,
            c@.topo == 0,
            c@.geom == 0,
            !c@.mesh,
            c@.children == models_of(shapes@),
    {
        let mut kids: Vec<Shape> = Vec::new();
        let mut i: usize = 0;
        while i < shapes.len()
            invariant
                i <= shapes@.len(),
                kids@.len() == i,
                forall|j: int| 0 <= j < i ==> #[trigger] kids@[j]@ == shapes@[j]@,
            decreases shapes@.len() - i,
        {
            let k = shapes[i].share();
            kids.push(k);
            i = i + 1;
        }
        let inner = Shape {
            kind: ShapeKind::Compound,
            gen: 0,
            topo: 0,
            geom: 0,
            mesh: false,
            children: kids,
        };
        let c = Compound { inner };
        proof {
            Shape::lemma_view(&c.inner);
            assert(c@.children =~= models_of(shapes@));
        }
        c
    }

    /// Fallible downcast of a generic handle to its compound view: succeeds
    /// exactly when the handle's runtime kind is `Compound`, and otherwise
    /// fails with a [`CastError`] naming the expected and the actual kind.
    pub fn downcast_from_shape(shape: &Shape) -> (r: Result<Compound, CastError>)
        ensures
            (shape@.kind == ShapeKind::Compound) == (r is Ok),
            r is Ok ==> r->Ok_0.wf() && r->Ok_0@ == shape@,
            r is Err ==> r->Err_0 == (CastError {
                expected: ShapeKind::Compound,
                actual: shape@.kind,
            }),
    {
        if shape.classify() == ShapeKind::Compound {
            Ok(Compound { inner: shape.share() })
        } else {
            Err(CastError { expected: ShapeKind::Compound, actual: shape.classify() })
        }
    }

    /// Deep structural copy of the whole aggregate and everything it
    /// transitively references: the copy carries identical geometry, shares
    /// no kernel-resident topology with its source, and carries no cached
    /// (derived) representation, which is deliberately not duplicated.
    ///
    /// The single precondition is a machine limit of the model: the
    /// generation counter must not be exhausted.
    pub fn clone(&self) -> (c: Compound)
        requires
            self.wf(),
            gens_below(self@, u64::MAX as int),
        ensures
            c.wf(),
            same_geometry(self@, c@),
            mesh_free(c@),
            !shares_topo(self@, c@),
            exists|g: int| copy_with_gen(self@, c@, g) && gens_below(self@, g),
    {
        let g = self.inner.max_gen();
        proof {
            let t = choose|t: int| mentions(self.inner@, g as int, t);
            assert((g as int) < (u64::MAX as int));
        }
        let fresh = g + 1;
        let inner = self.inner.copy_rec(fresh);
        let c = Compound { inner };
        proof {
            lemma_copy_same_geometry(self@, c@, fresh as int);
            lemma_copy_mesh_free(self@, c@, fresh as int);
            lemma_copy_shares_nothing(self@, c@, fresh as int);
        }
        c
    }

    /// The compound, viewed as a generic shape handle.
    pub fn as_shape(&self) -> (s: &Shape)
        ensures
            s@ == self@,
    {
        &self.inner
    }

    /// The compound as an owned generic shape handle.
    pub fn into_shape(self) -> (s: Shape)
        ensures
            s@ == self@,
    {
        self.inner
    }

    /// How many children the aggregate holds.
    pub fn child_count(&self) -> (n: usize)
        ensures
            n == self@.children.len(),
    {
        proof {
            Shape::lemma_view(&self.inner);
        }
        self.inner.children.len()
    }

    /// The `i`-th child handle of the aggregate.
    pub fn child(&self, i: usize) -> (s: &Shape)
        requires
            i < self@.children.len(),
        ensures
            s@ == self@.children[i as int],
    {
        proof {
            Shape::lemma_view(&self.inner);
        }
        &self.inner.children[i]
    }
}

/// A handle statically narrowed to kind `Face`.
#[derive(Debug)]
pub struct Face {
    pub(crate) inner: Shape,
}

impl View for Face {
    type V = ShapeModel;

    closed spec fn view(&self) -> ShapeModel {
        self.inner@
    }
}

impl Face {
    /// A face handle always has kind `Face`.
    pub open spec fn wf(self) -> bool {
        self@.kind == ShapeKind::Face
    }

    /// Fallible downcast of a generic handle to its face view: succeeds
    /// exactly when the handle's runtime kind is `Face`.
    pub fn downcast_from_shape(shape: &Shape) -> (r: Result<Face, CastError>)
        ensures
            (shape@.kind == ShapeKind::Face) == (r is Ok),
            r is Ok ==> r->Ok_0.wf() && r->Ok_0@ == shape@,
            r is Err ==> r->Err_0 == (CastError { expected: ShapeKind::Face, actual: shape@.kind }),
    {
        if shape.classify() == ShapeKind::Face {
            Ok(Face { inner: shape.share() })
        } else {
            Err(CastError { expected: ShapeKind::Face, actual: shape.classify() })
        }
    }

    /// The face, viewed as a generic shape handle.
    pub fn as_shape(&self) -> (s: &Shape)
        ensures
            s@ == self@,
    {
        &self.inner
    }

    /// The face as an owned generic shape handle.
    pub fn into_shape(self) -> (s: Shape)
        ensures
            s@ == self@,
    {
        self.inner
    }
}

/// A handle statically narrowed to kind `Shell`.
#[derive(Debug)]
pub struct Shell {
    pub(crate) inner: Shape,
}

impl View for Shell {
    type V = ShapeModel;

    closed spec fn view(&self) -> ShapeModel {
        self.inner@
    }
}

impl Shell {
    /// A shell handle always has kind `Shell`.
    pub open spec fn wf(self) -> bool {
        self@.kind == ShapeKind::Shell
    }

    /// Fallible downcast of a generic handle to its shell view: succeeds
    /// exactly when the handle's runtime kind is `Shell`.
    pub fn downcast_from_shape(shape: &Shape) -> (r: Result<Shell, CastError>)
        ensures
            (shape@.kind == ShapeKind::Shell) == (r is Ok),
            r is Ok ==> r->Ok_0.wf() && r->Ok_0@ == shape@,
            r is Err ==> r->Err_0 == (CastError {
                expected: ShapeKind::Shell,
                actual: shape@.kind,
            }),
    {
        if shape.classify() == ShapeKind::Shell {
            Ok(Shell { inner: shape.share() })
        } else {
            Err(CastError { expected: ShapeKind::Shell, actual: shape.classify() })
        }
    }

    /// The shell, viewed as a generic shape handle.
    pub fn as_shape(&self) -> (s: &Shape)
        ensures
            s@ == self@,
    {
        &self.inner
    }

    /// The shell as an owned generic shape handle.
    pub fn into_shape(self) -> (s: Shape)
        ensures
            s@ == self@,
    {
        self.inner
    }
}

/// A handle statically narrowed to kind `Solid`.
#[derive(Debug)]
pub struct Solid {
    pub(crate) inner: Shape,
}

impl View for Solid {
    type V = ShapeModel;

    closed spec fn view(&self) -> ShapeModel {
        self.inner@
    }
}

impl Solid {
    /// A solid handle always has kind `Solid`.
    pub open spec fn wf(self) -> bool {
        self@.kind == ShapeKind::Solid
    }

    /// Fallible downcast of a generic handle to its solid view: succeeds
    /// exactly when the handle's runtime kind is `Solid`.
    pub fn downcast_from_shape(shape: &Shape) -> (r: Result<Solid, CastError>)
        ensures
            (shape@.kind == ShapeKind::Solid) == (r is Ok),
            r is Ok ==> r->Ok_0.wf() && r->Ok_0@ == shape@,
            r is Err ==> r->Err_0 == (CastError {
                expected: ShapeKind::Solid,
                actual: shape@.kind,
            }),
    {
        if shape.classify() == ShapeKind::Solid {
            Ok(Solid { inner: shape.share() })
        } else {
            Err(CastError { expected: ShapeKind::Solid, actual: shape.classify() })
        }
    }

    /// The solid, viewed as a generic shape handle.
    pub fn as_shape(&self) -> (s: &Shape)
        ensures
            s@ == self@,
    {
        &self.inner
    }

    /// The solid as an owned generic shape handle.
    pub fn into_shape(self) -> (s: Shape)
        ensures
            s@ == self@,
    {
        self.inner
    }
}

} // verus!

//! Volume synthesis: argument flattening and normalization of the boolean
//! volume-making result.
//!
//! Volume synthesis reconstructs the solids of material enclosed by an
//! unstructured collection of boundary-defining inputs.  The boolean
//! volume-making primitive itself belongs to the kernel collaborator,
//! outside this library; what this layer owns — and what is verified here —
//! is the construction of the primitive's argument list from the typed input
//! collections, and the normalization of whatever shape the primitive
//! produced (or the fault it raised) into the caller-visible
//! `Result<Compound, OperationError>`.

use vstd::prelude::*;

use crate::model::ShapeKind;
use crate::model::ShapeModel;
use crate::model::same_geometry;
use crate::shape::Compound;
use crate::shape::Face;
use crate::shape::Shape;
use crate::shape::Shell;
use crate::shape::Solid;
use crate::shape::models_of;

verus! {

/// Fault raised by an underlying kernel primitive on malformed, empty, or
/// otherwise invalid geometric input.  Not locally recoverable: it is
/// surfaced verbatim to the caller, with no partial result.
#[derive(Debug)]
pub struct OperationError {
    message: String,
}

impl View for OperationError {
    type V = Seq<char>;

    closed spec fn view(&self) -> Seq<char> {
        self.message@
    }
}

impl OperationError {
    /// An operation fault carrying the kernel's diagnostic text.
    pub fn new(message: String) -> (e: OperationError)
        ensures
            e@ == message@,
    {
        OperationError { message }
    }

    /// The diagnostic text of the fault.
    pub fn message(&self) -> (m: &str)
        ensures
            m@ == self@,
    {
        self.message.as_str()
    }
}

/// The normalized form of a shape the boolean volume-making step produced:
/// a shape that already is a compound stands unchanged; any other shape
/// becomes the sole child of a fresh compound.
pub open spec fn spec_normalize(m: ShapeModel) -> ShapeModel {
    if m.kind == ShapeKind::Compound {
        m
    } else {
        ShapeModel {
            kind: ShapeKind::Compound,
            gen: 0,
            topo: 0,
            geom: 0,
            mesh: false,
            children: seq![m],
        }
    }
}

impl Compound {
    /// The flattened argument list handed to the boolean volume-making
    /// primitive: every face, then every shell, then every solid, keeping
    /// the relative order within each input collection.  Order affects only
    /// the argument list, not the geometric result, since the boolean
    /// operation is order-independent.
    pub fn volume_arguments(
        faces: &Vec<Face>,
        shells: &Vec<Shell>,
        solids: &Vec<Solid>,
    ) -> (args: Vec<Shape>)
        ensures
            models_of(args@) == models_of(faces@) + models_of(shells@) + models_of(solids@),
    {
        let mut args: Vec<Shape> = Vec::new();
        let mut i: usize = 0;
        while i < faces.len()
            invariant
                i <= faces@.len(),
                args@.len() == i,
                forall|j: int| 0 <= j < i ==> #[trigger] args@[j]@ == faces@[j]@,
            decreases faces@.len() - i,
        {
            args.push(faces[i].as_shape().share());
            i = i + 1;
        }
        let mut i: usize = 0;
        while i < shells.len()
            invariant
                i <= shells@.len(),
                args@.len() == faces@.len() + i,
                forall|j: int| 0 <= j < faces@.len() ==> #[trigger] args@[j]@ == faces@[j]@,
                forall|j: int| 0 <= j < i ==> #[trigger] args@[faces@.len() + j]@ == shells@[j]@,
            decreases shells@.len() - i,
        {
            args.push(shells[i].as_shape().share());
            i = i + 1;
        }
        let mut i: usize = 0;
        while i < solids.len()
            invariant
                i <= solids@.len(),
                args@.len() == faces@.len() + shells@.len() + i,
                forall|j: int| 0 <= j < faces@.len() ==> #[trigger] args@[j]@ == faces@[j]@,
                forall|j: int|
                    0 <= j < shells@.len() ==> #[trigger] args@[faces@.len() + j]@ == shells@[j]@,
                forall|j: int|
                    0 <= j < i ==> #[trigger] args@[faces@.len() + shells@.len() + j]@
                        == solids@[j]@,
            decreases solids@.len() - i,
        {
            args.push(solids[i].as_shape().share());
            i = i + 1;
        }
        proof {
            let all = models_of(faces@) + models_of(shells@) + models_of(solids@);
            let fl = faces@.len() as int;
            let sl = shells@.len() as int;
            let dl = solids@.len() as int;
            assert forall|k: int| 0 <= k < fl + sl + dl implies models_of(args@)[k] == all[k] by {
                if k < fl {
                    assert(args@[k]@ == faces@[k]@);
                } else if k < fl + sl {
                    assert(args@[faces@.len() + (k - fl)]@ == shells@[k - fl]@);
                } else {
                    assert(args@[faces@.len() + shells@.len() + (k - fl - sl)]@ == solids@[k - fl
                        - sl]@);
                }
            }
            assert(models_of(args@) =~= all);
        }
        args
    }

    /// Normalization of the shape produced by a successful boolean
    /// volume-making step: if its runtime kind is already `Compound` it is
    /// downcast directly — which cannot fail, and preserves its children —
    /// and otherwise it is wrapped, by aggregation, as the sole child of a
    /// freshly built compound.
    pub fn normalize_volume_result(result: Shape) -> (c: Compound)
        ensures
            c.wf(),
            c@ == spec_normalize(result@),
    {
        match Compound::downcast_from_shape(&result) {
            Ok(c) => c,
            Err(_) => {
                let mut one: Vec<Shape> = Vec::new();
                one.push(result);
                let c = Compound::from_shapes(&one);
                proof {
                    assert(models_of(one@) =~= seq![one@[0]@]);
                    assert(c@ =~= spec_normalize(one@[0]@));
                }
                c
            },
        }
    }

    /// The caller-visible outcome of volume synthesis, built from the
    /// outcome of the boolean volume-making step: a produced shape is
    /// normalized to a compound, and an operation fault is propagated
    /// verbatim, with no partial result and no retry.
    pub fn volume_outcome(outcome: Result<Shape, OperationError>) -> (r: Result<
        Compound,
        OperationError,
    >)
        ensures
            (outcome is Ok) == (r is Ok),
            outcome is Ok ==> r->Ok_0.wf() && r->Ok_0@ == spec_normalize(outcome->Ok_0@),
            outcome is Err ==> r->Err_0 == outcome->Err_0,
    {
        match outcome {
            Ok(shape) => Ok(Compound::normalize_volume_result(shape)),
            Err(e) => Err(e),
        }
    }
}

/// Volume normalization invariant: whatever shape the boolean volume-making
/// step produced, and however many solids it enclosed, the normalized result
/// is a compound — never a bare non-compound shape.
pub proof fn lemma_normalized_is_compound(m: ShapeModel)
    ensures
        spec_normalize(m).kind == ShapeKind::Compound,
{
}

/// Determinism of the synthesis layer: geometrically identical shapes coming
/// out of the boolean volume-making step normalize to geometrically
/// identical compounds.  Together with the exact contracts of
/// [`Compound::volume_arguments`] and [`Compound::volume_outcome`], repeating
/// a synthesis on identical input geometry repeats its result; only the
/// boolean primitive itself could introduce variation, and its contract
/// upstream forbids it.
pub proof fn lemma_normalize_deterministic(a: ShapeModel, b: ShapeModel)
    requires
        same_geometry(a, b),
    ensures
        same_geometry(spec_normalize(a), spec_normalize(b)),
{
    if a.kind != ShapeKind::Compound {
        let wa = spec_normalize(a);
        let wb = spec_normalize(b);
        assert(wa.children[0] == a);
        assert(wb.children[0] == b);
        assert(same_geometry(wa, wb));
    }
}

} // verus!

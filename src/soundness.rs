//! What the constraints guarantee about honest and dishonest witnesses.
use crate::circuit::{
    bound_to, conv_value, gates_hold, is_matrix, is_synthesis, lookups_hold, satisfied, Witness,
};
use crate::dims::Dims;
use crate::field::Fe;
use vstd::prelude::*;

verus! {

/// A synthesized witness always meets the convolution constraint and the range check: the
/// clamp sends every value above `relu_bound` to zero.
pub proof fn lemma_synthesis_meets_gates_and_lookups(
    dims: Dims,
    image: Seq<Vec<Fe>>,
    kernel: Seq<Vec<Fe>>,
    w: Witness,
)
    requires
        dims.wf(),
        is_synthesis(dims, image, kernel, w),
    ensures
        gates_hold(dims, image, kernel, w),
        lookups_hold(dims, w),
{
}

/// Completeness: when the convolution at every output cell is at most
/// `relu_bound`, the synthesized witness, bound to the convolution itself
/// as public output, satisfies every constraint.
pub proof fn lemma_completeness(
    dims: Dims,
    image: Seq<Vec<Fe>>,
    kernel: Seq<Vec<Fe>>,
    w: Witness,
    public: Seq<Vec<Fe>>,
)
    requires
        dims.wf(),
        is_matrix(image, dims.image_w as nat, dims.image_h as nat),
        is_matrix(kernel, dims.kernel_w as nat, dims.kernel_h as nat),
        is_synthesis(dims, image, kernel, w),
        forall|i: int, j: int|
            0 <= i < dims.spec_out_w() && 0 <= j < dims.spec_out_h() ==> conv_value(
                dims,
                image,
                kernel,
                i,
                j,
            ) <= dims.relu_bound,
        is_matrix(public, dims.spec_out_w(), dims.spec_out_h()),
        forall|i: int, j: int|
            0 <= i < dims.spec_out_w() && 0 <= j < dims.spec_out_h() ==> (#[trigger] public[i]@[j]).val()
                == conv_value(dims, image, kernel, i, j),
    ensures
        satisfied(dims, image, kernel, w, public),
{
    assert forall|i: int, j: int|
        0 <= i < dims.spec_out_w() && 0 <= j < dims.spec_out_h() implies (#[trigger] w.relu@[i]@[j]).val()
            == public[i]@[j].val() by {
        assert(w.inter@[i]@[j].val() == conv_value(dims, image, kernel, i, j));
        assert(public[i]@[j].val() == conv_value(dims, image, kernel, i, j));
    }
}

/// Binding soundness: once a witness satisfies the constraints against one
/// public output, changing a single entry of that output to another value
/// makes the copy constraints fail for the same witness.
pub proof fn lemma_binding_soundness(
    dims: Dims,
    image: Seq<Vec<Fe>>,
    kernel: Seq<Vec<Fe>>,
    w: Witness,
    public: Seq<Vec<Fe>>,
    changed: Seq<Vec<Fe>>,
    i: int,
    j: int,
)
    requires
        dims.wf(),
        satisfied(dims, image, kernel, w, public),
        is_matrix(public, dims.spec_out_w(), dims.spec_out_h()),
        is_matrix(changed, dims.spec_out_w(), dims.spec_out_h()),
        0 <= i < dims.spec_out_w(),
        0 <= j < dims.spec_out_h(),
        changed[i]@[j].val() != public[i]@[j].val(),
        forall|a: int, b: int|
            0 <= a < dims.spec_out_w() && 0 <= b < dims.spec_out_h() && (a != i || b != j)
                ==> (#[trigger] changed[a]@[b]) == public[a]@[b],
    ensures
        !bound_to(dims, w, changed),
        !satisfied(dims, image, kernel, w, changed),
{
    assert(w.relu@[i]@[j].val() == public[i]@[j].val());
}

} // verus!

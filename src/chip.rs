//! The layer's constraint system: its column groups, the convolution gate as
//! one identity per output cell, and the ReLU cells that the range check
//! looks up.
use crate::dims::Dims;
use crate::layout::{consecutive, AdviceVector, ColumnRegistry, InstVector};
use crate::lookup::ReLULoookUp;
use vstd::prelude::*;

verus! {

/// An advice cell queried by a gate: its column, and its row relative to
/// the row where the selector of the convolution constraint is on.
#[derive(Clone, Copy, Debug, PartialEq, Eq, Structural)]
pub struct CellRef {
    pub column: usize,
    pub rotation: usize,
}

/// `sum over k, l of products[k][l].0 * products[k][l].1 - output == 0`.
#[derive(Clone, Debug)]
pub struct ConvIdentity {
    pub products: Vec<Vec<(CellRef, CellRef)>>,
    pub output: CellRef,
}

/// The identity of output cell `(i, j)`: the window of the image whose
/// corner is `(i, j)`, multiplied cell by cell with the kernel, sums to the
/// intermediate cell `(i, j)`.
pub open spec fn is_conv_identity(
    id: ConvIdentity,
    image: Seq<usize>,
    kernel: Seq<usize>,
    inter: Seq<usize>,
    kw: nat,
    kh: nat,
    i: int,
    j: int,
) -> bool {
    &&& id.output == CellRef { column: inter[i], rotation: j as usize }
    &&& id.products@.len() == kw
    &&& forall|k: int| 0 <= k < kw ==> (#[trigger] id.products@[k])@.len() == kh
    &&& forall|k: int, l: int|
        0 <= k < kw && 0 <= l < kh ==> (#[trigger] id.products@[k]@[l]) == (
        CellRef { column: image[i + k], rotation: (j + l) as usize },
        CellRef { column: kernel[k], rotation: l as usize },
    )
}

/// Everything that the layer declares.
#[derive(Clone, Debug)]
pub struct LogRegConfig {
    pub dims: Dims,
    pub image: AdviceVector,
    pub kernel: AdviceVector,
    pub inter: AdviceVector,
    pub relu: AdviceVector,
    pub y: InstVector,
    pub selmul: usize,
    pub selrel: usize,
    pub reltable: ReLULoookUp,
    /// `gate[i][j]` is the identity of output cell `(i, j)`; all of them are
    /// switched on together by `selmul`.
    pub gate: Vec<Vec<ConvIdentity>>,
    /// `lookups[i][j]` is the ReLU cell that must lie in the table, gated by
    /// `selrel`. Membership is all that is constrained: nothing ties a ReLU
    /// cell to its intermediate cell, so any value in `0..=relu_bound` passes.
    pub lookups: Vec<Vec<CellRef>>,
}

impl LogRegConfig {
    /// The first advice column of the layer.
    pub open spec fn base(self) -> nat {
        self.image.data@[0] as nat
    }

    /// The image, kernel, intermediate and ReLU columns follow one another
    /// without gaps, from `base()` on.
    pub open spec fn packed(self) -> bool {
        let d = self.dims;
        let b = self.base();
        &&& self.image.data@ == consecutive(b, d.image_w as nat)
        &&& self.kernel.data@ == consecutive((b + d.image_w) as nat, d.kernel_w as nat)
        &&& self.inter.data@ == consecutive((b + d.image_w + d.kernel_w) as nat, d.spec_out_w())
        &&& self.relu.data@ == consecutive((b + d.image_w + d.kernel_w + d.spec_out_w()) as nat, d.spec_out_w())
        &&& b + d.image_w + d.kernel_w + 2 * d.spec_out_w() <= usize::MAX
    }

    /// The groups have the layer's shapes, the convolution constraint has one identity per
    /// output cell, and the lookups name the ReLU cells.
    pub open spec fn wf(self) -> bool {
        let d = self.dims;
        &&& d.wf()
        &&& self.image.data@.len() == d.image_w && self.image.len == d.image_h
        &&& self.kernel.data@.len() == d.kernel_w && self.kernel.len == d.kernel_h
        &&& self.inter.data@.len() == d.spec_out_w() && self.inter.len == d.spec_out_h()
        &&& self.relu.data@.len() == d.spec_out_w() && self.relu.len == d.spec_out_h()
        &&& self.y.data@.len() == d.spec_out_w() && self.y.len == d.spec_out_h()
        &&& self.packed()
        &&& self.gate@.len() == d.spec_out_w()
        &&& forall|i: int| 0 <= i < d.spec_out_w() ==> (#[trigger] self.gate@[i])@.len() == d.spec_out_h()
        &&& forall|i: int, j: int|
            0 <= i < d.spec_out_w() && 0 <= j < d.spec_out_h() ==> is_conv_identity(
                #[trigger] self.gate@[i]@[j],
                self.image.data@,
                self.kernel.data@,
                self.inter.data@,
                d.kernel_w as nat,
                d.kernel_h as nat,
                i,
                j,
            )
        &&& self.lookups@.len() == d.spec_out_w()
        &&& forall|i: int| 0 <= i < d.spec_out_w() ==> (#[trigger] self.lookups@[i])@.len() == d.spec_out_h()
        &&& forall|i: int, j: int|
            0 <= i < d.spec_out_w() && 0 <= j < d.spec_out_h() ==> (#[trigger] self.lookups@[i]@[j])
                == (CellRef { column: self.relu.data@[i], rotation: j as usize })
    }
}

/// Builds the identity of output cell `(i, j)`.
fn conv_identity(
    image: &Vec<usize>,
    kernel: &Vec<usize>,
    inter: &Vec<usize>,
    kw: usize,
    kh: usize,
    i: usize,
    j: usize,
) -> (r: ConvIdentity)
    requires
        i + kw <= image@.len(),
        kw <= kernel@.len(),
        i < inter@.len(),
        j + kh <= usize::MAX,
    ensures
        is_conv_identity(r, image@, kernel@, inter@, kw as nat, kh as nat, i as int, j as int),
{
    let mut products: Vec<Vec<(CellRef, CellRef)>> = Vec::new();
    let mut k: usize = 0;
    while k < kw
        invariant
            k <= kw,
            i + kw <= image@.len(),
            kw <= kernel@.len(),
            j + kh <= usize::MAX,
            products@.len() == k,
            forall|a: int| 0 <= a < k ==> (#[trigger] products@[a])@.len() == kh,
            forall|a: int, b: int|
                0 <= a < k && 0 <= b < kh ==> (#[trigger] products@[a]@[b]) == (
                CellRef { column: image@[i + a], rotation: (j + b) as usize },
                CellRef { column: kernel@[a], rotation: b as usize },
            ),
        decreases kw - k,
    {
        let n = image.len();
        assert(i + k < n);
        let col = image[i + k];
        let mut row: Vec<(CellRef, CellRef)> = Vec::new();
        let mut l: usize = 0;
        while l < kh
            invariant
                l <= kh,
                k < kw,
                i + kw <= image@.len(),
                kw <= kernel@.len(),
                j + kh <= usize::MAX,
                row@.len() == l,
                col == image@[i + k],
                forall|b: int|
                    0 <= b < l ==> (#[trigger] row@[b]) == (
                    CellRef { column: image@[i + k], rotation: (j + b) as usize },
                    CellRef { column: kernel@[k as int], rotation: b as usize },
                ),
            decreases kh - l,
        {
            row.push(
                (
                    CellRef { column: col, rotation: j + l },
                    CellRef { column: kernel[k], rotation: l },
                ),
            );
            l = l + 1;
        }
        products.push(row);
        k = k + 1;
    }
    ConvIdentity { products, output: CellRef { column: inter[i], rotation: j } }
}

pub struct LogRegChip {
    pub config: LogRegConfig,
}

impl LogRegChip {
    /// Declares the image, kernel, intermediate and ReLU advice groups, the
    /// public output group, the two selectors and the table column, in that
    /// order, and describes the convolution gate and the ReLU lookups.
    pub fn configure(meta: &mut ColumnRegistry, dims: Dims) -> (r: LogRegConfig)
        requires
            dims.wf(),
            old(meta).num_advice + dims.image_w + dims.kernel_w + 2 * dims.spec_out_w() <= usize::MAX,
            old(meta).num_instance + dims.spec_out_w() <= usize::MAX,
            old(meta).num_selectors + 2 <= usize::MAX,
            old(meta).num_tables < usize::MAX,
        ensures
            r.wf(),
            r.dims == dims,
            r.image.data@ == consecutive(old(meta).num_advice as nat, dims.image_w as nat),
            r.kernel.data@ == consecutive(
                (old(meta).num_advice + dims.image_w) as nat,
                dims.kernel_w as nat,
            ),
            r.inter.data@ == consecutive(
                (old(meta).num_advice + dims.image_w + dims.kernel_w) as nat,
                dims.spec_out_w(),
            ),
            r.relu.data@ == consecutive(
                (old(meta).num_advice + dims.image_w + dims.kernel_w + dims.spec_out_w()) as nat,
                dims.spec_out_w(),
            ),
            r.y.data@ == consecutive(old(meta).num_instance as nat, dims.spec_out_w()),
            r.selmul == old(meta).num_selectors,
            r.selrel == old(meta).num_selectors + 1,
            r.reltable.relop == old(meta).num_tables,
            final(meta).num_advice == old(meta).num_advice + dims.image_w + dims.kernel_w + 2
                * dims.spec_out_w(),
            final(meta).num_instance == old(meta).num_instance + dims.spec_out_w(),
            final(meta).num_selectors == old(meta).num_selectors + 2,
            final(meta).num_tables == old(meta).num_tables + 1,
    {
        let out_w = dims.out_w();
        let out_h = dims.out_h();
        let image = AdviceVector::new_adv_vec(meta, dims.image_w, dims.image_h);
        let kernel = AdviceVector::new_adv_vec(meta, dims.kernel_w, dims.kernel_h);
        let inter = AdviceVector::new_adv_vec(meta, out_w, out_h);
        let relu = AdviceVector::new_adv_vec(meta, out_w, out_h);
        let y = InstVector::new_ins_vec(meta, out_w, out_h);
        let selmul = meta.selector();
        let selrel = meta.selector();
        let reltable = ReLULoookUp::configure(meta);

        let mut gate: Vec<Vec<ConvIdentity>> = Vec::new();
        let mut lookups: Vec<Vec<CellRef>> = Vec::new();
        let mut i: usize = 0;
        while i < out_w
            invariant
                dims.wf(),
                out_w == dims.spec_out_w(),
                out_h == dims.spec_out_h(),
                image.data@.len() == dims.image_w,
                kernel.data@.len() == dims.kernel_w,
                inter.data@.len() == out_w,
                relu.data@.len() == out_w,
                i <= out_w,
                gate@.len() == i,
                lookups@.len() == i,
                forall|a: int| 0 <= a < i ==> (#[trigger] gate@[a])@.len() == out_h,
                forall|a: int, b: int|
                    0 <= a < i && 0 <= b < out_h ==> is_conv_identity(
                        #[trigger] gate@[a]@[b],
                        image.data@,
                        kernel.data@,
                        inter.data@,
                        dims.kernel_w as nat,
                        dims.kernel_h as nat,
                        a,
                        b,
                    ),
                forall|a: int| 0 <= a < i ==> (#[trigger] lookups@[a])@.len() == out_h,
                forall|a: int, b: int|
                    0 <= a < i && 0 <= b < out_h ==> (#[trigger] lookups@[a]@[b]) == (CellRef {
                        column: relu.data@[a],
                        rotation: b as usize,
                    }),
            decreases out_w - i,
        {
            let mut grow: Vec<ConvIdentity> = Vec::new();
            let mut lrow: Vec<CellRef> = Vec::new();
            let mut j: usize = 0;
            while j < out_h
                invariant
                    dims.wf(),
                    out_w == dims.spec_out_w(),
                    out_h == dims.spec_out_h(),
                    image.data@.len() == dims.image_w,
                    kernel.data@.len() == dims.kernel_w,
                    inter.data@.len() == out_w,
                    relu.data@.len() == out_w,
                    i < out_w,
                    j <= out_h,
                    grow@.len() == j,
                    lrow@.len() == j,
                    forall|b: int|
                        0 <= b < j ==> is_conv_identity(
                            #[trigger] grow@[b],
                            image.data@,
                            kernel.data@,
                            inter.data@,
                            dims.kernel_w as nat,
                            dims.kernel_h as nat,
                            i as int,
                            b,
                        ),
                    forall|b: int|
                        0 <= b < j ==> (#[trigger] lrow@[b]) == (CellRef {
                            column: relu.data@[i as int],
                            rotation: b as usize,
                        }),
                decreases out_h - j,
            {
                let id = conv_identity(
                    &image.data,
                    &kernel.data,
                    &inter.data,
                    dims.kernel_w,
                    dims.kernel_h,
                    i,
                    j,
                );
                grow.push(id);
                lrow.push(CellRef { column: relu.data[i], rotation: j });
                j = j + 1;
            }
            gate.push(grow);
            lookups.push(lrow);
            i = i + 1;
        }
        LogRegConfig {
            dims,
            image,
            kernel,
            inter,
            relu,
            y,
            selmul,
            selrel,
            reltable,
            gate,
            lookups,
        }
    }
}

} // verus!

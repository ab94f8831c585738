//! The advice cells of one layer as the backend sees them, by column and
//! row, and the evaluation of the declared convolution identities on them.
use crate::chip::{is_conv_identity, CellRef, ConvIdentity, LogRegConfig};
use crate::circuit::{is_matrix, row_sum, window_sum, Witness};
use crate::field::{modulus, Fe};
use vstd::arithmetic::div_mod::{lemma_add_mod_noop, lemma_small_mod};
use vstd::prelude::*;

verus! {

/// The private cells of a layer: image and kernel as given, the rest as
/// synthesized.
pub struct Cells<'a> {
    pub image: &'a Vec<Vec<Fe>>,
    pub kernel: &'a Vec<Vec<Fe>>,
    pub witness: &'a Witness,
}

/// The cells have the shapes that the configuration declares.
pub open spec fn cells_fit(cfg: LogRegConfig, image: Seq<Vec<Fe>>, kernel: Seq<Vec<Fe>>, w: Witness) -> bool {
    let d = cfg.dims;
    &&& is_matrix(image, d.image_w as nat, d.image_h as nat)
    &&& is_matrix(kernel, d.kernel_w as nat, d.kernel_h as nat)
    &&& is_matrix(w.inter@, d.spec_out_w(), d.spec_out_h())
    &&& is_matrix(w.relu@, d.spec_out_w(), d.spec_out_h())
}

/// `c` is a cell of one of the layer's advice groups.
pub open spec fn in_layout(cfg: LogRegConfig, c: CellRef) -> bool {
    let d = cfg.dims;
    let x = c.column - cfg.base();
    let r = c.rotation as int;
    let iw = d.image_w as int;
    let kw = d.kernel_w as int;
    let ow = d.spec_out_w() as int;
    &&& 0 <= x < iw + kw + 2 * ow
    &&& x < iw ==> r < d.image_h
    &&& iw <= x < iw + kw ==> r < d.kernel_h
    &&& iw + kw <= x ==> r < d.spec_out_h()
}

/// The value that cell `c` holds.
pub open spec fn cell_of(
    cfg: LogRegConfig,
    image: Seq<Vec<Fe>>,
    kernel: Seq<Vec<Fe>>,
    w: Witness,
    c: CellRef,
) -> Fe {
    let d = cfg.dims;
    let x = c.column - cfg.base();
    let r = c.rotation as int;
    let iw = d.image_w as int;
    let kw = d.kernel_w as int;
    let ow = d.spec_out_w() as int;
    if x < iw {
        image[x]@[r]
    } else if x < iw + kw {
        kernel[x - iw]@[r]
    } else if x < iw + kw + ow {
        w.inter@[x - iw - kw]@[r]
    } else {
        w.relu@[x - iw - kw - ow]@[r]
    }
}

/// `sum over l < n of cell(r[l].0) * cell(r[l].1)`, over the integers.
pub open spec fn row_products(
    cfg: LogRegConfig,
    image: Seq<Vec<Fe>>,
    kernel: Seq<Vec<Fe>>,
    w: Witness,
    r: Seq<(CellRef, CellRef)>,
    n: nat,
) -> int
    decreases n,
{
    if n == 0 {
        0
    } else {
        row_products(cfg, image, kernel, w, r, (n - 1) as nat) + cell_of(cfg, image, kernel, w, r[n - 1].0).val()
            * cell_of(cfg, image, kernel, w, r[n - 1].1).val()
    }
}

/// The sum of `row_products` over the first `m` rows of `p`.
pub open spec fn products_sum(
    cfg: LogRegConfig,
    image: Seq<Vec<Fe>>,
    kernel: Seq<Vec<Fe>>,
    w: Witness,
    p: Seq<Vec<(CellRef, CellRef)>>,
    m: nat,
) -> int
    decreases m,
{
    if m == 0 {
        0
    } else {
        products_sum(cfg, image, kernel, w, p, (m - 1) as nat) + row_products(
            cfg,
            image,
            kernel,
            w,
            p[m - 1]@,
            p[m - 1]@.len(),
        )
    }
}

/// The identity evaluates to zero in the field.
pub open spec fn identity_holds(
    cfg: LogRegConfig,
    image: Seq<Vec<Fe>>,
    kernel: Seq<Vec<Fe>>,
    w: Witness,
    id: ConvIdentity,
) -> bool {
    cell_of(cfg, image, kernel, w, id.output).val() == (products_sum(
        cfg,
        image,
        kernel,
        w,
        id.products@,
        id.products@.len(),
    ) % (modulus() as int)) as nat
}

/// Every cell that the identity queries is a cell of the layout.
pub open spec fn identity_in_layout(cfg: LogRegConfig, id: ConvIdentity) -> bool {
    &&& in_layout(cfg, id.output)
    &&& forall|k: int, l: int|
        0 <= k < id.products@.len() && 0 <= l < id.products@[k]@.len() ==> in_layout(
            cfg,
            (#[trigger] id.products@[k]@[l]).0,
        ) && in_layout(cfg, id.products@[k]@[l].1)
}

/// The products of row `k` of identity `(i, j)` are the image window times
/// the kernel column `k`.
proof fn lemma_row_products(
    cfg: LogRegConfig,
    image: Seq<Vec<Fe>>,
    kernel: Seq<Vec<Fe>>,
    w: Witness,
    i: int,
    j: int,
    k: int,
    n: nat,
)
    requires
        cfg.wf(),
        0 <= i < cfg.dims.spec_out_w(),
        0 <= j < cfg.dims.spec_out_h(),
        0 <= k < cfg.dims.kernel_w,
        n <= cfg.dims.kernel_h,
    ensures
        row_products(cfg, image, kernel, w, cfg.gate@[i]@[j].products@[k]@, n) == row_sum(
            image,
            kernel,
            i,
            j,
            k,
            n,
        ),
    decreases n,
{
    let d = cfg.dims;
    assert(is_conv_identity(
        cfg.gate@[i]@[j],
        cfg.image.data@,
        cfg.kernel.data@,
        cfg.inter.data@,
        d.kernel_w as nat,
        d.kernel_h as nat,
        i,
        j,
    ));
    if n > 0 {
        lemma_row_products(cfg, image, kernel, w, i, j, k, (n - 1) as nat);
        let p = cfg.gate@[i]@[j].products@[k]@[n - 1];
        assert(p.0 == CellRef { column: cfg.image.data@[i + k], rotation: (j + n - 1) as usize });
        assert(p.1 == CellRef { column: cfg.kernel.data@[k], rotation: (n - 1) as usize });
        assert(cell_of(cfg, image, kernel, w, p.0) == image[i + k]@[j + n - 1]);
        assert(cell_of(cfg, image, kernel, w, p.1) == kernel[k]@[n - 1]);
    }
}

proof fn lemma_products_sum(
    cfg: LogRegConfig,
    image: Seq<Vec<Fe>>,
    kernel: Seq<Vec<Fe>>,
    w: Witness,
    i: int,
    j: int,
    m: nat,
)
    requires
        cfg.wf(),
        0 <= i < cfg.dims.spec_out_w(),
        0 <= j < cfg.dims.spec_out_h(),
        m <= cfg.dims.kernel_w,
    ensures
        products_sum(cfg, image, kernel, w, cfg.gate@[i]@[j].products@, m) == window_sum(
            image,
            kernel,
            i,
            j,
            m,
            cfg.dims.kernel_h as nat,
        ),
    decreases m,
{
    let d = cfg.dims;
    assert(is_conv_identity(
        cfg.gate@[i]@[j],
        cfg.image.data@,
        cfg.kernel.data@,
        cfg.inter.data@,
        d.kernel_w as nat,
        d.kernel_h as nat,
        i,
        j,
    ));
    if m > 0 {
        lemma_products_sum(cfg, image, kernel, w, i, j, (m - 1) as nat);
        lemma_row_products(cfg, image, kernel, w, i, j, m - 1, d.kernel_h as nat);
    }
}

/// The identity that the configuration declares for output cell `(i, j)`
/// holds exactly when the intermediate cell `(i, j)` is the convolution of
/// the image window at `(i, j)` with the kernel; and it queries only cells
/// of the layout.
pub proof fn lemma_gate_is_convolution(
    cfg: LogRegConfig,
    image: Seq<Vec<Fe>>,
    kernel: Seq<Vec<Fe>>,
    w: Witness,
    i: int,
    j: int,
)
    requires
        cfg.wf(),
        0 <= i < cfg.dims.spec_out_w(),
        0 <= j < cfg.dims.spec_out_h(),
    ensures
        identity_in_layout(cfg, cfg.gate@[i]@[j]),
        identity_holds(cfg, image, kernel, w, cfg.gate@[i]@[j]) <==> w.inter@[i]@[j].val() == (
        window_sum(image, kernel, i, j, cfg.dims.kernel_w as nat, cfg.dims.kernel_h as nat) % (
        modulus() as int)) as nat,
{
    let d = cfg.dims;
    let id = cfg.gate@[i]@[j];
    assert(is_conv_identity(
        id,
        cfg.image.data@,
        cfg.kernel.data@,
        cfg.inter.data@,
        d.kernel_w as nat,
        d.kernel_h as nat,
        i,
        j,
    ));
    lemma_products_sum(cfg, image, kernel, w, i, j, d.kernel_w as nat);
    assert(cell_of(cfg, image, kernel, w, id.output) == w.inter@[i]@[j]);
    assert forall|k: int, l: int|
        0 <= k < id.products@.len() && 0 <= l < id.products@[k]@.len() implies in_layout(
        cfg,
        (#[trigger] id.products@[k]@[l]).0,
    ) && in_layout(cfg, id.products@[k]@[l].1) by {
        assert(id.products@[k]@[l].0 == CellRef {
            column: cfg.image.data@[i + k],
            rotation: (j + l) as usize,
        });
        assert(id.products@[k]@[l].1 == CellRef { column: cfg.kernel.data@[k], rotation: l as usize });
    }
}

/// The ReLU cell that lookup `(i, j)` queries is ReLU cell `(i, j)`.
pub proof fn lemma_lookup_cell(
    cfg: LogRegConfig,
    image: Seq<Vec<Fe>>,
    kernel: Seq<Vec<Fe>>,
    w: Witness,
    i: int,
    j: int,
)
    requires
        cfg.wf(),
        0 <= i < cfg.dims.spec_out_w(),
        0 <= j < cfg.dims.spec_out_h(),
    ensures
        in_layout(cfg, cfg.lookups@[i]@[j]),
        cell_of(cfg, image, kernel, w, cfg.lookups@[i]@[j]) == w.relu@[i]@[j],
{
}

impl LogRegConfig {
    /// The value that cell `c` holds.
    pub fn cell_value(&self, cells: &Cells, c: &CellRef) -> (r: Fe)
        requires
            self.wf(),
            cells_fit(*self, cells.image@, cells.kernel@, *cells.witness),
            in_layout(*self, *c),
        ensures
            r == cell_of(*self, cells.image@, cells.kernel@, *cells.witness, *c),
    {
        let d = &self.dims;
        let x = c.column - self.image.data[0];
        let r = c.rotation;
        let iw = d.image_w;
        let kw = d.kernel_w;
        let ow = d.out_w();
        if x < iw {
            cells.image[x][r]
        } else if x < iw + kw {
            cells.kernel[x - iw][r]
        } else if x < iw + kw + ow {
            cells.witness.inter[x - iw - kw][r]
        } else {
            cells.witness.relu[x - iw - kw - ow][r]
        }
    }

    /// Evaluates `id` on the cells: whether the sum of its products, in the
    /// field, equals its output cell.
    pub fn eval_identity(&self, cells: &Cells, id: &ConvIdentity) -> (r: bool)
        requires
            self.wf(),
            cells_fit(*self, cells.image@, cells.kernel@, *cells.witness),
            identity_in_layout(*self, *id),
        ensures
            r == identity_holds(*self, cells.image@, cells.kernel@, *cells.witness, *id),
    {
        let ghost cfg = *self;
        let ghost image = cells.image@;
        let ghost kernel = cells.kernel@;
        let ghost w = *cells.witness;
        let mut acc = Fe::zero();
        proof {
            lemma_small_mod(0, modulus());
        }
        let mut k: usize = 0;
        while k < id.products.len()
            invariant
                self.wf(),
                cfg == *self,
                image == cells.image@,
                kernel == cells.kernel@,
                w == *cells.witness,
                cells_fit(cfg, image, kernel, w),
                identity_in_layout(cfg, *id),
                k <= id.products@.len(),
                acc.val() == (products_sum(cfg, image, kernel, w, id.products@, k as nat) % (
                modulus() as int)) as nat,
            decreases id.products@.len() - k,
        {
            let row = &id.products[k];
            let mut l: usize = 0;
            while l < row.len()
                invariant
                    self.wf(),
                    cfg == *self,
                    image == cells.image@,
                    kernel == cells.kernel@,
                    w == *cells.witness,
                    cells_fit(cfg, image, kernel, w),
                    identity_in_layout(cfg, *id),
                    k < id.products@.len(),
                    *row == id.products@[k as int],
                    l <= row@.len(),
                    acc.val() == ((products_sum(cfg, image, kernel, w, id.products@, k as nat)
                        + row_products(cfg, image, kernel, w, row@, l as nat)) % (
                    modulus() as int)) as nat,
                decreases row@.len() - l,
            {
                assert(in_layout(cfg, id.products@[k as int]@[l as int].0));
                assert(in_layout(cfg, id.products@[k as int]@[l as int].1));
                let a = self.cell_value(cells, &row[l].0);
                let b = self.cell_value(cells, &row[l].1);
                let p = a.mul(&b);
                let ghost x = products_sum(cfg, image, kernel, w, id.products@, k as nat)
                    + row_products(cfg, image, kernel, w, row@, l as nat);
                let ghost y: int = (a.val() * b.val()) as int;
                acc = acc.add(&p);
                proof {
                    lemma_add_mod_noop(x, y, modulus() as int);
                }
                l = l + 1;
            }
            k = k + 1;
        }
        let out = self.cell_value(cells, &id.output);
        out.same(&acc)
    }
}

} // verus!

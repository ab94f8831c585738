//! Witness synthesis for one convolution + ReLU layer, and the evaluation of
//! the layer's constraints (gate, range check, binding to the public output)
//! on a witness.
use crate::assignment::{lemma_gate_is_convolution, lemma_lookup_cell, Cells};
use crate::chip::LogRegConfig;
use crate::dims::{ConfigError, Dims};
use crate::field::{modulus, Fe};
use crate::lookup::ReLULoookUp;
use vstd::arithmetic::div_mod::lemma_add_mod_noop;
use vstd::prelude::*;

verus! {

/// `m` has `w` columns of `h` rows.
pub open spec fn is_matrix(m: Seq<Vec<Fe>>, w: nat, h: nat) -> bool {
    &&& m.len() == w
    &&& forall|i: int| 0 <= i < w ==> (#[trigger] m[i])@.len() == h
}

/// `sum over l < n of image[i + k][j + l] * kernel[k][l]`, over the integers.
pub open spec fn row_sum(image: Seq<Vec<Fe>>, kernel: Seq<Vec<Fe>>, i: int, j: int, k: int, n: nat) -> int
    decreases n,
{
    if n == 0 {
        0
    } else {
        row_sum(image, kernel, i, j, k, (n - 1) as nat) + image[i + k]@[j + n - 1].val() * kernel[k]@[n
            - 1].val()
    }
}

/// `sum over k < m, l < kh of image[i + k][j + l] * kernel[k][l]`, over the
/// integers.
pub open spec fn window_sum(
    image: Seq<Vec<Fe>>,
    kernel: Seq<Vec<Fe>>,
    i: int,
    j: int,
    m: nat,
    kh: nat,
) -> int
    decreases m,
{
    if m == 0 {
        0
    } else {
        window_sum(image, kernel, i, j, (m - 1) as nat, kh) + row_sum(image, kernel, i, j, m - 1, kh)
    }
}

/// The convolution at output cell `(i, j)`, as a field element.
pub open spec fn conv_value(dims: Dims, image: Seq<Vec<Fe>>, kernel: Seq<Vec<Fe>>, i: int, j: int) -> nat {
    (window_sum(image, kernel, i, j, dims.kernel_w as nat, dims.kernel_h as nat) % (modulus() as int)) as nat
}

/// The clamped ReLU: `v` when `v <= bound`, else zero.
pub open spec fn relu_value(v: nat, bound: nat) -> nat {
    if v <= bound {
        v
    } else {
        0
    }
}

/// A matrix of field elements, column by column.
#[derive(Clone, Debug)]
pub struct TwoDVec {
    pub data: Vec<Vec<Fe>>,
}

impl TwoDVec {
    pub fn new(a: Vec<Vec<Fe>>) -> (r: TwoDVec)
        ensures
            r.data@ == a@,
    {
        TwoDVec { data: a }
    }
}

/// The cells that synthesis computes: the intermediate convolution and the
/// ReLU output, each `out_w` columns of `out_h` rows.
#[derive(Clone, Debug)]
pub struct Witness {
    pub inter: Vec<Vec<Fe>>,
    pub relu: Vec<Vec<Fe>>,
}

/// `w` is what synthesis computes from `image` and `kernel`.
pub open spec fn is_synthesis(dims: Dims, image: Seq<Vec<Fe>>, kernel: Seq<Vec<Fe>>, w: Witness) -> bool {
    &&& is_matrix(w.inter@, dims.spec_out_w(), dims.spec_out_h())
    &&& is_matrix(w.relu@, dims.spec_out_w(), dims.spec_out_h())
    &&& forall|i: int, j: int|
        0 <= i < dims.spec_out_w() && 0 <= j < dims.spec_out_h() ==> (#[trigger] w.inter@[i]@[j]).val()
            == conv_value(dims, image, kernel, i, j)
    &&& forall|i: int, j: int|
        0 <= i < dims.spec_out_w() && 0 <= j < dims.spec_out_h() ==> (#[trigger] w.relu@[i]@[j]).val()
            == relu_value(w.inter@[i]@[j].val(), dims.relu_bound as nat)
}

/// The convolution constraint: every intermediate cell is the convolution of the image and
/// kernel cells.
pub open spec fn gates_hold(dims: Dims, image: Seq<Vec<Fe>>, kernel: Seq<Vec<Fe>>, w: Witness) -> bool {
    forall|i: int, j: int|
        0 <= i < dims.spec_out_w() && 0 <= j < dims.spec_out_h() ==> (#[trigger] w.inter@[i]@[j]).val()
            == conv_value(dims, image, kernel, i, j)
}

/// The range check: every ReLU cell is an entry of the table `0..=relu_bound`.
pub open spec fn lookups_hold(dims: Dims, w: Witness) -> bool {
    forall|i: int, j: int|
        0 <= i < dims.spec_out_w() && 0 <= j < dims.spec_out_h() ==> (#[trigger] w.relu@[i]@[j]).val()
            <= dims.relu_bound
}

/// The copy constraints: every ReLU cell equals its public output entry.
pub open spec fn bound_to(dims: Dims, w: Witness, public: Seq<Vec<Fe>>) -> bool {
    forall|i: int, j: int|
        0 <= i < dims.spec_out_w() && 0 <= j < dims.spec_out_h() ==> (#[trigger] w.relu@[i]@[j]).val()
            == public[i]@[j].val()
}

/// All the layer's constraints hold.
pub open spec fn satisfied(
    dims: Dims,
    image: Seq<Vec<Fe>>,
    kernel: Seq<Vec<Fe>>,
    w: Witness,
    public: Seq<Vec<Fe>>,
) -> bool {
    &&& gates_hold(dims, image, kernel, w)
    &&& lookups_hold(dims, w)
    &&& bound_to(dims, w, public)
}

/// The convolution at output cell `(i, j)`, accumulated in the field in
/// the order `k`, then `l`.
pub fn conv_at(dims: &Dims, image: &Vec<Vec<Fe>>, kernel: &Vec<Vec<Fe>>, i: usize, j: usize) -> (r: Fe)
    requires
        dims.wf(),
        is_matrix(image@, dims.image_w as nat, dims.image_h as nat),
        is_matrix(kernel@, dims.kernel_w as nat, dims.kernel_h as nat),
        i < dims.spec_out_w(),
        j < dims.spec_out_h(),
    ensures
        r.val() == conv_value(*dims, image@, kernel@, i as int, j as int),
{
    let kw = dims.kernel_w;
    let kh = dims.kernel_h;
    let mut acc = Fe::zero();
    proof {
        vstd::arithmetic::div_mod::lemma_small_mod(0, modulus());
        assert(window_sum(image@, kernel@, i as int, j as int, 0, kh as nat) == 0);
    }
    let mut k: usize = 0;
    while k < kw
        invariant
            dims.wf(),
            kw == dims.kernel_w,
            kh == dims.kernel_h,
            is_matrix(image@, dims.image_w as nat, dims.image_h as nat),
            is_matrix(kernel@, dims.kernel_w as nat, dims.kernel_h as nat),
            i < dims.spec_out_w(),
            j < dims.spec_out_h(),
            k <= kw,
            acc.val() == (window_sum(image@, kernel@, i as int, j as int, k as nat, kh as nat) % (
            modulus() as int)) as nat,
        decreases kw - k,
    {
        let col = &image[i + k];
        let kcol = &kernel[k];
        let mut l: usize = 0;
        while l < kh
            invariant
                dims.wf(),
                kw == dims.kernel_w,
                kh == dims.kernel_h,
                is_matrix(image@, dims.image_w as nat, dims.image_h as nat),
                is_matrix(kernel@, dims.kernel_w as nat, dims.kernel_h as nat),
                i < dims.spec_out_w(),
                j < dims.spec_out_h(),
                k < kw,
                l <= kh,
                *col == image@[i + k],
                *kcol == kernel@[k as int],
                acc.val() == ((window_sum(image@, kernel@, i as int, j as int, k as nat, kh as nat)
                    + row_sum(image@, kernel@, i as int, j as int, k as int, l as nat)) % (
                modulus() as int)) as nat,
            decreases kh - l,
        {
            let p = col[j + l].mul(&kcol[l]);
            let ghost x = window_sum(image@, kernel@, i as int, j as int, k as nat, kh as nat)
                + row_sum(image@, kernel@, i as int, j as int, k as int, l as nat);
            let ghost y: int = (image@[i + k]@[j + l].val() * kernel@[k as int]@[l as int].val()) as int;
            acc = acc.add(&p);
            proof {
                lemma_add_mod_noop(x, y, modulus() as int);
                assert(row_sum(image@, kernel@, i as int, j as int, k as int, (l + 1) as nat)
                    == row_sum(image@, kernel@, i as int, j as int, k as int, l as nat) + y);
            }
            l = l + 1;
        }
        k = k + 1;
    }
    acc
}

/// The private inputs of the layer: the kernel (`mdata`) and the image
/// (`xdata`).
#[derive(Clone, Debug)]
pub struct LogRegCircuit {
    pub mdata: TwoDVec,
    pub xdata: TwoDVec,
}

impl LogRegCircuit {
    /// The image and kernel have the layer's shapes.
    pub open spec fn fits(self, dims: Dims) -> bool {
        &&& is_matrix(self.xdata.data@, dims.image_w as nat, dims.image_h as nat)
        &&& is_matrix(self.mdata.data@, dims.kernel_w as nat, dims.kernel_h as nat)
    }

    /// Computes every intermediate cell as the convolution at its position,
    /// and every ReLU cell as that value clamped: kept when its canonical
    /// integer is at most `relu_bound`, zero otherwise.
    pub fn synthesize(&self, dims: &Dims) -> (w: Witness)
        requires
            dims.wf(),
            self.fits(*dims),
        ensures
            is_synthesis(*dims, self.xdata.data@, self.mdata.data@, w),
    {
        let out_w = dims.out_w();
        let out_h = dims.out_h();
        let bound = Fe::from_u64(dims.relu_bound);
        let zero = Fe::zero();
        let mut inter: Vec<Vec<Fe>> = Vec::new();
        let mut relu: Vec<Vec<Fe>> = Vec::new();
        let mut i: usize = 0;
        while i < out_w
            invariant
                dims.wf(),
                self.fits(*dims),
                out_w == dims.spec_out_w(),
                out_h == dims.spec_out_h(),
                bound.val() == dims.relu_bound,
                zero.val() == 0,
                i <= out_w,
                inter@.len() == i,
                relu@.len() == i,
                forall|a: int| 0 <= a < i ==> (#[trigger] inter@[a])@.len() == out_h,
                forall|a: int| 0 <= a < i ==> (#[trigger] relu@[a])@.len() == out_h,
                forall|a: int, b: int|
                    0 <= a < i && 0 <= b < out_h ==> (#[trigger] inter@[a]@[b]).val() == conv_value(
                        *dims,
                        self.xdata.data@,
                        self.mdata.data@,
                        a,
                        b,
                    ),
                forall|a: int, b: int|
                    0 <= a < i && 0 <= b < out_h ==> (#[trigger] relu@[a]@[b]).val() == relu_value(
                        inter@[a]@[b].val(),
                        dims.relu_bound as nat,
                    ),
            decreases out_w - i,
        {
            let mut icol: Vec<Fe> = Vec::new();
            let mut rcol: Vec<Fe> = Vec::new();
            let mut j: usize = 0;
            while j < out_h
                invariant
                    dims.wf(),
                    self.fits(*dims),
                    out_w == dims.spec_out_w(),
                    out_h == dims.spec_out_h(),
                    bound.val() == dims.relu_bound,
                    zero.val() == 0,
                    i < out_w,
                    j <= out_h,
                    icol@.len() == j,
                    rcol@.len() == j,
                    forall|b: int|
                        0 <= b < j ==> (#[trigger] icol@[b]).val() == conv_value(
                            *dims,
                            self.xdata.data@,
                            self.mdata.data@,
                            i as int,
                            b,
                        ),
                    forall|b: int|
                        0 <= b < j ==> (#[trigger] rcol@[b]).val() == relu_value(
                            icol@[b].val(),
                            dims.relu_bound as nat,
                        ),
                decreases out_h - j,
            {
                let v = conv_at(dims, &self.xdata.data, &self.mdata.data, i, j);
                let r = if v.gt(&bound) {
                    zero
                } else {
                    v
                };
                icol.push(v);
                rcol.push(r);
                j = j + 1;
            }
            inter.push(icol);
            relu.push(rcol);
            i = i + 1;
        }
        Witness { inter, relu }
    }

    /// Evaluates the layer's constraints on `w` against the public output.
    /// A public output that is not `out_w` columns of `out_h` rows is
    /// refused before any constraint is looked at.
    pub fn verify(&self, config: &LogRegConfig, w: &Witness, public: &Vec<Vec<Fe>>) -> (r: Result<
        bool,
        ConfigError,
    >)
        requires
            config.wf(),
            self.fits(config.dims),
            is_matrix(w.inter@, config.dims.spec_out_w(), config.dims.spec_out_h()),
            is_matrix(w.relu@, config.dims.spec_out_w(), config.dims.spec_out_h()),
        ensures
            !is_matrix(public@, config.dims.spec_out_w(), config.dims.spec_out_h()) <==> r
                == Err::<bool, ConfigError>(ConfigError::ShapeMismatch),
            is_matrix(public@, config.dims.spec_out_w(), config.dims.spec_out_h()) ==> r == Ok::<
                bool,
                ConfigError,
            >(satisfied(config.dims, self.xdata.data@, self.mdata.data@, *w, public@)),
    {
        let dims = &config.dims;
        let out_w = dims.out_w();
        let out_h = dims.out_h();
        if public.len() != out_w {
            return Err(ConfigError::ShapeMismatch);
        }
        let mut c: usize = 0;
        while c < out_w
            invariant
                c <= out_w,
                dims == &config.dims,
                out_w == dims.spec_out_w(),
                out_h == dims.spec_out_h(),
                public@.len() == out_w,
                forall|a: int| 0 <= a < c ==> (#[trigger] public@[a])@.len() == out_h,
            decreases out_w - c,
        {
            if public[c].len() != out_h {
                assert(public@[c as int]@.len() != out_h);
                return Err(ConfigError::ShapeMismatch);
            }
            c = c + 1;
        }
        let table = config.reltable.load(dims.relu_bound);
        let ghost image = self.xdata.data@;
        let ghost kernel = self.mdata.data@;
        let cells = Cells { image: &self.xdata.data, kernel: &self.mdata.data, witness: w };
        let mut i: usize = 0;
        while i < out_w
            invariant
                config.wf(),
                dims == &config.dims,
                self.fits(*dims),
                out_w == dims.spec_out_w(),
                out_h == dims.spec_out_h(),
                image == self.xdata.data@,
                kernel == self.mdata.data@,
                cells.image@ == image,
                cells.kernel@ == kernel,
                *cells.witness == *w,
                is_matrix(w.inter@, out_w as nat, out_h as nat),
                is_matrix(w.relu@, out_w as nat, out_h as nat),
                is_matrix(public@, out_w as nat, out_h as nat),
                crate::lookup::is_relu_table(table@, dims.relu_bound as nat),
                i <= out_w,
                forall|a: int, b: int|
                    0 <= a < i && 0 <= b < out_h ==> (#[trigger] w.inter@[a]@[b]).val() == conv_value(
                        *dims,
                        image,
                        kernel,
                        a,
                        b,
                    ),
                forall|a: int, b: int|
                    0 <= a < i && 0 <= b < out_h ==> (#[trigger] w.relu@[a]@[b]).val() <= dims.relu_bound,
                forall|a: int, b: int|
                    0 <= a < i && 0 <= b < out_h ==> (#[trigger] w.relu@[a]@[b]).val() == public@[a]@[b].val(),
            decreases out_w - i,
        {
            let mut j: usize = 0;
            while j < out_h
                invariant
                    config.wf(),
                    dims == &config.dims,
                    self.fits(*dims),
                    out_w == dims.spec_out_w(),
                    out_h == dims.spec_out_h(),
                    image == self.xdata.data@,
                    kernel == self.mdata.data@,
                    cells.image@ == image,
                    cells.kernel@ == kernel,
                    *cells.witness == *w,
                    is_matrix(w.inter@, out_w as nat, out_h as nat),
                    is_matrix(w.relu@, out_w as nat, out_h as nat),
                    is_matrix(public@, out_w as nat, out_h as nat),
                    crate::lookup::is_relu_table(table@, dims.relu_bound as nat),
                    i < out_w,
                    j <= out_h,
                    forall|a: int, b: int|
                        0 <= a < i && 0 <= b < out_h ==> (#[trigger] w.inter@[a]@[b]).val() == conv_value(
                            *dims,
                            image,
                            kernel,
                            a,
                            b,
                        ),
                    forall|a: int, b: int|
                        0 <= a < i && 0 <= b < out_h ==> (#[trigger] w.relu@[a]@[b]).val() <= dims.relu_bound,
                    forall|a: int, b: int|
                        0 <= a < i && 0 <= b < out_h ==> (#[trigger] w.relu@[a]@[b]).val() == public@[a]@[b].val(),
                    forall|a: int, b: int|
                        a == i && 0 <= b < j ==> (#[trigger] w.inter@[a]@[b]).val() == conv_value(
                            *dims,
                            image,
                            kernel,
                            a,
                            b,
                        ),
                    forall|a: int, b: int|
                        a == i && 0 <= b < j ==> (#[trigger] w.relu@[a]@[b]).val() <= dims.relu_bound,
                    forall|a: int, b: int|
                        a == i && 0 <= b < j ==> (#[trigger] w.relu@[a]@[b]).val() == public@[a]@[b].val(),
                decreases out_h - j,
            {
                proof {
                    lemma_gate_is_convolution(*config, image, kernel, *w, i as int, j as int);
                    lemma_lookup_cell(*config, image, kernel, *w, i as int, j as int);
                }
                if !config.eval_identity(&cells, &config.gate[i][j]) {
                    assert(!gates_hold(*dims, image, kernel, *w)) by {
                        assert(w.inter@[i as int]@[j as int].val() != conv_value(
                            *dims,
                            image,
                            kernel,
                            i as int,
                            j as int,
                        ));
                    }
                    return Ok(false);
                }
                let rv = config.cell_value(&cells, &config.lookups[i][j]);
                if !ReLULoookUp::admits(&table, dims.relu_bound, &rv) {
                    assert(!lookups_hold(*dims, *w)) by {
                        assert(w.relu@[i as int]@[j as int].val() > dims.relu_bound);
                    }
                    return Ok(false);
                }
                if !rv.same(&public[i][j]) {
                    assert(!bound_to(*dims, *w, public@)) by {
                        assert(w.relu@[i as int]@[j as int].val() != public@[i as int]@[j as int].val());
                    }
                    return Ok(false);
                }
                j = j + 1;
            }
            i = i + 1;
        }
        Ok(true)
    }
}

} // verus!

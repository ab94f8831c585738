use conv_relu_circuit::assignment::Cells;
use conv_relu_circuit::chip::{CellRef, LogRegChip};
use conv_relu_circuit::circuit::{conv_at, LogRegCircuit, TwoDVec, Witness};
use conv_relu_circuit::dims::{ConfigError, Dims};
use conv_relu_circuit::field::Fe;
use conv_relu_circuit::layout::{AdviceVector, ColumnKind, ColumnRef, ColumnRegistry, InstVector};
use conv_relu_circuit::lookup::ReLULoookUp;

fn matrix(w: usize, h: usize, f: impl Fn(usize, usize) -> i64) -> Vec<Vec<Fe>> {
    (0..w).map(|i| (0..h).map(|j| Fe::from_i64(f(i, j))).collect()).collect()
}

fn layer(image: Vec<Vec<Fe>>, kernel: Vec<Vec<Fe>>) -> LogRegCircuit {
    LogRegCircuit { mdata: TwoDVec::new(kernel), xdata: TwoDVec::new(image) }
}

fn config_for(dims: Dims) -> conv_relu_circuit::chip::LogRegConfig {
    let mut meta = ColumnRegistry::new();
    LogRegChip::configure(&mut meta, dims)
}

#[test]
fn dims_are_checked() {
    assert_eq!(Dims::new(4, 4, 0, 2, 4), Err(ConfigError::EmptyKernel));
    assert_eq!(Dims::new(4, 4, 2, 0, 4), Err(ConfigError::EmptyKernel));
    assert_eq!(Dims::new(4, 4, 5, 2, 4), Err(ConfigError::KernelTooWide));
    assert_eq!(Dims::new(4, 4, 2, 5, 4), Err(ConfigError::KernelTooTall));
    let d = Dims::new(8, 8, 8, 3, 30600).unwrap();
    assert_eq!(d.out_w(), 1);
    assert_eq!(d.out_h(), 6);
    let same = Dims::new(3, 2, 3, 2, 0).unwrap();
    assert_eq!((same.out_w(), same.out_h()), (1, 1));
}

#[test]
fn column_groups_are_consecutive() {
    let mut meta = ColumnRegistry::new();
    let a = AdviceVector::new_adv_vec(&mut meta, 3, 5);
    let b = AdviceVector::new_adv_vec(&mut meta, 2, 4);
    let y = InstVector::new_ins_vec(&mut meta, 2, 4);
    assert_eq!(a.data, vec![0, 1, 2]);
    assert_eq!(a.len, 5);
    assert_eq!(b.data, vec![3, 4]);
    assert_eq!(y.data, vec![0, 1]);
    assert_eq!(meta.num_advice, 5);
    assert_eq!(meta.num_instance, 2);
    assert_eq!(meta.equality.len(), 7);
    assert_eq!(meta.equality[4], ColumnRef { kind: ColumnKind::Advice, index: 4 });
    assert_eq!(meta.equality[6], ColumnRef { kind: ColumnKind::Instance, index: 1 });
}

#[test]
fn configure_lays_out_groups_and_gate() {
    let dims = Dims::new(4, 4, 2, 2, 4).unwrap();
    let mut meta = ColumnRegistry::new();
    let cfg = LogRegChip::configure(&mut meta, dims);
    assert_eq!(cfg.image.data, vec![0, 1, 2, 3]);
    assert_eq!(cfg.kernel.data, vec![4, 5]);
    assert_eq!(cfg.inter.data, vec![6, 7, 8]);
    assert_eq!(cfg.relu.data, vec![9, 10, 11]);
    assert_eq!(cfg.y.data, vec![0, 1, 2]);
    assert_eq!((cfg.selmul, cfg.selrel, cfg.reltable.relop), (0, 1, 0));
    assert_eq!(meta.num_advice, 12);
    assert_eq!(meta.num_instance, 3);
    assert_eq!(meta.num_selectors, 2);
    assert_eq!(meta.num_tables, 1);
    assert_eq!(cfg.gate.len(), 3);
    assert_eq!(cfg.gate[1].len(), 3);
    let id = &cfg.gate[1][2];
    assert_eq!(id.output, CellRef { column: 7, rotation: 2 });
    assert_eq!(id.products.len(), 2);
    assert_eq!(id.products[1].len(), 2);
    assert_eq!(
        id.products[1][0],
        (CellRef { column: 2, rotation: 2 }, CellRef { column: 5, rotation: 0 })
    );
    assert_eq!(
        id.products[0][1],
        (CellRef { column: 1, rotation: 3 }, CellRef { column: 4, rotation: 1 })
    );
    assert_eq!(cfg.lookups[2][1], CellRef { column: 11, rotation: 1 });
}

#[test]
fn relu_table_holds_zero_to_bound() {
    let t = ReLULoookUp { relop: 0 }.load(5);
    assert_eq!(t.len(), 6);
    for (k, v) in t.iter().enumerate() {
        assert_eq!(*v, Fe::from_u64(k as u64));
    }
    assert_eq!(ReLULoookUp { relop: 0 }.load(0), vec![Fe::zero()]);
}

#[test]
fn lookup_boundary() {
    let t = ReLULoookUp { relop: 0 }.load(30);
    assert!(ReLULoookUp::admits(&t, 30, &Fe::from_u64(30)));
    assert!(!ReLULoookUp::admits(&t, 30, &Fe::from_u64(31)));
    assert!(ReLULoookUp::admits(&t, 30, &Fe::zero()));
    assert!(!ReLULoookUp::admits(&t, 30, &Fe::from_i64(-1)));
    assert!(ReLULoookUp::contains(&t, &Fe::from_u64(17)));
}

#[test]
fn all_ones_example() {
    let dims = Dims::new(4, 4, 2, 2, 4).unwrap();
    let c = layer(matrix(4, 4, |_, _| 1), matrix(2, 2, |_, _| 1));
    let cfg = config_for(dims);
    let w = c.synthesize(&dims);
    assert_eq!(w.inter, matrix(3, 3, |_, _| 4));
    assert_eq!(w.relu, matrix(3, 3, |_, _| 4));
    let public = matrix(3, 3, |_, _| 4);
    assert_eq!(c.verify(&cfg, &w, &public), Ok(true));
    let mut changed = public.clone();
    changed[1][2] = Fe::from_u64(5);
    assert_eq!(c.verify(&cfg, &w, &changed), Ok(false));
}

#[test]
fn convolution_uses_the_sliding_window() {
    let dims = Dims::new(3, 3, 2, 2, 1000).unwrap();
    let image = matrix(3, 3, |i, j| (3 * i + j) as i64);
    let kernel = matrix(2, 2, |k, l| (2 * k + l + 1) as i64);
    // out(i, j) = sum image[i+k][j+l] * kernel[k][l]
    let expect = |i: usize, j: usize| -> i64 {
        let mut s = 0;
        for k in 0..2 {
            for l in 0..2 {
                s += (3 * (i + k) + (j + l)) as i64 * (2 * k + l + 1) as i64;
            }
        }
        s
    };
    assert_eq!(expect(0, 0), 0 * 1 + 1 * 2 + 3 * 3 + 4 * 4);
    assert_eq!(conv_at(&dims, &image, &kernel, 0, 0), Fe::from_u64(27));
    assert_eq!(conv_at(&dims, &image, &kernel, 1, 1), Fe::from_i64(expect(1, 1)));
    let c = layer(image, kernel);
    let w = c.synthesize(&dims);
    assert_eq!(w.inter, matrix(2, 2, expect));
    assert_eq!(w.relu, matrix(2, 2, expect));
}

fn single_cell(v: i64, bound: u64) -> (Dims, LogRegCircuit) {
    let dims = Dims::new(1, 1, 1, 1, bound).unwrap();
    let c = layer(matrix(1, 1, |_, _| v), matrix(1, 1, |_, _| 1));
    (dims, c)
}

#[test]
fn clamp_below_at_and_above_bound() {
    for (v, out) in [(4i64, 4u64), (5, 5), (6, 0), (0, 0)] {
        let (dims, c) = single_cell(v, 5);
        let w = c.synthesize(&dims);
        assert_eq!(w.inter[0][0], Fe::from_i64(v));
        assert_eq!(w.relu[0][0], Fe::from_u64(out));
    }
}

#[test]
fn clamp_sends_negative_values_to_zero() {
    let dims = Dims::new(2, 1, 1, 1, 100).unwrap();
    let c = layer(matrix(2, 1, |i, _| i as i64 + 1), matrix(1, 1, |_, _| -3));
    let w = c.synthesize(&dims);
    assert_eq!(w.inter, vec![vec![Fe::from_i64(-3)], vec![Fe::from_i64(-6)]]);
    assert_eq!(w.relu, vec![vec![Fe::zero()], vec![Fe::zero()]]);
    let cfg = config_for(dims);
    assert_eq!(c.verify(&cfg, &w, &w.relu.clone()), Ok(true));
}

#[test]
fn honest_witness_is_accepted() {
    let dims = Dims::new(5, 4, 2, 3, 255 * 5 * 6).unwrap();
    let image = matrix(5, 4, |i, j| ((i * 37 + j * 11) % 256) as i64);
    let kernel = matrix(2, 3, |k, l| (k as i64 * 3 + l as i64) % 11 - 5);
    let c = layer(image, kernel);
    let cfg = config_for(dims);
    let w = c.synthesize(&dims);
    assert_eq!(c.verify(&cfg, &w, &w.relu.clone()), Ok(true));
    let inter_as_public = w.inter.clone();
    let expected = inter_as_public
        .iter()
        .zip(w.relu.iter())
        .all(|(a, b)| a == b);
    assert_eq!(c.verify(&cfg, &w, &inter_as_public), Ok(expected));
}

#[test]
fn a_changed_public_entry_is_rejected() {
    let dims = Dims::new(4, 3, 2, 2, 1000).unwrap();
    let c = layer(matrix(4, 3, |i, j| (i + j) as i64), matrix(2, 2, |_, _| 2));
    let cfg = config_for(dims);
    let w = c.synthesize(&dims);
    let public = w.relu.clone();
    assert_eq!(c.verify(&cfg, &w, &public), Ok(true));
    for i in 0..3 {
        for j in 0..2 {
            let mut changed = public.clone();
            changed[i][j] = changed[i][j].add(&Fe::from_u64(1));
            assert_eq!(c.verify(&cfg, &w, &changed), Ok(false));
        }
    }
}

#[test]
fn out_of_range_relu_cell_fails_the_lookup() {
    let (dims, c) = single_cell(7, 7);
    let cfg = config_for(dims);
    let at_bound = Witness { inter: vec![vec![Fe::from_u64(7)]], relu: vec![vec![Fe::from_u64(7)]] };
    assert_eq!(c.verify(&cfg, &at_bound, &vec![vec![Fe::from_u64(7)]]), Ok(true));
    let (dims8, c8) = single_cell(8, 7);
    let cfg8 = config_for(dims8);
    let above = Witness { inter: vec![vec![Fe::from_u64(8)]], relu: vec![vec![Fe::from_u64(8)]] };
    assert_eq!(c8.verify(&cfg8, &above, &vec![vec![Fe::from_u64(8)]]), Ok(false));
}

#[test]
fn wrong_intermediate_fails_the_gate() {
    let (dims, c) = single_cell(3, 10);
    let cfg = config_for(dims);
    let w = Witness { inter: vec![vec![Fe::from_u64(2)]], relu: vec![vec![Fe::from_u64(2)]] };
    assert_eq!(c.verify(&cfg, &w, &vec![vec![Fe::from_u64(2)]]), Ok(false));
}

#[test]
fn public_output_of_wrong_shape_is_refused() {
    let dims = Dims::new(4, 4, 2, 2, 4).unwrap();
    let c = layer(matrix(4, 4, |_, _| 1), matrix(2, 2, |_, _| 1));
    let cfg = config_for(dims);
    let w = c.synthesize(&dims);
    let too_few_columns = matrix(2, 3, |_, _| 4);
    assert_eq!(c.verify(&cfg, &w, &too_few_columns), Err(ConfigError::ShapeMismatch));
    let too_many_columns = matrix(4, 3, |_, _| 4);
    assert_eq!(c.verify(&cfg, &w, &too_many_columns), Err(ConfigError::ShapeMismatch));
    let mut short_column = matrix(3, 3, |_, _| 4);
    short_column[2].pop();
    assert_eq!(c.verify(&cfg, &w, &short_column), Err(ConfigError::ShapeMismatch));
    let mut long_column = matrix(3, 3, |_, _| 4);
    long_column[0].push(Fe::from_u64(4));
    assert_eq!(c.verify(&cfg, &w, &long_column), Err(ConfigError::ShapeMismatch));
}

#[test]
fn identities_evaluate_on_the_cells() {
    let dims = Dims::new(4, 4, 2, 2, 4).unwrap();
    let image = matrix(4, 4, |i, j| (i * 4 + j) as i64);
    let c = layer(image, matrix(2, 2, |k, l| (k + 2 * l) as i64));
    let cfg = config_for(dims);
    let w = c.synthesize(&dims);
    let cells = Cells { image: &c.xdata.data, kernel: &c.mdata.data, witness: &w };
    assert_eq!(cfg.cell_value(&cells, &CellRef { column: 2, rotation: 3 }), Fe::from_u64(11));
    assert_eq!(cfg.cell_value(&cells, &CellRef { column: 5, rotation: 1 }), Fe::from_u64(3));
    assert_eq!(cfg.cell_value(&cells, &CellRef { column: 7, rotation: 2 }), w.inter[1][2]);
    assert_eq!(cfg.cell_value(&cells, &CellRef { column: 11, rotation: 0 }), w.relu[2][0]);
    for i in 0..3 {
        for j in 0..3 {
            assert!(cfg.eval_identity(&cells, &cfg.gate[i][j]));
        }
    }
    let mut bad = w.clone();
    bad.inter[1][1] = bad.inter[1][1].add(&Fe::from_u64(1));
    let bad_cells = Cells { image: &c.xdata.data, kernel: &c.mdata.data, witness: &bad };
    assert!(!cfg.eval_identity(&bad_cells, &cfg.gate[1][1]));
    assert!(cfg.eval_identity(&bad_cells, &cfg.gate[0][0]));
}

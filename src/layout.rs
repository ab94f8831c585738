//! Column allocation: the groups of cells that the convolution constraint, the lookup and the
//! witness address by (column, row).
use vstd::prelude::*;

verus! {

/// Private cells the prover fills, or public cells the verifier supplies.
#[derive(Clone, Copy, Debug, PartialEq, Eq, Structural)]
pub enum ColumnKind {
    Advice,
    Instance,
}

/// One column, by kind and by its index among the columns of that kind.
#[derive(Clone, Copy, Debug, PartialEq, Eq, Structural)]
pub struct ColumnRef {
    pub kind: ColumnKind,
    pub index: usize,
}

/// The columns, selectors and table columns that a circuit has declared so
/// far, and the columns on which copy constraints are enabled.
pub struct ColumnRegistry {
    pub num_advice: usize,
    pub num_instance: usize,
    pub num_selectors: usize,
    pub num_tables: usize,
    pub equality: Vec<ColumnRef>,
}

impl ColumnRegistry {
    /// A registry with nothing declared.
    pub fn new() -> (r: ColumnRegistry)
        ensures
            r.num_advice == 0,
            r.num_instance == 0,
            r.num_selectors == 0,
            r.num_tables == 0,
            r.equality@.len() == 0,
    {
        ColumnRegistry {
            num_advice: 0,
            num_instance: 0,
            num_selectors: 0,
            num_tables: 0,
            equality: Vec::new(),
        }
    }

    /// Declares a selector and returns its index.
    pub fn selector(&mut self) -> (r: usize)
        requires
            old(self).num_selectors < usize::MAX,
        ensures
            r == old(self).num_selectors,
            final(self).num_selectors == old(self).num_selectors + 1,
            final(self).num_advice == old(self).num_advice,
            final(self).num_instance == old(self).num_instance,
            final(self).num_tables == old(self).num_tables,
            final(self).equality == old(self).equality,
    {
        let r = self.num_selectors;
        self.num_selectors = r + 1;
        r
    }

    /// Declares a lookup table column and returns its index.
    pub fn lookup_table_column(&mut self) -> (r: usize)
        requires
            old(self).num_tables < usize::MAX,
        ensures
            r == old(self).num_tables,
            final(self).num_tables == old(self).num_tables + 1,
            final(self).num_advice == old(self).num_advice,
            final(self).num_instance == old(self).num_instance,
            final(self).num_selectors == old(self).num_selectors,
            final(self).equality == old(self).equality,
    {
        let r = self.num_tables;
        self.num_tables = r + 1;
        r
    }
}

/// The advice columns `first, first + 1, ..., first + n - 1`.
pub open spec fn consecutive(first: nat, n: nat) -> Seq<usize> {
    Seq::new(n, |k: int| (first + k) as usize)
}

/// Those columns as advice or instance columns with copy constraints enabled.
pub open spec fn as_refs(kind: ColumnKind, cols: Seq<usize>) -> Seq<ColumnRef> {
    cols.map_values(|c: usize| ColumnRef { kind, index: c })
}

/// A group of advice columns, each holding `len` rows.
#[derive(Clone, Debug)]
pub struct AdviceVector {
    pub data: Vec<usize>,
    pub len: usize,
}

/// A group of instance columns, each holding `len` rows.
#[derive(Clone, Debug)]
pub struct InstVector {
    pub data: Vec<usize>,
    pub len: usize,
}

/// Declares `n` consecutive columns of one kind with copy constraints
/// enabled on each.
fn declare_columns(meta: &mut ColumnRegistry, kind: ColumnKind, n: usize) -> (r: Vec<usize>)
    requires
        kind == ColumnKind::Advice ==> old(meta).num_advice + n <= usize::MAX,
        kind == ColumnKind::Instance ==> old(meta).num_instance + n <= usize::MAX,
    ensures
        kind == ColumnKind::Advice ==> r@ == consecutive(old(meta).num_advice as nat, n as nat),
        kind == ColumnKind::Instance ==> r@ == consecutive(old(meta).num_instance as nat, n as nat),
        kind == ColumnKind::Advice ==> final(meta).num_advice == old(meta).num_advice + n,
        kind == ColumnKind::Advice ==> final(meta).num_instance == old(meta).num_instance,
        kind == ColumnKind::Instance ==> final(meta).num_instance == old(meta).num_instance + n,
        kind == ColumnKind::Instance ==> final(meta).num_advice == old(meta).num_advice,
        final(meta).num_selectors == old(meta).num_selectors,
        final(meta).num_tables == old(meta).num_tables,
        final(meta).equality@ == old(meta).equality@ + as_refs(kind, r@),
{
    let mut cols: Vec<usize> = Vec::new();
    let mut i: usize = 0;
    while i < n
        invariant
            i <= n,
            kind == ColumnKind::Advice ==> old(meta).num_advice + n <= usize::MAX,
            kind == ColumnKind::Instance ==> old(meta).num_instance + n <= usize::MAX,
            kind == ColumnKind::Advice ==> cols@ == consecutive(old(meta).num_advice as nat, i as nat),
            kind == ColumnKind::Instance ==> cols@ == consecutive(old(meta).num_instance as nat, i as nat),
            kind == ColumnKind::Advice ==> meta.num_advice == old(meta).num_advice + i,
            kind == ColumnKind::Advice ==> meta.num_instance == old(meta).num_instance,
            kind == ColumnKind::Instance ==> meta.num_instance == old(meta).num_instance + i,
            kind == ColumnKind::Instance ==> meta.num_advice == old(meta).num_advice,
            meta.num_selectors == old(meta).num_selectors,
            meta.num_tables == old(meta).num_tables,
            meta.equality@ == old(meta).equality@ + as_refs(kind, cols@),
        decreases n - i,
    {
        let c = match kind {
            ColumnKind::Advice => {
                let c = meta.num_advice;
                meta.num_advice = c + 1;
                c
            },
            ColumnKind::Instance => {
                let c = meta.num_instance;
                meta.num_instance = c + 1;
                c
            },
        };
        let ghost prev = cols@;
        meta.equality.push(ColumnRef { kind, index: c });
        cols.push(c);
        i = i + 1;
        proof {
            let k = kind;
            if k == ColumnKind::Advice {
                assert(cols@ =~= consecutive(old(meta).num_advice as nat, i as nat));
            } else {
                assert(cols@ =~= consecutive(old(meta).num_instance as nat, i as nat));
            }
            assert(as_refs(kind, cols@) =~= as_refs(kind, cols@.drop_last()).push(
                ColumnRef { kind, index: c },
            ));
            assert(cols@.drop_last() =~= prev);
        }
    }
    cols
}

impl InstVector {
    /// Declares `vec_size` instance columns of `len` rows, each with copy
    /// constraints enabled.
    pub fn new_ins_vec(meta: &mut ColumnRegistry, vec_size: usize, len: usize) -> (r: InstVector)
        requires
            old(meta).num_instance + vec_size <= usize::MAX,
        ensures
            r.len == len,
            r.data@ == consecutive(old(meta).num_instance as nat, vec_size as nat),
            final(meta).num_instance == old(meta).num_instance + vec_size,
            final(meta).num_advice == old(meta).num_advice,
            final(meta).num_selectors == old(meta).num_selectors,
            final(meta).num_tables == old(meta).num_tables,
            final(meta).equality@ == old(meta).equality@ + as_refs(ColumnKind::Instance, r.data@),
    {
        let data = declare_columns(meta, ColumnKind::Instance, vec_size);
        InstVector { data, len }
    }
}

impl AdviceVector {
    /// Declares `vec_size` advice columns of `len` rows, each with copy
    /// constraints enabled.
    pub fn new_adv_vec(meta: &mut ColumnRegistry, vec_size: usize, len: usize) -> (r: AdviceVector)
        requires
            old(meta).num_advice + vec_size <= usize::MAX,
        ensures
            r.len == len,
            r.data@ == consecutive(old(meta).num_advice as nat, vec_size as nat),
            final(meta).num_advice == old(meta).num_advice + vec_size,
            final(meta).num_instance == old(meta).num_instance,
            final(meta).num_selectors == old(meta).num_selectors,
            final(meta).num_tables == old(meta).num_tables,
            final(meta).equality@ == old(meta).equality@ + as_refs(ColumnKind::Advice, r.data@),
    {
        let data = declare_columns(meta, ColumnKind::Advice, vec_size);
        AdviceVector { data, len }
    }
}

} // verus!

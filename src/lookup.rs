//! The ReLU range check: a fixed table of the integers `0..=relu_bound` and
//! membership in it.
use crate::field::Fe;
use crate::layout::ColumnRegistry;
use vstd::prelude::*;

verus! {

/// The table holds `0, 1, ..., bound`, in that order.
pub open spec fn is_relu_table(t: Seq<Fe>, bound: nat) -> bool {
    &&& t.len() == bound + 1
    &&& forall|k: int| 0 <= k < t.len() ==> (#[trigger] t[k]).val() == k
}

/// `v` is one of the table's entries.
pub open spec fn in_table(t: Seq<Fe>, v: nat) -> bool {
    exists|k: int| 0 <= k < t.len() && (#[trigger] t[k]).val() == v
}

/// Membership in the ReLU table is exactly the range `0..=bound`.
pub proof fn lemma_relu_table_range(t: Seq<Fe>, bound: nat, v: nat)
    requires
        is_relu_table(t, bound),
    ensures
        in_table(t, v) <==> v <= bound,
{
    if v <= bound {
        assert(t[v as int].val() == v);
    }
}

/// The table column of the range check.
#[derive(Clone, Copy, Debug)]
pub struct ReLULoookUp {
    pub relop: usize,
}

impl ReLULoookUp {
    /// Declares the table column.
    pub fn configure(meta: &mut ColumnRegistry) -> (r: ReLULoookUp)
        requires
            old(meta).num_tables < usize::MAX,
        ensures
            r.relop == old(meta).num_tables,
            final(meta).num_tables == old(meta).num_tables + 1,
            final(meta).num_advice == old(meta).num_advice,
            final(meta).num_instance == old(meta).num_instance,
            final(meta).num_selectors == old(meta).num_selectors,
            final(meta).equality == old(meta).equality,
    {
        let relop = meta.lookup_table_column();
        ReLULoookUp { relop }
    }

    /// The values to load into the table column, row by row: `0..=bound`.
    pub fn load(&self, bound: u64) -> (r: Vec<Fe>)
        ensures
            is_relu_table(r@, bound as nat),
    {
        let mut table: Vec<Fe> = Vec::new();
        let mut i: u64 = 0;
        loop
            invariant_except_break
                table@.len() == i,
            invariant
                i <= bound,
                forall|k: int| 0 <= k < table@.len() ==> (#[trigger] table@[k]).val() == k,
            ensures
                is_relu_table(table@, bound as nat),
            decreases bound - i,
        {
            table.push(Fe::from_u64(i));
            if i == bound {
                break;
            }
            i = i + 1;
        }
        table
    }

    /// Whether `v` is an entry of `table`.
    pub fn contains(table: &Vec<Fe>, v: &Fe) -> (r: bool)
        ensures
            r == in_table(table@, v.val()),
    {
        let mut k: usize = 0;
        while k < table.len()
            invariant
                k <= table@.len(),
                forall|m: int| 0 <= m < k ==> (#[trigger] table@[m]).val() != v.val(),
            decreases table@.len() - k,
        {
            if table[k].same(v) {
                return true;
            }
            k = k + 1;
        }
        false
    }

    /// Whether a ReLU cell holding `v` passes the range check against the
    /// table for `bound`: exactly when `v <= bound`.
    pub fn admits(table: &Vec<Fe>, bound: u64, v: &Fe) -> (r: bool)
        requires
            is_relu_table(table@, bound as nat),
        ensures
            r == (v.val() <= bound),
    {
        proof {
            lemma_relu_table_range(table@, bound as nat, v.val());
        }
        Self::contains(table, v)
    }
}

} // verus!

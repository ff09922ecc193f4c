use vstd::prelude::*;

verus! {

/// Declaration index of the variant after `i` under the rotate policy:
/// the next index, wrapping back to the first at the end. Total for n >= 1.
pub open spec fn rotate_succ(i: int, n: int) -> int {
    if i + 1 < n {
        i + 1
    } else {
        0
    }
}

/// Declaration index of the variant before `i` under the rotate policy:
/// the previous index, wrapping to the last at the start. Total for n >= 1.
pub open spec fn rotate_pred(i: int, n: int) -> int {
    if i > 0 {
        i - 1
    } else {
        n - 1
    }
}

/// Declaration index after `i` under the shift policy: absent at the end.
pub open spec fn shift_succ(i: int, n: int) -> Option<int> {
    if i + 1 < n {
        Some(i + 1)
    } else {
        None
    }
}

/// Declaration index before `i` under the shift policy: absent at the start.
pub open spec fn shift_pred(i: int, n: int) -> Option<int> {
    if i > 0 {
        Some(i - 1)
    } else {
        None
    }
}

/// Successor and predecessor of one variant, by declaration index; `None`
/// marks absence at a boundary under a partial policy.
#[derive(Clone, Copy, PartialEq, Eq, Structural, Debug)]
pub struct TableEntry {
    pub succ: Option<usize>,
    pub pred: Option<usize>,
}

/// Whether `e` is the rotate-policy entry for index `i` of `n` variants.
pub open spec fn entry_is_rotate(e: TableEntry, i: int, n: int) -> bool {
    &&& e.succ matches Some(s) && s == rotate_succ(i, n)
    &&& e.pred matches Some(p) && p == rotate_pred(i, n)
}

/// Whether `e` is the shift-policy entry for index `i` of `n` variants.
pub open spec fn entry_is_shift(e: TableEntry, i: int, n: int) -> bool {
    &&& match e.succ {
        Some(s) => shift_succ(i, n) == Some(s as int),
        None => shift_succ(i, n) is None,
    }
    &&& match e.pred {
        Some(p) => shift_pred(i, n) == Some(p as int),
        None => shift_pred(i, n) is None,
    }
}

/// The derived mapping of one generator run: entry `i` gives the successor
/// and predecessor of the variant at declaration index `i`. Keying by index
/// makes the mapping cover each of the `len` variants exactly once.
pub struct TransitionTable {
    pub entries: Vec<TableEntry>,
}

impl TransitionTable {
    /// The cyclic mapping over `n` variants: both directions always present.
    pub fn rotate(n: usize) -> (r: TransitionTable)
        ensures
            r.entries@.len() == n,
            forall|i: int| 0 <= i < n ==> entry_is_rotate(#[trigger] r.entries@[i], i, n as int),
    {
        let mut entries: Vec<TableEntry> = Vec::new();
        let mut i: usize = 0;
        while i < n
            invariant
                i <= n,
                entries@.len() == i,
                forall|j: int| 0 <= j < i ==> entry_is_rotate(#[trigger] entries@[j], j, n as int),
            decreases n - i,
        {
            let succ = if i + 1 < n {
                i + 1
            } else {
                0
            };
            let pred = if i > 0 {
                i - 1
            } else {
                n - 1
            };
            entries.push(TableEntry { succ: Some(succ), pred: Some(pred) });
            i += 1;
        }
        TransitionTable { entries }
    }

    /// The bounded mapping over `n` variants: absent at either boundary.
    pub fn shift(n: usize) -> (r: TransitionTable)
        ensures
            r.entries@.len() == n,
            forall|i: int| 0 <= i < n ==> entry_is_shift(#[trigger] r.entries@[i], i, n as int),
    {
        let mut entries: Vec<TableEntry> = Vec::new();
        let mut i: usize = 0;
        while i < n
            invariant
                i <= n,
                entries@.len() == i,
                forall|j: int| 0 <= j < i ==> entry_is_shift(#[trigger] entries@[j], j, n as int),
            decreases n - i,
        {
            let succ = if i + 1 < n {
                Some(i + 1)
            } else {
                None
            };
            let pred = if i > 0 {
                Some(i - 1)
            } else {
                None
            };
            entries.push(TableEntry { succ, pred });
            i += 1;
        }
        TransitionTable { entries }
    }
}

/// Law: under the rotate policy, successor and predecessor invert each
/// other on every declaration index, so rotating forward after backward
/// (or backward after forward) returns the starting variant.
pub proof fn lemma_rotate_round_trip(i: int, n: int)
    requires
        0 <= i < n,
    ensures
        rotate_succ(rotate_pred(i, n), n) == i,
        rotate_pred(rotate_succ(i, n), n) == i,
{
}

/// Law: under the shift policy, successor then predecessor (and the other
/// way round) return an interior variant unchanged, and absence occurs
/// exactly at the last index going forward and the first going backward.
pub proof fn lemma_shift_round_trip(i: int, n: int)
    requires
        0 <= i < n,
    ensures
        shift_succ(i, n) is None <==> i == n - 1,
        shift_pred(i, n) is None <==> i == 0,
        shift_succ(i, n) matches Some(j) ==> shift_pred(j, n) == Some(i),
        shift_pred(i, n) matches Some(j) ==> shift_succ(j, n) == Some(i),
{
}

} // verus!

//! Keyed list reconciliation: the moves, inserts and removals that turn the
//! rows on screen into the rows wanted, while reusing rows whose key survives.
use vstd::prelude::*;

verus! {

/// One edit of a list of rows.
#[derive(Debug, Clone, Copy, PartialEq, Eq, Structural)]
pub enum RowSyncOp {
    /// Take the row at `from` out and put it back at `to`.
    Move { from: usize, to: usize },
    /// Create the wanted row at `at`.
    Insert { at: usize },
    /// Drop the row at `at`.
    Remove { at: usize },
}

/// A row key: compared by its abstract value.
pub trait RowKey: Sized {
    type V;

    spec fn key(&self) -> Self::V;

    fn same(&self, other: &Self) -> (b: bool)
        ensures
            b == (self.key() == other.key());

    fn copy_key(&self) -> (c: Self)
        ensures
            c.key() == self.key();
}

impl RowKey for usize {
    type V = usize;

    open spec fn key(&self) -> usize {
        *self
    }

    fn same(&self, other: &Self) -> (b: bool) {
        *self == *other
    }

    fn copy_key(&self) -> (c: Self) {
        *self
    }
}

impl RowKey for String {
    type V = Seq<char>;

    open spec fn key(&self) -> Seq<char> {
        self@
    }

    fn same(&self, other: &Self) -> (b: bool) {
        *self == *other
    }

    fn copy_key(&self) -> (c: Self) {
        self.clone()
    }
}

/// The abstract keys of a list of rows.
pub open spec fn keys<K: RowKey>(s: Seq<K>) -> Seq<K::V> {
    s.map_values(|k: K| k.key())
}

/// No key occurs twice.
pub open spec fn distinct<V>(s: Seq<V>) -> bool {
    forall|i: int, j: int| 0 <= i < s.len() && 0 <= j < s.len() && i != j ==> s[i] != s[j]
}

/// The index of the first occurrence of `k`.
pub open spec fn position_of<V>(s: Seq<V>, k: V) -> Option<int>
    decreases s.len(),
{
    if s.len() == 0 {
        None
    } else if s[0] == k {
        Some(0)
    } else {
        match position_of(s.drop_first(), k) {
            Some(i) => Some(i + 1),
            None => None,
        }
    }
}

/// `s` with the element at `from` moved to `to`.
pub open spec fn moved<V>(s: Seq<V>, from: int, to: int) -> Seq<V> {
    s.remove(from).insert(to, s[from])
}

/// The edits, target index by target index: a row already in place stays; a
/// row found elsewhere moves into place; a missing row is inserted. Then the
/// surplus rows at the end are removed.
pub open spec fn sync_ops<V>(working: Seq<V>, next: Seq<V>, t: nat) -> Seq<RowSyncOp>
    decreases next.len() - t, working.len(),
{
    if t < next.len() {
        if t < working.len() && working[t as int] == next[t as int] {
            sync_ops(working, next, t + 1)
        } else {
            match position_of(working, next[t as int]) {
                Some(f) => seq![RowSyncOp::Move { from: f as usize, to: t as usize }] + sync_ops(
                    moved(working, f, t as int),
                    next,
                    t + 1,
                ),
                None => seq![RowSyncOp::Insert { at: t as usize }] + sync_ops(
                    working.insert(t as int, next[t as int]),
                    next,
                    t + 1,
                ),
            }
        }
    } else if working.len() > next.len() && t == next.len() {
        seq![RowSyncOp::Remove { at: next.len() as usize }] + sync_ops(
            working.remove(next.len() as int),
            next,
            t,
        )
    } else {
        Seq::empty()
    }
}

/// Applies edits to a list of keys; inserted rows take their key from `next`.
pub open spec fn apply_ops<V>(s: Seq<V>, ops: Seq<RowSyncOp>, next: Seq<V>) -> Seq<V>
    decreases ops.len(),
{
    if ops.len() == 0 {
        s
    } else {
        let s1 = match ops[0] {
            RowSyncOp::Move { from, to } => moved(s, from as int, to as int),
            RowSyncOp::Insert { at } => s.insert(at as int, next[at as int]),
            RowSyncOp::Remove { at } => s.remove(at as int),
        };
        apply_ops(s1, ops.drop_first(), next)
    }
}

proof fn lemma_position_of<V>(s: Seq<V>, k: V, f: int)
    requires
        0 <= f < s.len(),
        s[f] == k,
        forall|j: int| 0 <= j < f ==> s[j] != k,
    ensures
        position_of(s, k) == Some(f),
    decreases f,
{
    if f > 0 {
        lemma_position_of(s.drop_first(), k, f - 1);
    }
}

proof fn lemma_position_none<V>(s: Seq<V>, k: V)
    requires
        forall|j: int| 0 <= j < s.len() ==> s[j] != k,
    ensures
        position_of(s, k) is None,
    decreases s.len(),
{
    if s.len() > 0 {
        lemma_position_none(s.drop_first(), k);
    }
}

/// The greedy edits reach the wanted list from a list agreeing with it on the
/// first `t` positions.
proof fn lemma_sync_reaches<V>(working: Seq<V>, next: Seq<V>, t: nat)
    requires
        distinct(next),
        t <= next.len(),
        t <= working.len(),
        next.len() <= usize::MAX,
        working.len() + (next.len() - t) <= usize::MAX,
        forall|i: int| 0 <= i < t ==> working[i] == next[i],
    ensures
        apply_ops(working, sync_ops(working, next, t), next) == next,
    decreases next.len() - t, working.len(),
{
    if t < next.len() {
        if t < working.len() && working[t as int] == next[t as int] {
            lemma_sync_reaches(working, next, t + 1);
        } else {
            let ops = sync_ops(working, next, t);
            match position_of(working, next[t as int]) {
                Some(f) => {
                    lemma_position_facts(working, next[t as int]);
                    assert(f >= t) by {
                        if f < t {
                            assert(working[f] == next[f]);
                        }
                    }
                    let w1 = moved(working, f, t as int);
                    assert(ops.drop_first() =~= sync_ops(w1, next, t + 1));
                    assert(ops[0] == RowSyncOp::Move { from: f as usize, to: t as usize });
                    assert forall|i: int| 0 <= i < t + 1 implies w1[i] == next[i] by {
                        if i < t {
                            assert(w1[i] == working[i]);
                        }
                    }
                    lemma_sync_reaches(w1, next, t + 1);
                },
                None => {
                    let w1 = working.insert(t as int, next[t as int]);
                    assert(ops.drop_first() =~= sync_ops(w1, next, t + 1));
                    assert(ops[0] == RowSyncOp::Insert { at: t as usize });
                    assert forall|i: int| 0 <= i < t + 1 implies w1[i] == next[i] by {
                        if i < t {
                            assert(w1[i] == working[i]);
                        }
                    }
                    lemma_sync_reaches(w1, next, t + 1);
                },
            }
        }
    } else if working.len() > next.len() {
        let ops = sync_ops(working, next, t);
        let w1 = working.remove(next.len() as int);
        assert(ops.drop_first() =~= sync_ops(w1, next, t));
        assert(ops[0] == RowSyncOp::Remove { at: next.len() as usize });
        lemma_sync_reaches(w1, next, t);
    } else {
        assert(working =~= next);
    }
}

proof fn lemma_position_facts<V>(s: Seq<V>, k: V)
    ensures
        position_of(s, k) matches Some(f) ==> 0 <= f < s.len() && s[f] == k && forall|j: int|
            0 <= j < f ==> s[j] != k,
        position_of(s, k) is None ==> forall|j: int| 0 <= j < s.len() ==> s[j] != k,
    decreases s.len(),
{
    if s.len() > 0 {
        lemma_position_facts(s.drop_first(), k);
        if s[0] != k {
            assert forall|j: int| 0 <= j < s.len() && position_of(s, k) is None implies s[j] != k by {
                if j > 0 {
                    assert(s.drop_first()[j - 1] == s[j]);
                }
            }
            if let Some(f) = position_of(s, k) {
                assert forall|j: int| 0 <= j < f implies s[j] != k by {
                    if j > 0 {
                        assert(s.drop_first()[j - 1] == s[j]);
                    }
                }
            }
        }
    }
}

/// With distinct wanted keys, applying the edits to the current rows yields
/// exactly the wanted rows: every row ends up where it is wanted.
pub proof fn law_row_sync_reaches_target<V>(current: Seq<V>, next: Seq<V>)
    requires
        distinct(next),
        current.len() + next.len() <= usize::MAX,
    ensures
        apply_ops(current, sync_ops(current, next, 0), next) == next,
{
    lemma_sync_reaches(current, next, 0);
}

/// The index of the first row with `key`, searching all of `working`.
fn find_key<K: RowKey>(working: &Vec<K>, key: &K) -> (out: Option<usize>)
    ensures
        match out {
            Some(f) => position_of(keys(working@), key.key()) == Some(f as int),
            None => position_of(keys(working@), key.key()) is None,
        },
{
    let mut i: usize = 0;
    while i < working.len()
        invariant
            i <= working.len(),
            forall|j: int| 0 <= j < i ==> keys(working@)[j] != key.key(),
        decreases working.len() - i,
    {
        if working[i].same(key) {
            proof {
                lemma_position_of(keys(working@), key.key(), i as int);
            }
            return Some(i);
        }
        i += 1;
    }
    proof {
        lemma_position_none(keys(working@), key.key());
    }
    None
}

/// The edits that turn rows keyed `current_keys` into rows keyed `next_keys`.
/// Wanted keys must be distinct (a row cannot be in two places).
pub fn row_sync_ops<K: RowKey>(current_keys: &[K], next_keys: &[K]) -> (ops: Vec<RowSyncOp>)
    requires
        distinct(keys(next_keys@)),
        current_keys@.len() + next_keys@.len() <= usize::MAX,
    ensures
        ops@ == sync_ops(keys(current_keys@), keys(next_keys@), 0),
        apply_ops(keys(current_keys@), ops@, keys(next_keys@)) == keys(next_keys@),
{
    let ghost next = keys(next_keys@);
    let ghost start = keys(current_keys@);
    let mut working: Vec<K> = Vec::new();
    let mut c: usize = 0;
    while c < current_keys.len()
        invariant
            c <= current_keys.len(),
            working@.len() == c,
            keys(working@) == keys(current_keys@.take(c as int)),
        decreases current_keys.len() - c,
    {
        let ghost before = working@;
        let item = current_keys[c].copy_key();
        working.push(item);
        assert forall|i: int| 0 <= i < c + 1 implies #[trigger] keys(working@)[i] == keys(
            current_keys@.take(c + 1),
        )[i] by {
            assert(keys(working@)[i] == working@[i].key());
            assert(keys(current_keys@.take(c + 1))[i] == current_keys@[i].key());
            if i < c {
                assert(working@[i] == before[i]);
                assert(keys(before)[i] == before[i].key());
                assert(keys(current_keys@.take(c as int))[i] == current_keys@[i].key());
            }
        }
        assert(keys(working@) =~= keys(current_keys@.take(c + 1)));
        c += 1;
    }
    assert(current_keys@.take(current_keys.len() as int) =~= current_keys@);
    let mut ops: Vec<RowSyncOp> = Vec::new();
    let mut t: usize = 0;
    while t < next_keys.len()
        invariant
            t <= next_keys.len(),
            t <= working.len(),
            working.len() + (next_keys.len() - t) <= usize::MAX,
            next == keys(next_keys@),
            start == keys(current_keys@),
            distinct(next),
            forall|i: int| 0 <= i < t ==> keys(working@)[i] == next[i],
            ops@ + sync_ops(keys(working@), next, t as nat) == sync_ops(start, next, 0),
        decreases next_keys.len() - t,
    {
        let ghost w = keys(working@);
        let ghost before = ops@;
        let in_place = t < working.len() && working[t].same(&next_keys[t]);
        if in_place {
            t += 1;
        } else {
            match find_key(&working, &next_keys[t]) {
                Some(f) => {
                    proof {
                        lemma_position_facts(w, next[t as int]);
                        if f < t {
                            assert(w[f as int] == next[f as int]);
                        }
                    }
                    let row = working.remove(f);
                    working.insert(t, row);
                    assert(keys(working@) =~= moved(w, f as int, t as int));
                    ops.push(RowSyncOp::Move { from: f, to: t });
                    assert(before + sync_ops(w, next, t as nat) =~= ops@ + sync_ops(
                        keys(working@),
                        next,
                        (t + 1) as nat,
                    ));
                },
                None => {
                    working.insert(t, next_keys[t].copy_key());
                    assert(keys(working@) =~= w.insert(t as int, next[t as int]));
                    ops.push(RowSyncOp::Insert { at: t });
                    assert(before + sync_ops(w, next, t as nat) =~= ops@ + sync_ops(
                        keys(working@),
                        next,
                        (t + 1) as nat,
                    ));
                },
            }
            proof {
                assert forall|i: int| 0 <= i < t + 1 implies keys(working@)[i] == next[i] by {
                    if i < t {
                        assert(keys(working@)[i] == w[i]);
                    }
                }
            }
            t += 1;
        }
    }
    let n = next_keys.len();
    while working.len() > n
        invariant
            n == next_keys.len(),
            n <= working.len(),
            next == keys(next_keys@),
            start == keys(current_keys@),
            ops@ + sync_ops(keys(working@), next, n as nat) == sync_ops(start, next, 0),
        decreases working.len(),
    {
        let ghost w = keys(working@);
        let ghost before = ops@;
        working.remove(n);
        assert(keys(working@) =~= w.remove(n as int));
        ops.push(RowSyncOp::Remove { at: n });
        assert(before + sync_ops(w, next, n as nat) =~= ops@ + sync_ops(keys(working@), next, n as nat));
    }
    assert(sync_ops(keys(working@), next, n as nat) =~= Seq::<RowSyncOp>::empty());
    assert(ops@ + Seq::<RowSyncOp>::empty() =~= ops@);
    proof {
        lemma_sync_reaches(start, next, 0);
    }
    ops
}

} // verus!

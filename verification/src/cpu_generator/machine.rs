use vstd::prelude::*;

verus! {

/// One state of the generated machine: its number, the states that may follow it, and the code
/// that it runs.
pub struct StateEntry {
    pub state: usize,
    pub next: Vec<usize>,
    pub code: String,
}

impl StateEntry {
    /// The key of the entry: the state and the states that may follow it.
    pub open spec fn key(&self) -> (usize, Seq<usize>) {
        (self.state, self.next@)
    }
}

/// The map that a list of entries stands for, a later entry winning over an earlier one with
/// the same key.
pub open spec fn machine_of(es: Seq<StateEntry>) -> Map<(usize, Seq<usize>), Seq<char>>
    decreases es.len(),
{
    if es.len() == 0 {
        Map::empty()
    } else {
        machine_of(es.drop_last()).insert(es.last().key(), es.last().code@)
    }
}

/// No two entries share a key.
pub open spec fn keys_distinct(es: Seq<StateEntry>) -> bool {
    forall|i: int, j: int| 0 <= i < j < es.len() ==> es[i].key() != es[j].key()
}

/// Replacing the entry at `i` by one with the same key changes the map at that key only.
proof fn lemma_machine_update(es: Seq<StateEntry>, i: int, e: StateEntry)
    requires
        keys_distinct(es),
        0 <= i < es.len(),
        e.key() == es[i].key(),
    ensures
        keys_distinct(es.update(i, e)),
        machine_of(es.update(i, e)) == machine_of(es).insert(e.key(), e.code@),
    decreases es.len(),
{
    let u = es.update(i, e);
    let last = es.len() - 1;
    if i == last {
        assert(u.drop_last() =~= es.drop_last());
        assert(machine_of(u) =~= machine_of(es).insert(e.key(), e.code@));
    } else {
        assert(u.drop_last() =~= es.drop_last().update(i, e));
        lemma_machine_update(es.drop_last(), i, e);
        assert(es[last].key() != e.key());
        assert(machine_of(u) =~= machine_of(es).insert(e.key(), e.code@));
    }
}

/// The states of the generated machine, keyed by the state and the states that may follow it.
pub struct StateMachine {
    pub entries: Vec<StateEntry>,
}

impl View for StateMachine {
    type V = Map<(usize, Seq<usize>), Seq<char>>;

    open spec fn view(&self) -> Map<(usize, Seq<usize>), Seq<char>> {
        machine_of(self.entries@)
    }
}

/// Whether `e` has the key `(state, next)`.
fn has_key(e: &StateEntry, state: usize, next: &Vec<usize>) -> (r: bool)
    ensures
        r == (e.key() == (state, next@)),
{
    if e.state != state || e.next.len() != next.len() {
        return false;
    }
    let mut k: usize = 0;
    while k < next.len()
        invariant
            e.next@.len() == next@.len(),
            k <= next@.len(),
            forall|j: int| 0 <= j < k ==> e.next@[j] == next@[j],
        decreases next@.len() - k,
    {
        if e.next[k] != next[k] {
            return false;
        }
        k += 1;
    }
    assert(e.next@ =~= next@);
    true
}

impl StateMachine {
    /// The invariant: no two entries share a key.
    pub open spec fn wf(&self) -> bool {
        keys_distinct(self.entries@)
    }

    /// A machine with no states.
    pub fn new() -> (m: Self)
        ensures
            m.wf(),
            m@ == Map::<(usize, Seq<usize>), Seq<char>>::empty(),
    {
        StateMachine { entries: Vec::new() }
    }

    /// Sets the code of the state `state` that goes on to `next`.
    pub fn insert(&mut self, state: usize, next: Vec<usize>, code: String)
        requires
            old(self).wf(),
        ensures
            final(self).wf(),
            final(self)@ == old(self)@.insert((state, next@), code@),
    {
        let mut i: usize = 0;
        while i < self.entries.len()
            invariant
                self.wf(),
                self.entries@ == old(self).entries@,
                i <= self.entries@.len(),
                forall|j: int| 0 <= j < i ==> self.entries@[j].key() != (state, next@),
            decreases self.entries@.len() - i,
        {
            if has_key(&self.entries[i], state, &next) {
                let e = StateEntry { state, next, code };
                proof {
                    lemma_machine_update(self.entries@, i as int, e);
                }
                self.entries.set(i, e);
                return;
            }
            i += 1;
        }
        let e = StateEntry { state, next, code };
        let ghost before = self.entries@;
        self.entries.push(e);
        assert(self.entries@.drop_last() =~= before);
    }
}

/// Every entry's key lies in the map that the entries stand for.
pub proof fn lemma_machine_contains(es: Seq<StateEntry>, i: int)
    requires
        0 <= i < es.len(),
    ensures
        machine_of(es).dom().contains(es[i].key()),
    decreases es.len(),
{
    if i < es.len() - 1 {
        lemma_machine_contains(es.drop_last(), i);
    }
}

/// Entries with the same keys, each with its code changed by `f`, stand for the map whose codes
/// are changed by `f`.
pub proof fn lemma_machine_map_codes(
    es: Seq<StateEntry>,
    fs: Seq<StateEntry>,
    f: spec_fn((usize, Seq<usize>), Seq<char>) -> Seq<char>,
)
    requires
        fs.len() == es.len(),
        forall|j: int|
            0 <= j < es.len() ==> #[trigger] fs[j].key() == es[j].key() && fs[j].code@ == f(
                es[j].key(),
                es[j].code@,
            ),
    ensures
        machine_of(fs) == Map::new(
            |k: (usize, Seq<usize>)| machine_of(es).dom().contains(k),
            |k: (usize, Seq<usize>)| f(k, machine_of(es)[k]),
        ),
    decreases es.len(),
{
    if es.len() > 0 {
        let n = es.len() - 1;
        assert forall|j: int| 0 <= j < n implies #[trigger] fs.drop_last()[j].key()
            == es.drop_last()[j].key() && fs.drop_last()[j].code@ == f(
            es.drop_last()[j].key(),
            es.drop_last()[j].code@,
        ) by {
            assert(fs[j].key() == es[j].key());
        }
        lemma_machine_map_codes(es.drop_last(), fs.drop_last(), f);
        assert(fs[n].key() == es[n].key());
        assert(machine_of(fs) =~= Map::new(
            |k: (usize, Seq<usize>)| machine_of(es).dom().contains(k),
            |k: (usize, Seq<usize>)| f(k, machine_of(es)[k]),
        ));
    } else {
        assert(machine_of(fs) =~= Map::new(
            |k: (usize, Seq<usize>)| machine_of(es).dom().contains(k),
            |k: (usize, Seq<usize>)| f(k, machine_of(es)[k]),
        ));
    }
}

} // verus!

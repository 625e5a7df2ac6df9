//! The generated machine as the match arms of the CPU's `tick` function, one per state, in the
//! order of the states' keys.

use vstd::prelude::*;

use crate::cpu_generator::machine::{keys_distinct, lemma_machine_contains, machine_of, StateEntry};
use crate::cpu_generator::Generator;
use crate::text::{hex_literal, hex_text};

verus! {

/// Whether `a` comes before `b` from position `i` on, in the order in which `Vec` compares:
/// by the first element that differs, a sequence that ends first coming first.
pub open spec fn seq_lt_from(a: Seq<usize>, b: Seq<usize>, i: nat) -> bool
    decreases a.len() - i,
{
    if i >= a.len() {
        b.len() > i
    } else if i >= b.len() {
        false
    } else if a[i as int] != b[i as int] {
        a[i as int] < b[i as int]
    } else {
        seq_lt_from(a, b, i + 1)
    }
}

/// The order of the machine's keys: by state number, then by the next states.
pub open spec fn key_lt(a: (usize, Seq<usize>), b: (usize, Seq<usize>)) -> bool {
    a.0 < b.0 || (a.0 == b.0 && seq_lt_from(a.1, b.1, 0))
}

/// Whether the keys of `order` increase strictly.
pub open spec fn sorted_keys(order: Seq<(usize, Seq<usize>)>) -> bool {
    forall|i: int, j: int| 0 <= i < j < order.len() ==> key_lt(#[trigger] order[i], #[trigger] order[j])
}

/// `order` holds the keys of `m`, each once, in increasing order.
pub open spec fn in_key_order(order: Seq<(usize, Seq<usize>)>, m: Map<(usize, Seq<usize>), Seq<char>>) -> bool {
    &&& sorted_keys(order)
    &&& forall|k: (usize, Seq<usize>)| m.dom().contains(k) <==> order.contains(k)
}

/// The match arm of the state `k` with the code `code`: `0xSTATE => { CODE },`.
pub open spec fn arm_text(k: (usize, Seq<usize>), code: Seq<char>) -> Seq<char> {
    hex_literal(k.0 as nat) + " => { "@ + code + " },"@
}

/// The match arms of the states `order` of `m`, in that order.
pub open spec fn arms_text(order: Seq<(usize, Seq<usize>)>, m: Map<(usize, Seq<usize>), Seq<char>>) -> Seq<char>
    decreases order.len(),
{
    if order.len() == 0 {
        Seq::empty()
    } else {
        arms_text(order.drop_last(), m) + arm_text(order.last(), m[order.last()])
    }
}

proof fn lemma_seq_lt_irreflexive(a: Seq<usize>, i: nat)
    ensures
        !seq_lt_from(a, a, i),
    decreases a.len() - i,
{
    if i < a.len() {
        lemma_seq_lt_irreflexive(a, i + 1);
    }
}

proof fn lemma_seq_lt_total(a: Seq<usize>, b: Seq<usize>, i: nat)
    requires
        i <= a.len(),
        i <= b.len(),
        a.subrange(i as int, a.len() as int) != b.subrange(i as int, b.len() as int),
    ensures
        seq_lt_from(a, b, i) || seq_lt_from(b, a, i),
    decreases a.len() - i,
{
    if i < a.len() && i < b.len() && a[i as int] == b[i as int] {
        if a.subrange((i + 1) as int, a.len() as int) == b.subrange((i + 1) as int, b.len() as int) {
            assert(a.subrange(i as int, a.len() as int) =~= seq![a[i as int]] + a.subrange((i + 1) as int, a.len() as int));
            assert(b.subrange(i as int, b.len() as int) =~= seq![b[i as int]] + b.subrange((i + 1) as int, b.len() as int));
        }
        lemma_seq_lt_total(a, b, i + 1);
    } else if i == a.len() && i == b.len() {
        assert(a.subrange(i as int, a.len() as int) =~= b.subrange(i as int, b.len() as int));
    }
}

proof fn lemma_seq_lt_trans(a: Seq<usize>, b: Seq<usize>, c: Seq<usize>, i: nat)
    requires
        seq_lt_from(a, b, i),
        seq_lt_from(b, c, i),
    ensures
        seq_lt_from(a, c, i),
    decreases a.len() - i,
{
    if i < a.len() && i < b.len() && i < c.len() && a[i as int] == b[i as int] && b[i as int] == c[i as int] {
        lemma_seq_lt_trans(a, b, c, i + 1);
    }
}

/// The order of keys is a strict total order.
pub proof fn lemma_key_order()
    ensures
        forall|a: (usize, Seq<usize>)| !#[trigger] key_lt(a, a),
        forall|a: (usize, Seq<usize>), b: (usize, Seq<usize>), c: (usize, Seq<usize>)|
            #[trigger] key_lt(a, b) && #[trigger] key_lt(b, c) ==> key_lt(a, c),
        forall|a: (usize, Seq<usize>), b: (usize, Seq<usize>)|
            a != b ==> #[trigger] key_lt(a, b) || #[trigger] key_lt(b, a),
{
    assert forall|a: (usize, Seq<usize>)| !#[trigger] key_lt(a, a) by {
        lemma_seq_lt_irreflexive(a.1, 0);
    }
    assert forall|a: (usize, Seq<usize>), b: (usize, Seq<usize>), c: (usize, Seq<usize>)|
        #[trigger] key_lt(a, b) && #[trigger] key_lt(b, c) implies key_lt(a, c) by {
        if a.0 == b.0 && b.0 == c.0 {
            lemma_seq_lt_trans(a.1, b.1, c.1, 0);
        }
    }
    assert forall|a: (usize, Seq<usize>), b: (usize, Seq<usize>)| a != b implies #[trigger] key_lt(a, b)
        || #[trigger] key_lt(b, a) by {
        if a.0 == b.0 {
            assert(a.1.subrange(0, a.1.len() as int) =~= a.1);
            assert(b.1.subrange(0, b.1.len() as int) =~= b.1);
            assert(a.1 != b.1);
            lemma_seq_lt_total(a.1, b.1, 0);
        }
    }
}

/// Two increasing orders of the same keys are the same: the order of the arms is fixed by
/// the machine alone.
pub proof fn lemma_key_order_unique(
    o1: Seq<(usize, Seq<usize>)>,
    o2: Seq<(usize, Seq<usize>)>,
)
    requires
        sorted_keys(o1),
        sorted_keys(o2),
        forall|k: (usize, Seq<usize>)| o1.contains(k) <==> o2.contains(k),
    ensures
        o1 == o2,
    decreases o1.len(),
{
    lemma_key_order();
    if o1.len() == 0 {
        if o2.len() > 0 {
            assert(o2.contains(o2[0]));
        }
        assert(o1 =~= o2);
    } else {
        assert(o1.contains(o1[0]));
        assert(o2.len() > 0);
        assert(o2.contains(o2[0]));
        let j = choose|j: int| 0 <= j < o2.len() && o2[j] == o1[0];
        let i = choose|i: int| 0 <= i < o1.len() && o1[i] == o2[0];
        if j > 0 && i > 0 {
            assert(key_lt(o2[0], o2[j]));
            assert(key_lt(o1[0], o1[i]));
            assert(false);
        } else if j > 0 {
            assert(key_lt(o2[0], o2[j]));
        }
        assert(o1[0] == o2[0]);
        let r1 = o1.drop_first();
        let r2 = o2.drop_first();
        assert forall|k: (usize, Seq<usize>)| r1.contains(k) <==> r2.contains(k) by {
            if r1.contains(k) {
                let t = choose|t: int| 0 <= t < r1.len() && r1[t] == k;
                assert(o1[t + 1] == k);
                assert(key_lt(o1[0], o1[t + 1]));
                assert(o2.contains(k));
                let u = choose|u: int| 0 <= u < o2.len() && o2[u] == k;
                if u == 0 {
                    assert(false);
                }
                assert(r2[u - 1] == k);
            }
            if r2.contains(k) {
                let t = choose|t: int| 0 <= t < r2.len() && r2[t] == k;
                assert(o2[t + 1] == k);
                assert(key_lt(o2[0], o2[t + 1]));
                assert(o1.contains(k));
                let u = choose|u: int| 0 <= u < o1.len() && o1[u] == k;
                if u == 0 {
                    assert(false);
                }
                assert(r1[u - 1] == k);
            }
        }
        assert forall|a: int, b: int| 0 <= a < b < r1.len() implies key_lt(#[trigger] r1[a], #[trigger] r1[b]) by {
            assert(key_lt(o1[a + 1], o1[b + 1]));
        }
        assert forall|a: int, b: int| 0 <= a < b < r2.len() implies key_lt(#[trigger] r2[a], #[trigger] r2[b]) by {
            assert(key_lt(o2[a + 1], o2[b + 1]));
        }
        lemma_key_order_unique(r1, r2);
        assert(o1 =~= seq![o1[0]] + r1);
        assert(o2 =~= seq![o2[0]] + r2);
    }
}

/// A key of the machine of `es` is the key of one of its entries.
proof fn lemma_machine_dom(es: Seq<StateEntry>, k: (usize, Seq<usize>)) -> (j: int)
    requires
        machine_of(es).dom().contains(k),
    ensures
        0 <= j < es.len(),
        es[j].key() == k,
    decreases es.len(),
{
    if es.last().key() == k {
        es.len() - 1
    } else {
        lemma_machine_dom(es.drop_last(), k)
    }
}

/// With distinct keys, the machine of `es` holds each entry's code at its key.
proof fn lemma_machine_lookup(es: Seq<StateEntry>, j: int)
    requires
        keys_distinct(es),
        0 <= j < es.len(),
    ensures
        machine_of(es)[es[j].key()] == es[j].code@,
    decreases es.len(),
{
    if j < es.len() - 1 {
        assert(keys_distinct(es.drop_last()));
        lemma_machine_lookup(es.drop_last(), j);
        assert(es[j].key() != es.last().key());
    }
}

/// Whether the key of `a` comes before that of `b`.
fn key_less(a: &StateEntry, b: &StateEntry) -> (r: bool)
    ensures
        r == key_lt(a.key(), b.key()),
{
    if a.state != b.state {
        return a.state < b.state;
    }
    let mut i: usize = 0;
    while i < a.next.len() && i < b.next.len()
        invariant
            a.state == b.state,
            i <= a.next@.len(),
            i <= b.next@.len(),
            seq_lt_from(a.next@, b.next@, 0) == seq_lt_from(a.next@, b.next@, i as nat),
        decreases a.next@.len() - i,
    {
        if a.next[i] != b.next[i] {
            proof {
                assert(seq_lt_from(a.next@, b.next@, i as nat) == (a.next@[i as int] < b.next@[i as int]));
            }
            return a.next[i] < b.next[i];
        }
        i += 1;
    }
    a.next.len() < b.next.len()
}

/// Whether `k` comes after the key of the entry `last` (every key does when there is none).
spec fn after(es: Seq<StateEntry>, last: Option<usize>, k: (usize, Seq<usize>)) -> bool {
    match last {
        Some(l) => key_lt(es[l as int].key(), k),
        None => true,
    }
}

/// Distinct keys of the machine of `es` are no more than its entries.
proof fn lemma_order_fits(es: Seq<StateEntry>, order: Seq<(usize, Seq<usize>)>)
    requires
        sorted_keys(order),
        forall|t: int| 0 <= t < order.len() ==> machine_of(es).dom().contains(#[trigger] order[t]),
    ensures
        order.len() <= es.len(),
{
    lemma_key_order();
    let keys = es.map_values(|e: StateEntry| e.key());
    assert(order.no_duplicates()) by {
        assert forall|i: int, j: int| 0 <= i < order.len() && 0 <= j < order.len() && i != j implies order[i]
            != order[j] by {
            if i < j {
                assert(key_lt(order[i], order[j]));
            } else {
                assert(key_lt(order[j], order[i]));
            }
        }
    }
    order.unique_seq_to_set();
    assert forall|k: (usize, Seq<usize>)| order.to_set().contains(k) implies keys.to_set().contains(k) by {
        let t = choose|t: int| 0 <= t < order.len() && order[t] == k;
        let j = lemma_machine_dom(es, order[t]);
        assert(keys[j] == k);
    }
    vstd::seq_lib::seq_to_set_is_finite(keys);
    vstd::set_lib::lemma_len_subset(order.to_set(), keys.to_set());
    keys.lemma_cardinality_of_set();
}

impl Generator {
    /// The source of the generated `tick` function: `head`, then one match arm
    /// `0xSTATE => { CODE },` per state of the machine, in increasing order of the states'
    /// keys (state number, then next states), then `tail`.
    pub fn machine_source(&self, head: &str, tail: &str) -> (r: String)
        requires
            self.wf(),
        ensures
            exists|order: Seq<(usize, Seq<usize>)>|
                #[trigger] in_key_order(order, self@.machine) && r@ == head@ + arms_text(order, self@.machine) + tail@,
    {
        let es = &self.state_machine.entries;
        let n = es.len();
        let ghost m = self@.machine;
        let mut out = String::new();
        out.append(head);
        let ghost mut order: Seq<(usize, Seq<usize>)> = Seq::empty();
        let mut last: Option<usize> = None;
        proof {
            lemma_key_order();
            assert(out@ == head@ + arms_text(order, m));
        }
        loop
            invariant
                es@ == self.state_machine.entries@,
                n == es@.len(),
                m == machine_of(es@),
                keys_distinct(es@),
                sorted_keys(order),
                forall|t: int| 0 <= t < order.len() ==> m.dom().contains(#[trigger] order[t]),
                last is None ==> order.len() == 0,
                last matches Some(l) ==> l < n && order.len() > 0 && order.last() == es@[l as int].key(),
                forall|k: (usize, Seq<usize>)| m.dom().contains(k) && !after(es@, last, k) ==> order.contains(k),
                out@ == head@ + arms_text(order, m),
                forall|a: (usize, Seq<usize>)| !#[trigger] key_lt(a, a),
                forall|a: (usize, Seq<usize>), b: (usize, Seq<usize>), c: (usize, Seq<usize>)|
                    #[trigger] key_lt(a, b) && #[trigger] key_lt(b, c) ==> key_lt(a, c),
                forall|a: (usize, Seq<usize>), b: (usize, Seq<usize>)|
                    a != b ==> #[trigger] key_lt(a, b) || #[trigger] key_lt(b, a),
            ensures
                in_key_order(order, m),
                out@ == head@ + arms_text(order, m),
            decreases n - order.len(),
        {
            let mut best: Option<usize> = None;
            let mut i: usize = 0;
            while i < n
                invariant
                    es@ == self.state_machine.entries@,
                    n == es@.len(),
                    i <= n,
                    last matches Some(l) ==> l < n,
                    best matches Some(b) ==> b < n && after(es@, last, es@[b as int].key()) && forall|j: int|
                        0 <= j < i && after(es@, last, es@[j].key()) ==> !key_lt(#[trigger] es@[j].key(), es@[b as int].key()),
                    best is None ==> forall|j: int| 0 <= j < i ==> !after(es@, last, #[trigger] es@[j].key()),
                    forall|a: (usize, Seq<usize>)| !#[trigger] key_lt(a, a),
                    forall|a: (usize, Seq<usize>), b: (usize, Seq<usize>), c: (usize, Seq<usize>)|
                        #[trigger] key_lt(a, b) && #[trigger] key_lt(b, c) ==> key_lt(a, c),
                decreases n - i,
            {
                let later = match last {
                    Some(l) => key_less(&es[l], &es[i]),
                    None => true,
                };
                if later {
                    let better = match best {
                        Some(b) => key_less(&es[i], &es[b]),
                        None => true,
                    };
                    if better {
                        best = Some(i);
                    }
                }
                i += 1;
            }
            match best {
                None => {
                    proof {
                        assert forall|k: (usize, Seq<usize>)| m.dom().contains(k) implies order.contains(k) by {
                            let j = lemma_machine_dom(es@, k);
                            assert(!after(es@, last, es@[j].key()));
                        }
                        assert forall|k: (usize, Seq<usize>)| order.contains(k) implies m.dom().contains(k) by {
                            let t = choose|t: int| 0 <= t < order.len() && order[t] == k;
                        }
                    }
                    break;
                },
                Some(b) => {
                    let h = hex_text(es[b].state);
                    out.append(h.as_str());
                    out.append(" => { ");
                    out.append(es[b].code.as_str());
                    out.append(" },");
                    proof {
                        let kb = es@[b as int].key();
                        lemma_machine_contains(es@, b as int);
                        lemma_machine_lookup(es@, b as int);
                        let o2 = order.push(kb);
                        assert(o2.drop_last() =~= order);
                        assert(arms_text(o2, m) == arms_text(order, m) + arm_text(kb, m[kb]));
                        assert forall|x: int, y: int| 0 <= x < y < o2.len() implies key_lt(#[trigger] o2[x], #[trigger] o2[y]) by {
                            if y == o2.len() - 1 && x < order.len() - 1 {
                                assert(key_lt(order[x], order.last()));
                            }
                        }
                        assert forall|k: (usize, Seq<usize>)| m.dom().contains(k) && !key_lt(kb, k) implies o2.contains(k) by {
                            if k == kb {
                                assert(o2[o2.len() - 1] == kb);
                            } else if !after(es@, last, k) {
                                assert(order.contains(k));
                                let t = choose|t: int| 0 <= t < order.len() && order[t] == k;
                                assert(o2[t] == k);
                            } else {
                                let j = lemma_machine_dom(es@, k);
                                assert(after(es@, last, es@[j].key()));
                                assert(!key_lt(es@[j].key(), kb));
                                assert(key_lt(kb, k));
                            }
                        }
                        assert forall|t: int| 0 <= t < o2.len() implies m.dom().contains(#[trigger] o2[t]) by {
                            if t < order.len() {
                                assert(o2[t] == order[t]);
                            }
                        }
                        lemma_order_fits(es@, o2);
                        order = o2;
                    }
                    last = Some(b);
                    assert(out@ == head@ + arms_text(order, m)) by {
                        assert(out@ =~= head@ + arms_text(order.drop_last(), m) + arm_text(order.last(), m[order.last()]));
                    }
                },
            }
        }
        out.append(tail);
        proof {
            assert(in_key_order(order, m));
        }
        out
    }
}

} // verus!

//! The generator of the CPU's cycle-by-cycle state machine from the list of instructions.

pub mod cycles;
pub mod machine;
pub mod parser;
pub mod source;

use vstd::prelude::*;

use self::cycles::{entry_cycle, exit_cycle, middle_cycle, single_cycle, GeneratorModel};
use self::machine::{lemma_machine_contains, lemma_machine_map_codes, StateEntry, StateMachine};
use self::parser::{InstructionModel, ParsedInstruction};
use crate::text::{
    has_placeholder, hex_literal, hex_text, lemma_hex_literal_no_brackets,
    lemma_no_placeholder_unchanged, lemma_replace_fills_placeholders, replace_all, replace_text,
    text_eq,
};

verus! {

/// Builds the CPU's state machine: each state is one cycle of an instruction, and its code says
/// what the CPU does in that cycle and which state comes next.
pub struct Generator {
    pub state: usize,
    pub state_machine: StateMachine,
}

impl View for Generator {
    type V = GeneratorModel;

    open spec fn view(&self) -> GeneratorModel {
        GeneratorModel { state: self.state as int, machine: self.state_machine@ }
    }
}

/// Whether the generator knows the addressing mode named `mode`.
pub open spec fn mode_known(mode: Seq<char>) -> bool {
    ||| mode == "implied"@
    ||| mode == "immediate"@
    ||| mode == "accumulator"@
    ||| mode == "zero_page"@
    ||| mode == "zero_page_x"@
    ||| mode == "zero_page_y"@
    ||| mode == "relative"@
    ||| mode == "absolute"@
    ||| mode == "absolute_x"@
    ||| mode == "absolute_y"@
    ||| mode == "indirect"@
    ||| mode == "absolute_jmp"@
    ||| mode == "indirect_x"@
    ||| mode == "indirect_y"@
    ||| mode == "zero_page_rmw"@
    ||| mode == "zero_page_x_rmw"@
    ||| mode == "absolute_rmw"@
    ||| mode == "absolute_x_rmw"@
    ||| mode == "zero_page_st"@
    ||| mode == "zero_page_x_st"@
    ||| mode == "zero_page_y_st"@
    ||| mode == "absolute_st"@
    ||| mode == "absolute_x_st"@
    ||| mode == "absolute_y_st"@
    ||| mode == "indirect_x_st"@
    ||| mode == "indirect_y_st"@
    ||| mode == "indirect_x_illegal"@
    ||| mode == "indirect_y_illegal"@
    ||| mode == "absolute_y_illegal"@
}

/// The machine after the cycles of the opcode `op`, an instruction with the code `code` in the
/// addressing mode `mode`.
pub open spec fn opcode_machine(g: GeneratorModel, mode: Seq<char>, code: Seq<char>, op: usize) -> GeneratorModel {
    if mode == "implied"@ {
        if op == 0x28 {
            cycles::plp_machine(g, op)
        } else if op == 0x68 {
            cycles::pla_machine(g, op)
        } else if op == 0x08 {
            cycles::php_machine(g, op)
        } else if op == 0x48 {
            cycles::pha_machine(g, op)
        } else if op == 0x20 {
            cycles::jsr_machine(g, op)
        } else if op == 0x00 {
            cycles::brk_machine(g, op)
        } else if op == 0x40 {
            cycles::rti_machine(g, op)
        } else if op == 0x60 {
            cycles::rts_machine(g, op)
        } else {
            cycles::implied_machine(g, code, op)
        }
    } else if mode == "immediate"@ {
        cycles::immediate_machine(g, code, op)
    } else if mode == "accumulator"@ {
        cycles::accumulator_machine(g, code, op)
    } else if mode == "zero_page"@ {
        cycles::zero_page_machine(g, code, op)
    } else if mode == "zero_page_x"@ {
        cycles::zero_page_x_machine(g, code, op)
    } else if mode == "zero_page_y"@ {
        cycles::zero_page_y_machine(g, code, op)
    } else if mode == "relative"@ {
        cycles::relative_machine(g, code, op)
    } else if mode == "absolute"@ {
        cycles::absolute_machine(g, code, op)
    } else if mode == "absolute_x"@ {
        cycles::absolute_x_or_y_machine(g, code, op, "x"@)
    } else if mode == "absolute_y"@ {
        cycles::absolute_x_or_y_machine(g, code, op, "y"@)
    } else if mode == "indirect"@ {
        cycles::indirect_machine(g, op)
    } else if mode == "absolute_jmp"@ {
        cycles::absolute_jmp_machine(g, op)
    } else if mode == "indirect_x"@ {
        cycles::indirect_x_machine(g, code, op)
    } else if mode == "indirect_y"@ {
        cycles::indirect_y_machine(g, code, op)
    } else if mode == "zero_page_rmw"@ {
        cycles::zero_page_rmw_machine(g, code, op)
    } else if mode == "zero_page_x_rmw"@ {
        cycles::zero_page_x_rmw_machine(g, code, op)
    } else if mode == "absolute_rmw"@ {
        cycles::absolute_rmw_machine(g, code, op)
    } else if mode == "absolute_x_rmw"@ {
        cycles::absolute_x_rmw_machine(g, code, op)
    } else if mode == "zero_page_st"@ {
        cycles::zero_page_st_machine(g, code, op)
    } else if mode == "zero_page_x_st"@ {
        cycles::zero_page_x_or_y_st_machine(g, code, op, "x"@)
    } else if mode == "zero_page_y_st"@ {
        cycles::zero_page_x_or_y_st_machine(g, code, op, "y"@)
    } else if mode == "absolute_st"@ {
        cycles::absolute_st_machine(g, code, op)
    } else if mode == "absolute_x_st"@ {
        cycles::absolute_x_or_y_st_machine(g, code, op, "x"@)
    } else if mode == "absolute_y_st"@ {
        cycles::absolute_x_or_y_st_machine(g, code, op, "y"@)
    } else if mode == "indirect_x_st"@ {
        cycles::indirect_x_st_machine(g, code, op)
    } else if mode == "indirect_y_st"@ {
        cycles::indirect_y_st_machine(g, code, op)
    } else if mode == "indirect_x_illegal"@ {
        cycles::indirect_x_illegal_machine(g, code, op)
    } else if mode == "indirect_y_illegal"@ {
        cycles::indirect_y_illegal_machine(g, code, op)
    } else if mode == "absolute_y_illegal"@ {
        cycles::absolute_y_illegal_machine(g, code, op)
    } else {
        g
    }
}

/// The machine after the opcodes `ops` of an instruction with the code `code`, in order.
pub open spec fn opcodes_machine(
    g: GeneratorModel,
    code: Seq<char>,
    ops: Seq<(Seq<char>, usize)>,
) -> GeneratorModel
    decreases ops.len(),
{
    if ops.len() == 0 {
        g
    } else {
        opcode_machine(opcodes_machine(g, code, ops.drop_last()), ops.last().0, code, ops.last().1)
    }
}

/// The machine after the instructions `instrs`, in order.
pub open spec fn instructions_machine(g: GeneratorModel, instrs: Seq<InstructionModel>) -> GeneratorModel
    decreases instrs.len(),
{
    if instrs.len() == 0 {
        g
    } else {
        let prev = instructions_machine(g, instrs.drop_last());
        opcodes_machine(prev, instrs.last().code, instrs.last().opcodes)
    }
}

/// The machine after the instructions `instrs` and the state that fetches the next opcode.
pub open spec fn generated_machine(g: GeneratorModel, instrs: Seq<InstructionModel>) -> GeneratorModel {
    let m = instructions_machine(g, instrs);
    GeneratorModel { state: m.state, machine: m.machine.insert((0x100, seq![0usize]), cycles::FETCH@) }
}

/// Every opcode of `instrs` has an addressing mode that the generator knows.
pub open spec fn modes_known(instrs: Seq<InstructionModel>) -> bool {
    forall|i: int, j: int|
        0 <= i < instrs.len() && 0 <= j < instrs[i].opcodes.len() ==> #[trigger] mode_known(
            instrs[i].opcodes[j].0,
        )
}

/// The number of opcodes of `instrs`.
pub open spec fn opcode_count(instrs: Seq<InstructionModel>) -> nat
    decreases instrs.len(),
{
    if instrs.len() == 0 {
        0
    } else {
        opcode_count(instrs.drop_last()) + instrs.last().opcodes.len()
    }
}

/// The code of the state `key` with the numbers of its next states written in: the second for
/// `?<>`, where there are two, then the first for `<>`.
pub open spec fn optimize_code(key: (usize, Seq<usize>), code: Seq<char>) -> Seq<char> {
    let filled = if key.1.len() > 1 {
        replace_all(code, "?<>"@, hex_literal(key.1[1] as nat))
    } else {
        code
    };
    replace_all(filled, "<>"@, hex_literal(key.1[0] as nat))
}

/// The machine `m` with the numbers of the next states written into each state's code.
pub open spec fn optimized(m: Map<(usize, Seq<usize>), Seq<char>>) -> Map<(usize, Seq<usize>), Seq<char>> {
    Map::new(|k: (usize, Seq<usize>)| m.dom().contains(k), |k: (usize, Seq<usize>)| optimize_code(k, m[k]))
}

/// Every state of `m` has a next state.
pub open spec fn keys_have_next(m: Map<(usize, Seq<usize>), Seq<char>>) -> bool {
    forall|k: (usize, Seq<usize>)| #[trigger] m.dom().contains(k) ==> k.1.len() >= 1
}

/// Adding a state with a next state keeps every state with one.
proof fn lemma_keys_have_next_insert(
    m: Map<(usize, Seq<usize>), Seq<char>>,
    key: (usize, Seq<usize>),
    code: Seq<char>,
)
    requires
        keys_have_next(m),
        key.1.len() >= 1,
    ensures
        keys_have_next(m.insert(key, code)),
{
    assert forall|k: (usize, Seq<usize>)| #[trigger] m.insert(key, code).dom().contains(k) implies k.1.len()
        >= 1 by {
        if k != key {
            assert(m.dom().contains(k));
        }
    }
}

/// Once the numbers of the next states are written in, no state's code holds a `<>` any more:
/// every placeholder of the machine is filled.
pub proof fn lemma_optimized_has_no_placeholders(
    m: Map<(usize, Seq<usize>), Seq<char>>,
    k: (usize, Seq<usize>),
)
    requires
        keys_have_next(m),
        m.dom().contains(k),
    ensures
        optimized(m).dom().contains(k),
        !has_placeholder(optimized(m)[k]),
{
    let code = m[k];
    let filled = if k.1.len() > 1 {
        replace_all(code, "?<>"@, hex_literal(k.1[1] as nat))
    } else {
        code
    };
    reveal_strlit("<>");
    assert("<>"@ =~= seq!['<', '>']);
    lemma_hex_literal_no_brackets(k.1[0] as nat);
    lemma_replace_fills_placeholders(filled, 0, hex_literal(k.1[0] as nat));
}

/// Writing in the numbers of the next states a second time changes nothing: once every
/// placeholder is filled, optimizing the machine again leaves it as it is.
pub proof fn lemma_optimize_idempotent(m: Map<(usize, Seq<usize>), Seq<char>>)
    requires
        keys_have_next(m),
    ensures
        optimized(optimized(m)) == optimized(m),
{
    assert forall|k: (usize, Seq<usize>)| #[trigger] optimized(m).dom().contains(k) implies optimize_code(
        k,
        optimized(m)[k],
    ) == optimized(m)[k] by {
        lemma_optimized_has_no_placeholders(m, k);
        let t = optimized(m)[k];
        lemma_no_placeholder_unchanged(t, hex_literal(k.1[1] as nat), hex_literal(k.1[0] as nat));
    }
    assert(optimized(optimized(m)) =~= optimized(m));
}

/// Whether some state of `m` has the number `s`.
pub open spec fn has_state(m: Map<(usize, Seq<usize>), Seq<char>>, s: usize) -> bool {
    exists|k: (usize, Seq<usize>)| #[trigger] m.dom().contains(k) && k.0 == s
}

/// Every next state named in `m` is a state of `m`, the fetch state 0x100, `0` (the fetch
/// state's stand-in for the opcode just read), or `pending`.
pub open spec fn closed_but(m: Map<(usize, Seq<usize>), Seq<char>>, pending: usize) -> bool {
    forall|k: (usize, Seq<usize>), i: int|
        #![trigger m.dom().contains(k), k.1[i]]
        m.dom().contains(k) && 0 <= i < k.1.len() ==> k.1[i] == 0 || k.1[i] == 0x100 || k.1[i]
            == pending || has_state(m, k.1[i])
}

/// `closed_but` with nothing pending: between instructions.
pub open spec fn closed(m: Map<(usize, Seq<usize>), Seq<char>>) -> bool {
    closed_but(m, 0)
}

/// Every state of `m` is a state of `m2`.
pub open spec fn states_kept(m: Map<(usize, Seq<usize>), Seq<char>>, m2: Map<(usize, Seq<usize>), Seq<char>>) -> bool {
    forall|s: usize| has_state(m, s) ==> #[trigger] has_state(m2, s)
}

proof fn lemma_insert_keeps_states(m: Map<(usize, Seq<usize>), Seq<char>>, key: (usize, Seq<usize>), code: Seq<char>)
    ensures
        states_kept(m, m.insert(key, code)),
        has_state(m.insert(key, code), key.0),
{
    assert(m.insert(key, code).dom().contains(key));
    assert forall|s: usize| has_state(m, s) implies #[trigger] has_state(m.insert(key, code), s) by {
        let k = choose|k: (usize, Seq<usize>)| #[trigger] m.dom().contains(k) && k.0 == s;
        assert(m.insert(key, code).dom().contains(k));
    }
}

proof fn lemma_states_kept_trans(
    a: Map<(usize, Seq<usize>), Seq<char>>,
    b: Map<(usize, Seq<usize>), Seq<char>>,
    c: Map<(usize, Seq<usize>), Seq<char>>,
)
    requires
        states_kept(a, b),
        states_kept(b, c),
    ensures
        states_kept(a, c),
{
}

/// Inserting a state whose next states all satisfy `ok` keeps the machine closed but for the
/// new pending state, which covers what was pending before once it is the inserted state.
proof fn lemma_insert_closed(
    m: Map<(usize, Seq<usize>), Seq<char>>,
    p: usize,
    key: (usize, Seq<usize>),
    code: Seq<char>,
    p2: usize,
)
    requires
        closed_but(m, p),
        p == 0 || p == 0x100 || p == p2 || p == key.0 || has_state(m, p),
        forall|i: int|
            0 <= i < key.1.len() ==> #[trigger] key.1[i] == 0 || key.1[i] == 0x100 || key.1[i] == p2
                || key.1[i] == key.0 || has_state(m, key.1[i]),
    ensures
        closed_but(m.insert(key, code), p2),
        states_kept(m, m.insert(key, code)),
{
    let m2 = m.insert(key, code);
    lemma_insert_keeps_states(m, key, code);
    assert forall|k: (usize, Seq<usize>), i: int| m2.dom().contains(k) && 0 <= i < k.1.len() implies #[trigger] k.1[i]
        == 0 || k.1[i] == 0x100 || k.1[i] == p2 || has_state(m2, #[trigger] k.1[i]) by {
        if k == key {
            let n = key.1[i];
            if has_state(m, n) {
                assert(has_state(m2, n));
            }
        } else {
            assert(m.dom().contains(k));
            let n = k.1[i];
            if has_state(m, n) {
                assert(has_state(m2, n));
            }
        }
    }
}

proof fn lemma_single_closed(g: GeneratorModel, op: usize, code: Seq<char>)
    requires
        closed(g.machine),
    ensures
        closed(cycles::single_cycle(g, op, code).machine),
        states_kept(g.machine, cycles::single_cycle(g, op, code).machine),
        has_state(cycles::single_cycle(g, op, code).machine, op),
{
    lemma_insert_closed(g.machine, 0, (op, seq![0x100usize]), code, 0);
    lemma_insert_keeps_states(g.machine, (op, seq![0x100usize]), code);
}

proof fn lemma_entry_closed(g: GeneratorModel, op: usize, code: Seq<char>)
    requires
        closed(g.machine),
    ensures
        closed_but(cycles::entry_cycle(g, op, code).machine, (g.state + 1) as usize),
        states_kept(g.machine, cycles::entry_cycle(g, op, code).machine),
        has_state(cycles::entry_cycle(g, op, code).machine, op),
{
    let key = (op, seq![(g.state + 1) as usize]);
    lemma_insert_closed(g.machine, 0, key, code, (g.state + 1) as usize);
    lemma_insert_keeps_states(g.machine, key, code);
}

proof fn lemma_middle_closed(g: GeneratorModel, code: Seq<char>)
    requires
        closed_but(g.machine, g.state as usize),
    ensures
        closed_but(cycles::middle_cycle(g, code).machine, (g.state + 1) as usize),
        states_kept(g.machine, cycles::middle_cycle(g, code).machine),
{
    let key = (g.state as usize, seq![(g.state + 1) as usize]);
    lemma_insert_closed(g.machine, g.state as usize, key, code, (g.state + 1) as usize);
}

proof fn lemma_exit_closed(g: GeneratorModel, code: Seq<char>)
    requires
        closed_but(g.machine, g.state as usize),
    ensures
        closed(cycles::exit_cycle(g, code).machine),
        states_kept(g.machine, cycles::exit_cycle(g, code).machine),
{
    let key = (g.state as usize, seq![0x100usize]);
    lemma_insert_closed(g.machine, g.state as usize, key, code, 0);
}

/// The cycles of one opcode keep the machine closed, keep its states and add the opcode's
/// own state.
proof fn lemma_opcode_closed(g: GeneratorModel, mode: Seq<char>, code: Seq<char>, op: usize)
    requires
        closed(g.machine),
        mode_known(mode),
    ensures
        closed(opcode_machine(g, mode, code, op).machine),
        states_kept(g.machine, opcode_machine(g, mode, code, op).machine),
        has_state(opcode_machine(g, mode, code, op).machine, op),
{
    assert forall|g: GeneratorModel, op: usize, code: Seq<char>| closed(g.machine) implies closed_but(
        #[trigger] cycles::entry_cycle(g, op, code).machine,
        cycles::entry_cycle(g, op, code).state as usize,
    ) && states_kept(g.machine, cycles::entry_cycle(g, op, code).machine) && has_state(
        cycles::entry_cycle(g, op, code).machine,
        op,
    ) by {
        lemma_entry_closed(g, op, code);
    }
    assert forall|g: GeneratorModel, code: Seq<char>| closed_but(g.machine, g.state as usize) implies closed_but(
        #[trigger] cycles::middle_cycle(g, code).machine,
        cycles::middle_cycle(g, code).state as usize,
    ) && states_kept(g.machine, cycles::middle_cycle(g, code).machine) by {
        lemma_middle_closed(g, code);
    }
    assert forall|g: GeneratorModel, code: Seq<char>| closed_but(g.machine, g.state as usize) implies closed(
        #[trigger] cycles::exit_cycle(g, code).machine,
    ) && states_kept(g.machine, cycles::exit_cycle(g, code).machine) by {
        lemma_exit_closed(g, code);
    }
    assert forall|g: GeneratorModel, op: usize, code: Seq<char>| closed(g.machine) implies closed(
        #[trigger] cycles::single_cycle(g, op, code).machine,
    ) && states_kept(g.machine, cycles::single_cycle(g, op, code).machine) && has_state(
        cycles::single_cycle(g, op, code).machine,
        op,
    ) by {
        lemma_single_closed(g, op, code);
    }
    assert forall|a: Map<(usize, Seq<usize>), Seq<char>>, b: Map<(usize, Seq<usize>), Seq<char>>, c: Map<(usize, Seq<usize>), Seq<char>>|
        #[trigger] states_kept(a, b) && #[trigger] states_kept(b, c) implies states_kept(a, c) by {
    }
    assert forall|m: Map<(usize, Seq<usize>), Seq<char>>, s: usize| #[trigger] has_state(m, s) implies states_kept(m, m) by {}
    if mode == "absolute_x"@ || mode == "absolute_y"@ {
        let reg = if mode == "absolute_x"@ { "x"@ } else { "y"@ };
        lemma_branching_closed(g, code, op, reg);
    } else if mode == "indirect_y"@ {
        lemma_indirect_y_closed(g, code, op);
    }
}

/// A machine that is closed but for states that the inserts after it all add is closed.
proof fn lemma_closed_after(
    m0: Map<(usize, Seq<usize>), Seq<char>>,
    m: Map<(usize, Seq<usize>), Seq<char>>,
    keys: Seq<(usize, Seq<usize>)>,
)
    requires
        closed(m0),
        states_kept(m0, m),
        forall|k: (usize, Seq<usize>)| #[trigger] m.dom().contains(k) ==> m0.dom().contains(k) || keys.contains(k),
        forall|j: int, i: int|
            0 <= j < keys.len() && 0 <= i < keys[j].1.len() ==> #[trigger] keys[j].1[i] == 0x100 || has_state(
                m,
                keys[j].1[i],
            ),
    ensures
        closed(m),
{
    assert forall|k: (usize, Seq<usize>), i: int| m.dom().contains(k) && 0 <= i < k.1.len() implies #[trigger] k.1[i]
        == 0 || k.1[i] == 0x100 || has_state(m, #[trigger] k.1[i]) by {
        if keys.contains(k) {
            let j = choose|j: int| 0 <= j < keys.len() && keys[j] == k;
            assert(keys[j].1[i] == k.1[i]);
        } else {
            assert(m0.dom().contains(k));
            let n = k.1[i];
            if has_state(m0, n) {
                assert(has_state(m, n));
            }
        }
    }
}

proof fn lemma_branching_closed(g: GeneratorModel, code: Seq<char>, op: usize, reg: Seq<char>)
    requires
        closed(g.machine),
    ensures
        closed(cycles::absolute_x_or_y_machine(g, code, op, reg).machine),
        states_kept(g.machine, cycles::absolute_x_or_y_machine(g, code, op, reg).machine),
        has_state(cycles::absolute_x_or_y_machine(g, code, op, reg).machine, op),
{
    let s1 = (g.state + 1) as usize;
    let s2 = (g.state + 2) as usize;
    let s3 = (g.state + 3) as usize;
    let c1 = cycles::ABSOLUTE_INDEXED_1_HEAD@ + reg + cycles::ABSOLUTE_INDEXED_1_MID@ + reg
        + cycles::ABSOLUTE_INDEXED_1_TAIL@;
    let c3 = cycles::ABSOLUTE_INDEXED_3_HEAD@ + code + cycles::ABSOLUTE_INDEXED_3_TAIL@;
    let k0 = (op, seq![s1]);
    let k1 = (s1, seq![s2, s3]);
    let k2 = (s2, seq![s3]);
    let k3 = (s3, seq![0x100usize]);
    let m0 = g.machine;
    let m1 = m0.insert(k0, cycles::ABSOLUTE_INDEXED_0@);
    let m2 = m1.insert(k1, c1);
    let m3 = m2.insert(k2, cycles::ABSOLUTE_INDEXED_2@);
    let m4 = m3.insert(k3, c3);
    assert(cycles::absolute_x_or_y_machine(g, code, op, reg).machine == m4);
    lemma_insert_keeps_states(m0, k0, cycles::ABSOLUTE_INDEXED_0@);
    lemma_insert_keeps_states(m1, k1, c1);
    lemma_insert_keeps_states(m2, k2, cycles::ABSOLUTE_INDEXED_2@);
    lemma_insert_keeps_states(m3, k3, c3);
    lemma_states_kept_trans(m0, m1, m2);
    lemma_states_kept_trans(m0, m2, m3);
    lemma_states_kept_trans(m0, m3, m4);
    lemma_states_kept_trans(m1, m2, m3);
    lemma_states_kept_trans(m1, m3, m4);
    lemma_states_kept_trans(m2, m3, m4);
    let keys = seq![k0, k1, k2, k3];
    assert(has_state(m4, op) && has_state(m4, s1) && has_state(m4, s2) && has_state(m4, s3));
    assert forall|k: (usize, Seq<usize>)| #[trigger] m4.dom().contains(k) implies m0.dom().contains(k)
        || keys.contains(k) by {
        if k == k0 {
            assert(keys[0] == k);
        } else if k == k1 {
            assert(keys[1] == k);
        } else if k == k2 {
            assert(keys[2] == k);
        } else if k == k3 {
            assert(keys[3] == k);
        }
    }
    lemma_closed_after(m0, m4, keys);
}

proof fn lemma_indirect_y_closed(g: GeneratorModel, code: Seq<char>, op: usize)
    requires
        closed(g.machine),
    ensures
        closed(cycles::indirect_y_machine(g, code, op).machine),
        states_kept(g.machine, cycles::indirect_y_machine(g, code, op).machine),
        has_state(cycles::indirect_y_machine(g, code, op).machine, op),
{
    let s1 = (g.state + 1) as usize;
    let s2 = (g.state + 2) as usize;
    let s3 = (g.state + 3) as usize;
    let s4 = (g.state + 4) as usize;
    let c4 = cycles::INDIRECT_Y_4_HEAD@ + code + cycles::INDIRECT_Y_4_TAIL@;
    let k0 = (op, seq![s1]);
    let k1 = (s1, seq![s2]);
    let k2 = (s2, seq![s3, s4]);
    let k3 = (s3, seq![s4]);
    let k4 = (s4, seq![0x100usize]);
    let m0 = g.machine;
    let m1 = m0.insert(k0, cycles::INDIRECT_Y_0@);
    let m2 = m1.insert(k1, cycles::INDIRECT_Y_1@);
    let m3 = m2.insert(k2, cycles::INDIRECT_Y_2@);
    let m4 = m3.insert(k3, cycles::INDIRECT_Y_3@);
    let m5 = m4.insert(k4, c4);
    assert(cycles::indirect_y_machine(g, code, op).machine == m5);
    lemma_insert_keeps_states(m0, k0, cycles::INDIRECT_Y_0@);
    lemma_insert_keeps_states(m1, k1, cycles::INDIRECT_Y_1@);
    lemma_insert_keeps_states(m2, k2, cycles::INDIRECT_Y_2@);
    lemma_insert_keeps_states(m3, k3, cycles::INDIRECT_Y_3@);
    lemma_insert_keeps_states(m4, k4, c4);
    lemma_states_kept_trans(m0, m1, m2);
    lemma_states_kept_trans(m0, m2, m3);
    lemma_states_kept_trans(m0, m3, m4);
    lemma_states_kept_trans(m0, m4, m5);
    lemma_states_kept_trans(m1, m2, m3);
    lemma_states_kept_trans(m1, m3, m4);
    lemma_states_kept_trans(m1, m4, m5);
    lemma_states_kept_trans(m2, m3, m4);
    lemma_states_kept_trans(m2, m4, m5);
    lemma_states_kept_trans(m3, m4, m5);
    let keys = seq![k0, k1, k2, k3, k4];
    assert(has_state(m5, op) && has_state(m5, s1) && has_state(m5, s2) && has_state(m5, s3)
        && has_state(m5, s4));
    assert forall|k: (usize, Seq<usize>)| #[trigger] m5.dom().contains(k) implies m0.dom().contains(k)
        || keys.contains(k) by {
        if k == k0 {
            assert(keys[0] == k);
        } else if k == k1 {
            assert(keys[1] == k);
        } else if k == k2 {
            assert(keys[2] == k);
        } else if k == k3 {
            assert(keys[3] == k);
        } else if k == k4 {
            assert(keys[4] == k);
        }
    }
    lemma_closed_after(m0, m5, keys);
}

proof fn lemma_opcodes_closed(g: GeneratorModel, code: Seq<char>, ops: Seq<(Seq<char>, usize)>)
    requires
        closed(g.machine),
        forall|j: int| 0 <= j < ops.len() ==> #[trigger] mode_known(ops[j].0),
    ensures
        closed(opcodes_machine(g, code, ops).machine),
        states_kept(g.machine, opcodes_machine(g, code, ops).machine),
        forall|j: int| 0 <= j < ops.len() ==> has_state(opcodes_machine(g, code, ops).machine, #[trigger] ops[j].1),
    decreases ops.len(),
{
    if ops.len() == 0 {
        assert forall|s: usize| has_state(g.machine, s) implies #[trigger] has_state(g.machine, s) by {}
    } else {
        let prev = opcodes_machine(g, code, ops.drop_last());
        lemma_opcodes_closed(g, code, ops.drop_last());
        assert(mode_known(ops[ops.len() - 1].0));
        lemma_opcode_closed(prev, ops.last().0, code, ops.last().1);
        let m = opcodes_machine(g, code, ops).machine;
        lemma_states_kept_trans(g.machine, prev.machine, m);
        assert forall|j: int| 0 <= j < ops.len() implies has_state(m, #[trigger] ops[j].1) by {
            if j < ops.len() - 1 {
                assert(ops.drop_last()[j] == ops[j]);
                assert(has_state(prev.machine, ops[j].1));
            }
        }
    }
}

proof fn lemma_instructions_closed(g: GeneratorModel, instrs: Seq<InstructionModel>)
    requires
        closed(g.machine),
        modes_known(instrs),
    ensures
        closed(instructions_machine(g, instrs).machine),
        forall|i: int, j: int|
            0 <= i < instrs.len() && 0 <= j < instrs[i].opcodes.len() ==> has_state(
                instructions_machine(g, instrs).machine,
                #[trigger] instrs[i].opcodes[j].1,
            ),
    decreases instrs.len(),
{
    if instrs.len() > 0 {
        let init = instrs.drop_last();
        assert forall|i: int, j: int| 0 <= i < init.len() && 0 <= j < init[i].opcodes.len() implies #[trigger] mode_known(
            init[i].opcodes[j].0,
        ) by {
            assert(init[i] == instrs[i]);
        }
        lemma_instructions_closed(g, init);
        let prev = instructions_machine(g, init);
        let last = instrs.last();
        assert forall|j: int| 0 <= j < last.opcodes.len() implies #[trigger] mode_known(last.opcodes[j].0) by {
            assert(mode_known(instrs[instrs.len() - 1].opcodes[j].0));
        }
        lemma_opcodes_closed(prev, last.code, last.opcodes);
        let m = instructions_machine(g, instrs).machine;
        assert forall|i: int, j: int| 0 <= i < instrs.len() && 0 <= j < instrs[i].opcodes.len() implies has_state(
            m,
            #[trigger] instrs[i].opcodes[j].1,
        ) by {
            if i < instrs.len() - 1 {
                assert(init[i] == instrs[i]);
                assert(has_state(prev.machine, init[i].opcodes[j].1));
            }
        }
    }
}

/// The generated machine is closed: the fetch state is one of its states, every opcode of
/// the instructions has a state, and every state that a state may go on to is one of its
/// states (but the fetch state's `0`, which stands for the opcode it has just read).
pub proof fn lemma_generated_machine_closed(g: GeneratorModel, instrs: Seq<InstructionModel>)
    requires
        closed(g.machine),
        modes_known(instrs),
    ensures
        generated_machine(g, instrs).machine.dom().contains((0x100usize, seq![0usize])),
        forall|i: int, j: int|
            0 <= i < instrs.len() && 0 <= j < instrs[i].opcodes.len() ==> has_state(
                generated_machine(g, instrs).machine,
                #[trigger] instrs[i].opcodes[j].1,
            ),
        forall|k: (usize, Seq<usize>), i: int|
            #![trigger generated_machine(g, instrs).machine.dom().contains(k), k.1[i]]
            generated_machine(g, instrs).machine.dom().contains(k) && 0 <= i < k.1.len() ==> k.1[i] == 0
                || has_state(generated_machine(g, instrs).machine, k.1[i]),
{
    lemma_instructions_closed(g, instrs);
    let m = instructions_machine(g, instrs).machine;
    let fetch = (0x100usize, seq![0usize]);
    let m2 = m.insert(fetch, cycles::FETCH@);
    lemma_insert_keeps_states(m, fetch, cycles::FETCH@);
    assert forall|k: (usize, Seq<usize>), i: int| m2.dom().contains(k) && 0 <= i < k.1.len() implies #[trigger] k.1[i]
        == 0 || has_state(m2, #[trigger] k.1[i]) by {
        if k != fetch {
            assert(m.dom().contains(k));
            let n = k.1[i];
            if has_state(m, n) {
                assert(has_state(m2, n));
            }
        }
    }
}

/// The generator's starting machine, with no states, is closed.
pub proof fn lemma_empty_machine_closed()
    ensures
        closed(Map::<(usize, Seq<usize>), Seq<char>>::empty()),
{
}

/// The prefixes of a list of instructions count their opcodes one instruction at a time.
proof fn lemma_count_prefix(instrs: Seq<InstructionModel>, i: int)
    requires
        0 <= i < instrs.len(),
    ensures
        opcode_count(instrs.take(i + 1)) == opcode_count(instrs.take(i)) + instrs[i].opcodes.len(),
        opcode_count(instrs.take(i + 1)) <= opcode_count(instrs),
    decreases instrs.len(),
{
    assert(instrs.take(i + 1).drop_last() =~= instrs.take(i));
    if i + 1 < instrs.len() {
        lemma_count_prefix(instrs.drop_last(), i);
        assert(instrs.drop_last().take(i + 1) =~= instrs.take(i + 1));
        assert(instrs.drop_last().take(i) =~= instrs.take(i));
    } else {
        assert(instrs.take(i + 1) =~= instrs);
    }
}

/// `head`, `arg` and `tail` one after the other.
fn fill(head: &str, arg: &str, tail: &str) -> (r: String)
    ensures
        r@ == head@ + arg@ + tail@,
{
    let mut s = head.to_owned();
    s.append(arg);
    s.append(tail);
    s
}

/// `head`, `a`, `mid`, `b` and `tail` one after the other.
fn fill2(head: &str, a: &str, mid: &str, b: &str, tail: &str) -> (r: String)
    ensures
        r@ == head@ + a@ + mid@ + b@ + tail@,
{
    let mut s = head.to_owned();
    s.append(a);
    s.append(mid);
    s.append(b);
    s.append(tail);
    s
}

/// The list of the one state `s`.
fn one_state(s: usize) -> (r: Vec<usize>)
    ensures
        r@ == seq![s],
{
    let mut v = Vec::new();
    v.push(s);
    v
}

/// The list of the two states `a` and `b`.
fn two_states(a: usize, b: usize) -> (r: Vec<usize>)
    ensures
        r@ == seq![a, b],
{
    let mut v = Vec::new();
    v.push(a);
    v.push(b);
    v
}

/// A copy of the list of states `v`.
fn copy_states(v: &Vec<usize>) -> (r: Vec<usize>)
    ensures
        r@ == v@,
{
    let mut out = Vec::new();
    let mut i: usize = 0;
    while i < v.len()
        invariant
            i <= v@.len(),
            out@ == v@.subrange(0, i as int),
        decreases v@.len() - i,
    {
        out.push(v[i]);
        i += 1;
    }
    assert(out@ =~= v@);
    out
}

/// Whether the generator knows the addressing mode named `mode`.
pub fn mode_is_known(mode: &str) -> (r: bool)
    ensures
        r == mode_known(mode@),
{
    text_eq(mode, "implied")
    || text_eq(mode, "immediate")
    || text_eq(mode, "accumulator")
    || text_eq(mode, "zero_page")
    || text_eq(mode, "zero_page_x")
    || text_eq(mode, "zero_page_y")
    || text_eq(mode, "relative")
    || text_eq(mode, "absolute")
    || text_eq(mode, "absolute_x")
    || text_eq(mode, "absolute_y")
    || text_eq(mode, "indirect")
    || text_eq(mode, "absolute_jmp")
    || text_eq(mode, "indirect_x")
    || text_eq(mode, "indirect_y")
    || text_eq(mode, "zero_page_rmw")
    || text_eq(mode, "zero_page_x_rmw")
    || text_eq(mode, "absolute_rmw")
    || text_eq(mode, "absolute_x_rmw")
    || text_eq(mode, "zero_page_st")
    || text_eq(mode, "zero_page_x_st")
    || text_eq(mode, "zero_page_y_st")
    || text_eq(mode, "absolute_st")
    || text_eq(mode, "absolute_x_st")
    || text_eq(mode, "absolute_y_st")
    || text_eq(mode, "indirect_x_st")
    || text_eq(mode, "indirect_y_st")
    || text_eq(mode, "indirect_x_illegal")
    || text_eq(mode, "indirect_y_illegal")
    || text_eq(mode, "absolute_y_illegal")
}

impl Generator {
    /// Whether `generate_machine` can take `instructions`: the generator knows every
    /// addressing mode in them, and the state counter has room for the states they need.
    pub fn can_generate(&self, instructions: &Vec<ParsedInstruction>) -> (r: bool)
        ensures
            r == (modes_known(instructions@.map_values(|i: ParsedInstruction| i@)) && self.state + 6
                * opcode_count(instructions@.map_values(|i: ParsedInstruction| i@)) <= usize::MAX),
    {
        let ghost instrs = instructions@.map_values(|i: ParsedInstruction| i@);
        let mut room: usize = usize::MAX - self.state;
        let mut i: usize = 0;
        while i < instructions.len()
            invariant
                instrs == instructions@.map_values(|i: ParsedInstruction| i@),
                i <= instrs.len(),
                room == usize::MAX - self.state - 6 * opcode_count(instrs.take(i as int)),
                forall|a: int, b: int|
                    0 <= a < i && 0 <= b < instrs[a].opcodes.len() ==> #[trigger] mode_known(
                        instrs[a].opcodes[b].0,
                    ),
            decreases instrs.len() - i,
        {
            let inst = &instructions[i];
            let ghost ops = instrs[i as int].opcodes;
            proof {
                lemma_count_prefix(instrs, i as int);
            }
            let mut j: usize = 0;
            while j < inst.opcodes.len()
                invariant
                    instrs == instructions@.map_values(|i: ParsedInstruction| i@),
                    i < instrs.len(),
                    ops == instrs[i as int].opcodes,
                    ops == inst.opcodes@.map_values(|o: (String, usize)| (o.0@, o.1)),
                    opcode_count(instrs.take(i + 1)) == opcode_count(instrs.take(i as int)) + ops.len(),
                    opcode_count(instrs.take(i + 1)) <= opcode_count(instrs),
                    j <= ops.len(),
                    room == usize::MAX - self.state - 6 * (opcode_count(instrs.take(i as int)) + j),
                    forall|a: int, b: int|
                        0 <= a < i && 0 <= b < instrs[a].opcodes.len() ==> #[trigger] mode_known(
                            instrs[a].opcodes[b].0,
                        ),
                    forall|b: int| 0 <= b < j ==> #[trigger] mode_known(instrs[i as int].opcodes[b].0),
                decreases ops.len() - j,
            {
                let op = &inst.opcodes[j];
                assert(ops[j as int] == (op.0@, op.1));
                if !mode_is_known(op.0.as_str()) {
                    assert(!mode_known(instrs[i as int].opcodes[j as int].0));
                    return false;
                }
                if room < 6 {
                    return false;
                }
                room = room - 6;
                j += 1;
            }
            assert(forall|a: int, b: int|
                0 <= a < i + 1 && 0 <= b < instrs[a].opcodes.len() ==> #[trigger] mode_known(
                    instrs[a].opcodes[b].0,
                ));
            i += 1;
        }
        assert(instrs.take(i as int) =~= instrs);
        true
    }
}

impl Generator {
    /// The invariant: the machine's keys are distinct and each has a next state.
    pub open spec fn wf(&self) -> bool {
        &&& self.state_machine.wf()
        &&& keys_have_next(self@.machine)
    }

    /// A generator with no states, whose first new state follows the fetch state.
    pub fn new() -> (g: Self)
        ensures
            g.wf(),
            g@.state == 0x100,
            g@.machine == Map::<(usize, Seq<usize>), Seq<char>>::empty(),
    {
        Generator { state: 0x100, state_machine: StateMachine::new() }
    }

    /// Writes the numbers of the next states into the code of each state.
    #[verifier::spinoff_prover]
    pub fn optimize_machine(&mut self)
        requires
            old(self).wf(),
        ensures
            final(self).wf(),
            final(self)@ == (GeneratorModel { state: old(self)@.state, machine: optimized(old(self)@.machine) }),
    {
        let ghost es = self.state_machine.entries@;
        let mut optimized_entries: Vec<StateEntry> = Vec::new();
        let mut i: usize = 0;
        while i < self.state_machine.entries.len()
            invariant
                self == old(self),
                self.wf(),
                es == self.state_machine.entries@,
                i <= es.len(),
                optimized_entries@.len() == i,
                forall|j: int|
                    0 <= j < i ==> #[trigger] optimized_entries@[j].key() == es[j].key()
                        && optimized_entries@[j].code@ == optimize_code(es[j].key(), es[j].code@),
            decreases es.len() - i,
        {
            let e = &self.state_machine.entries[i];
            proof {
                lemma_machine_contains(es, i as int);
                assert(self@.machine.dom().contains(es[i as int].key()));
            }
            assert(e.next@.len() >= 1);
            let mut code = e.code.clone();
            if e.next.len() > 1 {
                let second = hex_text(e.next[1]);
                proof {
                    reveal_strlit("?<>");
                }
                code = replace_text(code.as_str(), "?<>", second.as_str());
            }
            let first = hex_text(e.next[0]);
            proof {
                reveal_strlit("<>");
            }
            code = replace_text(code.as_str(), "<>", first.as_str());
            let entry = StateEntry { state: e.state, next: copy_states(&e.next), code };
            assert(entry.key() == es[i as int].key());
            assert(entry.code@ == optimize_code(es[i as int].key(), es[i as int].code@));
            let ghost before = optimized_entries@;
            optimized_entries.push(entry);
            assert forall|j: int| 0 <= j < i + 1 implies #[trigger] optimized_entries@[j].key()
                == es[j].key() && optimized_entries@[j].code@ == optimize_code(
                es[j].key(),
                es[j].code@,
            ) by {
                if j < i {
                    assert(optimized_entries@[j] == before[j]);
                }
            }
            i += 1;
        }
        proof {
            lemma_machine_map_codes(es, optimized_entries@, |k: (usize, Seq<usize>), c: Seq<char>| optimize_code(k, c));
            assert(optimized(old(self)@.machine) =~= Map::new(
                |k: (usize, Seq<usize>)| machine::machine_of(es).dom().contains(k),
                |k: (usize, Seq<usize>)| optimize_code(k, machine::machine_of(es)[k]),
            ));
            assert forall|a: int, b: int| 0 <= a < b < optimized_entries@.len() implies optimized_entries@[a].key()
                != optimized_entries@[b].key() by {
                assert(optimized_entries@[a].key() == es[a].key());
                assert(optimized_entries@[b].key() == es[b].key());
            }
        }
        self.state_machine = StateMachine { entries: optimized_entries };
        assert(self@.machine =~= optimized(old(self)@.machine));
    }

    /// Adds the states of each opcode of each instruction, in order, and the state that fetches
    /// the next opcode.
    pub fn generate_machine(&mut self, instructions: Vec<ParsedInstruction>)
        requires
            old(self).wf(),
            modes_known(instructions@.map_values(|i: ParsedInstruction| i@)),
            old(self).state + 6 * opcode_count(instructions@.map_values(|i: ParsedInstruction| i@))
                <= usize::MAX,
        ensures
            final(self).wf(),
            final(self)@ == generated_machine(
                old(self)@,
                instructions@.map_values(|i: ParsedInstruction| i@),
            ),
    {
        let ghost g0 = self@;
        let ghost instrs = instructions@.map_values(|i: ParsedInstruction| i@);
        let mut i: usize = 0;
        while i < instructions.len()
            invariant
                self.wf(),
                instrs == instructions@.map_values(|i: ParsedInstruction| i@),
                modes_known(instrs),
                g0.state + 6 * opcode_count(instrs) <= usize::MAX,
                i <= instrs.len(),
                self@ == instructions_machine(g0, instrs.take(i as int)),
                self.state <= g0.state + 6 * opcode_count(instrs.take(i as int)),
            decreases instrs.len() - i,
        {
            let inst = &instructions[i];
            let ghost ops = instrs[i as int].opcodes;
            let ghost start = self@;
            proof {
                lemma_count_prefix(instrs, i as int);
            }
            let mut j: usize = 0;
            while j < inst.opcodes.len()
                invariant
                    self.wf(),
                    i < instrs.len(),
                    ops == instrs[i as int].opcodes,
                    ops == inst.opcodes@.map_values(|o: (String, usize)| (o.0@, o.1)),
                    instrs[i as int].code == inst.code@,
                    modes_known(instrs),
                    g0.state + 6 * opcode_count(instrs) <= usize::MAX,
                    opcode_count(instrs.take(i + 1)) == opcode_count(instrs.take(i as int)) + ops.len(),
                    opcode_count(instrs.take(i + 1)) <= opcode_count(instrs),
                    j <= ops.len(),
                    self@ == opcodes_machine(start, inst.code@, ops.take(j as int)),
                    self.state <= g0.state + 6 * (opcode_count(instrs.take(i as int)) + j),
                decreases ops.len() - j,
            {
                let op = &inst.opcodes[j];
                assert(ops[j as int] == (op.0@, op.1));
                assert(mode_known(instrs[i as int].opcodes[j as int].0));
                self.add_opcode(op.0.as_str(), inst.code.as_str(), op.1);
                assert(ops.take(j + 1).drop_last() =~= ops.take(j as int));
                j += 1;
            }
            assert(ops.take(j as int) =~= ops);
            assert(instrs.take(i + 1).drop_last() =~= instrs.take(i as int));
            i += 1;
        }
        assert(instrs.take(i as int) =~= instrs);
        proof {
            lemma_keys_have_next_insert(self@.machine, (0x100usize, seq![0usize]), cycles::FETCH@);
        }
        self.state_machine.insert(0x100, one_state(0), cycles::FETCH.to_owned());
    }

    /// Adds the states of the opcode `op`, an instruction with the code `i_code` in the
    /// addressing mode `mode`.
    #[verifier::rlimit(50)]
    fn add_opcode(&mut self, mode: &str, i_code: &str, op: usize)
        requires
            old(self).wf(),
            mode_known(mode@),
            old(self).state + 6 <= usize::MAX,
        ensures
            final(self).wf(),
            final(self)@ == opcode_machine(old(self)@, mode@, i_code@, op),
            old(self).state <= final(self).state <= old(self).state + 6,
    {
        if text_eq(mode, "implied") {
            if op == 0x28 {
                self.plp(op);
            } else if op == 0x68 {
                self.pla(op);
            } else if op == 0x08 {
                self.php(op);
            } else if op == 0x48 {
                self.pha(op);
            } else if op == 0x20 {
                self.jsr(op);
            } else if op == 0x00 {
                self.brk(op);
            } else if op == 0x40 {
                self.rti(op);
            } else if op == 0x60 {
                self.rts(op);
            } else {
                self.implied(i_code, op);
            }
        } else if text_eq(mode, "immediate") {
            self.immediate(i_code, op);
        } else if text_eq(mode, "accumulator") {
            self.accumulator(i_code, op);
        } else if text_eq(mode, "zero_page") {
            self.zero_page(i_code, op);
        } else if text_eq(mode, "zero_page_x") {
            self.zero_page_x(i_code, op);
        } else if text_eq(mode, "zero_page_y") {
            self.zero_page_y(i_code, op);
        } else if text_eq(mode, "relative") {
            self.relative(i_code, op);
        } else if text_eq(mode, "absolute") {
            self.absolute(i_code, op);
        } else if text_eq(mode, "absolute_x") {
            self.absolute_x_or_y(i_code, op, "x");
        } else if text_eq(mode, "absolute_y") {
            self.absolute_x_or_y(i_code, op, "y");
        } else if text_eq(mode, "indirect") {
            self.indirect(op);
        } else if text_eq(mode, "absolute_jmp") {
            self.absolute_jmp(op);
        } else if text_eq(mode, "indirect_x") {
            self.indirect_x(i_code, op);
        } else if text_eq(mode, "indirect_y") {
            self.indirect_y(i_code, op);
        } else if text_eq(mode, "zero_page_rmw") {
            self.zero_page_rmw(i_code, op);
        } else if text_eq(mode, "zero_page_x_rmw") {
            self.zero_page_x_rmw(i_code, op);
        } else if text_eq(mode, "absolute_rmw") {
            self.absolute_rmw(i_code, op);
        } else if text_eq(mode, "absolute_x_rmw") {
            self.absolute_x_rmw(i_code, op);
        } else if text_eq(mode, "zero_page_st") {
            self.zero_page_st(i_code, op);
        } else if text_eq(mode, "zero_page_x_st") {
            self.zero_page_x_or_y_st(i_code, op, "x");
        } else if text_eq(mode, "zero_page_y_st") {
            self.zero_page_x_or_y_st(i_code, op, "y");
        } else if text_eq(mode, "absolute_st") {
            self.absolute_st(i_code, op);
        } else if text_eq(mode, "absolute_x_st") {
            self.absolute_x_or_y_st(i_code, op, "x");
        } else if text_eq(mode, "absolute_y_st") {
            self.absolute_x_or_y_st(i_code, op, "y");
        } else if text_eq(mode, "indirect_x_st") {
            self.indirect_x_st(i_code, op);
        } else if text_eq(mode, "indirect_y_st") {
            self.indirect_y_st(i_code, op);
        } else if text_eq(mode, "indirect_x_illegal") {
            self.indirect_x_illegal(i_code, op);
        } else if text_eq(mode, "indirect_y_illegal") {
            self.indirect_y_illegal(i_code, op);
        } else if text_eq(mode, "absolute_y_illegal") {
            self.absolute_y_illegal(i_code, op);
        }
    }

    /// Adds the only cycle of an instruction, entered from the opcode `op`.
    fn add_single(&mut self, s: String, op: usize)
        requires
            old(self).wf(),
        ensures
            final(self).wf(),
            final(self)@ == single_cycle(old(self)@, op, s@),
    {
        let ghost m = self@.machine;
        let ghost code = s@;
        self.state_machine.insert(op, one_state(0x100), s);
        proof {
            lemma_keys_have_next_insert(m, (op, seq![0x100usize]), code);
        }
    }

    /// Adds the first cycle of an instruction, entered from the opcode `op`.
    fn add_entry(&mut self, s: String, op: usize)
        requires
            old(self).wf(),
            old(self).state < usize::MAX,
        ensures
            final(self).wf(),
            final(self)@ == entry_cycle(old(self)@, op, s@),
    {
        let next = self.update_state();
        let ghost m = self@.machine;
        let ghost code = s@;
        self.state_machine.insert(op, one_state(next), s);
        proof {
            lemma_keys_have_next_insert(m, (op, seq![next]), code);
        }
    }

    /// Adds a cycle in the middle of an instruction.
    fn add_middle(&mut self, s: String)
        requires
            old(self).wf(),
            old(self).state < usize::MAX,
        ensures
            final(self).wf(),
            final(self)@ == middle_cycle(old(self)@, s@),
    {
        let prev = self.state;
        let next = self.update_state();
        let ghost m = self@.machine;
        let ghost code = s@;
        self.state_machine.insert(prev, one_state(next), s);
        proof {
            lemma_keys_have_next_insert(m, (prev, seq![next]), code);
        }
    }

    /// Adds the last cycle of an instruction.
    fn add_exit(&mut self, s: String)
        requires
            old(self).wf(),
        ensures
            final(self).wf(),
            final(self)@ == exit_cycle(old(self)@, s@),
    {
        let prev = self.state;
        let ghost m = self@.machine;
        let ghost code = s@;
        self.state_machine.insert(prev, one_state(0x100), s);
        proof {
            lemma_keys_have_next_insert(m, (prev, seq![0x100usize]), code);
        }
    }

    /// Adds the cycles of `plp` for the opcode `op`.
    fn plp(&mut self, op: usize)
        requires
            old(self).wf(),
            old(self).state + 6 <= usize::MAX,
        ensures
            final(self).wf(),
            final(self)@ == cycles::plp_machine(old(self)@, op),
    {
        let cycle_0 = cycles::PLP_0.to_owned();
        let cycle_1 = cycles::PLP_1.to_owned();
        let cycle_2 = cycles::PLP_2.to_owned();
        self.add_entry(cycle_0, op);
        self.add_middle(cycle_1);
        self.add_exit(cycle_2);
    }

    /// Adds the cycles of `pla` for the opcode `op`.
    fn pla(&mut self, op: usize)
        requires
            old(self).wf(),
            old(self).state + 6 <= usize::MAX,
        ensures
            final(self).wf(),
            final(self)@ == cycles::pla_machine(old(self)@, op),
    {
        let cycle_0 = cycles::PLA_0.to_owned();
        let cycle_1 = cycles::PLA_1.to_owned();
        let cycle_2 = cycles::PLA_2.to_owned();
        self.add_entry(cycle_0, op);
        self.add_middle(cycle_1);
        self.add_exit(cycle_2);
    }

    /// Adds the cycles of `php` for the opcode `op`.
    fn php(&mut self, op: usize)
        requires
            old(self).wf(),
            old(self).state + 6 <= usize::MAX,
        ensures
            final(self).wf(),
            final(self)@ == cycles::php_machine(old(self)@, op),
    {
        let cycle_0 = cycles::PHP_0.to_owned();
        let cycle_1 = cycles::PHP_1.to_owned();
        self.add_entry(cycle_0, op);
        self.add_exit(cycle_1);
    }

    /// Adds the cycles of `pha` for the opcode `op`.
    fn pha(&mut self, op: usize)
        requires
            old(self).wf(),
            old(self).state + 6 <= usize::MAX,
        ensures
            final(self).wf(),
            final(self)@ == cycles::pha_machine(old(self)@, op),
    {
        let cycle_0 = cycles::PHA_0.to_owned();
        let cycle_1 = cycles::PHA_1.to_owned();
        self.add_entry(cycle_0, op);
        self.add_exit(cycle_1);
    }

    /// Adds the cycles of `jsr` for the opcode `op`.
    fn jsr(&mut self, op: usize)
        requires
            old(self).wf(),
            old(self).state + 6 <= usize::MAX,
        ensures
            final(self).wf(),
            final(self)@ == cycles::jsr_machine(old(self)@, op),
    {
        let cycle_0 = cycles::JSR_0.to_owned();
        let cycle_1 = cycles::JSR_1.to_owned();
        let cycle_2 = cycles::JSR_2.to_owned();
        let cycle_3 = cycles::JSR_3.to_owned();
        let cycle_4 = cycles::JSR_4.to_owned();
        self.add_entry(cycle_0, op);
        self.add_middle(cycle_1);
        self.add_middle(cycle_2);
        self.add_middle(cycle_3);
        self.add_exit(cycle_4);
    }

    /// Adds the cycles of `brk` for the opcode `op`.
    fn brk(&mut self, op: usize)
        requires
            old(self).wf(),
            old(self).state + 6 <= usize::MAX,
        ensures
            final(self).wf(),
            final(self)@ == cycles::brk_machine(old(self)@, op),
    {
        let cycle_0 = cycles::BRK_0.to_owned();
        let cycle_1 = cycles::BRK_1.to_owned();
        let cycle_2 = cycles::BRK_2.to_owned();
        let cycle_3 = cycles::BRK_3.to_owned();
        let cycle_4 = cycles::BRK_4.to_owned();
        let cycle_5 = cycles::BRK_5.to_owned();
        self.add_entry(cycle_0, op);
        self.add_middle(cycle_1);
        self.add_middle(cycle_2);
        self.add_middle(cycle_3);
        self.add_middle(cycle_4);
        self.add_exit(cycle_5);
    }

    /// Adds the cycles of `rti` for the opcode `op`.
    fn rti(&mut self, op: usize)
        requires
            old(self).wf(),
            old(self).state + 6 <= usize::MAX,
        ensures
            final(self).wf(),
            final(self)@ == cycles::rti_machine(old(self)@, op),
    {
        let cycle_0 = cycles::RTI_0.to_owned();
        let cycle_1 = cycles::RTI_1.to_owned();
        let cycle_2 = cycles::RTI_2.to_owned();
        let cycle_3 = cycles::RTI_3.to_owned();
        let cycle_4 = cycles::RTI_4.to_owned();
        self.add_entry(cycle_0, op);
        self.add_middle(cycle_1);
        self.add_middle(cycle_2);
        self.add_middle(cycle_3);
        self.add_exit(cycle_4);
    }

    /// Adds the cycles of `rts` for the opcode `op`.
    fn rts(&mut self, op: usize)
        requires
            old(self).wf(),
            old(self).state + 6 <= usize::MAX,
        ensures
            final(self).wf(),
            final(self)@ == cycles::rts_machine(old(self)@, op),
    {
        let cycle_0 = cycles::RTS_0.to_owned();
        let cycle_1 = cycles::RTS_1.to_owned();
        let cycle_2 = cycles::RTS_2.to_owned();
        let cycle_3 = cycles::RTS_3.to_owned();
        let cycle_4 = cycles::RTS_4.to_owned();
        self.add_entry(cycle_0, op);
        self.add_middle(cycle_1);
        self.add_middle(cycle_2);
        self.add_middle(cycle_3);
        self.add_exit(cycle_4);
    }

    /// Adds the cycles of `implied` for the opcode `op`.
    fn implied(&mut self, i_code: &str, op: usize)
        requires
            old(self).wf(),
            old(self).state + 6 <= usize::MAX,
        ensures
            final(self).wf(),
            final(self)@ == cycles::implied_machine(old(self)@, i_code@, op),
    {
        let cycle_0 = fill(cycles::IMPLIED_0_HEAD, i_code, cycles::IMPLIED_0_TAIL);
        self.add_single(cycle_0, op);
    }

    /// Adds the cycles of `immediate` for the opcode `op`.
    fn immediate(&mut self, i_code: &str, op: usize)
        requires
            old(self).wf(),
            old(self).state + 6 <= usize::MAX,
        ensures
            final(self).wf(),
            final(self)@ == cycles::immediate_machine(old(self)@, i_code@, op),
    {
        let cycle_0 = fill(cycles::IMMEDIATE_0_HEAD, i_code, cycles::IMMEDIATE_0_TAIL);
        self.add_single(cycle_0, op);
    }

    /// Adds the cycles of `accumulator` for the opcode `op`.
    fn accumulator(&mut self, i_code: &str, op: usize)
        requires
            old(self).wf(),
            old(self).state + 6 <= usize::MAX,
        ensures
            final(self).wf(),
            final(self)@ == cycles::accumulator_machine(old(self)@, i_code@, op),
    {
        let cycle_0 = fill(cycles::ACCUMULATOR_0_HEAD, i_code, cycles::ACCUMULATOR_0_TAIL);
        self.add_single(cycle_0, op);
    }

    /// Adds the cycles of `zero_page` for the opcode `op`.
    fn zero_page(&mut self, i_code: &str, op: usize)
        requires
            old(self).wf(),
            old(self).state + 6 <= usize::MAX,
        ensures
            final(self).wf(),
            final(self)@ == cycles::zero_page_machine(old(self)@, i_code@, op),
    {
        let cycle_0 = cycles::ZERO_PAGE_0.to_owned();
        let cycle_1 = fill(cycles::ZERO_PAGE_1_HEAD, i_code, cycles::ZERO_PAGE_1_TAIL);
        self.add_entry(cycle_0, op);
        self.add_exit(cycle_1);
    }

    /// Adds the cycles of `zero_page_x` for the opcode `op`.
    fn zero_page_x(&mut self, i_code: &str, op: usize)
        requires
            old(self).wf(),
            old(self).state + 6 <= usize::MAX,
        ensures
            final(self).wf(),
            final(self)@ == cycles::zero_page_x_machine(old(self)@, i_code@, op),
    {
        let cycle_0 = cycles::ZERO_PAGE_X_0.to_owned();
        let cycle_1 = cycles::ZERO_PAGE_X_1.to_owned();
        let cycle_2 = fill(cycles::ZERO_PAGE_X_2_HEAD, i_code, cycles::ZERO_PAGE_X_2_TAIL);
        self.add_entry(cycle_0, op);
        self.add_middle(cycle_1);
        self.add_exit(cycle_2);
    }

    /// Adds the cycles of `zero_page_y` for the opcode `op`.
    fn zero_page_y(&mut self, i_code: &str, op: usize)
        requires
            old(self).wf(),
            old(self).state + 6 <= usize::MAX,
        ensures
            final(self).wf(),
            final(self)@ == cycles::zero_page_y_machine(old(self)@, i_code@, op),
    {
        let cycle_0 = cycles::ZERO_PAGE_Y_0.to_owned();
        let cycle_1 = cycles::ZERO_PAGE_Y_1.to_owned();
        let cycle_2 = fill(cycles::ZERO_PAGE_Y_2_HEAD, i_code, cycles::ZERO_PAGE_Y_2_TAIL);
        self.add_entry(cycle_0, op);
        self.add_middle(cycle_1);
        self.add_exit(cycle_2);
    }

    /// Adds the cycles of `relative` for the opcode `op`.
    fn relative(&mut self, i_code: &str, op: usize)
        requires
            old(self).wf(),
            old(self).state + 6 <= usize::MAX,
        ensures
            final(self).wf(),
            final(self)@ == cycles::relative_machine(old(self)@, i_code@, op),
    {
        let cycle_0 = fill(cycles::RELATIVE_0_HEAD, i_code, cycles::RELATIVE_0_TAIL);
        let cycle_1 = cycles::RELATIVE_1.to_owned();
        let cycle_2 = cycles::RELATIVE_2.to_owned();
        self.add_entry(cycle_0, op);
        self.add_middle(cycle_1);
        self.add_exit(cycle_2);
    }

    /// Adds the cycles of `absolute` for the opcode `op`.
    fn absolute(&mut self, i_code: &str, op: usize)
        requires
            old(self).wf(),
            old(self).state + 6 <= usize::MAX,
        ensures
            final(self).wf(),
            final(self)@ == cycles::absolute_machine(old(self)@, i_code@, op),
    {
        let cycle_0 = cycles::ABSOLUTE_0.to_owned();
        let cycle_1 = cycles::ABSOLUTE_1.to_owned();
        let cycle_2 = fill(cycles::ABSOLUTE_2_HEAD, i_code, cycles::ABSOLUTE_2_TAIL);
        self.add_entry(cycle_0, op);
        self.add_middle(cycle_1);
        self.add_exit(cycle_2);
    }

    /// Adds the cycles of `indirect` for the opcode `op`.
    fn indirect(&mut self, op: usize)
        requires
            old(self).wf(),
            old(self).state + 6 <= usize::MAX,
        ensures
            final(self).wf(),
            final(self)@ == cycles::indirect_machine(old(self)@, op),
    {
        let cycle_0 = cycles::INDIRECT_0.to_owned();
        let cycle_1 = cycles::INDIRECT_1.to_owned();
        let cycle_2 = cycles::INDIRECT_2.to_owned();
        let cycle_3 = cycles::INDIRECT_3.to_owned();
        self.add_entry(cycle_0, op);
        self.add_middle(cycle_1);
        self.add_middle(cycle_2);
        self.add_exit(cycle_3);
    }

    /// Adds the cycles of `absolute_jmp` for the opcode `op`.
    fn absolute_jmp(&mut self, op: usize)
        requires
            old(self).wf(),
            old(self).state + 6 <= usize::MAX,
        ensures
            final(self).wf(),
            final(self)@ == cycles::absolute_jmp_machine(old(self)@, op),
    {
        let cycle_0 = cycles::ABSOLUTE_JMP_0.to_owned();
        let cycle_1 = cycles::ABSOLUTE_JMP_1.to_owned();
        self.add_entry(cycle_0, op);
        self.add_exit(cycle_1);
    }

    /// Adds the cycles of `indirect_x` for the opcode `op`.
    fn indirect_x(&mut self, i_code: &str, op: usize)
        requires
            old(self).wf(),
            old(self).state + 6 <= usize::MAX,
        ensures
            final(self).wf(),
            final(self)@ == cycles::indirect_x_machine(old(self)@, i_code@, op),
    {
        let cycle_0 = cycles::INDIRECT_X_0.to_owned();
        let cycle_1 = cycles::INDIRECT_X_1.to_owned();
        let cycle_2 = cycles::INDIRECT_X_2.to_owned();
        let cycle_3 = cycles::INDIRECT_X_3.to_owned();
        let cycle_4 = fill(cycles::INDIRECT_X_4_HEAD, i_code, cycles::INDIRECT_X_4_TAIL);
        self.add_entry(cycle_0, op);
        self.add_middle(cycle_1);
        self.add_middle(cycle_2);
        self.add_middle(cycle_3);
        self.add_exit(cycle_4);
    }

    /// Adds the cycles of `zero_page_rmw` for the opcode `op`.
    fn zero_page_rmw(&mut self, i_code: &str, op: usize)
        requires
            old(self).wf(),
            old(self).state + 6 <= usize::MAX,
        ensures
            final(self).wf(),
            final(self)@ == cycles::zero_page_rmw_machine(old(self)@, i_code@, op),
    {
        let cycle_0 = cycles::ZERO_PAGE_RMW_0.to_owned();
        let cycle_1 = cycles::ZERO_PAGE_RMW_1.to_owned();
        let cycle_2 = fill(cycles::ZERO_PAGE_RMW_2_HEAD, i_code, cycles::ZERO_PAGE_RMW_2_TAIL);
        let cycle_3 = cycles::ZERO_PAGE_RMW_3.to_owned();
        self.add_entry(cycle_0, op);
        self.add_middle(cycle_1);
        self.add_middle(cycle_2);
        self.add_exit(cycle_3);
    }

    /// Adds the cycles of `zero_page_x_rmw` for the opcode `op`.
    fn zero_page_x_rmw(&mut self, i_code: &str, op: usize)
        requires
            old(self).wf(),
            old(self).state + 6 <= usize::MAX,
        ensures
            final(self).wf(),
            final(self)@ == cycles::zero_page_x_rmw_machine(old(self)@, i_code@, op),
    {
        let cycle_0 = cycles::ZERO_PAGE_X_RMW_0.to_owned();
        let cycle_1 = cycles::ZERO_PAGE_X_RMW_1.to_owned();
        let cycle_2 = cycles::ZERO_PAGE_X_RMW_2.to_owned();
        let cycle_3 = fill(cycles::ZERO_PAGE_X_RMW_3_HEAD, i_code, cycles::ZERO_PAGE_X_RMW_3_TAIL);
        let cycle_4 = cycles::ZERO_PAGE_X_RMW_4.to_owned();
        self.add_entry(cycle_0, op);
        self.add_middle(cycle_1);
        self.add_middle(cycle_2);
        self.add_middle(cycle_3);
        self.add_exit(cycle_4);
    }

    /// Adds the cycles of `absolute_rmw` for the opcode `op`.
    fn absolute_rmw(&mut self, i_code: &str, op: usize)
        requires
            old(self).wf(),
            old(self).state + 6 <= usize::MAX,
        ensures
            final(self).wf(),
            final(self)@ == cycles::absolute_rmw_machine(old(self)@, i_code@, op),
    {
        let cycle_0 = cycles::ABSOLUTE_RMW_0.to_owned();
        let cycle_1 = cycles::ABSOLUTE_RMW_1.to_owned();
        let cycle_2 = cycles::ABSOLUTE_RMW_2.to_owned();
        let cycle_3 = fill(cycles::ABSOLUTE_RMW_3_HEAD, i_code, cycles::ABSOLUTE_RMW_3_TAIL);
        let cycle_4 = cycles::ABSOLUTE_RMW_4.to_owned();
        self.add_entry(cycle_0, op);
        self.add_middle(cycle_1);
        self.add_middle(cycle_2);
        self.add_middle(cycle_3);
        self.add_exit(cycle_4);
    }

    /// Adds the cycles of `absolute_x_rmw` for the opcode `op`.
    fn absolute_x_rmw(&mut self, i_code: &str, op: usize)
        requires
            old(self).wf(),
            old(self).state + 6 <= usize::MAX,
        ensures
            final(self).wf(),
            final(self)@ == cycles::absolute_x_rmw_machine(old(self)@, i_code@, op),
    {
        let cycle_0 = cycles::ABSOLUTE_X_RMW_0.to_owned();
        let cycle_1 = cycles::ABSOLUTE_X_RMW_1.to_owned();
        let cycle_2 = cycles::ABSOLUTE_X_RMW_2.to_owned();
        let cycle_3 = cycles::ABSOLUTE_X_RMW_3.to_owned();
        let cycle_4 = fill(cycles::ABSOLUTE_X_RMW_4_HEAD, i_code, cycles::ABSOLUTE_X_RMW_4_TAIL);
        let cycle_5 = cycles::ABSOLUTE_X_RMW_5.to_owned();
        self.add_entry(cycle_0, op);
        self.add_middle(cycle_1);
        self.add_middle(cycle_2);
        self.add_middle(cycle_3);
        self.add_middle(cycle_4);
        self.add_exit(cycle_5);
    }

    /// Adds the cycles of `zero_page_st` for the opcode `op`.
    fn zero_page_st(&mut self, i_code: &str, op: usize)
        requires
            old(self).wf(),
            old(self).state + 6 <= usize::MAX,
        ensures
            final(self).wf(),
            final(self)@ == cycles::zero_page_st_machine(old(self)@, i_code@, op),
    {
        let cycle_0 = cycles::ZERO_PAGE_ST_0.to_owned();
        let cycle_1 = fill(cycles::ZERO_PAGE_ST_1_HEAD, i_code, cycles::ZERO_PAGE_ST_1_TAIL);
        self.add_entry(cycle_0, op);
        self.add_exit(cycle_1);
    }

    /// Adds the cycles of `zero_page_x_or_y_st` for the opcode `op`.
    fn zero_page_x_or_y_st(&mut self, i_code: &str, op: usize, reg: &str)
        requires
            old(self).wf(),
            old(self).state + 6 <= usize::MAX,
        ensures
            final(self).wf(),
            final(self)@ == cycles::zero_page_x_or_y_st_machine(old(self)@, i_code@, op, reg@),
    {
        let cycle_0 = cycles::ZERO_PAGE_INDEXED_ST_0.to_owned();
        let cycle_1 = fill(cycles::ZERO_PAGE_INDEXED_ST_1_HEAD, reg, cycles::ZERO_PAGE_INDEXED_ST_1_TAIL);
        let cycle_2 = fill(cycles::ZERO_PAGE_INDEXED_ST_2_HEAD, i_code, cycles::ZERO_PAGE_INDEXED_ST_2_TAIL);
        self.add_entry(cycle_0, op);
        self.add_middle(cycle_1);
        self.add_exit(cycle_2);
    }

    /// Adds the cycles of `absolute_st` for the opcode `op`.
    fn absolute_st(&mut self, i_code: &str, op: usize)
        requires
            old(self).wf(),
            old(self).state + 6 <= usize::MAX,
        ensures
            final(self).wf(),
            final(self)@ == cycles::absolute_st_machine(old(self)@, i_code@, op),
    {
        let cycle_0 = cycles::ABSOLUTE_ST_0.to_owned();
        let cycle_1 = cycles::ABSOLUTE_ST_1.to_owned();
        let cycle_2 = fill(cycles::ABSOLUTE_ST_2_HEAD, i_code, cycles::ABSOLUTE_ST_2_TAIL);
        self.add_entry(cycle_0, op);
        self.add_middle(cycle_1);
        self.add_exit(cycle_2);
    }

    /// Adds the cycles of `absolute_x_or_y_st` for the opcode `op`.
    fn absolute_x_or_y_st(&mut self, i_code: &str, op: usize, reg: &str)
        requires
            old(self).wf(),
            old(self).state + 6 <= usize::MAX,
        ensures
            final(self).wf(),
            final(self)@ == cycles::absolute_x_or_y_st_machine(old(self)@, i_code@, op, reg@),
    {
        let cycle_0 = cycles::ABSOLUTE_INDEXED_ST_0.to_owned();
        let cycle_1 = fill(cycles::ABSOLUTE_INDEXED_ST_1_HEAD, reg, cycles::ABSOLUTE_INDEXED_ST_1_TAIL);
        let cycle_2 = fill(cycles::ABSOLUTE_INDEXED_ST_2_HEAD, reg, cycles::ABSOLUTE_INDEXED_ST_2_TAIL);
        let cycle_3 = fill(cycles::ABSOLUTE_INDEXED_ST_3_HEAD, i_code, cycles::ABSOLUTE_INDEXED_ST_3_TAIL);
        self.add_entry(cycle_0, op);
        self.add_middle(cycle_1);
        self.add_middle(cycle_2);
        self.add_exit(cycle_3);
    }

    /// Adds the cycles of `indirect_x_st` for the opcode `op`.
    fn indirect_x_st(&mut self, i_code: &str, op: usize)
        requires
            old(self).wf(),
            old(self).state + 6 <= usize::MAX,
        ensures
            final(self).wf(),
            final(self)@ == cycles::indirect_x_st_machine(old(self)@, i_code@, op),
    {
        let cycle_0 = cycles::INDIRECT_X_ST_0.to_owned();
        let cycle_1 = cycles::INDIRECT_X_ST_1.to_owned();
        let cycle_2 = cycles::INDIRECT_X_ST_2.to_owned();
        let cycle_3 = cycles::INDIRECT_X_ST_3.to_owned();
        let cycle_4 = fill(cycles::INDIRECT_X_ST_4_HEAD, i_code, cycles::INDIRECT_X_ST_4_TAIL);
        self.add_entry(cycle_0, op);
        self.add_middle(cycle_1);
        self.add_middle(cycle_2);
        self.add_middle(cycle_3);
        self.add_exit(cycle_4);
    }

    /// Adds the cycles of `indirect_y_st` for the opcode `op`.
    fn indirect_y_st(&mut self, i_code: &str, op: usize)
        requires
            old(self).wf(),
            old(self).state + 6 <= usize::MAX,
        ensures
            final(self).wf(),
            final(self)@ == cycles::indirect_y_st_machine(old(self)@, i_code@, op),
    {
        let cycle_0 = cycles::INDIRECT_Y_ST_0.to_owned();
        let cycle_1 = cycles::INDIRECT_Y_ST_1.to_owned();
        let cycle_2 = cycles::INDIRECT_Y_ST_2.to_owned();
        let cycle_3 = cycles::INDIRECT_Y_ST_3.to_owned();
        let cycle_4 = fill(cycles::INDIRECT_Y_ST_4_HEAD, i_code, cycles::INDIRECT_Y_ST_4_TAIL);
        self.add_entry(cycle_0, op);
        self.add_middle(cycle_1);
        self.add_middle(cycle_2);
        self.add_middle(cycle_3);
        self.add_exit(cycle_4);
    }

    /// Adds the cycles of `indirect_x_illegal` for the opcode `op`.
    fn indirect_x_illegal(&mut self, i_code: &str, op: usize)
        requires
            old(self).wf(),
            old(self).state + 6 <= usize::MAX,
        ensures
            final(self).wf(),
            final(self)@ == cycles::indirect_x_illegal_machine(old(self)@, i_code@, op),
    {
        let cycle_0 = cycles::INDIRECT_X_ILLEGAL_0.to_owned();
        let cycle_1 = cycles::INDIRECT_X_ILLEGAL_1.to_owned();
        let cycle_2 = cycles::INDIRECT_X_ILLEGAL_2.to_owned();
        let cycle_3 = cycles::INDIRECT_X_ILLEGAL_3.to_owned();
        let cycle_4 = cycles::INDIRECT_X_ILLEGAL_4.to_owned();
        let cycle_5 = fill(cycles::INDIRECT_X_ILLEGAL_5_HEAD, i_code, cycles::INDIRECT_X_ILLEGAL_5_TAIL);
        let cycle_6 = cycles::INDIRECT_X_ILLEGAL_6.to_owned();
        self.add_entry(cycle_0, op);
        self.add_middle(cycle_1);
        self.add_middle(cycle_2);
        self.add_middle(cycle_3);
        self.add_middle(cycle_4);
        self.add_middle(cycle_5);
        self.add_exit(cycle_6);
    }

    /// Adds the cycles of `indirect_y_illegal` for the opcode `op`.
    fn indirect_y_illegal(&mut self, i_code: &str, op: usize)
        requires
            old(self).wf(),
            old(self).state + 6 <= usize::MAX,
        ensures
            final(self).wf(),
            final(self)@ == cycles::indirect_y_illegal_machine(old(self)@, i_code@, op),
    {
        let cycle_0 = cycles::INDIRECT_Y_ILLEGAL_0.to_owned();
        let cycle_1 = cycles::INDIRECT_Y_ILLEGAL_1.to_owned();
        let cycle_2 = cycles::INDIRECT_Y_ILLEGAL_2.to_owned();
        let cycle_3 = cycles::INDIRECT_Y_ILLEGAL_3.to_owned();
        let cycle_4 = cycles::INDIRECT_Y_ILLEGAL_4.to_owned();
        let cycle_5 = fill(cycles::INDIRECT_Y_ILLEGAL_5_HEAD, i_code, cycles::INDIRECT_Y_ILLEGAL_5_TAIL);
        let cycle_6 = cycles::INDIRECT_Y_ILLEGAL_6.to_owned();
        self.add_entry(cycle_0, op);
        self.add_middle(cycle_1);
        self.add_middle(cycle_2);
        self.add_middle(cycle_3);
        self.add_middle(cycle_4);
        self.add_middle(cycle_5);
        self.add_exit(cycle_6);
    }

    /// Adds the cycles of `absolute_y_illegal` for the opcode `op`.
    fn absolute_y_illegal(&mut self, i_code: &str, op: usize)
        requires
            old(self).wf(),
            old(self).state + 6 <= usize::MAX,
        ensures
            final(self).wf(),
            final(self)@ == cycles::absolute_y_illegal_machine(old(self)@, i_code@, op),
    {
        let cycle_0 = cycles::ABSOLUTE_Y_ILLEGAL_0.to_owned();
        let cycle_1 = cycles::ABSOLUTE_Y_ILLEGAL_1.to_owned();
        let cycle_2 = cycles::ABSOLUTE_Y_ILLEGAL_2.to_owned();
        let cycle_3 = cycles::ABSOLUTE_Y_ILLEGAL_3.to_owned();
        let cycle_4 = fill(cycles::ABSOLUTE_Y_ILLEGAL_4_HEAD, i_code, cycles::ABSOLUTE_Y_ILLEGAL_4_TAIL);
        let cycle_5 = cycles::ABSOLUTE_Y_ILLEGAL_5.to_owned();
        self.add_entry(cycle_0, op);
        self.add_middle(cycle_1);
        self.add_middle(cycle_2);
        self.add_middle(cycle_3);
        self.add_middle(cycle_4);
        self.add_exit(cycle_5);
    }

    /// Adds the cycles of `absolute_x_or_y` for the opcode `op`.
    fn absolute_x_or_y(&mut self, i_code: &str, op: usize, reg: &str)
        requires
            old(self).wf(),
            old(self).state + 6 <= usize::MAX,
        ensures
            final(self).wf(),
            final(self)@ == cycles::absolute_x_or_y_machine(old(self)@, i_code@, op, reg@),
    {
        let s1 = self.update_state();
        let s2 = self.update_state();
        let s3 = self.update_state();
        let cycle_0 = cycles::ABSOLUTE_INDEXED_0.to_owned();
        let cycle_1 = fill2(cycles::ABSOLUTE_INDEXED_1_HEAD, reg, cycles::ABSOLUTE_INDEXED_1_MID, reg, cycles::ABSOLUTE_INDEXED_1_TAIL);
        let cycle_2 = cycles::ABSOLUTE_INDEXED_2.to_owned();
        let cycle_3 = fill(cycles::ABSOLUTE_INDEXED_3_HEAD, i_code, cycles::ABSOLUTE_INDEXED_3_TAIL);
        proof {
            lemma_keys_have_next_insert(self@.machine, (op, seq![s1]), cycle_0@);
        }
        self.state_machine.insert(op, one_state(s1), cycle_0);
        proof {
            lemma_keys_have_next_insert(self@.machine, (s1, seq![s2, s3]), cycle_1@);
        }
        self.state_machine.insert(s1, two_states(s2, s3), cycle_1);
        proof {
            lemma_keys_have_next_insert(self@.machine, (s2, seq![s3]), cycle_2@);
        }
        self.state_machine.insert(s2, one_state(s3), cycle_2);
        proof {
            lemma_keys_have_next_insert(self@.machine, (s3, seq![0x100usize]), cycle_3@);
        }
        self.state_machine.insert(s3, one_state(0x100), cycle_3);
    }

    /// Adds the cycles of `indirect_y` for the opcode `op`.
    fn indirect_y(&mut self, i_code: &str, op: usize)
        requires
            old(self).wf(),
            old(self).state + 6 <= usize::MAX,
        ensures
            final(self).wf(),
            final(self)@ == cycles::indirect_y_machine(old(self)@, i_code@, op),
    {
        let s1 = self.update_state();
        let s2 = self.update_state();
        let s3 = self.update_state();
        let s4 = self.update_state();
        self.state = self.state + 1;
        let cycle_0 = cycles::INDIRECT_Y_0.to_owned();
        let cycle_1 = cycles::INDIRECT_Y_1.to_owned();
        let cycle_2 = cycles::INDIRECT_Y_2.to_owned();
        let cycle_3 = cycles::INDIRECT_Y_3.to_owned();
        let cycle_4 = fill(cycles::INDIRECT_Y_4_HEAD, i_code, cycles::INDIRECT_Y_4_TAIL);
        proof {
            lemma_keys_have_next_insert(self@.machine, (op, seq![s1]), cycle_0@);
        }
        self.state_machine.insert(op, one_state(s1), cycle_0);
        proof {
            lemma_keys_have_next_insert(self@.machine, (s1, seq![s2]), cycle_1@);
        }
        self.state_machine.insert(s1, one_state(s2), cycle_1);
        proof {
            lemma_keys_have_next_insert(self@.machine, (s2, seq![s3, s4]), cycle_2@);
        }
        self.state_machine.insert(s2, two_states(s3, s4), cycle_2);
        proof {
            lemma_keys_have_next_insert(self@.machine, (s3, seq![s4]), cycle_3@);
        }
        self.state_machine.insert(s3, one_state(s4), cycle_3);
        proof {
            lemma_keys_have_next_insert(self@.machine, (s4, seq![0x100usize]), cycle_4@);
        }
        self.state_machine.insert(s4, one_state(0x100), cycle_4);
    }

    /// Gives out a new state.
    fn update_state(&mut self) -> (r: usize)
        requires
            old(self).state < usize::MAX,
        ensures
            final(self).state == old(self).state + 1,
            r == final(self).state,
            final(self).state_machine == old(self).state_machine,
    {
        self.state = self.state + 1;
        self.state
    }
}

} // verus!

use fearless_nes::cpu_generator::parser::Parser;
use fearless_nes::cpu_generator::{mode_is_known, Generator};
use fearless_nes::text::{hex_text, replace_text, text_eq};

const LISTING: &str = "LDA self.lda(val);\n  immediate 0xA9\n  zero_page 0xA5\n\nNOP \n  implied 0xEA\n";

fn code_of(g: &Generator, state: usize, next: &[usize]) -> Option<String> {
    g.state_machine
        .entries
        .iter()
        .find(|e| e.state == state && e.next.as_slice() == next)
        .map(|e| e.code.clone())
}

#[test]
fn parser_reads_instructions_and_opcodes() {
    let mut p = Parser::new(LISTING);
    let instructions = p.parse_file();
    assert_eq!(instructions.len(), 2);
    assert_eq!(instructions[0].code, "self.lda(val);");
    assert_eq!(
        instructions[0].opcodes,
        vec![("immediate".to_string(), 0xA9), ("zero_page".to_string(), 0xA5)]
    );
    assert_eq!(instructions[1].code, "");
    assert_eq!(instructions[1].opcodes, vec![("implied".to_string(), 0xEA)]);
}

#[test]
fn parser_reads_lower_case_and_plus_signed_opcodes() {
    let mut p = Parser::new("INC  self.inc(val);\n   zero_page_rmw 0xe6\n   absolute_rmw 0x+7\n");
    let instructions = p.parse_file();
    assert_eq!(instructions.len(), 1);
    assert_eq!(instructions[0].code, "self.inc(val);");
    assert_eq!(
        instructions[0].opcodes,
        vec![("zero_page_rmw".to_string(), 0xE6), ("absolute_rmw".to_string(), 7)]
    );
}

#[test]
fn parser_on_empty_text() {
    let mut p = Parser::new("");
    assert!(p.parse_file().is_empty());
}

#[test]
fn generator_starts_after_the_fetch_state() {
    let g = Generator::new();
    assert_eq!(g.state, 0x100);
    assert!(g.state_machine.entries.is_empty());
}

#[test]
fn generator_builds_single_and_chained_cycles() {
    let mut p = Parser::new(LISTING);
    let instructions = p.parse_file();
    let mut g = Generator::new();
    g.generate_machine(instructions);
    assert_eq!(g.state, 0x101);
    assert_eq!(g.state_machine.entries.len(), 5);
    assert_eq!(
        code_of(&g, 0xA9, &[0x100]).unwrap(),
        "self.check_interrupts(); let val = read_ab!(self); self.lda(val); self.pc += 1; self.ab = self.pc; self.state = 0x100;"
    );
    assert_eq!(
        code_of(&g, 0xA5, &[0x101]).unwrap(),
        "cache_irq!(self); self.ab = read_ab!(self) as usize; self.pc += 1; self.state = <>;"
    );
    assert_eq!(
        code_of(&g, 0x101, &[0x100]).unwrap(),
        "self.check_interrupts(); let val = read_ab!(self); self.lda(val); self.ab = self.pc; self.state = 0x100;"
    );
    assert_eq!(
        code_of(&g, 0xEA, &[0x100]).unwrap(),
        "self.check_interrupts(); read_ab!(self);  self.state = 0x100;"
    );
    assert!(code_of(&g, 0x100, &[0]).unwrap().starts_with("cache_irq!(self); let int"));
}

#[test]
fn optimize_writes_next_states_into_the_code() {
    let mut p = Parser::new(LISTING);
    let mut g = Generator::new();
    g.generate_machine(p.parse_file());
    g.optimize_machine();
    assert_eq!(g.state_machine.entries.len(), 5);
    assert!(g.state_machine.entries.iter().all(|e| !e.code.contains("<>")));
    assert_eq!(
        code_of(&g, 0xA5, &[0x101]).unwrap(),
        "cache_irq!(self); self.ab = read_ab!(self) as usize; self.pc += 1; self.state = 0x101;"
    );
    assert_eq!(
        code_of(&g, 0xA9, &[0x100]).unwrap(),
        "self.check_interrupts(); let val = read_ab!(self); self.lda(val); self.pc += 1; self.ab = self.pc; self.state = 0x100;"
    );
}

#[test]
fn indexed_addressing_branches_on_a_page_cross() {
    let mut p = Parser::new("LDA self.lda(val);\n  absolute_x 0xBD\n");
    let mut g = Generator::new();
    g.generate_machine(p.parse_file());
    assert_eq!(g.state, 0x103);
    g.optimize_machine();
    assert_eq!(
        code_of(&g, 0xBD, &[0x101]).unwrap(),
        "self.temp = read_ab!(self) as usize; self.pc += 1; self.ab = self.pc; self.state = 0x101;"
    );
    assert_eq!(
        code_of(&g, 0x101, &[0x102, 0x103]).unwrap(),
        "cache_irq!(self); self.ab = ((read_ab!(self) as usize) << 8) | ((self.temp + self.x as usize) & 0xFF); self.pc += 1; self.state = if (self.temp + self.x as usize) < 0x100 {0x103} else {0x102};"
    );
    assert_eq!(
        code_of(&g, 0x102, &[0x103]).unwrap(),
        "cache_irq!(self); read_ab!(self); self.ab = (self.ab as u16).wrapping_add(0x100) as usize; self.state = 0x103"
    );
    assert_eq!(
        code_of(&g, 0x103, &[0x100]).unwrap(),
        "self.check_interrupts(); let val = read_ab!(self); self.lda(val); self.ab = self.pc; self.state = 0x100;"
    );
}

#[test]
fn stack_instructions_get_their_own_cycles() {
    let mut p = Parser::new("PHP \n  implied 0x08\n");
    let mut g = Generator::new();
    g.generate_machine(p.parse_file());
    assert_eq!(g.state, 0x101);
    assert_eq!(
        code_of(&g, 0x101, &[0x100]).unwrap(),
        "self.check_interrupts(); self.push_status(true); self.ab = self.pc; self.state = 0x100;"
    );
}

#[test]
fn a_repeated_opcode_keeps_the_last_code() {
    let mut p = Parser::new("NOP \n  implied 0xEA\nCLC self.c = false;\n  implied 0xEA\n");
    let mut g = Generator::new();
    g.generate_machine(p.parse_file());
    assert_eq!(g.state_machine.entries.len(), 2);
    assert_eq!(
        code_of(&g, 0xEA, &[0x100]).unwrap(),
        "self.check_interrupts(); read_ab!(self); self.c = false; self.state = 0x100;"
    );
}

#[test]
fn hex_text_writes_upper_case_digits() {
    assert_eq!(hex_text(0), "0x0");
    assert_eq!(hex_text(0x100), "0x100");
    assert_eq!(hex_text(0x1AB), "0x1AB");
    assert_eq!(hex_text(255), "0xFF");
}

#[test]
fn replace_text_replaces_from_the_left() {
    assert_eq!(replace_text("a <> b <>", "<>", "X"), "a X b X");
    assert_eq!(replace_text("{?<>} {<>}", "?<>", "1"), "{1} {<>}");
    assert_eq!(replace_text("aaa", "aa", "b"), "ba");
    assert_eq!(replace_text("none", "<>", "X"), "none");
}

#[test]
fn text_eq_compares_characters() {
    assert!(text_eq("implied", "implied"));
    assert!(!text_eq("implied", "implie"));
    assert!(!text_eq("absolute_x", "absolute_y"));
}

#[test]
fn try_parse_file_refuses_malformed_lists() {
    let mut p = Parser::new("LDA self.lda(val)");
    assert!(p.try_parse_file().is_none());
    let mut q = Parser::new("LDA self.lda(val);\n  immediate\n");
    assert!(q.try_parse_file().is_none());
    let mut r = Parser::new("LDA self.lda(val);\n  immediate 0xZZ\n");
    assert!(r.try_parse_file().is_none());
    let mut ok = Parser::new(LISTING);
    assert_eq!(ok.try_parse_file().map(|v| v.len()), Some(2));
}

#[test]
fn can_generate_checks_the_modes() {
    assert!(mode_is_known("absolute_y_illegal"));
    assert!(!mode_is_known("absolute_z"));
    let g = Generator::new();
    let good = Parser::new(LISTING).parse_file();
    assert!(g.can_generate(&good));
    let bad = Parser::new("LDA self.lda(val);\n  sideways 0xA9\n").parse_file();
    assert!(!g.can_generate(&bad));
}

#[test]
fn machine_source_lists_the_states_in_key_order() {
    let mut p = Parser::new(LISTING);
    let instructions = p.parse_file();
    let mut g = Generator::new();
    g.generate_machine(instructions);
    g.optimize_machine();
    let text = g.machine_source("HEAD", "TAIL");
    assert!(text.starts_with("HEAD0xA5 => { "));
    assert!(text.ends_with(" },TAIL"));
    // 0xA5 < 0xA9 < 0xEA < 0x100 (the fetch state) < 0x101, whatever the order of insertion
    let positions: Vec<usize> = ["0xA5 =>", "0xA9 =>", "0xEA =>", "0x100 =>", "0x101 =>"]
        .iter()
        .map(|arm| text.find(arm).unwrap())
        .collect();
    for w in positions.windows(2) {
        assert!(w[0] < w[1]);
    }
    assert_eq!(text.matches(" => { ").count(), g.state_machine.entries.len());
    let zp = code_of(&g, 0xA5, &[0x101]).unwrap();
    assert!(text.contains(&format!("0xA5 => {{ {} }},", zp)));
}

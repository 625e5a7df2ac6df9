use vstd::prelude::*;

use crate::text::chars_of;

verus! {

/// An instruction of the opcode list: the code of its operation, and for each opcode that
/// runs it the name of its addressing mode and the opcode.
pub struct ParsedInstruction {
    pub code: String,
    pub opcodes: Vec<(String, usize)>,
}

/// An instruction of the opcode list as a value.
pub struct InstructionModel {
    pub code: Seq<char>,
    pub opcodes: Seq<(Seq<char>, usize)>,
}

impl View for ParsedInstruction {
    type V = InstructionModel;

    open spec fn view(&self) -> InstructionModel {
        InstructionModel {
            code: self.code@,
            opcodes: self.opcodes@.map_values(|o: (String, usize)| (o.0@, o.1)),
        }
    }
}

/// The position after the spaces at `p`.
pub open spec fn skip_spaces(cs: Seq<char>, p: int) -> int
    decreases cs.len() - p,
{
    if 0 <= p < cs.len() && cs[p] == ' ' {
        skip_spaces(cs, p + 1)
    } else {
        p
    }
}

/// The position after a newline at `p`, if there is one.
pub open spec fn skip_newline(cs: Seq<char>, p: int) -> int {
    if 0 <= p < cs.len() && cs[p] == '\n' {
        p + 1
    } else {
        p
    }
}

/// The position after `n` more characters, stopping at the end of the text.
pub open spec fn advance(cs: Seq<char>, p: int, n: int) -> int {
    if p + n <= cs.len() {
        p + n
    } else if p <= cs.len() {
        cs.len() as int
    } else {
        p
    }
}

/// The first position at or after `p` that holds `c`.
pub open spec fn find_char(cs: Seq<char>, p: int, c: char) -> Option<int>
    decreases cs.len() - p,
{
    if p < 0 || p >= cs.len() {
        None
    } else if cs[p] == c {
        Some(p)
    } else {
        find_char(cs, p + 1, c)
    }
}

/// The value of a hexadecimal digit.
pub open spec fn hex_digit(c: char) -> Option<usize> {
    if '0' <= c <= '9' {
        Some((c as int - '0' as int) as usize)
    } else if 'a' <= c <= 'f' {
        Some((c as int - 'a' as int + 10) as usize)
    } else if 'A' <= c <= 'F' {
        Some((c as int - 'A' as int + 10) as usize)
    } else {
        None
    }
}

/// What `usize::from_str_radix(_, 16)` gives for the two-character text `x`, `y`: an optional
/// `+` followed by hexadecimal digits.
pub open spec fn hex_pair(x: char, y: char) -> Option<usize> {
    if x == '+' {
        hex_digit(y)
    } else {
        match (hex_digit(x), hex_digit(y)) {
            (Some(a), Some(b)) => Some((a * 16 + b) as usize),
            _ => None,
        }
    }
}

/// Whether `c` takes one byte in UTF-8.
pub open spec fn one_byte(c: char) -> bool {
    (c as u32) < 0x80
}

/// Whether `c` takes two bytes in UTF-8.
pub open spec fn two_bytes(c: char) -> bool {
    0x80 <= (c as u32) < 0x800
}

/// The value that bytes 2 and 3 of an opcode's text (as `0xNN`) give; nothing where those
/// bytes do not hold two characters of ASCII that read as a hexadecimal number.
pub open spec fn opcode_value(op: Seq<char>) -> Option<usize> {
    if op.len() >= 4 && one_byte(op[0]) && one_byte(op[1]) && one_byte(op[2]) && one_byte(op[3]) {
        hex_pair(op[2], op[3])
    } else if op.len() >= 3 && two_bytes(op[0]) && one_byte(op[1]) && one_byte(op[2]) {
        hex_pair(op[1], op[2])
    } else {
        None
    }
}

/// An opcode line at `p`: spaces, the name of the addressing mode, a space, the opcode and a
/// newline. Gives the mode, the opcode and the position after the line.
pub open spec fn parse_opcode_spec(cs: Seq<char>, p: int) -> Option<((Seq<char>, usize), int)> {
    let p1 = skip_spaces(cs, p);
    match find_char(cs, p1, ' ') {
        Some(e1) => match find_char(cs, e1 + 1, '\n') {
            Some(e2) => match opcode_value(cs.subrange(e1 + 1, e2)) {
                Some(v) => Some(((cs.subrange(p1, e1), v), e2 + 1)),
                None => None,
            },
            None => None,
        },
        None => None,
    }
}

/// The opcode lines at `p`: each starts with a space.
pub open spec fn parse_opcodes_spec(cs: Seq<char>, p: int) -> Option<(Seq<(Seq<char>, usize)>, int)>
    decreases cs.len() - p,
{
    if 0 <= p < cs.len() && cs[p] == ' ' {
        match parse_opcode_spec(cs, p) {
            Some((o, q)) => if q <= p || q > cs.len() {
                None
            } else {
                match parse_opcodes_spec(cs, q) {
                    Some((os, r)) => Some((seq![o] + os, r)),
                    None => None,
                }
            },
            None => None,
        }
    } else {
        Some((Seq::empty(), p))
    }
}

/// The opcode lines that `parse_opcodes_spec` reads at `p`.
pub open spec fn opcodes_at(cs: Seq<char>, p: int) -> Seq<(Seq<char>, usize)> {
    parse_opcodes_spec(cs, p).unwrap().0
}

/// The position after the opcode lines at `p`.
pub open spec fn opcodes_end(cs: Seq<char>, p: int) -> int {
    parse_opcodes_spec(cs, p).unwrap().1
}

/// An instruction at `p`: an optional newline, four characters of name, spaces, the code up
/// to a newline, that newline and one more character, and its opcode lines.
pub open spec fn parse_instruction_spec(cs: Seq<char>, p: int) -> Option<(InstructionModel, int)> {
    let p3 = skip_spaces(cs, advance(cs, skip_newline(cs, p), 4));
    match find_char(cs, p3, '\n') {
        Some(e) => match parse_opcodes_spec(cs, advance(cs, e, 2)) {
            Some((ops, q)) => Some((InstructionModel { code: cs.subrange(p3, e), opcodes: ops }, q)),
            None => None,
        },
        None => None,
    }
}

/// The instructions from `p` to the end of the text; nothing where the text is malformed.
pub open spec fn parse_file_spec(cs: Seq<char>, p: int) -> Option<Seq<InstructionModel>>
    decreases cs.len() - p,
{
    if p < 0 || p >= cs.len() {
        Some(Seq::empty())
    } else {
        match parse_instruction_spec(cs, p) {
            Some((i, q)) => if q <= p || q > cs.len() {
                None
            } else {
                match parse_file_spec(cs, q) {
                    Some(rest) => Some(seq![i] + rest),
                    None => None,
                }
            },
            None => None,
        }
    }
}

/// A reader of the opcode list that the CPU generator takes.
pub struct Parser<'s> {
    pub source: &'s str,
    pub chars: Vec<char>,
    pub pos: usize,
}

impl<'s> Parser<'s> {
    /// The invariant: `chars` holds the characters of the source, and the position lies in it.
    pub open spec fn wf(&self) -> bool {
        self.chars@ == self.source@ && self.pos <= self.chars@.len()
    }

    /// A parser at the start of `src`.
    pub fn new(src: &'s str) -> (p: Self)
        ensures
            p.wf(),
            p.source == src,
            p.pos == 0,
    {
        Parser { source: src, chars: chars_of(src), pos: 0 }
    }

    /// The character at the position, if any.
    fn peek(&self) -> (r: Option<char>)
        requires
            self.wf(),
        ensures
            r == if self.pos < self.chars@.len() { Some(self.chars@[self.pos as int]) } else { None },
    {
        if self.pos < self.chars.len() {
            Some(self.chars[self.pos])
        } else {
            None
        }
    }

    /// Skips the spaces at the position.
    fn skip_whitespace(&mut self)
        requires
            old(self).wf(),
        ensures
            final(self).wf(),
            final(self).source == old(self).source,
            final(self).pos == skip_spaces(old(self).chars@, old(self).pos as int),
            old(self).pos <= final(self).pos,
    {
        while self.pos < self.chars.len() && self.chars[self.pos] == ' '
            invariant
                self.wf(),
                self.source == old(self).source,
                skip_spaces(old(self).chars@, old(self).pos as int) == skip_spaces(
                    self.chars@,
                    self.pos as int,
                ),
                old(self).pos <= self.pos,
            decreases self.chars@.len() - self.pos,
        {
            self.pos = self.pos + 1;
        }
    }

    /// Moves to the first `c` at or after the position, if there is one; says whether there
    /// was.
    fn find(&mut self, c: char) -> (found: bool)
        requires
            old(self).wf(),
        ensures
            final(self).wf(),
            final(self).source == old(self).source,
            found == find_char(old(self).chars@, old(self).pos as int, c) is Some,
            found ==> final(self).pos == find_char(old(self).chars@, old(self).pos as int, c)->0,
            found ==> old(self).pos <= final(self).pos < final(self).chars@.len(),
    {
        while self.pos < self.chars.len() && self.chars[self.pos] != c
            invariant
                self.wf(),
                self.source == old(self).source,
                old(self).pos <= self.pos <= self.chars@.len(),
                find_char(self.chars@, self.pos as int, c) == find_char(
                    old(self).chars@,
                    old(self).pos as int,
                    c,
                ),
            decreases self.chars@.len() - self.pos,
        {
            self.pos = self.pos + 1;
        }
        self.pos < self.chars.len()
    }

    /// Moves `n` characters on, stopping at the end of the text.
    fn skip(&mut self, n: usize)
        requires
            old(self).wf(),
            n <= 4,
        ensures
            final(self).wf(),
            final(self).source == old(self).source,
            final(self).pos == advance(old(self).chars@, old(self).pos as int, n as int),
    {
        if n <= self.chars.len() - self.pos {
            self.pos = self.pos + n;
        } else {
            self.pos = self.chars.len();
        }
    }
}


/// The value of a hexadecimal digit, as `hex_digit` states it.
fn hex_digit_value(c: char) -> (r: Option<usize>)
    ensures
        r == hex_digit(c),
{
    if '0' <= c && c <= '9' {
        Some((c as u32 - '0' as u32) as usize)
    } else if 'a' <= c && c <= 'f' {
        Some((c as u32 - 'a' as u32 + 10) as usize)
    } else if 'A' <= c && c <= 'F' {
        Some((c as u32 - 'A' as u32 + 10) as usize)
    } else {
        None
    }
}

/// The value of the two characters `x`, `y` read as a hexadecimal number.
fn hex_pair_value(x: char, y: char) -> (r: Option<usize>)
    ensures
        r == hex_pair(x, y),
{
    if x == '+' {
        hex_digit_value(y)
    } else {
        match (hex_digit_value(x), hex_digit_value(y)) {
            (Some(a), Some(b)) => Some(a * 16 + b),
            _ => None,
        }
    }
}

impl<'s> Parser<'s> {
    /// The value of the opcode text between `from` and `to`.
    fn opcode_at(&self, from: usize, to: usize) -> (r: Option<usize>)
        requires
            self.wf(),
            from <= to <= self.chars@.len(),
        ensures
            r == opcode_value(self.chars@.subrange(from as int, to as int)),
    {
        let ghost op = self.chars@.subrange(from as int, to as int);
        let n = to - from;
        assert(forall|k: int| 0 <= k < n ==> op[k] == self.chars@[from + k]);
        if n >= 4 && (self.chars[from] as u32) < 0x80 && (self.chars[from + 1] as u32) < 0x80
            && (self.chars[from + 2] as u32) < 0x80 && (self.chars[from + 3] as u32) < 0x80 {
            hex_pair_value(self.chars[from + 2], self.chars[from + 3])
        } else if n >= 3 && 0x80 <= (self.chars[from] as u32) && (self.chars[from] as u32) < 0x800
            && (self.chars[from + 1] as u32) < 0x80 && (self.chars[from + 2] as u32) < 0x80 {
            hex_pair_value(self.chars[from + 1], self.chars[from + 2])
        } else {
            None
        }
    }

    /// Reads an opcode line: the name of its addressing mode and the opcode; nothing where the
    /// line is malformed.
    fn parse_opcode(&mut self) -> (r: Option<(String, usize)>)
        requires
            old(self).wf(),
        ensures
            final(self).wf(),
            final(self).source == old(self).source,
            r is Some == parse_opcode_spec(old(self).chars@, old(self).pos as int) is Some,
            r matches Some(o) ==> ((o.0@, o.1), final(self).pos as int) == parse_opcode_spec(
                old(self).chars@,
                old(self).pos as int,
            )->0,
            r is Some ==> old(self).pos < final(self).pos <= final(self).chars@.len(),
    {
        self.skip_whitespace();
        let start = self.pos;
        if !self.find(' ') {
            return None;
        }
        let mode = self.source.substring_char(start, self.pos).to_owned();
        let len = self.chars.len();
        self.pos = self.pos + 1;
        let op_start = self.pos;
        if !self.find('\n') {
            return None;
        }
        let value = self.opcode_at(op_start, self.pos);
        self.pos = self.pos + 1;
        match value {
            Some(v) => Some((mode, v)),
            None => None,
        }
    }

    /// Reads the opcode lines at the position; nothing where one is malformed.
    fn parse_opcodes(&mut self) -> (r: Option<Vec<(String, usize)>>)
        requires
            old(self).wf(),
        ensures
            final(self).wf(),
            final(self).source == old(self).source,
            r is Some == parse_opcodes_spec(old(self).chars@, old(self).pos as int) is Some,
            r matches Some(v) ==> v@.map_values(|o: (String, usize)| (o.0@, o.1)) == opcodes_at(
                old(self).chars@,
                old(self).pos as int,
            ) && final(self).pos as int == opcodes_end(old(self).chars@, old(self).pos as int),
            r is Some ==> old(self).pos <= final(self).pos <= final(self).chars@.len(),
    {
        let mut opcodes: Vec<(String, usize)> = Vec::new();
        let ghost cs = self.chars@;
        let ghost start = self.pos as int;
        while self.pos < self.chars.len() && self.chars[self.pos] == ' '
            invariant
                self.wf(),
                self.source == old(self).source,
                cs == self.chars@,
                cs == old(self).chars@,
                start == old(self).pos,
                start <= self.pos <= cs.len(),
                parse_opcodes_spec(cs, self.pos as int) is Some == parse_opcodes_spec(cs, start) is Some,
                parse_opcodes_spec(cs, start) is Some ==> opcodes@.map_values(
                    |o: (String, usize)| (o.0@, o.1),
                ) + opcodes_at(cs, self.pos as int) == opcodes_at(cs, start) && opcodes_end(
                    cs,
                    self.pos as int,
                ) == opcodes_end(cs, start),
            decreases self.chars@.len() - self.pos,
        {
            let ghost before = self.pos as int;
            let ghost mapped = opcodes@.map_values(|o: (String, usize)| (o.0@, o.1));
            assert(cs[before] == ' ');
            match self.parse_opcode() {
                None => {
                    assert(parse_opcodes_spec(cs, before) is None);
                    return None;
                },
                Some(o) => {
                    let ghost item = (o.0@, o.1);
                    opcodes.push(o);
                    assert(opcodes@.map_values(|o: (String, usize)| (o.0@, o.1)) =~= mapped.push(item));
                    proof {
                        if parse_opcodes_spec(cs, start) is Some {
                            let rest = opcodes_at(cs, self.pos as int);
                            assert(opcodes_at(cs, before) == seq![item] + rest);
                            assert(mapped.push(item) + rest =~= mapped + (seq![item] + rest));
                        }
                    }
                },
            }
        }
        proof {
            if parse_opcodes_spec(cs, start) is Some {
                assert(opcodes_at(cs, self.pos as int) =~= Seq::empty());
                assert(opcodes@.map_values(|o: (String, usize)| (o.0@, o.1)) + Seq::empty()
                    =~= opcodes@.map_values(|o: (String, usize)| (o.0@, o.1)));
            }
        }
        Some(opcodes)
    }

    /// Reads an instruction: its code and its opcode lines; nothing where it is malformed.
    fn parse_instruction(&mut self) -> (r: Option<ParsedInstruction>)
        requires
            old(self).wf(),
        ensures
            final(self).wf(),
            final(self).source == old(self).source,
            r is Some == parse_instruction_spec(old(self).chars@, old(self).pos as int) is Some,
            r matches Some(i) ==> (i@, final(self).pos as int) == parse_instruction_spec(
                old(self).chars@,
                old(self).pos as int,
            )->0,
            r is Some ==> old(self).pos < final(self).pos <= final(self).chars@.len(),
    {
        if self.pos < self.chars.len() && self.chars[self.pos] == '\n' {
            self.pos = self.pos + 1;
        }
        self.skip(4);
        self.skip_whitespace();
        let start = self.pos;
        if !self.find('\n') {
            return None;
        }
        let code = self.source.substring_char(start, self.pos).to_owned();
        self.skip(2);
        match self.parse_opcodes() {
            Some(opcodes) => Some(ParsedInstruction { code, opcodes }),
            None => None,
        }
    }

    /// Reads the instructions from the position to the end of the text; nothing where the
    /// text is malformed.
    pub fn try_parse_file(&mut self) -> (r: Option<Vec<ParsedInstruction>>)
        requires
            old(self).wf(),
        ensures
            final(self).wf(),
            final(self).source == old(self).source,
            r is Some == parse_file_spec(old(self).chars@, old(self).pos as int) is Some,
            r matches Some(v) ==> v@.map_values(|i: ParsedInstruction| i@) == parse_file_spec(
                old(self).chars@,
                old(self).pos as int,
            )->0,
    {
        let mut instructions: Vec<ParsedInstruction> = Vec::new();
        let ghost cs = self.chars@;
        let ghost start = self.pos as int;
        while self.pos < self.chars.len()
            invariant
                self.wf(),
                self.source == old(self).source,
                cs == self.chars@,
                cs == old(self).chars@,
                start == old(self).pos,
                parse_file_spec(cs, self.pos as int) is Some == parse_file_spec(cs, start) is Some,
                parse_file_spec(cs, start) is Some ==> instructions@.map_values(
                    |i: ParsedInstruction| i@,
                ) + parse_file_spec(cs, self.pos as int)->0 == parse_file_spec(cs, start)->0,
            decreases self.chars@.len() - self.pos,
        {
            let ghost before = self.pos as int;
            let ghost mapped = instructions@.map_values(|i: ParsedInstruction| i@);
            assert(0 <= before < cs.len());
            match self.parse_instruction() {
                None => {
                    assert(parse_file_spec(cs, before) is None);
                    return None;
                },
                Some(inst) => {
                    let ghost im = inst@;
                    instructions.push(inst);
                    proof {
                        assert(instructions@.map_values(|i: ParsedInstruction| i@) =~= mapped.push(im));
                        if parse_file_spec(cs, start) is Some {
                            let rest = parse_file_spec(cs, self.pos as int)->0;
                            assert(parse_file_spec(cs, before)->0 == seq![im] + rest);
                            assert(mapped.push(im) + rest =~= mapped + (seq![im] + rest));
                        }
                    }
                },
            }
        }
        proof {
            if parse_file_spec(cs, start) is Some {
                assert(parse_file_spec(cs, self.pos as int)->0 =~= Seq::empty());
                assert(instructions@.map_values(|i: ParsedInstruction| i@) + Seq::empty()
                    =~= instructions@.map_values(|i: ParsedInstruction| i@));
            }
        }
        Some(instructions)
    }

    /// Reads the instructions from the position to the end of the text, which must be a
    /// well-formed list.
    pub fn parse_file(&mut self) -> (r: Vec<ParsedInstruction>)
        requires
            old(self).wf(),
            parse_file_spec(old(self).chars@, old(self).pos as int) is Some,
        ensures
            final(self).wf(),
            final(self).source == old(self).source,
            r@.map_values(|i: ParsedInstruction| i@) == parse_file_spec(
                old(self).chars@,
                old(self).pos as int,
            )->0,
    {
        match self.try_parse_file() {
            Some(v) => v,
            None => Vec::new(),
        }
    }
}

} // verus!

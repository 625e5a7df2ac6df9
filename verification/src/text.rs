use vstd::prelude::*;
use vstd::std_specs::iter::IteratorSpec;

verus! {

/// Whether `c` is one of the ASCII digits `0` to `9`.
pub open spec fn is_digit(c: char) -> bool {
    '0' <= c <= '9'
}

/// The value of a digit character.
pub open spec fn digit_value(c: char) -> nat {
    (c as nat - '0' as nat) as nat
}

/// The value of a string of decimal digits, most significant first.
pub open spec fn digits_value(d: Seq<char>) -> nat
    decreases d.len(),
{
    if d.len() == 0 {
        0
    } else {
        digits_value(d.drop_last()) * 10 + digit_value(d.last())
    }
}

/// Whether every character of `d` is a decimal digit.
pub open spec fn all_digits(d: Seq<char>) -> bool {
    forall|i: int| 0 <= i < d.len() ==> is_digit(#[trigger] d[i])
}

/// The digits of an unsigned decimal number, written with an optional leading `+`.
pub open spec fn unsigned_digits(s: Seq<char>) -> Seq<char> {
    if s.len() > 0 && s[0] == '+' {
        s.drop_first()
    } else {
        s
    }
}

/// What `u32::from_str` gives for `s`: a value when `s` is an optional `+` followed by at
/// least one decimal digit and the number fits in a `u32`, nothing otherwise.
pub open spec fn u32_from_str(s: Seq<char>) -> Option<u32> {
    let d = unsigned_digits(s);
    if d.len() > 0 && all_digits(d) && digits_value(d) <= u32::MAX {
        Some(digits_value(d) as u32)
    } else {
        None
    }
}

/// A number written with more digits is at least as large as the number its leading digits
/// write.
pub proof fn lemma_prefix_value_le(d: Seq<char>, k: int)
    requires
        all_digits(d),
        0 <= k <= d.len(),
    ensures
        digits_value(d.subrange(0, k)) <= digits_value(d),
    decreases d.len(),
{
    if k == d.len() {
        assert(d.subrange(0, k) =~= d);
    } else {
        let rest = d.drop_last();
        assert(d.subrange(0, k) =~= rest.subrange(0, k));
        assert(all_digits(rest));
        lemma_prefix_value_le(rest, k);
    }
}

/// Parses an unsigned decimal number the way `u32::from_str` does.
pub fn parse_u32(s: &str) -> (r: Option<u32>)
    ensures
        r == u32_from_str(s@),
{
    let len = s.unicode_len();
    let mut start: usize = 0;
    if len > 0 && s.get_char(0) == '+' {
        start = 1;
    }
    let ghost d = unsigned_digits(s@);
    assert(d =~= s@.subrange(start as int, len as int));
    if start >= len {
        return None;
    }
    let mut acc: u32 = 0;
    let mut i = start;
    while i < len
        invariant
            start <= i <= len,
            len == s@.len(),
            d == s@.subrange(start as int, len as int),
            d == unsigned_digits(s@),
            all_digits(s@.subrange(start as int, i as int)),
            acc == digits_value(s@.subrange(start as int, i as int)),
        decreases len - i,
    {
        let c = s.get_char(i);
        if c < '0' || c > '9' {
            assert(d[i - start] == c);
            assert(!is_digit(d[i - start]));
            return None;
        }
        let prefix = Ghost(s@.subrange(start as int, i + 1));
        assert(prefix@.drop_last() =~= s@.subrange(start as int, i as int));
        let v = (c as u32) - ('0' as u32);
        if acc > 429496729 || (acc == 429496729 && v > 5) {
            proof {
                assert(digits_value(prefix@) > u32::MAX);
                if all_digits(d) {
                    assert(prefix@ =~= d.subrange(0, i + 1 - start));
                    lemma_prefix_value_le(d, i + 1 - start);
                }
            }
            return None;
        }
        acc = acc * 10 + v;
        i += 1;
    }
    assert(s@.subrange(start as int, i as int) =~= d);
    Some(acc)
}

/// The characters that write the nibbles 0 to 15 in hexadecimal.
pub open spec fn hex_table() -> Seq<char> {
    seq!['0', '1', '2', '3', '4', '5', '6', '7', '8', '9', 'A', 'B', 'C', 'D', 'E', 'F']
}

/// Each byte of `bytes` written as two upper-case hexadecimal digits, high nibble first.
pub open spec fn hex_of(bytes: Seq<u8>) -> Seq<char>
    decreases bytes.len(),
{
    if bytes.len() == 0 {
        Seq::empty()
    } else {
        hex_of(bytes.drop_last()) + seq![
            hex_table()[(bytes.last() / 16) as int],
            hex_table()[(bytes.last() % 16) as int],
        ]
    }
}

/// Writes each byte of `arr` as two upper-case hexadecimal digits, high nibble first.
pub fn arr_to_hex(arr: &[u8]) -> (r: String)
    ensures
        r@ == hex_of(arr@),
{
    let digits = "0123456789ABCDEF";
    proof {
        reveal_strlit("0123456789ABCDEF");
    }
    assert(digits@ =~= hex_table());
    let mut res = String::new();
    let mut i: usize = 0;
    while i < arr.len()
        invariant
            i <= arr@.len(),
            digits@ == hex_table(),
            res@ == hex_of(arr@.subrange(0, i as int)),
        decreases arr.len() - i,
    {
        let byte = arr[i];
        let hi = (byte >> 4u8) as usize;
        let lo = (byte & 0xFu8) as usize;
        assert(byte >> 4u8 == byte / 16 && byte & 0xFu8 == byte % 16) by (bit_vector);
        res.append(digits.substring_char(hi, hi + 1));
        res.append(digits.substring_char(lo, lo + 1));
        assert(arr@.subrange(0, i + 1).drop_last() =~= arr@.subrange(0, i as int));
        i += 1;
    }
    assert(arr@.subrange(0, i as int) =~= arr@);
    res
}

/// The characters of `s`.
pub fn chars_of(s: &str) -> (r: Vec<char>)
    ensures
        r@ == s@,
{
    broadcast use vstd::string::group_string_axioms;

    let mut it = s.chars();
    let mut out: Vec<char> = Vec::new();
    loop
        invariant
            out@ + it.remaining() == s@,
            it.obeys_prophetic_iter_laws(),
            it.decrease() is Some,
        ensures
            out@ == s@,
        decreases it.decrease()->0,
    {
        match it.next() {
            Some(c) => {
                out.push(c);
            },
            None => {
                assert(out@ + it.remaining() =~= out@);
                break;
            },
        }
    }
    out
}


/// Whether `a` and `b` hold the same characters.
pub fn text_eq(a: &str, b: &str) -> (r: bool)
    ensures
        r == (a@ == b@),
{
    let xs = chars_of(a);
    let ys = chars_of(b);
    if xs.len() != ys.len() {
        return false;
    }
    let mut i: usize = 0;
    while i < xs.len()
        invariant
            xs@ == a@,
            ys@ == b@,
            xs@.len() == ys@.len(),
            i <= xs@.len(),
            forall|k: int| 0 <= k < i ==> xs@[k] == ys@[k],
        decreases xs@.len() - i,
    {
        if xs[i] != ys[i] {
            return false;
        }
        i += 1;
    }
    assert(xs@ =~= ys@);
    true
}

/// The text from position `i` of `s` on, with each occurrence of `pat`, read from the left
/// and not overlapping, replaced by `rep`.
pub open spec fn replace_from(s: Seq<char>, i: int, pat: Seq<char>, rep: Seq<char>) -> Seq<char>
    decreases s.len() - i,
{
    if i < 0 || i >= s.len() {
        Seq::empty()
    } else if pat.len() > 0 && i + pat.len() <= s.len() && s.subrange(i, i + pat.len()) == pat {
        rep + replace_from(s, i + pat.len(), pat, rep)
    } else {
        seq![s[i]] + replace_from(s, i + 1, pat, rep)
    }
}

/// What `str::replace` gives: `s` with each occurrence of `pat`, read from the left and not
/// overlapping, replaced by `rep`.
pub open spec fn replace_all(s: Seq<char>, pat: Seq<char>, rep: Seq<char>) -> Seq<char> {
    replace_from(s, 0, pat, rep)
}

/// Whether `ps` occurs in `cs` at position `i`.
fn occurs_at(cs: &Vec<char>, i: usize, ps: &Vec<char>) -> (r: bool)
    requires
        i <= cs@.len(),
    ensures
        r == (i + ps@.len() <= cs@.len() && cs@.subrange(i as int, i + ps@.len()) == ps@),
{
    let n = cs.len();
    if ps.len() > n - i {
        return false;
    }
    let mut k: usize = 0;
    while k < ps.len()
        invariant
            n == cs@.len(),
            i + ps@.len() <= cs@.len(),
            k <= ps@.len(),
            forall|j: int| 0 <= j < k ==> cs@[i + j] == ps@[j],
        decreases ps@.len() - k,
    {
        if cs[i + k] != ps[k] {
            assert(cs@.subrange(i as int, i + ps@.len())[k as int] != ps@[k as int]);
            return false;
        }
        k += 1;
    }
    assert(cs@.subrange(i as int, i + ps@.len()) =~= ps@);
    true
}

/// `s` with each occurrence of `pat`, read from the left and not overlapping, replaced by
/// `rep`, as `str::replace` gives it for a pattern that is not empty.
pub fn replace_text(s: &str, pat: &str, rep: &str) -> (r: String)
    requires
        pat@.len() > 0,
    ensures
        r@ == replace_all(s@, pat@, rep@),
{
    let cs = chars_of(s);
    let ps = chars_of(pat);
    let mut out = String::new();
    let mut i: usize = 0;
    while i < cs.len()
        invariant
            cs@ == s@,
            ps@ == pat@,
            ps@.len() > 0,
            i <= cs@.len(),
            out@ + replace_from(s@, i as int, pat@, rep@) == replace_all(s@, pat@, rep@),
        decreases cs@.len() - i,
    {
        let ghost before = out@;
        if occurs_at(&cs, i, &ps) {
            out.append(rep);
            assert(before + rep@ + replace_from(s@, i + ps@.len(), pat@, rep@) =~= before + (rep@
                + replace_from(s@, i + ps@.len(), pat@, rep@)));
            i = i + ps.len();
        } else {
            out.append(s.substring_char(i, i + 1));
            assert(s@.subrange(i as int, i + 1) =~= seq![s@[i as int]]);
            assert(before + seq![s@[i as int]] + replace_from(s@, i + 1, pat@, rep@) =~= before + (
            seq![s@[i as int]] + replace_from(s@, i + 1, pat@, rep@)));
            i = i + 1;
        }
    }
    assert(out@ + Seq::empty() =~= out@);
    out
}

/// The upper-case hexadecimal digits of `n`, without leading zeros.
pub open spec fn hex_digits(n: nat) -> Seq<char>
    decreases n,
{
    if n < 16 {
        seq![hex_table()[n as int]]
    } else {
        hex_digits(n / 16) + seq![hex_table()[(n % 16) as int]]
    }
}

/// What `format!("0x{:X}", n)` writes.
pub open spec fn hex_literal(n: nat) -> Seq<char> {
    "0x"@ + hex_digits(n)
}

/// Appends the upper-case hexadecimal digits of `n` to `out`.
fn push_hex_digits(out: &mut String, n: usize)
    ensures
        final(out)@ == old(out)@ + hex_digits(n as nat),
    decreases n,
{
    let digits = "0123456789ABCDEF";
    proof {
        reveal_strlit("0123456789ABCDEF");
    }
    assert(digits@ =~= hex_table());
    if n >= 16 {
        push_hex_digits(out, n / 16);
    }
    let d = n % 16;
    let ghost mid = out@;
    out.append(digits.substring_char(d, d + 1));
    assert(digits@.subrange(d as int, d + 1) =~= seq![hex_table()[d as int]]);
    if n >= 16 {
        assert(mid + seq![hex_table()[d as int]] =~= old(out)@ + hex_digits(n as nat));
    } else {
        assert(mid + seq![hex_table()[d as int]] =~= old(out)@ + hex_digits(n as nat));
    }
}

/// `n` written as `0x` and upper-case hexadecimal digits, as `format!("0x{:X}", n)` writes it.
pub fn hex_text(n: usize) -> (r: String)
    ensures
        r@ == hex_literal(n as nat),
{
    let mut out = "0x".to_owned();
    push_hex_digits(&mut out, n);
    out
}

/// Whether `t` holds the placeholder `<>` anywhere.
pub open spec fn has_placeholder(t: Seq<char>) -> bool {
    exists|j: int| 0 <= j < t.len() - 1 && #[trigger] t[j] == '<' && t[j + 1] == '>'
}

/// Whether `t` holds no angle bracket.
pub open spec fn no_brackets(t: Seq<char>) -> bool {
    forall|j: int| 0 <= j < t.len() ==> t[j] != '<' && t[j] != '>'
}

/// Where `pat` occurs nowhere in `s` from `i` on, replacing it changes nothing.
pub proof fn lemma_replace_absent(s: Seq<char>, i: int, pat: Seq<char>, rep: Seq<char>)
    requires
        0 <= i <= s.len(),
        forall|j: int|
            i <= j && j + pat.len() <= s.len() ==> #[trigger] s.subrange(j, j + pat.len()) != pat,
    ensures
        replace_from(s, i, pat, rep) == s.subrange(i, s.len() as int),
    decreases s.len() - i,
{
    if i < s.len() {
        lemma_replace_absent(s, i + 1, pat, rep);
        assert(seq![s[i]] + s.subrange(i + 1, s.len() as int) =~= s.subrange(i, s.len() as int));
    } else {
        assert(s.subrange(i, s.len() as int) =~= Seq::<char>::empty());
    }
}

/// A text without `<>` holds neither `<>` nor `?<>`, so replacing either changes nothing.
pub proof fn lemma_no_placeholder_unchanged(t: Seq<char>, rep1: Seq<char>, rep2: Seq<char>)
    requires
        !has_placeholder(t),
    ensures
        replace_all(t, "?<>"@, rep1) == t,
        replace_all(t, "<>"@, rep2) == t,
{
    reveal_strlit("?<>");
    reveal_strlit("<>");
    assert forall|j: int| 0 <= j && j + ("?<>"@).len() <= t.len() implies #[trigger] t.subrange(
        j,
        j + ("?<>"@).len(),
    ) != "?<>"@ by {
        if t.subrange(j, j + 3) == "?<>"@ {
            assert(t.subrange(j, j + 3)[1] == t[j + 1]);
            assert(t.subrange(j, j + 3)[2] == t[j + 2]);
            assert(t[j + 1] == '<' && t[j + 2] == '>');
        }
    }
    assert forall|j: int| 0 <= j && j + ("<>"@).len() <= t.len() implies #[trigger] t.subrange(
        j,
        j + ("<>"@).len(),
    ) != "<>"@ by {
        if t.subrange(j, j + 2) == "<>"@ {
            assert(t.subrange(j, j + 2)[0] == t[j]);
            assert(t.subrange(j, j + 2)[1] == t[j + 1]);
            assert(t[j] == '<' && t[j + 1] == '>');
        }
    }
    lemma_replace_absent(t, 0, "?<>"@, rep1);
    lemma_replace_absent(t, 0, "<>"@, rep2);
    assert(t.subrange(0, t.len() as int) =~= t);
}

/// Replacing every `<>` by a text without angle brackets leaves no `<>`; and the replaced text
/// from `i` on starts with the character at `i` or with the replacement.
pub proof fn lemma_replace_fills_placeholders(s: Seq<char>, i: int, rep: Seq<char>)
    requires
        0 <= i,
        rep.len() > 0,
        no_brackets(rep),
    ensures
        !has_placeholder(replace_from(s, i, seq!['<', '>'], rep)),
        replace_from(s, i, seq!['<', '>'], rep).len() > 0 ==> i < s.len() && (replace_from(
            s,
            i,
            seq!['<', '>'],
            rep,
        )[0] == s[i] || replace_from(s, i, seq!['<', '>'], rep)[0] == rep[0]),
    decreases s.len() - i,
{
    let pat = seq!['<', '>'];
    let r = replace_from(s, i, pat, rep);
    if i >= s.len() {
    } else if i + 2 <= s.len() && s.subrange(i, i + 2) == pat {
        lemma_replace_fills_placeholders(s, i + 2, rep);
        let rest = replace_from(s, i + 2, pat, rep);
        assert(r == rep + rest);
        if has_placeholder(r) {
            let j = choose|j: int| 0 <= j < r.len() - 1 && #[trigger] r[j] == '<' && r[j + 1] == '>';
            if j < rep.len() {
                assert(r[j] == rep[j]);
            } else {
                assert(r[j] == rest[j - rep.len()]);
                assert(r[j + 1] == rest[j + 1 - rep.len()]);
                assert(has_placeholder(rest));
            }
        }
        assert(r[0] == rep[0]);
    } else {
        lemma_replace_fills_placeholders(s, i + 1, rep);
        let rest = replace_from(s, i + 1, pat, rep);
        assert(r == seq![s[i]] + rest);
        if has_placeholder(r) {
            let j = choose|j: int| 0 <= j < r.len() - 1 && #[trigger] r[j] == '<' && r[j + 1] == '>';
            if j == 0 {
                assert(r[1] == rest[0]);
                assert(s[i] == '<');
                if rest[0] == s[i + 1] {
                    assert(s.subrange(i, i + 2) =~= pat);
                } else {
                    assert(rest[0] == rep[0]);
                }
            } else {
                assert(r[j] == rest[j - 1]);
                assert(r[j + 1] == rest[j]);
                assert(has_placeholder(rest));
            }
        }
        assert(r[0] == s[i]);
    }
}

/// The hexadecimal digits hold no angle bracket.
pub proof fn lemma_hex_digits_no_brackets(n: nat)
    ensures
        no_brackets(hex_digits(n)),
        hex_digits(n).len() > 0,
    decreases n,
{
    if n >= 16 {
        lemma_hex_digits_no_brackets(n / 16);
    }
}

/// `0x` and hexadecimal digits hold no angle bracket.
pub proof fn lemma_hex_literal_no_brackets(n: nat)
    ensures
        no_brackets(hex_literal(n)),
        hex_literal(n).len() > 0,
{
    reveal_strlit("0x");
    lemma_hex_digits_no_brackets(n);
    let t = hex_literal(n);
    assert forall|j: int| 0 <= j < t.len() implies t[j] != '<' && t[j] != '>' by {
        if j >= 2 {
            assert(t[j] == hex_digits(n)[j - 2]);
        }
    }
}
} // verus!

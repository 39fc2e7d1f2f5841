//! Decimal rendering and the length-prefixed text codec used to persist a
//! job context, together with its round-trip proof.

use vstd::prelude::*;
use vstd::arithmetic::div_mod::{
    lemma_div_pos_is_pos, lemma_fundamental_div_mod, lemma_mod_bound,
};
use crate::contexts::{GenerateContext, GenerateContextView};

verus! {

/// Character of a single decimal digit.
pub open spec fn digit_char(d: int) -> char {
    if d == 0 {
        '0'
    } else if d == 1 {
        '1'
    } else if d == 2 {
        '2'
    } else if d == 3 {
        '3'
    } else if d == 4 {
        '4'
    } else if d == 5 {
        '5'
    } else if d == 6 {
        '6'
    } else if d == 7 {
        '7'
    } else if d == 8 {
        '8'
    } else {
        '9'
    }
}

/// Value of a decimal digit character, or -1 when the character is no digit.
pub open spec fn char_digit(c: char) -> int {
    if c == '0' {
        0
    } else if c == '1' {
        1
    } else if c == '2' {
        2
    } else if c == '3' {
        3
    } else if c == '4' {
        4
    } else if c == '5' {
        5
    } else if c == '6' {
        6
    } else if c == '7' {
        7
    } else if c == '8' {
        8
    } else if c == '9' {
        9
    } else {
        -1
    }
}

pub open spec fn is_digit(c: char) -> bool {
    char_digit(c) >= 0
}

pub open spec fn all_digits(s: Seq<char>) -> bool {
    forall|i: int| 0 <= i < s.len() ==> is_digit(#[trigger] s[i])
}

pub open spec fn pow10(w: nat) -> int
    decreases w,
{
    if w == 0 {
        1
    } else {
        10 * pow10((w - 1) as nat)
    }
}

/// Natural decimal rendering of a non-negative integer, without leading
/// zeros (a single `'0'` for zero).
pub open spec fn dec_str(n: int) -> Seq<char>
    decreases n,
{
    if n < 10 {
        seq![digit_char(n)]
    } else {
        dec_str(n / 10).push(digit_char(n % 10))
    }
}

/// Decimal rendering of `n` padded with leading zeros to exactly `w` digits.
pub open spec fn fixed_dec(n: int, w: nat) -> Seq<char>
    decreases w,
{
    if w == 0 {
        Seq::empty()
    } else {
        fixed_dec(n / 10, (w - 1) as nat).push(digit_char(n % 10))
    }
}

/// Value of a digit string, most significant digit first.
pub open spec fn parse_dec(s: Seq<char>) -> int
    decreases s.len(),
{
    if s.len() == 0 {
        0
    } else {
        parse_dec(s.drop_last()) * 10 + char_digit(s.last())
    }
}

pub proof fn lemma_pow10_pos(w: nat)
    ensures
        pow10(w) >= 1,
    decreases w,
{
    if w > 0 {
        lemma_pow10_pos((w - 1) as nat);
    }
}

/// A `w`-digit rendering of a value below `pow10(w)` consists of digits and
/// parses back to the same value.
pub proof fn lemma_fixed_dec_props(n: int, w: nat)
    requires
        0 <= n < pow10(w),
    ensures
        fixed_dec(n, w).len() == w,
        all_digits(fixed_dec(n, w)),
        parse_dec(fixed_dec(n, w)) == n,
    decreases w,
{
    if w == 0 {
    } else {
        lemma_pow10_pos((w - 1) as nat);
        lemma_div_pos_is_pos(n, 10);
        lemma_fundamental_div_mod(n, 10);
        lemma_mod_bound(n, 10);
        assert(n / 10 < pow10((w - 1) as nat));
        lemma_fixed_dec_props(n / 10, (w - 1) as nat);
        let s = fixed_dec(n, w);
        assert(s.drop_last() =~= fixed_dec(n / 10, (w - 1) as nat));
        assert(s.last() == digit_char(n % 10));
        assert(char_digit(digit_char(n % 10)) == n % 10);
    }
}

/// Width of the fixed decimal headers in the persisted encoding.
pub const LEN_WIDTH: usize = 20;

pub proof fn lemma_pow10_20_bounds()
    ensures
        u64::MAX < pow10(20),
        pow10(20) < u128::MAX,
{
    reveal_with_fuel(pow10, 21);
    assert(pow10(20) == 100000000000000000000);
}

/// One-character string of the decimal digit `d`.
pub fn digit_str(d: u8) -> (s: &'static str)
    requires
        d < 10,
    ensures
        s@ =~= seq![digit_char(d as int)],
{
    if d == 0 {
        let s = "0";
        proof {
            reveal_strlit("0");
        }
        s
    } else if d == 1 {
        let s = "1";
        proof {
            reveal_strlit("1");
        }
        s
    } else if d == 2 {
        let s = "2";
        proof {
            reveal_strlit("2");
        }
        s
    } else if d == 3 {
        let s = "3";
        proof {
            reveal_strlit("3");
        }
        s
    } else if d == 4 {
        let s = "4";
        proof {
            reveal_strlit("4");
        }
        s
    } else if d == 5 {
        let s = "5";
        proof {
            reveal_strlit("5");
        }
        s
    } else if d == 6 {
        let s = "6";
        proof {
            reveal_strlit("6");
        }
        s
    } else if d == 7 {
        let s = "7";
        proof {
            reveal_strlit("7");
        }
        s
    } else if d == 8 {
        let s = "8";
        proof {
            reveal_strlit("8");
        }
        s
    } else {
        let s = "9";
        proof {
            reveal_strlit("9");
        }
        s
    }
}

/// Appends the natural decimal rendering of `n`.
pub fn append_dec(s: &mut String, n: u64)
    ensures
        final(s)@ == old(s)@ + dec_str(n as int),
    decreases n,
{
    if n < 10 {
        s.append(digit_str(n as u8));
        assert(final(s)@ =~= old(s)@ + dec_str(n as int));
    } else {
        append_dec(s, n / 10);
        s.append(digit_str((n % 10) as u8));
        assert(final(s)@ =~= old(s)@ + dec_str(n as int));
    }
}

/// Natural decimal rendering of `n` as a fresh string.
pub fn u64_to_string(n: u64) -> (s: String)
    ensures
        s@ == dec_str(n as int),
{
    let mut s = String::new();
    append_dec(&mut s, n);
    assert(s@ =~= dec_str(n as int));
    s
}

/// Appends the `w`-digit zero-padded decimal rendering of `n`.
pub fn append_fixed_dec(s: &mut String, n: u64, w: usize)
    ensures
        final(s)@ == old(s)@ + fixed_dec(n as int, w as nat),
    decreases w,
{
    if w == 0 {
        assert(final(s)@ =~= old(s)@ + fixed_dec(n as int, 0));
    } else {
        append_fixed_dec(s, n / 10, w - 1);
        s.append(digit_str((n % 10) as u8));
        assert(final(s)@ =~= old(s)@ + fixed_dec(n as int, w as nat));
    }
}

/// Value of a decimal digit character.
pub fn char_to_digit(c: char) -> (r: Option<u8>)
    ensures
        match r {
            Some(d) => char_digit(c) == d as int && d < 10,
            None => char_digit(c) == -1,
        },
{
    if c == '0' {
        Some(0)
    } else if c == '1' {
        Some(1)
    } else if c == '2' {
        Some(2)
    } else if c == '3' {
        Some(3)
    } else if c == '4' {
        Some(4)
    } else if c == '5' {
        Some(5)
    } else if c == '6' {
        Some(6)
    } else if c == '7' {
        Some(7)
    } else if c == '8' {
        Some(8)
    } else if c == '9' {
        Some(9)
    } else {
        None
    }
}

/// What reading a fixed-width decimal header at `pos` yields: the parsed
/// value when the next `LEN_WIDTH` characters are digits and the value fits
/// in a `u64`, nothing otherwise.
#[verifier::opaque]
pub open spec fn spec_read_fixed(s: Seq<char>, pos: int) -> Option<int> {
    if 0 <= pos && pos + LEN_WIDTH <= s.len() && all_digits(
        s.subrange(pos, pos + LEN_WIDTH),
    ) && parse_dec(s.subrange(pos, pos + LEN_WIDTH)) <= u64::MAX as int {
        Some(parse_dec(s.subrange(pos, pos + LEN_WIDTH)))
    } else {
        None
    }
}

/// Reads a fixed-width decimal header.
pub fn read_fixed_u64(s: &str, pos: usize) -> (r: Option<u64>)
    requires
        pos + LEN_WIDTH <= s@.len(),
        pos + LEN_WIDTH <= usize::MAX,
    ensures
        match r {
            Some(v) => spec_read_fixed(s@, pos as int) == Some(v as int),
            None => spec_read_fixed(s@, pos as int) is None,
        },
{
    proof {
        reveal(spec_read_fixed);
    }
    let ghost sub = s@.subrange(pos as int, pos as int + LEN_WIDTH as int);
    let mut acc: u128 = 0;
    let mut i: usize = 0;
    proof {
        lemma_pow10_20_bounds();
        assert(sub.take(0) =~= Seq::<char>::empty());
    }
    while i < LEN_WIDTH
        invariant
            0 <= i <= LEN_WIDTH,
            pos + LEN_WIDTH <= s@.len(),
            pos + LEN_WIDTH <= usize::MAX,
            sub == s@.subrange(pos as int, pos as int + LEN_WIDTH as int),
            all_digits(sub.take(i as int)),
            acc == parse_dec(sub.take(i as int)),
            0 <= acc < pow10(i as nat),
            pow10(20) < u128::MAX,
        decreases LEN_WIDTH - i,
    {
        let c = s.get_char(pos + i);
        proof {
            assert(c == sub[i as int]);
        }
        match char_to_digit(c) {
            Some(d) => {
                proof {
                    assert(sub.take(i + 1).drop_last() =~= sub.take(i as int));
                    assert(sub.take(i + 1).last() == sub[i as int]);
                    assert(pow10((i + 1) as nat) == 10 * pow10(i as nat));
                    lemma_pow10_le(((i + 1) as nat), 20);
                }
                acc = acc * 10 + d as u128;
                proof {
                    assert(all_digits(sub.take(i + 1))) by {
                        assert(forall|j: int|
                            0 <= j < i ==> sub.take(i + 1)[j] == #[trigger] sub.take(i as int)[j]);
                        assert(sub.take(i + 1)[i as int] == c);
                    }
                }
            },
            None => {
                proof {
                    reveal(spec_read_fixed);
                    assert(!is_digit(sub[i as int]));
                    assert(!all_digits(sub));
                }
                return None;
            },
        }
        i += 1;
    }
    proof {
        assert(sub.take(LEN_WIDTH as int) =~= sub);
    }
    if acc <= u64::MAX as u128 {
        Some(acc as u64)
    } else {
        None
    }
}

/// Division and remainder by two, written out for callers that pair
/// adjacent elements.
pub proof fn lemma_div_mod_2(m: int)
    requires
        m >= 0,
    ensures
        m == 2 * (m / 2) + m % 2,
        0 <= m % 2 < 2,
        0 <= m / 2,
{
    lemma_fundamental_div_mod(m, 2);
    lemma_mod_bound(m, 2);
    lemma_div_pos_is_pos(m, 2);
}

pub proof fn lemma_pow10_le(a: nat, b: nat)
    requires
        a <= b,
    ensures
        pow10(a) <= pow10(b),
    decreases b,
{
    if a < b {
        lemma_pow10_le(a, (b - 1) as nat);
        lemma_pow10_pos((b - 1) as nat);
    }
}

/// Encoding of one string field: its length as a fixed-width header, then
/// its characters.
#[verifier::opaque]
pub open spec fn enc_str(f: Seq<char>) -> Seq<char> {
    fixed_dec(f.len() as int, LEN_WIDTH as nat) + f
}

/// Encoding of one integer field.
#[verifier::opaque]
pub open spec fn enc_u64(n: u64) -> Seq<char> {
    fixed_dec(n as int, LEN_WIDTH as nat)
}

/// Encoding of one boolean field.
#[verifier::opaque]
pub open spec fn enc_bool(b: bool) -> Seq<char> {
    seq![if b { '1' } else { '0' }]
}

/// The persisted form of a job context: every field in declaration order.
pub open spec fn enc_context(c: GenerateContextView) -> Seq<char> {
    enc_str(c.proof_id) + (enc_str(c.basedir) + (enc_str(c.elf_path) + (enc_str(c.seg_path) + (
    enc_str(c.prove_path) + (enc_str(c.agg_path) + (enc_str(c.final_path) + (enc_str(
        c.public_input_path,
    ) + (enc_str(c.private_input_path) + (enc_str(c.output_stream_path) + (enc_u64(c.block_no) + (
    enc_u64(c.seg_size as u64) + (enc_bool(c.execute_only) + (enc_bool(c.precompile) + (enc_str(
        c.receipt_inputs_path,
    ) + enc_str(c.receipts_path)))))))))))))))
}

/// What reading a string field at `pos` yields.
pub open spec fn spec_read_str(s: Seq<char>, pos: int) -> Option<(Seq<char>, int)> {
    match spec_read_fixed(s, pos) {
        Some(n) => if pos + LEN_WIDTH + n <= s.len() {
            Some((s.subrange(pos + LEN_WIDTH, pos + LEN_WIDTH + n), pos + LEN_WIDTH + n))
        } else {
            None
        },
        None => None,
    }
}

/// What reading an integer field at `pos` yields.
pub open spec fn spec_read_u64(s: Seq<char>, pos: int) -> Option<(u64, int)> {
    match spec_read_fixed(s, pos) {
        Some(n) => Some((n as u64, pos + LEN_WIDTH)),
        None => None,
    }
}

/// What reading a 32-bit integer field at `pos` yields.
pub open spec fn spec_read_u32(s: Seq<char>, pos: int) -> Option<(u32, int)> {
    match spec_read_fixed(s, pos) {
        Some(n) => if n <= u32::MAX as int {
            Some((n as u32, pos + LEN_WIDTH))
        } else {
            None
        },
        None => None,
    }
}

/// What reading a boolean field at `pos` yields.
pub open spec fn spec_read_bool(s: Seq<char>, pos: int) -> Option<(bool, int)> {
    if 0 <= pos < s.len() && (s[pos] == '0' || s[pos] == '1') {
        Some((s[pos] == '1', pos + 1))
    } else {
        None
    }
}

/// Appends one string field.
pub fn append_str_field(s: &mut String, f: &str)
    ensures
        final(s)@ == old(s)@ + enc_str(f@),
{
    proof {
        reveal(enc_str);
    }
    let n = f.unicode_len();
    append_fixed_dec(s, n as u64, LEN_WIDTH);
    s.append(f);
    assert(final(s)@ =~= old(s)@ + enc_str(f@));
}

/// Appends one integer field.
pub fn append_u64_field(s: &mut String, n: u64)
    ensures
        final(s)@ == old(s)@ + enc_u64(n),
{
    proof {
        reveal(enc_u64);
    }
    append_fixed_dec(s, n, LEN_WIDTH);
}

/// Appends one boolean field.
pub fn append_bool_field(s: &mut String, b: bool)
    ensures
        final(s)@ == old(s)@ + enc_bool(b),
{
    proof {
        reveal(enc_bool);
    }
    if b {
        s.append(digit_str(1));
    } else {
        s.append(digit_str(0));
    }
    assert(final(s)@ =~= old(s)@ + enc_bool(b));
}

/// One string field as a fresh string.
pub fn enc_str_string(f: &str) -> (r: String)
    ensures
        r@ == enc_str(f@),
{
    let mut s = String::new();
    append_str_field(&mut s, f);
    assert(s@ =~= enc_str(f@));
    s
}

/// One integer field as a fresh string.
pub fn enc_u64_string(n: u64) -> (r: String)
    ensures
        r@ == enc_u64(n),
{
    let mut s = String::new();
    append_u64_field(&mut s, n);
    assert(s@ =~= enc_u64(n));
    s
}

/// One boolean field as a fresh string.
pub fn enc_bool_string(b: bool) -> (r: String)
    ensures
        r@ == enc_bool(b),
{
    let mut s = String::new();
    append_bool_field(&mut s, b);
    assert(s@ =~= enc_bool(b));
    s
}

/// Serializes a job context into its persisted form.
pub fn encode_context(c: &GenerateContext) -> (r: String)
    ensures
        r@ == enc_context(c@),
{
    let s16 = enc_str_string(c.receipts_path.as_str());
    let mut s15 = enc_str_string(c.receipt_inputs_path.as_str());
    s15.append(s16.as_str());
    let mut s14 = enc_bool_string(c.precompile);
    s14.append(s15.as_str());
    let mut s13 = enc_bool_string(c.execute_only);
    s13.append(s14.as_str());
    let mut s12 = enc_u64_string(c.seg_size as u64);
    s12.append(s13.as_str());
    let mut s11 = enc_u64_string(c.block_no);
    s11.append(s12.as_str());
    let mut s10 = enc_str_string(c.output_stream_path.as_str());
    s10.append(s11.as_str());
    let mut s9 = enc_str_string(c.private_input_path.as_str());
    s9.append(s10.as_str());
    let mut s8 = enc_str_string(c.public_input_path.as_str());
    s8.append(s9.as_str());
    let mut s7 = enc_str_string(c.final_path.as_str());
    s7.append(s8.as_str());
    let mut s6 = enc_str_string(c.agg_path.as_str());
    s6.append(s7.as_str());
    let mut s5 = enc_str_string(c.prove_path.as_str());
    s5.append(s6.as_str());
    let mut s4 = enc_str_string(c.seg_path.as_str());
    s4.append(s5.as_str());
    let mut s3 = enc_str_string(c.elf_path.as_str());
    s3.append(s4.as_str());
    let mut s2 = enc_str_string(c.basedir.as_str());
    s2.append(s3.as_str());
    let mut s1 = enc_str_string(c.proof_id.as_str());
    s1.append(s2.as_str());
    s1
}

/// Reads one string field.
pub fn read_str_field(s: &str, len: usize, pos: usize) -> (r: Option<(String, usize)>)
    requires
        len == s@.len(),
        pos <= len,
    ensures
        match r {
            Some(v) => spec_read_str(s@, pos as int) == Some((v.0@, v.1 as int)) && v.1 <= len,
            None => spec_read_str(s@, pos as int) is None,
        },
{
    proof {
        reveal(spec_read_fixed);
    }
    if len - pos < LEN_WIDTH {
        return None;
    }
    match read_fixed_u64(s, pos) {
        Some(n64) => {
            let rem = len - (pos + LEN_WIDTH);
            if n64 > rem as u64 {
                return None;
            }
            let n = n64 as usize;
            let field = s.substring_char(pos + LEN_WIDTH, pos + LEN_WIDTH + n).to_owned();
            Some((field, pos + LEN_WIDTH + n))
        },
        None => None,
    }
}

/// Reads one integer field.
pub fn read_u64_field(s: &str, len: usize, pos: usize) -> (r: Option<(u64, usize)>)
    requires
        len == s@.len(),
        pos <= len,
    ensures
        match r {
            Some(v) => spec_read_u64(s@, pos as int) == Some((v.0, v.1 as int)) && v.1 <= len,
            None => spec_read_u64(s@, pos as int) is None,
        },
{
    proof {
        reveal(spec_read_fixed);
    }
    if len - pos < LEN_WIDTH {
        return None;
    }
    match read_fixed_u64(s, pos) {
        Some(n64) => Some((n64, pos + LEN_WIDTH)),
        None => None,
    }
}

/// Reads one 32-bit integer field.
pub fn read_u32_field(s: &str, len: usize, pos: usize) -> (r: Option<(u32, usize)>)
    requires
        len == s@.len(),
        pos <= len,
    ensures
        match r {
            Some(v) => spec_read_u32(s@, pos as int) == Some((v.0, v.1 as int)) && v.1 <= len,
            None => spec_read_u32(s@, pos as int) is None,
        },
{
    proof {
        reveal(spec_read_fixed);
    }
    if len - pos < LEN_WIDTH {
        return None;
    }
    match read_fixed_u64(s, pos) {
        Some(n64) => {
            if n64 <= u32::MAX as u64 {
                Some((n64 as u32, pos + LEN_WIDTH))
            } else {
                None
            }
        },
        None => None,
    }
}

/// Reads one boolean field.
pub fn read_bool_field(s: &str, len: usize, pos: usize) -> (r: Option<(bool, usize)>)
    requires
        len == s@.len(),
        pos <= len,
    ensures
        match r {
            Some(v) => spec_read_bool(s@, pos as int) == Some((v.0, v.1 as int)) && v.1 <= len,
            None => spec_read_bool(s@, pos as int) is None,
        },
{
    if pos < len {
        let c = s.get_char(pos);
        if c == '0' {
            Some((false, pos + 1))
        } else if c == '1' {
            Some((true, pos + 1))
        } else {
            None
        }
    } else {
        None
    }
}

/// Deserializes a job context from its persisted form; rejects any string
/// that the encoder cannot have produced.
pub fn decode_context(s: &str) -> (r: Option<GenerateContext>)
    ensures
        match r {
            Some(c) => spec_decode_context(s@) == Some(c@),
            None => spec_decode_context(s@) is None,
        },
{
    let len = s.unicode_len();
    let r0 = read_str_field(s, len, 0);
    let (proof_id, pos) = match r0 {
        Some(v) => v,
        None => {
            return None;
        },
    };
    let (basedir, pos) = match read_str_field(s, len, pos) {
        Some(v) => v,
        None => {
            return None;
        },
    };
    let (elf_path, pos) = match read_str_field(s, len, pos) {
        Some(v) => v,
        None => {
            return None;
        },
    };
    let (seg_path, pos) = match read_str_field(s, len, pos) {
        Some(v) => v,
        None => {
            return None;
        },
    };
    let (prove_path, pos) = match read_str_field(s, len, pos) {
        Some(v) => v,
        None => {
            return None;
        },
    };
    let (agg_path, pos) = match read_str_field(s, len, pos) {
        Some(v) => v,
        None => {
            return None;
        },
    };
    let (final_path, pos) = match read_str_field(s, len, pos) {
        Some(v) => v,
        None => {
            return None;
        },
    };
    let (public_input_path, pos) = match read_str_field(s, len, pos) {
        Some(v) => v,
        None => {
            return None;
        },
    };
    let (private_input_path, pos) = match read_str_field(s, len, pos) {
        Some(v) => v,
        None => {
            return None;
        },
    };
    let (output_stream_path, pos) = match read_str_field(s, len, pos) {
        Some(v) => v,
        None => {
            return None;
        },
    };
    let (block_no, pos) = match read_u64_field(s, len, pos) {
        Some(v) => v,
        None => {
            return None;
        },
    };
    let (seg_size, pos) = match read_u32_field(s, len, pos) {
        Some(v) => v,
        None => {
            return None;
        },
    };
    let (execute_only, pos) = match read_bool_field(s, len, pos) {
        Some(v) => v,
        None => {
            return None;
        },
    };
    let (precompile, pos) = match read_bool_field(s, len, pos) {
        Some(v) => v,
        None => {
            return None;
        },
    };
    let (receipt_inputs_path, pos) = match read_str_field(s, len, pos) {
        Some(v) => v,
        None => {
            return None;
        },
    };
    let (receipts_path, pos) = match read_str_field(s, len, pos) {
        Some(v) => v,
        None => {
            return None;
        },
    };
    if pos != len {
        return None;
    }
    Some(
        GenerateContext {
            proof_id,
            basedir,
            elf_path,
            seg_path,
            prove_path,
            agg_path,
            final_path,
            public_input_path,
            private_input_path,
            output_stream_path,
            block_no,
            seg_size,
            execute_only,
            precompile,
            receipt_inputs_path,
            receipts_path,
        },
    )
}

/// What decoding a persisted job context yields.
pub open spec fn spec_decode_context(s: Seq<char>) -> Option<GenerateContextView> {
    match spec_read_str(s, 0) {
        None => None,
        Some((proof_id, p1)) => match spec_read_str(s, p1) {
            None => None,
            Some((basedir, p2)) => match spec_read_str(s, p2) {
                None => None,
                Some((elf_path, p3)) => match spec_read_str(s, p3) {
                    None => None,
                    Some((seg_path, p4)) => match spec_read_str(s, p4) {
                        None => None,
                        Some((prove_path, p5)) => match spec_read_str(s, p5) {
                            None => None,
                            Some((agg_path, p6)) => match spec_read_str(s, p6) {
                                None => None,
                                Some((final_path, p7)) => match spec_read_str(s, p7) {
                                    None => None,
                                    Some((public_input_path, p8)) => match spec_read_str(s, p8) {
                                        None => None,
                                        Some((private_input_path, p9)) => match spec_read_str(
                                            s,
                                            p9,
                                        ) {
                                            None => None,
                                            Some((output_stream_path, p10)) => match spec_read_u64(
                                                s,
                                                p10,
                                            ) {
                                                None => None,
                                                Some((block_no, p11)) => match spec_read_u32(
                                                    s,
                                                    p11,
                                                ) {
                                                    None => None,
                                                    Some((seg_size, p12)) => match spec_read_bool(
                                                        s,
                                                        p12,
                                                    ) {
                                                        None => None,
                                                        Some(
                                                            (execute_only, p13),
                                                        ) => match spec_read_bool(s, p13) {
                                                            None => None,
                                                            Some(
                                                                (precompile, p14),
                                                            ) => match spec_read_str(s, p14) {
                                                                None => None,
                                                                Some(
                                                                    (receipt_inputs_path, p15),
                                                                ) => match spec_read_str(s, p15) {
                                                                    None => None,
                                                                    Some(
                                                                        (receipts_path, p16),
                                                                    ) => if p16 == s.len() {
                                                                        Some(
                                                                            GenerateContextView {
                                                                                proof_id,
                                                                                basedir,
                                                                                elf_path,
                                                                                seg_path,
                                                                                prove_path,
                                                                                agg_path,
                                                                                final_path,
                                                                                public_input_path,
                                                                                private_input_path,
                                                                                output_stream_path,
                                                                                block_no,
                                                                                seg_size,
                                                                                execute_only,
                                                                                precompile,
                                                                                receipt_inputs_path,
                                                                                receipts_path,
                                                                            },
                                                                        )
                                                                    } else {
                                                                        None
                                                                    },
                                                                },
                                                            },
                                                        },
                                                    },
                                                },
                                            },
                                        },
                                    },
                                },
                            },
                        },
                    },
                },
            },
        },
    }
}

/// Reading a string field back from the position where one was encoded
/// yields the encoded field.
pub proof fn lemma_read_str_at(pre: Seq<char>, f: Seq<char>, rest: Seq<char>)
    requires
        f.len() <= u64::MAX,
    ensures
        spec_read_str(pre + enc_str(f) + rest, pre.len() as int) == Some(
            (f, pre.len() + LEN_WIDTH + f.len()),
        ),
        enc_str(f).len() == LEN_WIDTH + f.len(),
{
    reveal(enc_str);
    reveal(spec_read_fixed);
    let s = pre + enc_str(f) + rest;
    let pos = pre.len() as int;
    lemma_pow10_20_bounds();
    lemma_fixed_dec_props(f.len() as int, LEN_WIDTH as nat);
    assert(s.subrange(pos, pos + LEN_WIDTH) =~= fixed_dec(f.len() as int, LEN_WIDTH as nat));
    assert(spec_read_fixed(s, pos) == Some(f.len() as int));
    assert(s.subrange(pos + LEN_WIDTH, pos + LEN_WIDTH + f.len()) =~= f);
}

/// Reading an integer field back from the position where one was encoded
/// yields the encoded value.
pub proof fn lemma_read_u64_at(pre: Seq<char>, n: u64, rest: Seq<char>)
    ensures
        spec_read_u64(pre + enc_u64(n) + rest, pre.len() as int) == Some(
            (n, pre.len() + LEN_WIDTH),
        ),
        enc_u64(n).len() == LEN_WIDTH,
{
    reveal(enc_u64);
    reveal(spec_read_fixed);
    let s = pre + enc_u64(n) + rest;
    let pos = pre.len() as int;
    lemma_pow10_20_bounds();
    lemma_fixed_dec_props(n as int, LEN_WIDTH as nat);
    assert(s.subrange(pos, pos + LEN_WIDTH) =~= fixed_dec(n as int, LEN_WIDTH as nat));
    assert(spec_read_fixed(s, pos) == Some(n as int));
}

/// Reading a 32-bit integer field back from the position where one was
/// encoded yields the encoded value.
pub proof fn lemma_read_u32_at(pre: Seq<char>, n: u32, rest: Seq<char>)
    ensures
        spec_read_u32(pre + enc_u64(n as u64) + rest, pre.len() as int) == Some(
            (n, pre.len() + LEN_WIDTH),
        ),
        enc_u64(n as u64).len() == LEN_WIDTH,
{
    reveal(enc_u64);
    reveal(spec_read_fixed);
    let s = pre + enc_u64(n as u64) + rest;
    let pos = pre.len() as int;
    lemma_pow10_20_bounds();
    lemma_fixed_dec_props(n as int, LEN_WIDTH as nat);
    assert(s.subrange(pos, pos + LEN_WIDTH) =~= fixed_dec(n as int, LEN_WIDTH as nat));
    assert(spec_read_fixed(s, pos) == Some(n as int));
}

/// Reading a boolean field back from the position where one was encoded
/// yields the encoded value.
pub proof fn lemma_read_bool_at(pre: Seq<char>, b: bool, rest: Seq<char>)
    ensures
        spec_read_bool(pre + enc_bool(b) + rest, pre.len() as int) == Some(
            (b, pre.len() + 1int),
        ),
        enc_bool(b).len() == 1,
{
    reveal(enc_bool);
    let s = pre + enc_bool(b) + rest;
    let pos = pre.len() as int;
    assert(s[pos] == (if b { '1' } else { '0' }));
}

/// Round trip: decoding an encoded job context yields the same context.
/// The length bounds state only that each field fits in memory.
#[verifier::rlimit(100)]
#[verifier::spinoff_prover]
pub proof fn lemma_context_round_trip(c: GenerateContextView)
    requires
        c.proof_id.len() <= u64::MAX,
        c.basedir.len() <= u64::MAX,
        c.elf_path.len() <= u64::MAX,
        c.seg_path.len() <= u64::MAX,
        c.prove_path.len() <= u64::MAX,
        c.agg_path.len() <= u64::MAX,
        c.final_path.len() <= u64::MAX,
        c.public_input_path.len() <= u64::MAX,
        c.private_input_path.len() <= u64::MAX,
        c.output_stream_path.len() <= u64::MAX,
        c.receipt_inputs_path.len() <= u64::MAX,
        c.receipts_path.len() <= u64::MAX,
    ensures
        spec_decode_context(enc_context(c)) == Some(c),
{
    let e1 = enc_str(c.proof_id);
    let e2 = enc_str(c.basedir);
    let e3 = enc_str(c.elf_path);
    let e4 = enc_str(c.seg_path);
    let e5 = enc_str(c.prove_path);
    let e6 = enc_str(c.agg_path);
    let e7 = enc_str(c.final_path);
    let e8 = enc_str(c.public_input_path);
    let e9 = enc_str(c.private_input_path);
    let e10 = enc_str(c.output_stream_path);
    let e11 = enc_u64(c.block_no);
    let e12 = enc_u64(c.seg_size as u64);
    let e13 = enc_bool(c.execute_only);
    let e14 = enc_bool(c.precompile);
    let e15 = enc_str(c.receipt_inputs_path);
    let e16 = enc_str(c.receipts_path);
    let s = enc_context(c);

    let t17 = Seq::<char>::empty();
    let t16 = e16 + t17;
    let t15 = e15 + t16;
    let t14 = e14 + t15;
    let t13 = e13 + t14;
    let t12 = e12 + t13;
    let t11 = e11 + t12;
    let t10 = e10 + t11;
    let t9 = e9 + t10;
    let t8 = e8 + t9;
    let t7 = e7 + t8;
    let t6 = e6 + t7;
    let t5 = e5 + t6;
    let t4 = e4 + t5;
    let t3 = e3 + t4;
    let t2 = e2 + t3;
    let t1 = e1 + t2;
    let p0 = Seq::<char>::empty();

    assert(e16 + t17 =~= e16);
    assert(s =~= p0 + t1);

    lemma_seq_assoc(p0, e1, t2);
    lemma_read_str_at(p0, c.proof_id, t2);
    let p1 = p0 + e1;
    assert(s == p1 + t2);

    lemma_seq_assoc(p1, e2, t3);
    lemma_read_str_at(p1, c.basedir, t3);
    let p2 = p1 + e2;
    assert(s == p2 + t3);

    lemma_seq_assoc(p2, e3, t4);
    lemma_read_str_at(p2, c.elf_path, t4);
    let p3 = p2 + e3;
    assert(s == p3 + t4);

    lemma_seq_assoc(p3, e4, t5);
    lemma_read_str_at(p3, c.seg_path, t5);
    let p4 = p3 + e4;
    assert(s == p4 + t5);

    lemma_seq_assoc(p4, e5, t6);
    lemma_read_str_at(p4, c.prove_path, t6);
    let p5 = p4 + e5;
    assert(s == p5 + t6);

    lemma_seq_assoc(p5, e6, t7);
    lemma_read_str_at(p5, c.agg_path, t7);
    let p6 = p5 + e6;
    assert(s == p6 + t7);

    lemma_seq_assoc(p6, e7, t8);
    lemma_read_str_at(p6, c.final_path, t8);
    let p7 = p6 + e7;
    assert(s == p7 + t8);

    lemma_seq_assoc(p7, e8, t9);
    lemma_read_str_at(p7, c.public_input_path, t9);
    let p8 = p7 + e8;
    assert(s == p8 + t9);

    lemma_seq_assoc(p8, e9, t10);
    lemma_read_str_at(p8, c.private_input_path, t10);
    let p9 = p8 + e9;
    assert(s == p9 + t10);

    lemma_seq_assoc(p9, e10, t11);
    lemma_read_str_at(p9, c.output_stream_path, t11);
    let p10 = p9 + e10;
    assert(s == p10 + t11);

    lemma_seq_assoc(p10, e11, t12);
    lemma_read_u64_at(p10, c.block_no, t12);
    let p11 = p10 + e11;
    assert(s == p11 + t12);

    lemma_seq_assoc(p11, e12, t13);
    lemma_read_u32_at(p11, c.seg_size, t13);
    let p12 = p11 + e12;
    assert(s == p12 + t13);

    lemma_seq_assoc(p12, e13, t14);
    lemma_read_bool_at(p12, c.execute_only, t14);
    let p13 = p12 + e13;
    assert(s == p13 + t14);

    lemma_seq_assoc(p13, e14, t15);
    lemma_read_bool_at(p13, c.precompile, t15);
    let p14 = p13 + e14;
    assert(s == p14 + t15);

    lemma_seq_assoc(p14, e15, t16);
    lemma_read_str_at(p14, c.receipt_inputs_path, t16);
    let p15 = p14 + e15;
    assert(s == p15 + t16);

    lemma_seq_assoc(p15, e16, t17);
    lemma_read_str_at(p15, c.receipts_path, t17);
    let p16 = p15 + e16;
    assert(s == p16 + t17);


    let q0: int = 0;
    assert(p0.len() == q0);
    let q1: int = q0 + LEN_WIDTH + c.proof_id.len();
    assert(p1.len() == q1);
    assert(spec_read_str(s, q0) == Some((c.proof_id, q1)));
    let q2: int = q1 + LEN_WIDTH + c.basedir.len();
    assert(p2.len() == q2);
    assert(spec_read_str(s, q1) == Some((c.basedir, q2)));
    let q3: int = q2 + LEN_WIDTH + c.elf_path.len();
    assert(p3.len() == q3);
    assert(spec_read_str(s, q2) == Some((c.elf_path, q3)));
    let q4: int = q3 + LEN_WIDTH + c.seg_path.len();
    assert(p4.len() == q4);
    assert(spec_read_str(s, q3) == Some((c.seg_path, q4)));
    let q5: int = q4 + LEN_WIDTH + c.prove_path.len();
    assert(p5.len() == q5);
    assert(spec_read_str(s, q4) == Some((c.prove_path, q5)));
    let q6: int = q5 + LEN_WIDTH + c.agg_path.len();
    assert(p6.len() == q6);
    assert(spec_read_str(s, q5) == Some((c.agg_path, q6)));
    let q7: int = q6 + LEN_WIDTH + c.final_path.len();
    assert(p7.len() == q7);
    assert(spec_read_str(s, q6) == Some((c.final_path, q7)));
    let q8: int = q7 + LEN_WIDTH + c.public_input_path.len();
    assert(p8.len() == q8);
    assert(spec_read_str(s, q7) == Some((c.public_input_path, q8)));
    let q9: int = q8 + LEN_WIDTH + c.private_input_path.len();
    assert(p9.len() == q9);
    assert(spec_read_str(s, q8) == Some((c.private_input_path, q9)));
    let q10: int = q9 + LEN_WIDTH + c.output_stream_path.len();
    assert(p10.len() == q10);
    assert(spec_read_str(s, q9) == Some((c.output_stream_path, q10)));
    let q11: int = q10 + LEN_WIDTH as int;
    assert(p11.len() == q11);
    assert(spec_read_u64(s, q10) == Some((c.block_no, q11)));
    let q12: int = q11 + LEN_WIDTH as int;
    assert(p12.len() == q12);
    assert(spec_read_u32(s, q11) == Some((c.seg_size, q12)));
    let q13: int = q12 + 1int;
    assert(p13.len() == q13);
    assert(spec_read_bool(s, q12) == Some((c.execute_only, q13)));
    let q14: int = q13 + 1int;
    assert(p14.len() == q14);
    assert(spec_read_bool(s, q13) == Some((c.precompile, q14)));
    let q15: int = q14 + LEN_WIDTH + c.receipt_inputs_path.len();
    assert(p15.len() == q15);
    assert(spec_read_str(s, q14) == Some((c.receipt_inputs_path, q15)));
    let q16: int = q15 + LEN_WIDTH + c.receipts_path.len();
    assert(p16.len() == q16);
    assert(spec_read_str(s, q15) == Some((c.receipts_path, q16)));
    assert(q16 == s.len());
}


/// The eight little-endian bytes of a 64-bit length.
#[verifier::opaque]
pub open spec fn u64_le_bytes(n: u64) -> Seq<u8> {
    seq![
        (n % 256) as u8,
        ((n / 256) % 256) as u8,
        ((n / 65536) % 256) as u8,
        ((n / 16777216) % 256) as u8,
        ((n / 4294967296) % 256) as u8,
        ((n / 1099511627776) % 256) as u8,
        ((n / 281474976710656) % 256) as u8,
        ((n / 72057594037927936) % 256) as u8,
    ]
}

/// Appends the eight little-endian bytes of `n`.
pub fn push_u64_le(v: &mut Vec<u8>, n: u64)
    ensures
        final(v)@ == old(v)@ + u64_le_bytes(n),
{
    proof {
        reveal(u64_le_bytes);
    }
    v.push((n % 256) as u8);
    v.push(((n / 256) % 256) as u8);
    v.push(((n / 65536) % 256) as u8);
    v.push(((n / 16777216) % 256) as u8);
    v.push(((n / 4294967296) % 256) as u8);
    v.push(((n / 1099511627776) % 256) as u8);
    v.push(((n / 281474976710656) % 256) as u8);
    v.push(((n / 72057594037927936) % 256) as u8);
    assert(final(v)@ =~= old(v)@ + u64_le_bytes(n));
}

/// The length-prefixed binary encoding of the first `k` byte strings of a
/// list, after the list's own length: how the structured receipt lists are
/// persisted.
pub open spec fn enc_bytes_list_upto(items: Seq<Vec<u8>>, k: int) -> Seq<u8>
    decreases k,
{
    if k <= 0 {
        u64_le_bytes(items.len() as u64)
    } else {
        enc_bytes_list_upto(items, k - 1) + u64_le_bytes(items[k - 1]@.len() as u64) + items[k
            - 1]@
    }
}

/// The length-prefixed binary encoding of a list of byte strings: the
/// number of entries as eight little-endian bytes, then each entry as its
/// length followed by its bytes.
pub open spec fn enc_bytes_list(items: Seq<Vec<u8>>) -> Seq<u8> {
    enc_bytes_list_upto(items, items.len() as int)
}

/// Serializes a list of byte strings in the length-prefixed binary form.
pub fn encode_bytes_list(items: &Vec<Vec<u8>>) -> (r: Vec<u8>)
    ensures
        r@ == enc_bytes_list(items@),
{
    let mut out: Vec<u8> = Vec::new();
    push_u64_le(&mut out, items.len() as u64);
    assert(out@ =~= enc_bytes_list_upto(items@, 0));
    let mut i: usize = 0;
    while i < items.len()
        invariant
            0 <= i <= items@.len(),
            out@ == enc_bytes_list_upto(items@, i as int),
        decreases items@.len() - i,
    {
        push_u64_le(&mut out, items[i].len() as u64);
        let ghost mid = out@;
        let m = items[i].len();
        let mut k: usize = 0;
        while k < m
            invariant
                0 <= k <= m,
                i < items@.len(),
                m == items@[i as int]@.len(),
                out@ == mid + items@[i as int]@.take(k as int),
            decreases m - k,
        {
            out.push(items[i][k]);
            proof {
                assert(out@ =~= mid + items@[i as int]@.take(k + 1));
            }
            k += 1;
        }
        proof {
            assert(items@[i as int]@.take(m as int) =~= items@[i as int]@);
            assert(out@ =~= enc_bytes_list_upto(items@, i + 1));
        }
        i += 1;
    }
    out
}

/// Concatenation of sequences is associative.
pub proof fn lemma_seq_assoc<A>(a: Seq<A>, b: Seq<A>, c: Seq<A>)
    ensures
        a + b + c == a + (b + c),
{
    assert(a + b + c =~= a + (b + c));
}

} // verus!

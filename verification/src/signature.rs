//! Request authentication: the canonical signed message, hexadecimal
//! encoding and decoding, and signer recovery.

use vstd::prelude::*;
use crate::codec::{append_dec, dec_str};

verus! {

/// Character of a hexadecimal digit, lower case.
pub open spec fn hex_char(d: int) -> char {
    if d == 0 {
        '0'
    } else if d == 1 {
        '1'
    } else if d == 2 {
        '2'
    } else if d == 3 {
        '3'
    } else if d == 4 {
        '4'
    } else if d == 5 {
        '5'
    } else if d == 6 {
        '6'
    } else if d == 7 {
        '7'
    } else if d == 8 {
        '8'
    } else if d == 9 {
        '9'
    } else if d == 10 {
        'a'
    } else if d == 11 {
        'b'
    } else if d == 12 {
        'c'
    } else if d == 13 {
        'd'
    } else if d == 14 {
        'e'
    } else {
        'f'
    }
}

/// Value of a hexadecimal digit character (upper or lower case), or -1 when
/// the character is no hexadecimal digit.
pub open spec fn hex_val(c: char) -> int {
    if c == '0' {
        0
    } else if c == '1' {
        1
    } else if c == '2' {
        2
    } else if c == '3' {
        3
    } else if c == '4' {
        4
    } else if c == '5' {
        5
    } else if c == '6' {
        6
    } else if c == '7' {
        7
    } else if c == '8' {
        8
    } else if c == '9' {
        9
    } else if c == 'a' || c == 'A' {
        10
    } else if c == 'b' || c == 'B' {
        11
    } else if c == 'c' || c == 'C' {
        12
    } else if c == 'd' || c == 'D' {
        13
    } else if c == 'e' || c == 'E' {
        14
    } else if c == 'f' || c == 'F' {
        15
    } else {
        -1
    }
}

pub open spec fn is_hex_digit(c: char) -> bool {
    hex_val(c) >= 0
}

/// Lower-case hexadecimal rendering of a byte string: two digits per byte,
/// high digit first.
pub open spec fn hex_of(b: Seq<u8>) -> Seq<char> {
    Seq::new(b.len() * 2, |i: int| hex_char(if i % 2 == 0 { b[i / 2] / 16 } else { b[i / 2] % 16 } as int))
}

/// The byte string a hexadecimal string denotes, when it has even length and
/// consists of hexadecimal digits only.
pub open spec fn hex_decode_spec(s: Seq<char>) -> Option<Seq<u8>> {
    if s.len() % 2 == 0 && (forall|i: int| 0 <= i < s.len() ==> is_hex_digit(#[trigger] s[i])) {
        Some(Seq::new(s.len() / 2, |i: int| (hex_val(s[2 * i]) * 16 + hex_val(s[2 * i + 1])) as u8))
    } else {
        None
    }
}

/// One-character string of the hexadecimal digit `d`.
pub fn hex_char_str(d: u8) -> (s: &'static str)
    requires
        d < 16,
    ensures
        s@ =~= seq![hex_char(d as int)],
{
    if d == 0 {
        let s = "0";
        proof {
            reveal_strlit("0");
        }
        s
    } else if d == 1 {
        let s = "1";
        proof {
            reveal_strlit("1");
        }
        s
    } else if d == 2 {
        let s = "2";
        proof {
            reveal_strlit("2");
        }
        s
    } else if d == 3 {
        let s = "3";
        proof {
            reveal_strlit("3");
        }
        s
    } else if d == 4 {
        let s = "4";
        proof {
            reveal_strlit("4");
        }
        s
    } else if d == 5 {
        let s = "5";
        proof {
            reveal_strlit("5");
        }
        s
    } else if d == 6 {
        let s = "6";
        proof {
            reveal_strlit("6");
        }
        s
    } else if d == 7 {
        let s = "7";
        proof {
            reveal_strlit("7");
        }
        s
    } else if d == 8 {
        let s = "8";
        proof {
            reveal_strlit("8");
        }
        s
    } else if d == 9 {
        let s = "9";
        proof {
            reveal_strlit("9");
        }
        s
    } else if d == 10 {
        let s = "a";
        proof {
            reveal_strlit("a");
        }
        s
    } else if d == 11 {
        let s = "b";
        proof {
            reveal_strlit("b");
        }
        s
    } else if d == 12 {
        let s = "c";
        proof {
            reveal_strlit("c");
        }
        s
    } else if d == 13 {
        let s = "d";
        proof {
            reveal_strlit("d");
        }
        s
    } else if d == 14 {
        let s = "e";
        proof {
            reveal_strlit("e");
        }
        s
    } else {
        let s = "f";
        proof {
            reveal_strlit("f");
        }
        s
    }
}

/// Renders a byte string as lower-case hexadecimal.
pub fn hex_encode(b: &Vec<u8>) -> (r: String)
    ensures
        r@ == hex_of(b@),
{
    let mut s = String::new();
    let mut i: usize = 0;
    while i < b.len()
        invariant
            0 <= i <= b@.len(),
            s@ =~= hex_of(b@).take(2 * i as int),
        decreases b@.len() - i,
    {
        let byte = b[i];
        s.append(hex_char_str(byte / 16));
        s.append(hex_char_str(byte % 16));
        proof {
            assert(hex_of(b@)[2 * i as int] == hex_char((b@[i as int] / 16) as int));
            assert(hex_of(b@)[2 * i as int + 1] == hex_char((b@[i as int] % 16) as int));
            assert(s@ =~= hex_of(b@).take(2 * (i + 1) as int));
        }
        i += 1;
    }
    proof {
        assert(hex_of(b@).take(2 * i as int) =~= hex_of(b@));
    }
    s
}

/// Value of a hexadecimal digit character.
pub fn hex_digit_of_char(c: char) -> (r: Option<u8>)
    ensures
        match r {
            Some(d) => hex_val(c) == d as int && d < 16,
            None => hex_val(c) == -1,
        },
{
    if c == '0' {
        Some(0)
    } else if c == '1' {
        Some(1)
    } else if c == '2' {
        Some(2)
    } else if c == '3' {
        Some(3)
    } else if c == '4' {
        Some(4)
    } else if c == '5' {
        Some(5)
    } else if c == '6' {
        Some(6)
    } else if c == '7' {
        Some(7)
    } else if c == '8' {
        Some(8)
    } else if c == '9' {
        Some(9)
    } else if c == 'a' || c == 'A' {
        Some(10)
    } else if c == 'b' || c == 'B' {
        Some(11)
    } else if c == 'c' || c == 'C' {
        Some(12)
    } else if c == 'd' || c == 'D' {
        Some(13)
    } else if c == 'e' || c == 'E' {
        Some(14)
    } else if c == 'f' || c == 'F' {
        Some(15)
    } else {
        None
    }
}

/// Decodes a hexadecimal string into bytes; rejects odd lengths and
/// non-digit characters.
pub fn hex_decode(s: &str) -> (r: Option<Vec<u8>>)
    ensures
        match r {
            Some(b) => hex_decode_spec(s@) == Some(b@),
            None => hex_decode_spec(s@) is None,
        },
{
    let len = s.unicode_len();
    if len % 2 != 0 {
        return None;
    }
    let mut out: Vec<u8> = Vec::new();
    let mut i: usize = 0;
    while i < len / 2
        invariant
            0 <= i <= len / 2,
            len % 2 == 0,
            len == s@.len(),
            out@.len() == i,
            forall|j: int| 0 <= j < 2 * i ==> is_hex_digit(#[trigger] s@[j]),
            forall|j: int|
                0 <= j < i ==> #[trigger] out@[j] == (hex_val(s@[2 * j]) * 16 + hex_val(
                    s@[2 * j + 1],
                )) as u8,
        decreases len / 2 - i,
    {
        let c_hi = s.get_char(2 * i);
        let c_lo = s.get_char(2 * i + 1);
        let hi = match hex_digit_of_char(c_hi) {
            Some(d) => d,
            None => {
                return None;
            },
        };
        let lo = match hex_digit_of_char(c_lo) {
            Some(d) => d,
            None => {
                return None;
            },
        };
        out.push(hi * 16 + lo);
        i += 1;
    }
    proof {
        assert(forall|j: int| 0 <= j < s@.len() ==> is_hex_digit(#[trigger] s@[j]));
        assert(hex_decode_spec(s@) matches Some(b) && b =~= out@);
    }
    Some(out)
}

/// The canonical message whose signature authenticates a proof request:
/// `proof_id`, the block number when one is given, and the segment size,
/// joined by `&`.
pub open spec fn sign_message_spec(proof_id: Seq<char>, block_no: Option<u64>, seg_size: u32) -> Seq<char> {
    match block_no {
        Some(bn) => proof_id + seq!['&'] + dec_str(bn as int) + seq!['&'] + dec_str(
            seg_size as int,
        ),
        None => proof_id + seq!['&'] + dec_str(seg_size as int),
    }
}

/// Builds the canonical message to be signed.
pub fn sign_message(proof_id: &str, block_no: Option<u64>, seg_size: u32) -> (r: String)
    ensures
        r@ == sign_message_spec(proof_id@, block_no, seg_size),
{
    let mut s = proof_id.to_owned();
    let amp = "&";
    proof {
        reveal_strlit("&");
    }
    match block_no {
        Some(bn) => {
            s.append(amp);
            append_dec(&mut s, bn);
            s.append(amp);
            append_dec(&mut s, seg_size as u64);
            assert(s@ =~= sign_message_spec(proof_id@, block_no, seg_size));
        },
        None => {
            s.append(amp);
            append_dec(&mut s, seg_size as u64);
            assert(s@ =~= sign_message_spec(proof_id@, block_no, seg_size));
        },
    }
    s
}

/// The address that secp256k1 public-key recovery yields for a 65-byte
/// recoverable signature over the EIP-191 hash of a message, or nothing when
/// recovery fails; a function of the signature bytes and the message alone.
pub uninterp spec fn recover_of(sig: Seq<u8>, msg: Seq<char>) -> Option<Seq<u8>>;

/// Relies on ethers_core::types::Signature: `TryFrom<&[u8]>` reads 65 bytes
/// as r, s and a recovery byte and cannot fail on a 65-byte slice, and
/// `recover` returns the 20-byte address recovered from the EIP-191 hash of
/// the message, an error otherwise; the result depends on the signature
/// bytes and the message alone.
#[verifier::external_body]
fn recover_signer(sig: &Vec<u8>, msg: &str) -> (r: Option<Vec<u8>>)
    requires
        sig@.len() == 65,
    ensures
        match r {
            Some(a) => recover_of(sig@, msg@) == Some(a@) && a@.len() == 20,
            None => recover_of(sig@, msg@) is None,
        },
{
    match ethers_core::types::Signature::try_from(sig.as_slice()) {
        Ok(s) => match s.recover(msg) {
            Ok(addr) => Some(addr.as_bytes().to_vec()),
            Err(_) => None,
        },
        Err(_) => None,
    }
}

/// The address, hex-encoded, that a signature string recovers to over a
/// message: the string must decode as exactly 65 bytes of hexadecimal, and
/// recovery must succeed.
pub open spec fn recovered_address_spec(signature: Seq<char>, msg: Seq<char>) -> Option<Seq<char>> {
    match hex_decode_spec(signature) {
        Some(bytes) => if bytes.len() == 65 {
            match recover_of(bytes, msg) {
                Some(addr) => Some(hex_of(addr)),
                None => None,
            }
        } else {
            None
        },
        None => None,
    }
}

/// Parses a hexadecimal signature string, recovers the signer of `msg`, and
/// returns the signer's address in lower-case hexadecimal.
pub fn recover_address(signature: &str, msg: &str) -> (r: Option<String>)
    ensures
        match r {
            Some(a) => recovered_address_spec(signature@, msg@) == Some(a@),
            None => recovered_address_spec(signature@, msg@) is None,
        },
{
    let bytes = match hex_decode(signature) {
        Some(b) => b,
        None => {
            return None;
        },
    };
    if bytes.len() != 65 {
        return None;
    }
    match recover_signer(&bytes, msg) {
        Some(addr) => Some(hex_encode(&addr)),
        None => None,
    }
}

} // verus!

//! Parsing of the shared signing secret.
//!
//! The secret arrives as the text of a file: hexadecimal, optionally prefixed
//! with `0x`, surrounded by whatever whitespace the file carries.  It must
//! decode to exactly 32 bytes; on any other length or on a decode failure the
//! secret degrades to all zeroes, which only disables the peer-notification
//! path — the local firewall function never depends on it.

use vstd::prelude::*;

verus! {

/// A hexadecimal digit, either case.
pub open spec fn is_hex_digit(c: char) -> bool {
    ('0' <= c && c <= '9') || ('a' <= c && c <= 'f') || ('A' <= c && c <= 'F')
}

/// The value of a hexadecimal digit.
pub open spec fn hex_val(c: char) -> int
    recommends
        is_hex_digit(c),
{
    if '0' <= c && c <= '9' {
        c as u32 - '0' as u32
    } else if 'a' <= c && c <= 'f' {
        10 + (c as u32 - 'a' as u32)
    } else {
        10 + (c as u32 - 'A' as u32)
    }
}

/// Text that hexadecimal decoding accepts: an even number of hex digits.
pub open spec fn valid_hex(s: Seq<char>) -> bool {
    s.len() % 2 == 0 && forall|i: int| 0 <= i < s.len() ==> is_hex_digit(#[trigger] s[i])
}

/// The bytes a run of hex digits stands for, one byte per digit pair.
pub open spec fn hex_bytes(s: Seq<char>) -> Seq<u8>
    recommends
        valid_hex(s),
{
    Seq::new((s.len() / 2) as nat, |i: int| (hex_val(s[2 * i]) * 16 + hex_val(s[2 * i + 1])) as u8)
}

/// Relies on `hex::decode`: it succeeds exactly on an even number of
/// hexadecimal digits (either case) and returns one byte per digit pair,
/// high digit first.
#[verifier::external_body]
fn hex_decode(s: &str) -> (r: Option<Vec<u8>>)
    ensures
        r is Some <==> valid_hex(s@),
        r matches Some(v) ==> v@ == hex_bytes(s@),
{
    match hex::decode(s) {
        Ok(v) => Some(v),
        Err(_) => None,
    }
}

/// ASCII whitespace, the characters trimmed off around the secret.
pub open spec fn is_space(c: char) -> bool {
    c == ' ' || c == '\t' || c == '\n' || c == '\r'
}

/// `s` without its leading whitespace.
pub open spec fn trim_start_spec(s: Seq<char>) -> Seq<char>
    decreases s.len(),
{
    if s.len() > 0 && is_space(s[0]) {
        trim_start_spec(s.skip(1))
    } else {
        s
    }
}

/// `s` without its trailing whitespace.
pub open spec fn trim_end_spec(s: Seq<char>) -> Seq<char>
    decreases s.len(),
{
    if s.len() > 0 && is_space(s.last()) {
        trim_end_spec(s.drop_last())
    } else {
        s
    }
}

/// `s` without surrounding whitespace.
pub open spec fn trimmed(s: Seq<char>) -> Seq<char> {
    trim_end_spec(trim_start_spec(s))
}

/// `s` without its single optional leading `0x`.
pub open spec fn strip_hex_prefix(s: Seq<char>) -> Seq<char> {
    if s.len() >= 2 && s[0] == '0' && s[1] == 'x' {
        s.skip(2)
    } else {
        s
    }
}

/// The hex digits the secret file text is taken to hold.
pub open spec fn cleaned_hex(content: Seq<char>) -> Seq<char> {
    strip_hex_prefix(trimmed(content))
}

/// Thirty-two zero bytes: the degraded secret.
pub open spec fn zero_secret() -> Seq<u8> {
    Seq::new(32, |i: int| 0u8)
}

/// The signing secret the file text yields: its 32 decoded bytes, or all
/// zeroes when the text is not exactly 64 hex digits.
pub open spec fn secret_of(content: Seq<char>) -> Seq<u8> {
    let h = cleaned_hex(content);
    if valid_hex(h) && h.len() == 64 {
        hex_bytes(h)
    } else {
        zero_secret()
    }
}

/// Trims surrounding whitespace off `s`.
fn trim(s: &str) -> (r: &str)
    ensures
        r@ == trimmed(s@),
{
    let n: usize = s.unicode_len();
    proof {
        assert(s@.subrange(0, n as int) =~= s@);
    }
    let mut i: usize = 0;
    while i < n && is_space_exec(s.get_char(i))
        invariant
            i <= n,
            n == s@.len(),
            trim_start_spec(s@) == trim_start_spec(s@.subrange(i as int, n as int)),
        decreases n - i,
    {
        proof {
            let t = s@.subrange(i as int, n as int);
            assert(t[0] == s@[i as int]);
            assert(t.skip(1) =~= s@.subrange(i as int + 1, n as int));
        }
        i = i + 1;
    }
    proof {
        let t = s@.subrange(i as int, n as int);
        if i < n {
            assert(t[0] == s@[i as int]);
        }
        assert(trim_start_spec(s@) == t);
    }
    let mut j: usize = n;
    while j > i && is_space_exec(s.get_char(j - 1))
        invariant
            i <= j <= n,
            n == s@.len(),
            trim_start_spec(s@) == s@.subrange(i as int, n as int),
            trim_end_spec(s@.subrange(i as int, n as int)) == trim_end_spec(
                s@.subrange(i as int, j as int),
            ),
        decreases j,
    {
        proof {
            let t = s@.subrange(i as int, j as int);
            assert(t.last() == s@[j as int - 1]);
            assert(t.drop_last() =~= s@.subrange(i as int, j as int - 1));
        }
        j = j - 1;
    }
    proof {
        let t = s@.subrange(i as int, j as int);
        if j > i {
            assert(t.last() == s@[j as int - 1]);
        }
        assert(trim_end_spec(s@.subrange(i as int, j as int)) == t);
    }
    s.substring_char(i, j)
}

fn is_space_exec(c: char) -> (r: bool)
    ensures
        r == is_space(c),
{
    c == ' ' || c == '\t' || c == '\n' || c == '\r'
}

/// Strips the single optional leading `0x` off `s`.
fn strip_prefix_0x(s: &str) -> (r: &str)
    ensures
        r@ == strip_hex_prefix(s@),
{
    let n: usize = s.unicode_len();
    if n >= 2 && s.get_char(0) == '0' && s.get_char(1) == 'x' {
        let r = s.substring_char(2, n);
        proof {
            assert(r@ =~= s@.skip(2));
        }
        r
    } else {
        s
    }
}

/// Decodes the text of the secret file into the 32-byte signing secret,
/// falling back to all zeroes when the text does not hold exactly 64 hex
/// digits after trimming and `0x`-stripping.
pub fn parse_jwt_secret(content: &str) -> (secret: Vec<u8>)
    ensures
        secret@ == secret_of(content@),
        secret@.len() == 32,
{
    let cleaned = strip_prefix_0x(trim(content));
    match hex_decode(cleaned) {
        Some(bytes) => {
            if bytes.len() == 32 {
                proof {
                    assert(cleaned@.len() == 64);
                }
                bytes
            } else {
                zeroes32()
            }
        },
        None => zeroes32(),
    }
}

fn zeroes32() -> (r: Vec<u8>)
    ensures
        r@ == zero_secret(),
{
    let mut r: Vec<u8> = Vec::new();
    let mut k: usize = 0;
    while k < 32
        invariant
            k <= 32,
            r@ =~= Seq::new(k as nat, |i: int| 0u8),
        decreases 32 - k,
    {
        r.push(0u8);
        k = k + 1;
    }
    proof {
        assert(r@ =~= zero_secret());
    }
    r
}

} // verus!

//! IPv4 socket addresses as plain values.
//!
//! Transports identify endpoints by `a.b.c.d:port` addresses. The library
//! keeps them as five integers so that contracts can speak about them
//! directly; the unverified shell converts to and from the operating
//! system's address type at the socket boundary.
//!
//! Parsing a malformed address is a recoverable configuration error:
//! [`to_socket_addr`] returns `None` instead of aborting.

use vstd::prelude::*;
use vstd::string::StrSliceExecFns;
use vstd::string::StringSliceAdditionalSpecFns;

verus! {

/// An IPv4 socket address: four octets and a port.
#[derive(Clone, Copy, PartialEq, Eq, Structural, Debug)]
pub struct Addr {
    pub a: u8,
    pub b: u8,
    pub c: u8,
    pub d: u8,
    pub port: u16,
}

/// ASCII digit.
pub open spec fn is_digit_byte(x: u8) -> bool {
    0x30 <= x <= 0x39
}

/// First position at or after `off` that does not hold a digit.
pub open spec fn digit_run_end(b: Seq<u8>, off: int) -> int
    recommends
        0 <= off <= b.len(),
    decreases b.len() - off,
{
    if off < b.len() && is_digit_byte(b[off]) {
        digit_run_end(b, off + 1)
    } else {
        off
    }
}

/// Value of the decimal digits `b[off..end]`, most significant first.
pub open spec fn dec_value(b: Seq<u8>, off: int, end: int) -> nat
    recommends
        0 <= off <= end <= b.len(),
    decreases end - off,
{
    if end <= off {
        0
    } else {
        dec_value(b, off, end - 1) * 10 + (b[end - 1] - 0x30) as nat
    }
}

/// Parses one decimal field starting at `off`: at least one digit, no
/// leading zero, at most `max_digits` digits, value at most `max`.
/// Returns the value and the position just past the digits.
pub open spec fn spec_parse_field(b: Seq<u8>, off: int, max: nat, max_digits: int) -> Option<
    (nat, int),
> {
    let end = digit_run_end(b, off);
    if end == off {
        None
    } else if end - off > 1 && b[off] == 0x30 {
        None
    } else if end - off > max_digits {
        None
    } else if dec_value(b, off, end) > max {
        None
    } else {
        Some((dec_value(b, off, end), end))
    }
}

/// The grammar of a textual address over its UTF-8 bytes:
/// `a "." b "." c "." d ":" port`, each octet one to three digits with no
/// leading zero and at most 255, the port one to five digits with no
/// leading zero and at most 65535, and nothing before or after.
pub open spec fn spec_parse_addr(b: Seq<u8>) -> Option<Addr> {
    match spec_parse_field(b, 0, 255, 3) {
        None => None,
        Some((a, o1)) => {
            if !(o1 < b.len() && b[o1] == 0x2e) {
                None
            } else {
                match spec_parse_field(b, o1 + 1, 255, 3) {
                    None => None,
                    Some((bb, o2)) => {
                        if !(o2 < b.len() && b[o2] == 0x2e) {
                            None
                        } else {
                            match spec_parse_field(b, o2 + 1, 255, 3) {
                                None => None,
                                Some((c, o3)) => {
                                    if !(o3 < b.len() && b[o3] == 0x2e) {
                                        None
                                    } else {
                                        match spec_parse_field(b, o3 + 1, 255, 3) {
                                            None => None,
                                            Some((d, o4)) => {
                                                if !(o4 < b.len() && b[o4] == 0x3a) {
                                                    None
                                                } else {
                                                    match spec_parse_field(
                                                        b,
                                                        o4 + 1,
                                                        65535,
                                                        5,
                                                    ) {
                                                        None => None,
                                                        Some((p, o5)) => {
                                                            if o5 == b.len() {
                                                                Some(
                                                                    Addr {
                                                                        a: a as u8,
                                                                        b: bb as u8,
                                                                        c: c as u8,
                                                                        d: d as u8,
                                                                        port: p as u16,
                                                                    },
                                                                )
                                                            } else {
                                                                None
                                                            }
                                                        },
                                                    }
                                                }
                                            },
                                        }
                                    }
                                },
                            }
                        }
                    },
                }
            }
        },
    }
}

/// Parses one decimal field; mirrors [`spec_parse_field`].
fn parse_field(b: &Vec<u8>, off: usize, max: u32, max_digits: usize) -> (r: Option<(u32, usize)>)
    requires
        off <= b@.len(),
        max <= 65535,
        max_digits <= 5,
    ensures
        match r {
            Some((v, end)) => spec_parse_field(b@, off as int, max as nat, max_digits as int)
                == Some((v as nat, end as int)) && off < end <= b@.len(),
            None => spec_parse_field(b@, off as int, max as nat, max_digits as int) is None,
        },
{
    let len = b.len();
    let mut end: usize = off;
    while end < len && b[end] >= 0x30 && b[end] <= 0x39
        invariant
            off <= end <= len,
            len == b@.len(),
            digit_run_end(b@, off as int) == digit_run_end(b@, end as int),
            forall|k: int| off <= k < end ==> is_digit_byte(b@[k]),
        decreases len - end,
    {
        end = end + 1;
    }
    proof {
        assert(digit_run_end(b@, end as int) == end as int);
    }
    if end == off {
        return None;
    }
    if end - off > 1 && b[off] == 0x30 {
        return None;
    }
    if end - off > max_digits {
        return None;
    }
    let mut v: u32 = 0;
    let mut j: usize = off;
    while j < end
        invariant
            off <= j <= end <= len,
            len == b@.len(),
            end - off <= max_digits <= 5,
            forall|k: int| off <= k < end ==> is_digit_byte(b@[k]),
            v == dec_value(b@, off as int, j as int),
            v < 100000,
        decreases end - j,
    {
        proof {
            reveal_with_fuel(pow10, 6);
            lemma_dec_value_bound(b@, off as int, j as int);
        }
        assert(v < 10000);
        v = v * 10 + (b[j] - 0x30) as u32;
        j = j + 1;
        proof {
            reveal_with_fuel(pow10, 6);
            lemma_dec_value_bound(b@, off as int, j as int);
        }
    }
    if v > max {
        return None;
    }
    Some((v, end))
}

/// Ten to the `k`-th power.
pub open spec fn pow10(k: int) -> nat
    decreases k,
{
    if k <= 0 {
        1
    } else {
        10 * pow10(k - 1)
    }
}

/// A run of `j - off` digits names a value below `pow10(j - off)`.
proof fn lemma_dec_value_bound(b: Seq<u8>, off: int, j: int)
    requires
        0 <= off <= j <= b.len(),
        forall|k: int| off <= k < j ==> is_digit_byte(b[k]),
    ensures
        dec_value(b, off, j) < pow10(j - off),
    decreases j - off,
{
    if j > off {
        lemma_dec_value_bound(b, off, j - 1);
    }
}

/// Parses `"a.b.c.d:port"` into an [`Addr`]. Returns `None` on anything
/// that does not match the grammar of [`spec_parse_addr`]; a bad address
/// is a configuration error the caller can act on, not a crash.
pub fn to_socket_addr(s: &str) -> (r: Option<Addr>)
    ensures
        r == spec_parse_addr(s.spec_bytes()),
{
    let b: Vec<u8> = s.as_bytes_vec();
    let len = b.len();
    let f1 = parse_field(&b, 0, 255, 3);
    let (a, o1) = match f1 {
        None => {
            return None;
        },
        Some(x) => x,
    };
    if !(o1 < len && b[o1] == 0x2e) {
        return None;
    }
    let f2 = parse_field(&b, o1 + 1, 255, 3);
    let (bb, o2) = match f2 {
        None => {
            return None;
        },
        Some(x) => x,
    };
    if !(o2 < len && b[o2] == 0x2e) {
        return None;
    }
    let f3 = parse_field(&b, o2 + 1, 255, 3);
    let (c, o3) = match f3 {
        None => {
            return None;
        },
        Some(x) => x,
    };
    if !(o3 < len && b[o3] == 0x2e) {
        return None;
    }
    let f4 = parse_field(&b, o3 + 1, 255, 3);
    let (d, o4) = match f4 {
        None => {
            return None;
        },
        Some(x) => x,
    };
    if !(o4 < len && b[o4] == 0x3a) {
        return None;
    }
    let f5 = parse_field(&b, o4 + 1, 65535, 5);
    let (p, o5) = match f5 {
        None => {
            return None;
        },
        Some(x) => x,
    };
    if o5 != len {
        return None;
    }
    Some(Addr { a: a as u8, b: bb as u8, c: c as u8, d: d as u8, port: p as u16 })
}

} // verus!

//! Rendering numbers as decimal and hexadecimal text.
//!
//! These are the building blocks for hex digests, dotted IPv4 text,
//! IPv6 group text and port numbers in URLs.

use vstd::prelude::*;

verus! {

/// The decimal digit character for a value below ten.
pub open spec fn spec_dec_digit(n: int) -> char {
    if n == 0 {
        '0'
    } else if n == 1 {
        '1'
    } else if n == 2 {
        '2'
    } else if n == 3 {
        '3'
    } else if n == 4 {
        '4'
    } else if n == 5 {
        '5'
    } else if n == 6 {
        '6'
    } else if n == 7 {
        '7'
    } else if n == 8 {
        '8'
    } else {
        '9'
    }
}

/// The lowercase hexadecimal digit character for a value below sixteen.
pub open spec fn spec_hex_digit(n: int) -> char {
    if n < 10 {
        spec_dec_digit(n)
    } else if n == 10 {
        'a'
    } else if n == 11 {
        'b'
    } else if n == 12 {
        'c'
    } else if n == 13 {
        'd'
    } else if n == 14 {
        'e'
    } else {
        'f'
    }
}

/// The decimal text of a nonnegative number, without leading zeros.
pub open spec fn spec_dec(n: int) -> Seq<char>
    recommends
        n >= 0,
    decreases n,
{
    if n < 10 {
        seq![spec_dec_digit(n)]
    } else {
        spec_dec(n / 10).push(spec_dec_digit(n % 10))
    }
}

/// The lowercase hexadecimal text of a nonnegative number, without
/// leading zeros.
pub open spec fn spec_hex(n: int) -> Seq<char>
    recommends
        n >= 0,
    decreases n,
{
    if n < 16 {
        seq![spec_hex_digit(n)]
    } else {
        spec_hex(n / 16).push(spec_hex_digit(n % 16))
    }
}

/// The lowercase hexadecimal text of a byte string: two digits per byte,
/// no separators.
pub open spec fn spec_hex_bytes(b: Seq<u8>) -> Seq<char>
    decreases b.len(),
{
    if b.len() == 0 {
        Seq::empty()
    } else {
        seq![
            spec_hex_digit((b.first() / 16) as int),
            spec_hex_digit((b.first() % 16) as int),
        ] + spec_hex_bytes(b.drop_first())
    }
}

/// Append the decimal digit for `d` to `s`.
pub fn push_dec_digit(s: &mut String, d: u8)
    requires
        d < 10,
    ensures
        final(s)@ == old(s)@.push(spec_dec_digit(d as int)),
{
    match d {
        0 => {
            proof {
                reveal_strlit("0");
            }
            s.append("0");
        },
        1 => {
            proof {
                reveal_strlit("1");
            }
            s.append("1");
        },
        2 => {
            proof {
                reveal_strlit("2");
            }
            s.append("2");
        },
        3 => {
            proof {
                reveal_strlit("3");
            }
            s.append("3");
        },
        4 => {
            proof {
                reveal_strlit("4");
            }
            s.append("4");
        },
        5 => {
            proof {
                reveal_strlit("5");
            }
            s.append("5");
        },
        6 => {
            proof {
                reveal_strlit("6");
            }
            s.append("6");
        },
        7 => {
            proof {
                reveal_strlit("7");
            }
            s.append("7");
        },
        8 => {
            proof {
                reveal_strlit("8");
            }
            s.append("8");
        },
        _ => {
            proof {
                reveal_strlit("9");
            }
            s.append("9");
        },
    }
    proof {
        assert(final(s)@ =~= old(s)@.push(spec_dec_digit(d as int)));
    }
}

/// Append the lowercase hexadecimal digit for `d` to `s`.
pub fn push_hex_digit(s: &mut String, d: u8)
    requires
        d < 16,
    ensures
        final(s)@ == old(s)@.push(spec_hex_digit(d as int)),
{
    if d < 10 {
        push_dec_digit(s, d);
    } else {
        match d {
            10 => {
                proof {
                    reveal_strlit("a");
                }
                s.append("a");
            },
            11 => {
                proof {
                    reveal_strlit("b");
                }
                s.append("b");
            },
            12 => {
                proof {
                    reveal_strlit("c");
                }
                s.append("c");
            },
            13 => {
                proof {
                    reveal_strlit("d");
                }
                s.append("d");
            },
            14 => {
                proof {
                    reveal_strlit("e");
                }
                s.append("e");
            },
            _ => {
                proof {
                    reveal_strlit("f");
                }
                s.append("f");
            },
        }
        proof {
            assert(final(s)@ =~= old(s)@.push(spec_hex_digit(d as int)));
        }
    }
}

/// Append the decimal text of `n` to `s`.
pub fn push_dec_u16(s: &mut String, n: u16)
    ensures
        final(s)@ == old(s)@ + spec_dec(n as int),
    decreases n,
{
    if n < 10 {
        push_dec_digit(s, n as u8);
    } else {
        push_dec_u16(s, n / 10);
        push_dec_digit(s, (n % 10) as u8);
    }
    proof {
        assert(final(s)@ =~= old(s)@ + spec_dec(n as int));
    }
}

/// The decimal text of `n`, without leading zeros.
pub fn dec_u16(n: u16) -> (r: String)
    ensures
        r@ == spec_dec(n as int),
{
    let mut s = String::new();
    push_dec_u16(&mut s, n);
    proof {
        assert(s@ =~= spec_dec(n as int));
    }
    s
}

/// Append the lowercase hexadecimal text of `n` to `s`.
pub fn push_hex_u16(s: &mut String, n: u16)
    ensures
        final(s)@ == old(s)@ + spec_hex(n as int),
    decreases n,
{
    if n < 16 {
        push_hex_digit(s, n as u8);
    } else {
        push_hex_u16(s, n / 16);
        push_hex_digit(s, (n % 16) as u8);
    }
    proof {
        assert(final(s)@ =~= old(s)@ + spec_hex(n as int));
    }
}

/// The lowercase hexadecimal text of a byte string, two digits per byte.
pub fn hex_bytes(b: &Vec<u8>) -> (r: String)
    ensures
        r@ == spec_hex_bytes(b@),
{
    let mut s = String::new();
    let n = b.len();
    proof {
        assert(b@.skip(0) =~= b@);
        assert(s@ + spec_hex_bytes(b@) =~= spec_hex_bytes(b@));
    }
    for i in 0..n
        invariant
            n == b@.len(),
            spec_hex_bytes(b@) == s@ + spec_hex_bytes(b@.skip(i as int)),
    {
        let ghost pre = s@;
        let byte = b[i];
        push_hex_digit(&mut s, byte / 16);
        push_hex_digit(&mut s, byte % 16);
        proof {
            let tail = b@.skip(i as int);
            assert(tail[0] == b@[i as int]);
            assert(tail.drop_first() =~= b@.skip(i + 1));
            assert(s@ =~= pre + seq![
                spec_hex_digit((byte / 16) as int),
                spec_hex_digit((byte % 16) as int),
            ]);
            assert(spec_hex_bytes(b@) =~= s@ + spec_hex_bytes(b@.skip(i + 1)));
        }
    }
    proof {
        assert(b@.skip(n as int) =~= Seq::<u8>::empty());
        assert(spec_hex_bytes(b@) =~= s@);
    }
    s
}

} // verus!

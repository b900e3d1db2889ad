//! Decimal and hexadecimal rendering of machine integers.
//!
//! Correlation selectors embed an asset id in decimal, and content-addressed
//! file names embed a 64-bit digest in lowercase hexadecimal, so both
//! renderings are defined here as spec functions with verified executable
//! counterparts. Decimal rendering is proved injective, which is what makes
//! id-based correlation selectors collision-free.

use vstd::prelude::*;
use vstd::string::*;

verus! {

/// The character for one decimal digit value.
pub open spec fn dec_digit(d: nat) -> char {
    if d == 0 {
        '0'
    } else if d == 1 {
        '1'
    } else if d == 2 {
        '2'
    } else if d == 3 {
        '3'
    } else if d == 4 {
        '4'
    } else if d == 5 {
        '5'
    } else if d == 6 {
        '6'
    } else if d == 7 {
        '7'
    } else if d == 8 {
        '8'
    } else {
        '9'
    }
}

/// The decimal rendering of `n`, most significant digit first, with no
/// leading zeros (`0` renders as `"0"`).
pub open spec fn dec_seq(n: nat) -> Seq<char>
    decreases n,
{
    if n < 10 {
        seq![dec_digit(n)]
    } else {
        dec_seq(n / 10) + seq![dec_digit(n % 10)]
    }
}

/// The character for one hexadecimal digit value, lowercase.
pub open spec fn hex_digit(d: nat) -> char {
    if d < 10 {
        dec_digit(d)
    } else if d == 10 {
        'a'
    } else if d == 11 {
        'b'
    } else if d == 12 {
        'c'
    } else if d == 13 {
        'd'
    } else if d == 14 {
        'e'
    } else {
        'f'
    }
}

/// The lowercase hexadecimal rendering of `n`, most significant digit first,
/// with no leading zeros (`0` renders as `"0"`).
pub open spec fn hex_seq(n: nat) -> Seq<char>
    decreases n,
{
    if n < 16 {
        seq![hex_digit(n)]
    } else {
        hex_seq(n / 16) + seq![hex_digit(n % 16)]
    }
}

fn dec_digit_str(d: u64) -> (r: &'static str)
    requires
        d < 10,
    ensures
        r@ == seq![dec_digit(d as nat)],
{
    match d {
        0 => {
            proof {
                reveal_strlit("0");
                assert("0"@ =~= seq![dec_digit(0)]);
            }
            "0"
        },
        1 => {
            proof {
                reveal_strlit("1");
                assert("1"@ =~= seq![dec_digit(1)]);
            }
            "1"
        },
        2 => {
            proof {
                reveal_strlit("2");
                assert("2"@ =~= seq![dec_digit(2)]);
            }
            "2"
        },
        3 => {
            proof {
                reveal_strlit("3");
                assert("3"@ =~= seq![dec_digit(3)]);
            }
            "3"
        },
        4 => {
            proof {
                reveal_strlit("4");
                assert("4"@ =~= seq![dec_digit(4)]);
            }
            "4"
        },
        5 => {
            proof {
                reveal_strlit("5");
                assert("5"@ =~= seq![dec_digit(5)]);
            }
            "5"
        },
        6 => {
            proof {
                reveal_strlit("6");
                assert("6"@ =~= seq![dec_digit(6)]);
            }
            "6"
        },
        7 => {
            proof {
                reveal_strlit("7");
                assert("7"@ =~= seq![dec_digit(7)]);
            }
            "7"
        },
        8 => {
            proof {
                reveal_strlit("8");
                assert("8"@ =~= seq![dec_digit(8)]);
            }
            "8"
        },
        _ => {
            proof {
                reveal_strlit("9");
                assert("9"@ =~= seq![dec_digit(9)]);
            }
            "9"
        },
    }
}

fn hex_digit_str(d: u64) -> (r: &'static str)
    requires
        d < 16,
    ensures
        r@ == seq![hex_digit(d as nat)],
{
    if d < 10 {
        dec_digit_str(d)
    } else {
        match d {
            10 => {
                proof {
                    reveal_strlit("a");
                    assert("a"@ =~= seq![hex_digit(10)]);
                }
                "a"
            },
            11 => {
                proof {
                    reveal_strlit("b");
                    assert("b"@ =~= seq![hex_digit(11)]);
                }
                "b"
            },
            12 => {
                proof {
                    reveal_strlit("c");
                    assert("c"@ =~= seq![hex_digit(12)]);
                }
                "c"
            },
            13 => {
                proof {
                    reveal_strlit("d");
                    assert("d"@ =~= seq![hex_digit(13)]);
                }
                "d"
            },
            14 => {
                proof {
                    reveal_strlit("e");
                    assert("e"@ =~= seq![hex_digit(14)]);
                }
                "e"
            },
            _ => {
                proof {
                    reveal_strlit("f");
                    assert("f"@ =~= seq![hex_digit(15)]);
                }
                "f"
            },
        }
    }
}

/// Render `n` in decimal, as its usual base-ten writing.
pub fn u64_to_dec(n: u64) -> (r: String)
    ensures
        r@ == dec_seq(n as nat),
    decreases n,
{
    let d: u64 = n % 10;
    let ds = dec_digit_str(d);
    if n < 10 {
        ds.to_owned()
    } else {
        let mut prefix = u64_to_dec(n / 10);
        prefix.append(ds);
        prefix
    }
}

/// Render `n` in lowercase hexadecimal, with no leading zeros.
pub fn u64_to_hex(n: u64) -> (r: String)
    ensures
        r@ == hex_seq(n as nat),
    decreases n,
{
    let d: u64 = n % 16;
    let ds = hex_digit_str(d);
    if n < 16 {
        ds.to_owned()
    } else {
        let mut prefix = u64_to_hex(n / 16);
        prefix.append(ds);
        prefix
    }
}

/// A decimal rendering is never empty, and needs two characters from ten up.
pub proof fn lemma_dec_seq_len(n: nat)
    ensures
        dec_seq(n).len() >= 1,
        n >= 10 ==> dec_seq(n).len() >= 2,
    decreases n,
{
    if n >= 10 {
        lemma_dec_seq_len(n / 10);
    }
}

proof fn lemma_dec_digit_injective(a: nat, b: nat)
    requires
        a < 10,
        b < 10,
        dec_digit(a) == dec_digit(b),
    ensures
        a == b,
{
}

/// Two numbers with the same decimal rendering are the same number.
pub proof fn lemma_dec_seq_injective(a: nat, b: nat)
    requires
        dec_seq(a) == dec_seq(b),
    ensures
        a == b,
    decreases a,
{
    if a < 10 && b < 10 {
        assert(dec_seq(a)[0] == dec_digit(a));
        assert(dec_seq(b)[0] == dec_digit(b));
        lemma_dec_digit_injective(a, b);
    } else if a < 10 {
        lemma_dec_seq_len(b);
        assert(dec_seq(a).len() == 1);
        assert(false);
    } else if b < 10 {
        lemma_dec_seq_len(a);
        assert(dec_seq(b).len() == 1);
        assert(false);
    } else {
        assert(dec_seq(a) == dec_seq(a / 10) + seq![dec_digit(a % 10)]);
        assert(dec_seq(b) == dec_seq(b / 10) + seq![dec_digit(b % 10)]);
        assert(dec_seq(a).last() == dec_digit(a % 10));
        assert(dec_seq(b).last() == dec_digit(b % 10));
        lemma_dec_digit_injective(a % 10, b % 10);
        assert(dec_seq(a).drop_last() =~= dec_seq(a / 10));
        assert(dec_seq(b).drop_last() =~= dec_seq(b / 10));
        lemma_dec_seq_injective(a / 10, b / 10);
        assert(a == 10 * (a / 10) + a % 10) by {
            vstd::arithmetic::div_mod::lemma_fundamental_div_mod(a as int, 10);
        }
        assert(b == 10 * (b / 10) + b % 10) by {
            vstd::arithmetic::div_mod::lemma_fundamental_div_mod(b as int, 10);
        }
    }
}

} // verus!

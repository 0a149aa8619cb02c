//! Humanization of byte counts: binary (1024-based) units with integer
//! truncation per tier, as in `"17 KiB"`.

use vstd::arithmetic::div_mod::{
    lemma_div_is_ordered, lemma_div_multiples_vanish, lemma_multiply_divide_lt,
};
use vstd::prelude::*;
use vstd::string::StringExecFns;

verus! {

/// The character for a single decimal digit.
pub open spec fn digit_char(d: nat) -> char {
    if d == 0 {
        '0'
    } else if d == 1 {
        '1'
    } else if d == 2 {
        '2'
    } else if d == 3 {
        '3'
    } else if d == 4 {
        '4'
    } else if d == 5 {
        '5'
    } else if d == 6 {
        '6'
    } else if d == 7 {
        '7'
    } else if d == 8 {
        '8'
    } else {
        '9'
    }
}

/// The decimal digit characters of `n`, most significant first, with no
/// leading zeros except for `n == 0` itself.
pub open spec fn dec_digits(n: nat) -> Seq<char>
    decreases n,
{
    if n < 10 {
        seq![digit_char(n)]
    } else {
        dec_digits(n / 10) + seq![digit_char(n % 10)]
    }
}

/// What `render_size` returns: the byte count scaled to the largest binary
/// unit that keeps the displayed number under 1024 (bytes, KiB = 1024 bytes,
/// MiB = 1024^2 bytes, GiB = 1024^3 bytes), truncated to an integer, followed
/// by the unit's suffix.
pub open spec fn spec_render_size(b: nat) -> Seq<char> {
    if b < 1024 {
        dec_digits(b) + " b"@
    } else if b / 1024 < 1024 {
        dec_digits(b / 1024) + " KiB"@
    } else if b / (1024 * 1024) < 1024 {
        dec_digits(b / (1024 * 1024)) + " MiB"@
    } else {
        dec_digits(b / (1024 * 1024 * 1024)) + " GiB"@
    }
}

fn digit_str(d: u64) -> (r: &'static str)
    requires
        d < 10,
    ensures
        r@ == seq![digit_char(d as nat)],
{
    match d {
        0 => {
            proof {
                reveal_strlit("0");
                assert("0"@ =~= seq![digit_char(0)]);
            }
            "0"
        },
        1 => {
            proof {
                reveal_strlit("1");
                assert("1"@ =~= seq![digit_char(1)]);
            }
            "1"
        },
        2 => {
            proof {
                reveal_strlit("2");
                assert("2"@ =~= seq![digit_char(2)]);
            }
            "2"
        },
        3 => {
            proof {
                reveal_strlit("3");
                assert("3"@ =~= seq![digit_char(3)]);
            }
            "3"
        },
        4 => {
            proof {
                reveal_strlit("4");
                assert("4"@ =~= seq![digit_char(4)]);
            }
            "4"
        },
        5 => {
            proof {
                reveal_strlit("5");
                assert("5"@ =~= seq![digit_char(5)]);
            }
            "5"
        },
        6 => {
            proof {
                reveal_strlit("6");
                assert("6"@ =~= seq![digit_char(6)]);
            }
            "6"
        },
        7 => {
            proof {
                reveal_strlit("7");
                assert("7"@ =~= seq![digit_char(7)]);
            }
            "7"
        },
        8 => {
            proof {
                reveal_strlit("8");
                assert("8"@ =~= seq![digit_char(8)]);
            }
            "8"
        },
        _ => {
            proof {
                reveal_strlit("9");
                assert("9"@ =~= seq![digit_char(9)]);
            }
            "9"
        },
    }
}

/// Appends the decimal digits of `n` to `out`.
fn push_decimal(n: u64, out: &mut String)
    ensures
        final(out)@ == old(out)@ + dec_digits(n as nat),
    decreases n,
{
    let ghost before = out@;
    if n >= 10 {
        push_decimal(n / 10, out);
    }
    let d = digit_str(n % 10);
    out.append(d);
    proof {
        assert(out@ =~= before + dec_digits(n as nat));
    }
}

/// Renders a byte count for display: `"{n} b"` under 1024 bytes, then
/// `"{n} KiB"` under 1024 KiB, `"{n} MiB"` under 1024 MiB, and `"{n} GiB"`
/// beyond, each tier dividing the original byte count by the next power of
/// 1024 with integer truncation.
pub fn render_size(bytes: u64) -> (s: String)
    ensures
        s@ == spec_render_size(bytes as nat),
{
    let mut s = String::new();
    if bytes < 1024 {
        push_decimal(bytes, &mut s);
        s.append(" b");
    } else if bytes / 1024 < 1024 {
        push_decimal(bytes / 1024, &mut s);
        s.append(" KiB");
    } else if bytes / (1024 * 1024) < 1024 {
        push_decimal(bytes / (1024 * 1024), &mut s);
        s.append(" MiB");
    } else {
        push_decimal(bytes / (1024 * 1024 * 1024), &mut s);
        s.append(" GiB");
    }
    proof {
        assert(s@ =~= spec_render_size(bytes as nat));
    }
    s
}

/// `suffix` is the tail of `s`.
pub open spec fn seq_ends_with(s: Seq<char>, suffix: Seq<char>) -> bool {
    &&& suffix.len() <= s.len()
    &&& s.subrange(s.len() - suffix.len(), s.len() as int) == suffix
}

proof fn lemma_concat_ends_with(a: Seq<char>, b: Seq<char>)
    ensures
        seq_ends_with(a + b, b),
{
    assert((a + b).subrange(a.len() as int, (a + b).len() as int) =~= b);
}

/// Every byte count under 1024 is rendered with the `" b"` suffix.
pub proof fn lemma_render_size_ends_b(b: u64)
    requires
        b < 1024,
    ensures
        seq_ends_with(spec_render_size(b as nat), " b"@),
{
    lemma_concat_ends_with(dec_digits(b as nat), " b"@);
}

/// Every byte count from 1024 up to (not including) 1024^2 is rendered with
/// the `" KiB"` suffix.
pub proof fn lemma_render_size_ends_kib(b: u64)
    requires
        1024 <= b < 1024 * 1024,
    ensures
        seq_ends_with(spec_render_size(b as nat), " KiB"@),
{
    lemma_multiply_divide_lt(b as int, 1024, 1024);
    lemma_concat_ends_with(dec_digits(b as nat / 1024), " KiB"@);
}

/// Every byte count from 1024^2 up to (not including) 1024^3 is rendered
/// with the `" MiB"` suffix.
pub proof fn lemma_render_size_ends_mib(b: u64)
    requires
        1024 * 1024 <= b < 1024 * 1024 * 1024,
    ensures
        seq_ends_with(spec_render_size(b as nat), " MiB"@),
{
    lemma_div_multiples_vanish(1024, 1024);
    lemma_div_is_ordered(1024int * 1024, b as int, 1024);
    lemma_multiply_divide_lt(b as int, 1024int * 1024, 1024);
    lemma_concat_ends_with(dec_digits(b as nat / (1024 * 1024)), " MiB"@);
}

/// Every byte count from 1024^3 on is rendered with the `" GiB"` suffix.
pub proof fn lemma_render_size_ends_gib(b: u64)
    requires
        1024 * 1024 * 1024 <= b,
    ensures
        seq_ends_with(spec_render_size(b as nat), " GiB"@),
{
    lemma_div_multiples_vanish(1024, 1024);
    lemma_div_is_ordered(1024int * 1024, b as int, 1024);
    lemma_div_multiples_vanish(1024, 1024int * 1024);
    lemma_div_is_ordered(1024int * 1024 * 1024, b as int, 1024int * 1024);
    lemma_concat_ends_with(dec_digits(b as nat / (1024 * 1024 * 1024)), " GiB"@);
}

} // verus!

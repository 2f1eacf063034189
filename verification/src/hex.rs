//! Fixed-width lowercase hexadecimal rendering of trace and span
//! identifiers, the printable form the injected field values carry.

use vstd::prelude::*;
use vstd::string::StringExecFns;

verus! {

/// The lowercase hexadecimal digit character for a value below sixteen.
pub open spec fn hex_digit(d: int) -> char {
    if d == 0 {
        '0'
    } else if d == 1 {
        '1'
    } else if d == 2 {
        '2'
    } else if d == 3 {
        '3'
    } else if d == 4 {
        '4'
    } else if d == 5 {
        '5'
    } else if d == 6 {
        '6'
    } else if d == 7 {
        '7'
    } else if d == 8 {
        '8'
    } else if d == 9 {
        '9'
    } else if d == 10 {
        'a'
    } else if d == 11 {
        'b'
    } else if d == 12 {
        'c'
    } else if d == 13 {
        'd'
    } else if d == 14 {
        'e'
    } else {
        'f'
    }
}

/// The `n` lowercase hexadecimal digits of `x` (reduced modulo `16^n`),
/// most significant digit first.
pub open spec fn hex_seq(x: int, n: nat) -> Seq<char>
    decreases n,
{
    if n == 0 {
        Seq::empty()
    } else {
        hex_seq(x / 16, (n - 1) as nat).push(hex_digit(x % 16))
    }
}

pub proof fn lemma_hex_seq_len(x: int, n: nat)
    ensures
        hex_seq(x, n).len() == n,
    decreases n,
{
    if n > 0 {
        lemma_hex_seq_len(x / 16, (n - 1) as nat);
    }
}

fn hex_digit_str(d: u8) -> (r: &'static str)
    requires
        d < 16,
    ensures
        r@ == seq![hex_digit(d as int)],
{
    if d == 0 {
        proof { reveal_strlit("0"); assert("0"@ =~= seq![hex_digit(d as int)]); }
        "0"
    } else if d == 1 {
        proof { reveal_strlit("1"); assert("1"@ =~= seq![hex_digit(d as int)]); }
        "1"
    } else if d == 2 {
        proof { reveal_strlit("2"); assert("2"@ =~= seq![hex_digit(d as int)]); }
        "2"
    } else if d == 3 {
        proof { reveal_strlit("3"); assert("3"@ =~= seq![hex_digit(d as int)]); }
        "3"
    } else if d == 4 {
        proof { reveal_strlit("4"); assert("4"@ =~= seq![hex_digit(d as int)]); }
        "4"
    } else if d == 5 {
        proof { reveal_strlit("5"); assert("5"@ =~= seq![hex_digit(d as int)]); }
        "5"
    } else if d == 6 {
        proof { reveal_strlit("6"); assert("6"@ =~= seq![hex_digit(d as int)]); }
        "6"
    } else if d == 7 {
        proof { reveal_strlit("7"); assert("7"@ =~= seq![hex_digit(d as int)]); }
        "7"
    } else if d == 8 {
        proof { reveal_strlit("8"); assert("8"@ =~= seq![hex_digit(d as int)]); }
        "8"
    } else if d == 9 {
        proof { reveal_strlit("9"); assert("9"@ =~= seq![hex_digit(d as int)]); }
        "9"
    } else if d == 10 {
        proof { reveal_strlit("a"); assert("a"@ =~= seq![hex_digit(d as int)]); }
        "a"
    } else if d == 11 {
        proof { reveal_strlit("b"); assert("b"@ =~= seq![hex_digit(d as int)]); }
        "b"
    } else if d == 12 {
        proof { reveal_strlit("c"); assert("c"@ =~= seq![hex_digit(d as int)]); }
        "c"
    } else if d == 13 {
        proof { reveal_strlit("d"); assert("d"@ =~= seq![hex_digit(d as int)]); }
        "d"
    } else if d == 14 {
        proof { reveal_strlit("e"); assert("e"@ =~= seq![hex_digit(d as int)]); }
        "e"
    } else {
        proof { reveal_strlit("f"); assert("f"@ =~= seq![hex_digit(d as int)]); }
        "f"
    }
}

fn fixed_width_hex(x: u128, n: usize) -> (s: String)
    ensures
        s@ == hex_seq(x as int, n as nat),
    decreases n,
{
    if n == 0 {
        let s = String::new();
        proof { assert(s@ =~= hex_seq(x as int, 0)); }
        s
    } else {
        let mut s = fixed_width_hex(x / 16, n - 1);
        let d: u8 = (x % 16) as u8;
        s.append(hex_digit_str(d));
        proof { assert(s@ =~= hex_seq(x as int, n as nat)); }
        s
    }
}

/// The 32-digit lowercase hexadecimal rendering of a trace identifier.
pub fn trace_id_hex(x: u128) -> (s: String)
    ensures
        s@ == hex_seq(x as int, 32),
        s@.len() == 32,
{
    proof { lemma_hex_seq_len(x as int, 32); }
    fixed_width_hex(x, 32)
}

/// The 16-digit lowercase hexadecimal rendering of a span identifier.
pub fn span_id_hex(x: u64) -> (s: String)
    ensures
        s@ == hex_seq(x as int, 16),
        s@.len() == 16,
{
    proof { lemma_hex_seq_len(x as int, 16); }
    fixed_width_hex(x as u128, 16)
}

} // verus!

//! Diagnostic text: the hexadecimal rendering of a fetched instruction word
//! and the status message each fault leaves in the simulator log.

use vstd::prelude::*;

use crate::fault::Fault;

verus! {

/// The hexadecimal digit for `n` (n < 16), upper case.
pub open spec fn spec_hex_digit(n: u8) -> char {
    if n == 0 {
        '0'
    } else if n == 1 {
        '1'
    } else if n == 2 {
        '2'
    } else if n == 3 {
        '3'
    } else if n == 4 {
        '4'
    } else if n == 5 {
        '5'
    } else if n == 6 {
        '6'
    } else if n == 7 {
        '7'
    } else if n == 8 {
        '8'
    } else if n == 9 {
        '9'
    } else if n == 10 {
        'A'
    } else if n == 11 {
        'B'
    } else if n == 12 {
        'C'
    } else if n == 13 {
        'D'
    } else if n == 14 {
        'E'
    } else {
        'F'
    }
}

/// The `i`-th hexadecimal digit of `x`, counting from the most significant.
pub open spec fn spec_nibble(x: u32, i: int) -> u8 {
    ((x >> ((28 - 4 * i) as u32)) & 0xf) as u8
}

/// The eight-digit upper-case hexadecimal rendering of `x`.
pub open spec fn spec_hex32(x: u32) -> Seq<char> {
    Seq::new(8, |i: int| spec_hex_digit(spec_nibble(x, i)))
}

/// The low four bits of a word always name a hexadecimal digit.
proof fn lemma_low4_range(v: u32)
    by (bit_vector)
    ensures
        v & 0xf < 16,
{
}

/// The one-character string for hexadecimal digit `n`.
fn hex_digit_str(n: u8) -> (s: &'static str)
    requires
        n < 16,
    ensures
        s@ == seq![spec_hex_digit(n)],
{
    if n == 0 {
        proof {
            reveal_strlit("0");
        }
        "0"
    } else if n == 1 {
        proof {
            reveal_strlit("1");
        }
        "1"
    } else if n == 2 {
        proof {
            reveal_strlit("2");
        }
        "2"
    } else if n == 3 {
        proof {
            reveal_strlit("3");
        }
        "3"
    } else if n == 4 {
        proof {
            reveal_strlit("4");
        }
        "4"
    } else if n == 5 {
        proof {
            reveal_strlit("5");
        }
        "5"
    } else if n == 6 {
        proof {
            reveal_strlit("6");
        }
        "6"
    } else if n == 7 {
        proof {
            reveal_strlit("7");
        }
        "7"
    } else if n == 8 {
        proof {
            reveal_strlit("8");
        }
        "8"
    } else if n == 9 {
        proof {
            reveal_strlit("9");
        }
        "9"
    } else if n == 10 {
        proof {
            reveal_strlit("A");
        }
        "A"
    } else if n == 11 {
        proof {
            reveal_strlit("B");
        }
        "B"
    } else if n == 12 {
        proof {
            reveal_strlit("C");
        }
        "C"
    } else if n == 13 {
        proof {
            reveal_strlit("D");
        }
        "D"
    } else if n == 14 {
        proof {
            reveal_strlit("E");
        }
        "E"
    } else {
        proof {
            reveal_strlit("F");
        }
        "F"
    }
}

/// Renders `x` as eight upper-case hexadecimal digits.
pub fn hex_u32(x: u32) -> (s: String)
    ensures
        s@ == spec_hex32(x),
{
    let mut s: String = String::new();
    let mut k: usize = 0;
    while k < 8
        invariant
            k <= 8,
            s@ =~= spec_hex32(x).take(k as int),
        decreases 8 - k,
    {
        let shift: u32 = 28 - 4 * (k as u32);
        let nib: u8 = ((x >> shift) & 0xf) as u8;
        proof {
            lemma_low4_range(x >> shift);
            assert(nib == spec_nibble(x, k as int));
        }
        s.append(hex_digit_str(nib));
        proof {
            assert(s@ =~= spec_hex32(x).take(k as int + 1));
        }
        k = k + 1;
    }
    proof {
        assert(spec_hex32(x).take(8) =~= spec_hex32(x));
    }
    s
}

/// The log message each fault leaves behind.
pub open spec fn spec_fault_message(f: Fault) -> Seq<char> {
    match f {
        Fault::IllegalInstruction => "illegal instruction"@,
        Fault::UnsupportedOperation => "unsupported operation"@,
        Fault::ShiftAmountTooLarge => "shift amount exceeds 63"@,
        Fault::FetchAccessFault => "instruction fetch access fault"@,
        Fault::LoadAccessFault => "load access fault"@,
        Fault::StoreAccessFault => "store access fault"@,
        Fault::CsrAccessFault => "illegal CSR access"@,
    }
}

/// Renders the log message for a fault.
pub fn fault_message(f: &Fault) -> (s: String)
    ensures
        s@ == spec_fault_message(*f),
{
    match f {
        Fault::IllegalInstruction => "illegal instruction".to_owned(),
        Fault::UnsupportedOperation => "unsupported operation".to_owned(),
        Fault::ShiftAmountTooLarge => "shift amount exceeds 63".to_owned(),
        Fault::FetchAccessFault => "instruction fetch access fault".to_owned(),
        Fault::LoadAccessFault => "load access fault".to_owned(),
        Fault::StoreAccessFault => "store access fault".to_owned(),
        Fault::CsrAccessFault => "illegal CSR access".to_owned(),
    }
}

} // verus!

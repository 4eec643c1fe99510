//! Destination-address validation.
//!
//! A recipient is accepted exactly when it is a syntactically valid
//! destination-chain address: 42 characters, the prefix `0x`, then 40
//! hexadecimal digits. The check is purely lexical — no checksum and no
//! existence check against the destination chain — and it runs before any
//! funds move, since recovery after a lock to a malformed recipient would
//! need manual intervention outside the system.

use vstd::prelude::*;
use vstd::string::StrSliceExecFns;

verus! {

/// Whether `c` is a hexadecimal digit, in either case.
pub open spec fn spec_is_hex_digit(c: char) -> bool {
    ('0' as u32 <= c as u32 && c as u32 <= '9' as u32)
        || ('a' as u32 <= c as u32 && c as u32 <= 'f' as u32)
        || ('A' as u32 <= c as u32 && c as u32 <= 'F' as u32)
}

/// The destination-chain address grammar: exactly 42 characters, prefix
/// `0x`, and each of the remaining 40 characters a hexadecimal digit.
pub open spec fn spec_is_valid_eth_address(s: Seq<char>) -> bool {
    &&& s.len() == 42
    &&& s[0] == '0'
    &&& s[1] == 'x'
    &&& forall|i: int| 2 <= i < 42 ==> spec_is_hex_digit(#[trigger] s[i])
}

/// Whether `c` is a hexadecimal digit, in either case.
pub fn is_hex_digit(c: char) -> (r: bool)
    ensures
        r == spec_is_hex_digit(c),
{
    let u = c as u32;
    ('0' as u32 <= u && u <= '9' as u32)
        || ('a' as u32 <= u && u <= 'f' as u32)
        || ('A' as u32 <= u && u <= 'F' as u32)
}

/// Checks `s` against the destination-chain address grammar. Purely lexical,
/// total, and side-effect free.
pub fn is_valid_eth_address(s: &str) -> (r: bool)
    ensures
        r == spec_is_valid_eth_address(s@),
{
    let len: usize = s.unicode_len();
    if len != 42 {
        return false;
    }
    if s.get_char(0) != '0' || s.get_char(1) != 'x' {
        return false;
    }
    let mut i: usize = 2;
    while i < 42
        invariant
            2 <= i <= 42,
            s@.len() == 42,
            s@[0] == '0',
            s@[1] == 'x',
            forall|j: int| 2 <= j < i ==> spec_is_hex_digit(#[trigger] s@[j]),
        decreases 42 - i,
    {
        if !is_hex_digit(s.get_char(i)) {
            return false;
        }
        i = i + 1;
    }
    true
}

} // verus!

//! The CPU status register, one byte of packed flags: bit 7 negative (N),
//! bit 6 overflow (V), bit 5 unused, bit 4 break (B), bit 3 decimal (D),
//! bit 2 interrupt disable (I), bit 1 zero (Z), bit 0 carry (C).

use vstd::prelude::*;

verus! {

/// Negative flag: bit 7 of the status byte.
pub open spec fn stat_n(s: u8) -> bool {
    s & 0x80 == 0x80
}

/// Overflow flag: bit 6 of the status byte.
pub open spec fn stat_v(s: u8) -> bool {
    s & 0x40 == 0x40
}

/// Zero flag: bit 1 of the status byte.
pub open spec fn stat_z(s: u8) -> bool {
    s & 0x02 == 0x02
}

/// Carry flag: bit 0 of the status byte.
pub open spec fn stat_c(s: u8) -> bool {
    s & 0x01 == 0x01
}

/// The status byte with N and Z replaced and every other bit kept.
pub open spec fn set_nz(s: u8, n: bool, z: bool) -> u8 {
    (s & 0x7d) | (if n { 0x80 } else { 0 }) | (if z { 0x02 } else { 0 })
}

/// The status byte with N, V, Z and C replaced and every other bit kept.
pub open spec fn set_nvzc(s: u8, n: bool, v: bool, z: bool, c: bool) -> u8 {
    (s & 0x3c) | (if n { 0x80 } else { 0 }) | (if v { 0x40 } else { 0 })
        | (if z { 0x02 } else { 0 }) | (if c { 0x01 } else { 0 })
}

/// The status byte with N, Z and C replaced and every other bit kept.
pub open spec fn set_nzc(s: u8, n: bool, z: bool, c: bool) -> u8 {
    (s & 0x7c) | (if n { 0x80 } else { 0 }) | (if z { 0x02 } else { 0 })
        | (if c { 0x01 } else { 0 })
}

/// Store N and Z into a status byte.
pub fn set_flags_nz(s: u8, n: bool, z: bool) -> (r: u8)
    ensures
        r == set_nz(s, n, z),
{
    (s & 0x7d) | (if n { 0x80 } else { 0 }) | (if z { 0x02 } else { 0 })
}

/// Store N, V, Z and C into a status byte.
pub fn set_flags_nvzc(s: u8, n: bool, v: bool, z: bool, c: bool) -> (r: u8)
    ensures
        r == set_nvzc(s, n, v, z, c),
{
    (s & 0x3c) | (if n { 0x80 } else { 0 }) | (if v { 0x40 } else { 0 }) | (if z {
        0x02
    } else {
        0
    }) | (if c { 0x01 } else { 0 })
}

/// Store N, Z and C into a status byte.
pub fn set_flags_nzc(s: u8, n: bool, z: bool, c: bool) -> (r: u8)
    ensures
        r == set_nzc(s, n, z, c),
{
    (s & 0x7c) | (if n { 0x80 } else { 0 }) | (if z { 0x02 } else { 0 }) | (if c {
        0x01
    } else {
        0
    })
}

/// Reading the four arithmetic flags back from `set_nvzc` gives the booleans
/// that were stored, and bits 2 to 5 are untouched.
pub proof fn lemma_set_nvzc(s: u8, n: bool, v: bool, z: bool, c: bool)
    by (bit_vector)
    ensures
        stat_n(set_nvzc(s, n, v, z, c)) == n,
        stat_v(set_nvzc(s, n, v, z, c)) == v,
        stat_z(set_nvzc(s, n, v, z, c)) == z,
        stat_c(set_nvzc(s, n, v, z, c)) == c,
        set_nvzc(s, n, v, z, c) & 0x3c == s & 0x3c,
{
}

} // verus!

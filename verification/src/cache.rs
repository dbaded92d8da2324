use crate::strings::{spec_u64_string, u64_to_string};
use vstd::prelude::*;

verus! {

/// The total of a list of file sizes.
pub open spec fn spec_sum(s: Seq<u64>) -> int
    decreases s.len(),
{
    if s.len() == 0 {
        0
    } else {
        spec_sum(s.drop_last()) + s.last()
    }
}

/// The total clamped to what a size can hold.
pub open spec fn spec_sat_sum(s: Seq<u64>) -> int {
    if spec_sum(s) <= u64::MAX {
        spec_sum(s)
    } else {
        u64::MAX as int
    }
}

/// Adds up file sizes, stopping at the largest representable total.
pub fn sum_sizes(sizes: &Vec<u64>) -> (r: u64)
    ensures
        r == spec_sat_sum(sizes@),
{
    let n = sizes.len();
    let mut total: u64 = 0;
    let mut i: usize = 0;
    while i < n
        invariant
            i <= n,
            n == sizes@.len(),
            total == spec_sat_sum(sizes@.take(i as int)),
        decreases n - i,
    {
        let x = sizes[i];
        proof {
            assert(sizes@.take(i as int + 1).drop_last() =~= sizes@.take(i as int));
            assert(sizes@.take(i as int + 1).last() == sizes@[i as int]);
        }
        if x > u64::MAX - total {
            total = u64::MAX;
        } else {
            total = total + x;
        }
        i += 1;
    }
    proof {
        assert(sizes@.take(n as int) =~= sizes@);
    }
    total
}

/// A size scaled by a unit, in tenths, halves rounded up.
pub open spec fn spec_tenths(b: nat, unit: nat) -> nat {
    (10 * b + unit / 2) / unit
}

/// The "whole.tenth" rendering of a size scaled by a unit.
pub open spec fn spec_scaled(b: nat, unit: nat) -> Seq<char> {
    let t = spec_tenths(b, unit);
    spec_u64_string(t / 10) + "."@ + spec_u64_string(t % 10)
}

/// The human-readable rendering of a byte count: one decimal place under the
/// largest binary unit the count reaches, or plain bytes below a kibibyte.
pub open spec fn spec_format_bytes(b: nat) -> Seq<char> {
    if b >= 1073741824 {
        spec_scaled(b, 1073741824) + " GB"@
    } else if b >= 1048576 {
        spec_scaled(b, 1048576) + " MB"@
    } else if b >= 1024 {
        spec_scaled(b, 1024) + " KB"@
    } else {
        spec_u64_string(b) + " B"@
    }
}

fn scaled(bytes: u64, unit: u64) -> (r: String)
    requires
        unit == 1024 || unit == 1048576 || unit == 1073741824,
    ensures
        r@ == spec_scaled(bytes as nat, unit as nat),
{
    let x: u128 = 10u128 * (bytes as u128) + ((unit / 2) as u128);
    let t128: u128 = x / (unit as u128);
    proof {
        vstd::arithmetic::div_mod::lemma_fundamental_div_mod(x as int, unit as int);
        assert(t128 <= u64::MAX as u128);
    }
    let t: u64 = t128 as u64;
    let mut s = u64_to_string(t / 10);
    s.append(".");
    let frac = u64_to_string(t % 10);
    s.append(frac.as_str());
    proof {
        assert(s@ =~= spec_scaled(bytes as nat, unit as nat));
    }
    s
}

/// Renders a byte count for people, in binary units with one decimal place.
pub fn format_bytes(bytes: u64) -> (r: String)
    ensures
        r@ == spec_format_bytes(bytes as nat),
{
    if bytes >= 1073741824 {
        let mut s = scaled(bytes, 1073741824);
        s.append(" GB");
        s
    } else if bytes >= 1048576 {
        let mut s = scaled(bytes, 1048576);
        s.append(" MB");
        s
    } else if bytes >= 1024 {
        let mut s = scaled(bytes, 1024);
        s.append(" KB");
        s
    } else {
        let mut s = u64_to_string(bytes);
        s.append(" B");
        s
    }
}

/// Renders the cache's size from the sizes of the files under the temp
/// directory — the only files the accounting reads.
pub fn cache_size_text(sizes: &Vec<u64>) -> (r: String)
    ensures
        r@ == spec_format_bytes(spec_sat_sum(sizes@) as nat),
{
    let total = sum_sizes(sizes);
    format_bytes(total)
}

/// Renders the report for a finished cache clearing.
pub fn clear_cache_message(sizes: &Vec<u64>) -> (r: String)
    ensures
        r@ == "Cleared "@ + spec_format_bytes(spec_sat_sum(sizes@) as nat),
{
    let total = sum_sizes(sizes);
    let mut s = "Cleared ".to_owned();
    let amount = format_bytes(total);
    s.append(amount.as_str());
    s
}

} // verus!

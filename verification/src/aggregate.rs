//! The compute half of the aggregation feed: summing the per-source counter
//! values a fetch returned. Sources that had no value stored count as zero;
//! the sum is taken in 128 bits, where it cannot overflow.

use vstd::prelude::*;

verus! {

/// The sum of the counter values that are present, absent ones counting as
/// zero.
pub open spec fn sum_present(parts: Seq<Option<u64>>) -> int
    decreases parts.len(),
{
    if parts.len() == 0 {
        0
    } else {
        sum_present(parts.drop_last()) + match parts.last() {
            Some(v) => v as int,
            None => 0,
        }
    }
}

/// Sums the per-source counter values of an aggregation fetch.
pub fn aggregate_sum(parts: &Vec<Option<u64>>) -> (r: u128)
    ensures
        r as int == sum_present(parts@),
{
    let ghost full = parts@;
    let mut sum: u128 = 0;
    let mut i: usize = 0;
    while i < parts.len()
        invariant
            i <= full.len(),
            full == parts@,
            sum as int == sum_present(full.take(i as int)),
            sum as int <= (i as int) * 0xffff_ffff_ffff_ffff,
        decreases full.len() - i,
    {
        let ghost prev = full.take(i as int);
        let v: u64 = match parts[i] {
            Some(v) => v,
            None => 0,
        };
        proof {
            assert(full.take(i + 1).drop_last() =~= prev);
            assert(full.take(i + 1).last() == full[i as int]);
            assert((sum as int) + (v as int) <= ((i + 1) as int) * 0xffff_ffff_ffff_ffff)
                by (nonlinear_arith)
                requires
                    sum as int <= (i as int) * 0xffff_ffff_ffff_ffff,
                    v as int <= 0xffff_ffff_ffff_ffff,
                    0 <= i,
            ;
            assert(((i + 1) as int) * 0xffff_ffff_ffff_ffff < 0x1_0000_0000_0000_0000_0000_0000_0000_0000)
                by (nonlinear_arith)
                requires
                    0 <= i,
                    i < full.len(),
                    full.len() <= usize::MAX,
                    usize::MAX <= 0xffff_ffff_ffff_ffff,
            ;
        }
        sum = sum + (v as u128);
        i = i + 1;
    }
    proof {
        assert(full.take(full.len() as int) =~= full);
    }
    sum
}

} // verus!

//! Small helpers around jobs: status marks, ranges of values, random inputs
//! and kernel binaries as words.

use rand::Rng;
use vstd::prelude::*;

verus! {

/// A check mark for `true`, a cross for `false`.
pub fn tick(val: bool) -> (r: String)
    ensures
        r@ == (if val {
            "\u{2705}"@
        } else {
            "\u{274c}"@
        }),
{
    if val {
        String::from_str("\u{2705}")
    } else {
        String::from_str("\u{274c}")
    }
}

/// The smallest and the largest value, or `None` for no values.
pub fn min_max(data: &[i64]) -> (r: Option<(i64, i64)>)
    ensures
        r is None <==> data@.len() == 0,
        r matches Some((lo, hi)) ==> {
            &&& exists|i: int| 0 <= i < data@.len() && data@[i] == lo
            &&& exists|i: int| 0 <= i < data@.len() && data@[i] == hi
            &&& forall|i: int| 0 <= i < data@.len() ==> lo <= #[trigger] data@[i] <= hi
        },
{
    if data.len() == 0 {
        return None;
    }
    let mut lo = data[0];
    let mut hi = data[0];
    let mut lo_at: usize = 0;
    let mut hi_at: usize = 0;
    let mut i: usize = 1;
    while i < data.len()
        invariant
            1 <= i <= data@.len(),
            lo_at < i && data@[lo_at as int] == lo,
            hi_at < i && data@[hi_at as int] == hi,
            forall|k: int| 0 <= k < i ==> lo <= #[trigger] data@[k] <= hi,
        decreases data@.len() - i,
    {
        if data[i] < lo {
            lo = data[i];
            lo_at = i;
        }
        if data[i] > hi {
            hi = data[i];
            hi_at = i;
        }
        i = i + 1;
    }
    assert(data@[lo_at as int] == lo);
    assert(data@[hi_at as int] == hi);
    Some((lo, hi))
}

/// Relies on rand's `thread_rng` and `Rng::gen_range`: a value drawn from
/// `low..high`, which holds `low` and not `high`. `gen_range` panics on an
/// empty range.
#[verifier::external_body]
fn random_in(low: i32, high: i32) -> (r: i32)
    requires
        low < high,
    ensures
        low <= r < high,
{
    rand::thread_rng().gen_range(low..high)
}

/// `len` values drawn from `low..high`.
pub fn rand_vec(len: usize, low: i32, high: i32) -> (r: Vec<i32>)
    requires
        low < high,
    ensures
        r@.len() == len,
        forall|i: int| 0 <= i < len ==> low <= #[trigger] r@[i] < high,
{
    let mut output: Vec<i32> = Vec::new();
    let mut i: usize = 0;
    while i < len
        invariant
            low < high,
            i <= len,
            output@.len() == i,
            forall|k: int| 0 <= k < i ==> low <= #[trigger] output@[k] < high,
        decreases len - i,
    {
        output.push(random_in(low, high));
        i = i + 1;
    }
    output
}

/// The word read from the four bytes at `start`, least significant first.
pub open spec fn le_word(bytes: Seq<u8>, start: int) -> int {
    bytes[start] + bytes[start + 1] * 256 + bytes[start + 2] * 65536 + bytes[start + 3]
        * 16777216
}

/// A kernel binary as the 32-bit words it is made of, each read least
/// significant byte first. Bytes past the last whole word are dropped.
pub fn to_vec32(vecin: Vec<u8>) -> (r: Vec<u32>)
    ensures
        r@.len() == vecin@.len() / 4,
        forall|i: int| 0 <= i < r@.len() ==> #[trigger] r@[i] == le_word(vecin@, 4 * i),
{
    let mut out: Vec<u32> = Vec::new();
    let mut b: usize = 0;
    while b < vecin.len() && vecin.len() - b >= 4
        invariant
            b % 4 == 0,
            b <= vecin@.len(),
            out@.len() == b / 4,
            forall|k: int| 0 <= k < b / 4 ==> #[trigger] out@[k] == le_word(vecin@, 4 * k),
        decreases vecin@.len() - b,
    {
        let w: u32 = vecin[b] as u32 + (vecin[b + 1] as u32) * 256 + (vecin[b + 2] as u32) * 65536
            + (vecin[b + 3] as u32) * 16777216;
        out.push(w);
        b = b + 4;
    }
    out
}

} // verus!

//! Block and page ranges as people write them on a command line.
use core::ops::RangeInclusive;
use vstd::prelude::*;
use vstd::string::*;

use crate::text::{decimal_seq, decimal_text, find_either, parse_u64_in, scan_to, u64_of};

verus! {

/// Why a text is not a range.
#[derive(Debug, Clone, Copy, PartialEq, Eq, Structural)]
pub enum RangeError {
    /// The text before the first `-` (or the whole text) is not a number.
    BadStart,
    /// Nothing follows the `-`.
    MissingEnd,
    /// The text after the first `-` is not a number.
    BadEnd,
}

/// The bounds that the text `s` gives: `n` for `n..=n`, or `a-b` for `a..=b`. The text
/// is cut at its first `-`; each side is an unsigned decimal number.
pub open spec fn range_of(s: Seq<char>) -> Result<(u64, u64), RangeError> {
    let p = scan_to(s, 0, '-', '-');
    match u64_of(s.subrange(0, p)) {
        None => Err(RangeError::BadStart),
        Some(a) => if p == s.len() {
            Ok((a, a))
        } else if p + 1 == s.len() {
            Err(RangeError::MissingEnd)
        } else {
            match u64_of(s.subrange(p + 1, s.len() as int)) {
                None => Err(RangeError::BadEnd),
                Some(b) => Ok((a, b)),
            }
        },
    }
}

/// Parses a range: `10` is `10..=10`, `10-15` is `10..=15`.
pub fn parse_as_range(range: &str) -> (r: Result<RangeInclusive<u64>, RangeError>)
    ensures
        match range_of(range@) {
            Ok((a, b)) => r matches Ok(x) && x@.start == a && x@.end == b && !x@.exhausted,
            Err(e) => r == Err::<RangeInclusive<u64>, RangeError>(e),
        },
{
    let n = range.unicode_len();
    let p = find_either(range, 0, '-', '-');
    let first = match parse_u64_in(range, 0, p) {
        Some(v) => v,
        None => {
            return Err(RangeError::BadStart);
        },
    };
    if p == n {
        return Ok(first..=first);
    }
    if p + 1 == n {
        return Err(RangeError::MissingEnd);
    }
    match parse_u64_in(range, p + 1, n) {
        Some(second) => Ok(first..=second),
        None => Err(RangeError::BadEnd),
    }
}

/// The text of the run `start..=end`: `7` when it holds one number, else `3-7`.
pub open spec fn run_text(start: u64, end: u64) -> Seq<char> {
    if start == end {
        decimal_seq(start as nat)
    } else {
        decimal_seq(start as nat) + "-"@ + decimal_seq(end as nat)
    }
}

/// The text of `nums[i..]` when the run `start..=end` just before it is still open: a
/// number one above the end of the run extends it, any other closes it and opens the next.
pub open spec fn runs_text_from(nums: Seq<u64>, i: int, start: u64, end: u64) -> Seq<char>
    decreases nums.len() - i,
{
    if i >= nums.len() {
        run_text(start, end)
    } else if nums[i] == end + 1 {
        runs_text_from(nums, i + 1, start, nums[i])
    } else {
        run_text(start, end) + ", "@ + runs_text_from(nums, i + 1, nums[i], nums[i])
    }
}

/// The runs of consecutive numbers in `nums`, in order, separated by `, `.
pub open spec fn ranges_text(nums: Seq<u64>) -> Seq<char> {
    if nums.len() == 0 {
        Seq::empty()
    } else {
        runs_text_from(nums, 1, nums[0], nums[0])
    }
}

fn push_run(out: &mut String, start: u64, end: u64)
    ensures
        final(out)@ == old(out)@ + run_text(start, end),
{
    let a = decimal_text(start);
    out.append(a.as_str());
    if start != end {
        out.append("-");
        let b = decimal_text(end);
        out.append(b.as_str());
    }
    assert(final(out)@ =~= old(out)@ + run_text(start, end));
}

/// Writes `nums` as runs of consecutive numbers: `[1, 2, 3, 4, 9]` gives `1-4, 9`.
pub fn fmt_ranges(nums: &[u64]) -> (r: String)
    ensures
        r@ == ranges_text(nums@),
{
    let n = nums.len();
    if n == 0 {
        return String::new();
    }
    let mut out = String::new();
    let mut start = nums[0];
    let mut end = nums[0];
    let mut i: usize = 1;
    while i < n
        invariant
            n == nums@.len(),
            1 <= i <= n,
            out@ + runs_text_from(nums@, i as int, start, end) == ranges_text(nums@),
        decreases n - i,
    {
        let num = nums[i];
        if end < u64::MAX && num == end + 1 {
            end = num;
        } else {
            let ghost before = out@;
            push_run(&mut out, start, end);
            out.append(", ");
            assert(out@ + runs_text_from(nums@, i + 1, num, num) =~= before + runs_text_from(
                nums@,
                i as int,
                start,
                end,
            ));
            start = num;
            end = num;
        }
        i = i + 1;
    }
    let ghost before = out@;
    push_run(&mut out, start, end);
    assert(out@ =~= before + runs_text_from(nums@, i as int, start, end));
    out
}

} // verus!

//! Device-mapper tables that pass a device through linearly except for bad block ranges.
use core::ops::Range;
use vstd::prelude::*;
use vstd::string::*;

use crate::text::{decimal_seq, decimal_text};

verus! {

/// One row of a device-mapper table: `(start, length, kind, target)`.
///
/// `start` and `length` count blocks of the mapped device. `kind` is `linear` or `error`.
/// For `linear` the target is `<device> <offset>`: the blocks map to the backing device
/// from that block on. For `error` the target is empty and every access fails.
///
/// # Example
/// Map 10 blocks at offset 5 in the mapped device to 10 blocks in /dev/test at
/// offset 3: `(5, 10, "linear", "/dev/test 3")`.
pub type Segment = (u64, u64, String, String);

/// Why a list of bad ranges was refused.
#[derive(Debug, Clone, Copy, PartialEq, Eq, Structural)]
pub enum TableError {
    /// The list is empty: pass `None` to ask for a plain linear table.
    NoBadRanges,
    /// A range whose start is not below its end.
    EmptyRange,
    /// A range that reaches past the last block of the device.
    OutOfBounds,
}

/// Block `b` lies in the range `r`.
pub open spec fn in_range(r: Range<u64>, b: int) -> bool {
    r.start <= b < r.end
}

/// Block `b` lies in one of the ranges of `bad`.
pub open spec fn is_bad(bad: Seq<Range<u64>>, b: int) -> bool {
    exists|i: int| 0 <= i < bad.len() && #[trigger] in_range(bad[i], b)
}

/// Some range of `bad` does not start below its end.
pub open spec fn has_empty_range(bad: Seq<Range<u64>>) -> bool {
    exists|i: int| 0 <= i < bad.len() && (#[trigger] bad[i]).start >= bad[i].end
}

/// Some range of `bad` ends after block `total`.
pub open spec fn has_range_past(bad: Seq<Range<u64>>, total: u64) -> bool {
    exists|i: int| 0 <= i < bad.len() && (#[trigger] bad[i]).end > total
}

/// `bad` is a list of ranges that a table over `total` blocks can be made from.
pub open spec fn valid_bad_ranges(bad: Seq<Range<u64>>, total: u64) -> bool {
    bad.len() > 0 && !has_empty_range(bad) && !has_range_past(bad, total)
}

/// The block just after segment `s`.
pub open spec fn seg_end(s: Segment) -> int {
    s.0 + s.1
}

/// Block `b` lies in segment `s`.
pub open spec fn seg_holds(s: Segment, b: int) -> bool {
    s.0 <= b < seg_end(s)
}

/// Segment `s` passes its blocks through to the backing device.
pub open spec fn is_linear(s: Segment) -> bool {
    s.2@ == "linear"@
}

/// Segment `s` fails every access to its blocks.
pub open spec fn is_error(s: Segment) -> bool {
    s.2@ == "error"@
}

/// The target of a linear segment that starts at block `offset` of `device`.
pub open spec fn linear_target(device: Seq<char>, offset: nat) -> Seq<char> {
    device + " "@ + decimal_seq(offset)
}

/// The number of blocks that the linear segments among the first `n` rows of `t` map.
pub open spec fn linear_blocks_before(t: Seq<Segment>, n: int) -> nat
    decreases n,
{
    if n <= 0 {
        0
    } else {
        linear_blocks_before(t, n - 1) + if is_linear(t[n - 1]) {
            t[n - 1].1 as nat
        } else {
            0
        }
    }
}

/// The number of blocks that the first `n` rows of `t` cover.
pub open spec fn blocks_before(t: Seq<Segment>, n: int) -> nat
    decreases n,
{
    if n <= 0 {
        0
    } else {
        blocks_before(t, n - 1) + t[n - 1].1 as nat
    }
}

/// The rows of `t` are non-empty, in ascending order, each starting where the one
/// before it ends, from block 0 to block `total`.
pub open spec fn tiles(t: Seq<Segment>, total: int) -> bool {
    &&& t.len() > 0
    &&& t[0].0 == 0
    &&& seg_end(t.last()) == total
    &&& forall|i: int| 0 <= i < t.len() ==> (#[trigger] t[i]).1 > 0
    &&& forall|i: int| 0 <= i < t.len() - 1 ==> (#[trigger] t[i + 1]).0 == seg_end(t[i])
}

/// Each row of `t` is an `error` row over bad blocks only, or a `linear` row over good
/// blocks only; two rows in a row never have the same kind.
pub open spec fn follows_bad_blocks(t: Seq<Segment>, bad: Seq<Range<u64>>) -> bool {
    &&& forall|i: int| 0 <= i < t.len() ==> is_linear(#[trigger] t[i]) || is_error(t[i])
    &&& forall|i: int, b: int|
        0 <= i < t.len() && #[trigger] seg_holds(t[i], b) ==> (is_bad(bad, b) <==> is_error(t[i]))
    &&& forall|i: int| 0 <= i < t.len() - 1 ==> is_error(#[trigger] t[i]) != is_error(t[i + 1])
}

/// Each linear row of `t` maps to `device` from the first block that no linear row
/// before it used; each error row has an empty target.
pub open spec fn targets(t: Seq<Segment>, device: Seq<char>) -> bool {
    forall|i: int|
        0 <= i < t.len() ==> if is_linear(#[trigger] t[i]) {
            t[i].3@ == linear_target(device, linear_blocks_before(t, i))
        } else {
            t[i].3@ == Seq::<char>::empty()
        }
}

/// `t` is the table over `total` blocks of `device` whose error rows are exactly the
/// maximal runs of blocks in `bad`.
pub open spec fn is_fault_table(
    t: Seq<Segment>,
    device: Seq<char>,
    total: u64,
    bad: Seq<Range<u64>>,
) -> bool {
    &&& tiles(t, total as int)
    &&& follows_bad_blocks(t, bad)
    &&& targets(t, device)
    &&& blocks_before(t, t.len() as int) == total
}

/// The table of one linear row over all `total` blocks of `device`.
pub open spec fn is_linear_table(t: Seq<Segment>, device: Seq<char>, total: u64) -> bool {
    &&& t.len() == 1
    &&& t[0].0 == 0
    &&& t[0].1 == total
    &&& is_linear(t[0])
    &&& t[0].3@ == linear_target(device, 0)
}

/// The rows of a table that tiles a device are sorted by start and do not overlap:
/// each row ends before any later row starts, and a block lies in one row at most.
pub proof fn lemma_tiles_sorted_disjoint(t: Seq<Segment>, total: int)
    requires
        tiles(t, total),
    ensures
        forall|i: int, j: int| #![trigger t[i], t[j]] 0 <= i < j < t.len() ==> seg_end(t[i]) <= t[j].0,
        forall|i: int, j: int| #![trigger t[i], t[j]] 0 <= i < j < t.len() ==> t[i].0 < t[j].0,
        forall|i: int, j: int, b: int|
            #![trigger seg_holds(t[i], b), seg_holds(t[j], b)]
            0 <= i < t.len() && 0 <= j < t.len() && seg_holds(t[i], b) && seg_holds(t[j], b)
                ==> i == j,
{
    assert forall|i: int, j: int| #![trigger t[i], t[j]] 0 <= i < j < t.len() implies seg_end(t[i]) <= t[j].0 by {
        lemma_rows_ascend(t, total, i, j);
    }
    assert forall|i: int, j: int, b: int|
        #![trigger seg_holds(t[i], b), seg_holds(t[j], b)]
        0 <= i < t.len() && 0 <= j < t.len() && seg_holds(t[i], b) && seg_holds(t[j], b)
            implies i == j by {
        if i < j {
            lemma_rows_ascend(t, total, i, j);
        } else if j < i {
            lemma_rows_ascend(t, total, j, i);
        }
    }
}

proof fn lemma_rows_ascend(t: Seq<Segment>, total: int, i: int, j: int)
    requires
        tiles(t, total),
        0 <= i < j < t.len(),
    ensures
        seg_end(t[i]) <= t[j].0,
    decreases j - i,
{
    let k = j - 1;
    assert(t[k + 1].0 == seg_end(t[k]));
    if k > i {
        lemma_rows_ascend(t, total, i, k);
        assert(t[k].1 > 0);
    }
}

proof fn lemma_kinds_differ()
    ensures
        "linear"@ != "error"@,
{
    reveal_strlit("linear");
    reveal_strlit("error");
    assert("linear"@.len() == 6);
    assert("error"@.len() == 5);
}

proof fn lemma_prefix_sums(t: Seq<Segment>, u: Seq<Segment>, n: int)
    requires
        0 <= n <= t.len(),
        n <= u.len(),
        forall|i: int| 0 <= i < n ==> t[i] == u[i],
    ensures
        linear_blocks_before(t, n) == linear_blocks_before(u, n),
        blocks_before(t, n) == blocks_before(u, n),
    decreases n,
{
    if n > 0 {
        lemma_prefix_sums(t, u, n - 1);
    }
}

fn kind_text(linear: bool) -> (r: String)
    ensures
        linear ==> r@ == "linear"@,
        !linear ==> r@ == "error"@,
{
    if linear {
        String::from_str("linear")
    } else {
        String::from_str("error")
    }
}

fn linear_target_text(device: &str, offset: u64) -> (r: String)
    ensures
        r@ == linear_target(device@, offset as nat),
{
    let mut s = String::from_str(device);
    s.append(" ");
    let n = decimal_text(offset);
    s.append(n.as_str());
    s
}

/// The index of a range of `bad` that holds block `b`, if any.
fn range_holding(bad: &[Range<u64>], b: u64) -> (r: Option<usize>)
    ensures
        match r {
            Some(i) => i < bad@.len() && in_range(bad@[i as int], b as int),
            None => !is_bad(bad@, b as int),
        },
{
    let mut i: usize = 0;
    while i < bad.len()
        invariant
            i <= bad@.len(),
            forall|j: int| 0 <= j < i ==> !in_range(#[trigger] bad@[j], b as int),
        decreases bad@.len() - i,
    {
        if bad[i].start <= b && b < bad[i].end {
            return Some(i);
        }
        i = i + 1;
    }
    None
}

/// The first block after the run of bad blocks that starts at `from`.
fn bad_run_end(bad: &[Range<u64>], total: u64, from: u64) -> (e: u64)
    requires
        valid_bad_ranges(bad@, total),
        is_bad(bad@, from as int),
    ensures
        from < e <= total,
        forall|b: int| from <= b < e ==> is_bad(bad@, b),
        !is_bad(bad@, e as int),
{
    let ghost s = bad@;
    let mut e = from;
    let mut first = true;
    loop
        invariant
            s == bad@,
            valid_bad_ranges(s, total),
            from <= e <= total,
            first ==> e == from,
            !first ==> from < e,
            forall|b: int| from <= b < e ==> is_bad(s, b),
            first ==> is_bad(s, from as int),
        decreases (total - e) as int + if first { 1int } else { 0int },
    {
        match range_holding(bad, e) {
            Some(i) => {
                let r_end = bad[i].end;
                assert(!(s[i as int].end > total));
                assert forall|b: int| from <= b < r_end implies is_bad(s, b) by {
                    if b >= e {
                        assert(in_range(s[i as int], b));
                    }
                }
                e = r_end;
                first = false;
            },
            None => {
                return e;
            },
        }
    }
}

/// The first bad block after the good block `from`, or `total` if there is none.
fn next_bad_block(bad: &[Range<u64>], total: u64, from: u64) -> (nb: u64)
    requires
        valid_bad_ranges(bad@, total),
        from < total,
        !is_bad(bad@, from as int),
    ensures
        from < nb <= total,
        forall|b: int| from <= b < nb ==> !is_bad(bad@, b),
        nb < total ==> is_bad(bad@, nb as int),
{
    let ghost s = bad@;
    let mut nb = total;
    let mut i: usize = 0;
    while i < bad.len()
        invariant
            s == bad@,
            valid_bad_ranges(s, total),
            i <= s.len(),
            from < nb <= total,
            forall|j: int| 0 <= j < i && s[j].start > from ==> nb <= (#[trigger] s[j]).start,
            nb < total ==> is_bad(s, nb as int),
        decreases s.len() - i,
    {
        let st = bad[i].start;
        if st > from && st < nb {
            assert(!(s[i as int].start >= s[i as int].end));
            assert(in_range(s[i as int], st as int));
            nb = st;
        }
        i = i + 1;
    }
    assert forall|b: int| from <= b < nb implies !is_bad(s, b) by {
        if is_bad(s, b) {
            let j = choose|j: int| 0 <= j < s.len() && #[trigger] in_range(s[j], b);
            if s[j].start > from {
            } else {
                assert(in_range(s[j], from as int));
            }
        }
    }
    nb
}

/// Checks a list of bad ranges against a device of `total` blocks.
fn check_bad_ranges(bad: &[Range<u64>], total: u64) -> (r: Result<(), TableError>)
    ensures
        r == Ok::<(), TableError>(()) <==> valid_bad_ranges(bad@, total),
        r == Err::<(), TableError>(TableError::NoBadRanges) <==> bad@.len() == 0,
        r == Err::<(), TableError>(TableError::EmptyRange) <==> bad@.len() > 0 && has_empty_range(
            bad@,
        ),
        r == Err::<(), TableError>(TableError::OutOfBounds) <==> bad@.len() > 0
            && !has_empty_range(bad@) && has_range_past(bad@, total),
{
    if bad.len() == 0 {
        return Err(TableError::NoBadRanges);
    }
    let mut i: usize = 0;
    while i < bad.len()
        invariant
            i <= bad@.len(),
            forall|j: int| 0 <= j < i ==> (#[trigger] bad@[j]).start < bad@[j].end,
        decreases bad@.len() - i,
    {
        if bad[i].start >= bad[i].end {
            assert(bad@[i as int].start >= bad@[i as int].end);
            return Err(TableError::EmptyRange);
        }
        i = i + 1;
    }
    let mut i: usize = 0;
    while i < bad.len()
        invariant
            i <= bad@.len(),
            !has_empty_range(bad@),
            forall|j: int| 0 <= j < i ==> (#[trigger] bad@[j]).end <= total,
        decreases bad@.len() - i,
    {
        if bad[i].end > total {
            assert(bad@[i as int].end > total);
            return Err(TableError::OutOfBounds);
        }
        i = i + 1;
    }
    Ok(())
}

/// Builds a table that passes all `total_blocks` blocks through to `device` linearly,
/// except for the blocks of the `bad` ranges, which fail every access.
///
/// With no bad ranges the table is one linear row. Otherwise the ranges may overlap,
/// touch and come in any order: each maximal run of bad blocks becomes one `error` row,
/// each maximal run of good blocks one `linear` row, and the linear rows use the
/// backing device from block 0 on, one after the other, so that error rows take up no
/// space on it. An empty list, a range that does not start below its end, and a range
/// that ends after `total_blocks` are refused, in that order.
pub fn dm_table_for_bad_range(
    device: &str,
    total_blocks: u64,
    bad: Option<&[Range<u64>]>,
) -> (r: Result<Vec<Segment>, TableError>)
    ensures
        bad is None ==> (r matches Ok(t) && is_linear_table(t@, device@, total_blocks)),
        bad matches Some(b) ==> match r {
            Ok(t) => valid_bad_ranges(b@, total_blocks) && is_fault_table(
                t@,
                device@,
                total_blocks,
                b@,
            ),
            Err(e) => !valid_bad_ranges(b@, total_blocks) && (e == TableError::NoBadRanges
                <==> b@.len() == 0) && (e == TableError::EmptyRange <==> b@.len() > 0
                && has_empty_range(b@)) && (e == TableError::OutOfBounds <==> b@.len() > 0
                && !has_empty_range(b@) && has_range_past(b@, total_blocks)),
        },
{
    let bad = match bad {
        None => {
            let mut t: Vec<Segment> = Vec::new();
            t.push((0, total_blocks, kind_text(true), linear_target_text(device, 0)));
            return Ok(t);
        },
        Some(bad) => bad,
    };
    match check_bad_ranges(bad, total_blocks) {
        Ok(()) => {},
        Err(e) => {
            return Err(e);
        },
    }
    let ghost s = bad@;
    let total = total_blocks;
    // A valid range ends after its start, so the device has at least one block.
    assert(s[0].start < s[0].end && s[0].end <= total);
    let mut t: Vec<Segment> = Vec::new();
    let mut pos: u64 = 0;
    let mut lin: u64 = 0;
    while pos < total
        invariant
            s == bad@,
            valid_bad_ranges(s, total),
            pos <= total,
            lin <= pos,
            t@.len() == 0 ==> pos == 0,
            t@.len() > 0 ==> t@[0].0 == 0 && seg_end(t@.last()) == pos,
            forall|i: int| 0 <= i < t@.len() ==> (#[trigger] t@[i]).1 > 0,
            forall|i: int|
                0 <= i < t@.len() - 1 ==> (#[trigger] t@[i + 1]).0 == seg_end(t@[i]),
            forall|i: int| 0 <= i < t@.len() ==> is_linear(#[trigger] t@[i]) || is_error(t@[i]),
            forall|i: int, b: int|
                0 <= i < t@.len() && #[trigger] seg_holds(t@[i], b) ==> (is_bad(s, b)
                    <==> is_error(t@[i])),
            forall|i: int|
                0 <= i < t@.len() - 1 ==> is_error(#[trigger] t@[i]) != is_error(t@[i + 1]),
            t@.len() > 0 && pos < total ==> (is_error(t@.last()) <==> !is_bad(s, pos as int)),
            targets(t@, device@),
            lin == linear_blocks_before(t@, t@.len() as int),
            pos == blocks_before(t@, t@.len() as int),
        decreases total - pos,
    {
        proof {
            lemma_kinds_differ();
        }
        let ghost old_t = t@;
        let ghost old_pos = pos;
        let ghost old_lin = lin;
        let n = t.len();
        match range_holding(bad, pos) {
            Some(_) => {
                let e = bad_run_end(bad, total, pos);
                t.push((pos, e - pos, kind_text(false), String::new()));
                pos = e;
            },
            None => {
                let nb = next_bad_block(bad, total, pos);
                let target = linear_target_text(device, lin);
                t.push((pos, nb - pos, kind_text(true), target));
                lin = lin + (nb - pos);
                pos = nb;
            },
        }
        proof {
            let row = t@[n as int];
            assert(t@ == old_t.push(row));
            assert(row.0 == old_pos && seg_end(row) == pos);
            assert(is_error(row) <==> is_bad(s, old_pos as int));
            lemma_prefix_sums(old_t, t@, n as int);
            assert forall|i: int| 0 <= i < t@.len() implies if is_linear(#[trigger] t@[i]) {
                t@[i].3@ == linear_target(device@, linear_blocks_before(t@, i))
            } else {
                t@[i].3@ == Seq::<char>::empty()
            } by {
                if i < n {
                    lemma_prefix_sums(old_t, t@, i);
                    assert(t@[i] == old_t[i]);
                }
            }
            assert forall|i: int, b: int|
                0 <= i < t@.len() && #[trigger] seg_holds(t@[i], b) implies (is_bad(s, b)
                <==> is_error(t@[i])) by {
                if i < n {
                    assert(t@[i] == old_t[i]);
                }
            }
            assert forall|i: int|
                0 <= i < t@.len() - 1 implies is_error(#[trigger] t@[i]) != is_error(
                t@[i + 1],
            ) by {
                assert(t@[i] == old_t[i]);
                if i + 1 < n {
                    assert(t@[i + 1] == old_t[i + 1]);
                }
            }
        }
    }
    Ok(t)
}

} // verus!

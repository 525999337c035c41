//! The offset resolver: cumulative end-of-encoding byte positions for an
//! instruction list, and translation of relative branch offsets into
//! instruction indices.
use vstd::prelude::*;
use crate::model::Instruction;
use crate::model::total_size;
use crate::model::lemma_total_size_monotone;
use crate::model::lemma_wf_sizes;
use crate::model::wf_list;

verus! {

/// Byte offset, relative to the start of the list, at which the encoding
/// of instruction `i` ends.
pub open spec fn end_off(list: Seq<Instruction>, i: int) -> int {
    total_size(list, i + 1)
}

/// Index of the first instruction of `list`, at position `j` or later,
/// whose encoding ends exactly at byte offset `target`.
pub open spec fn find_end_from(list: Seq<Instruction>, target: int, j: int) -> Option<int>
    decreases list.len() - j,
{
    if j < 0 || j >= list.len() {
        None
    } else if end_off(list, j) == target {
        Some(j)
    } else {
        find_end_from(list, target, j + 1)
    }
}

/// Display index a branch at position `i` with relative offset `off`
/// resolves to: the branch's own end offset is the anchor, and the value
/// shown is one past the index of the instruction ending at the landing
/// offset, so that a branch to the very next instruction at index `i + 1`
/// reads as `i + 1`. `None` when the landing offset is not an instruction
/// boundary of the list.
pub open spec fn branch_dest(list: Seq<Instruction>, i: int, off: int) -> Option<int> {
    match find_end_from(list, end_off(list, i) + off, 0) {
        Some(j) => Some(j + 1),
        None => None,
    }
}

/// With every encoded size at least one byte, end offsets grow strictly
/// with the instruction index.
pub proof fn lemma_end_off_strict(list: Seq<Instruction>, i: int, j: int)
    requires
        forall|k: int| 0 <= k < list.len() ==> #[trigger] list[k].size >= 1,
        0 <= i < j < list.len(),
    ensures
        end_off(list, i) < end_off(list, j),
    decreases j - i,
{
    if i + 1 < j {
        lemma_end_off_strict(list, i, j - 1);
    }
}

/// A branch whose offset lands exactly at the end offset of instruction
/// `i` resolves to destination index `i + 1`, never to `i` itself: the
/// landing point is the boundary after instruction `i`, so the
/// destination shown is the instruction that starts there.
pub proof fn lemma_branch_lands_after(list: Seq<Instruction>, b: int, i: int, off: int)
    requires
        wf_list(list),
        0 <= b < list.len(),
        0 <= i < list.len(),
        end_off(list, b) + off == end_off(list, i),
    ensures
        branch_dest(list, b, off) == Some(i + 1),
{
    lemma_wf_sizes(list);
    let target = end_off(list, b) + off;
    lemma_find_end_hits(list, target, 0, i);
}

/// `find_end_from` started at or before `i` finds exactly `i` when
/// instruction `i` ends at `target` and end offsets are strictly
/// increasing.
proof fn lemma_find_end_hits(list: Seq<Instruction>, target: int, j: int, i: int)
    requires
        forall|k: int| 0 <= k < list.len() ==> #[trigger] list[k].size >= 1,
        0 <= j <= i < list.len(),
        end_off(list, i) == target,
    ensures
        find_end_from(list, target, j) == Some(i),
    decreases i - j,
{
    if j < i {
        lemma_end_off_strict(list, j, i);
        lemma_find_end_hits(list, target, j + 1, i);
    }
}

/// Cumulative end offsets of every instruction of `list`, in order.
pub fn compute_ends(list: &Vec<Instruction>) -> (r: Vec<usize>)
    requires
        total_size(list@, list@.len() as int) <= usize::MAX,
    ensures
        r@.len() == list@.len(),
        forall|j: int| 0 <= j < list@.len() ==> r@[j] == end_off(list@, j),
{
    let mut r: Vec<usize> = Vec::new();
    let mut pos: usize = 0;
    let mut i: usize = 0;
    while i < list.len()
        invariant
            i <= list@.len(),
            r@.len() == i,
            pos == total_size(list@, i as int),
            total_size(list@, list@.len() as int) <= usize::MAX,
            forall|j: int| 0 <= j < i ==> r@[j] == end_off(list@, j),
        decreases list@.len() - i,
    {
        proof {
            lemma_total_size_monotone(list@, i + 1, list@.len() as int);
        }
        pos = pos + list[i].size;
        r.push(pos);
        i += 1;
    }
    r
}

/// Resolves the branch at index `i` with relative offset `off` against
/// the precomputed end offsets of its list, returning the display index
/// of the destination, or `None` when the landing offset is not an
/// instruction boundary.
pub fn resolve_branch(ends: &Vec<usize>, Ghost(list): Ghost<Seq<Instruction>>, i: usize, off: i32) -> (r:
    Option<usize>)
    requires
        ends@.len() == list.len(),
        forall|j: int| 0 <= j < list.len() ==> ends@[j] == end_off(list, j),
        i < list.len(),
    ensures
        r is Some <==> branch_dest(list, i as int, off as int) is Some,
        r is Some ==> r->0 == branch_dest(list, i as int, off as int)->0,
{
    let target: i128 = ends[i] as i128 + off as i128;
    let ghost spec_target: int = end_off(list, i as int) + off;
    let mut j: usize = 0;
    while j < ends.len()
        invariant
            j <= list.len(),
            ends@.len() == list.len(),
            forall|k: int| 0 <= k < list.len() ==> ends@[k] == end_off(list, k),
            i < list.len(),
            target == end_off(list, i as int) + off,
            find_end_from(list, spec_target, 0) == find_end_from(list, spec_target, j as int),
            spec_target == target,
        decreases list.len() - j,
    {
        if ends[j] as i128 == target {
            return Some(j + 1);
        }
        j += 1;
    }
    None
}

} // verus!

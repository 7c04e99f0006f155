//! Counts that the renderers hand to the GPU, and the cap on debug lines.
use vstd::prelude::*;

verus! {

/// Most debug lines the line buffer holds.
pub const MAX_LINES: u16 = 65535;

/// Number of fireflies simulated and drawn.
pub const PARTICLE_COUNT: u32 = 512;

/// Number of invocations in one compute work group.
pub const WORK_GROUP_SIZE: u32 = 64;

/// Adds a debug line to the lines gathered so far, unless the buffer is
/// already full, in which case the line is dropped.
pub fn push_debug_line<T>(lines: &mut Vec<T>, line: T)
    ensures
        old(lines).len() < MAX_LINES ==> final(lines)@ == old(lines)@.push(line),
        old(lines).len() >= MAX_LINES ==> final(lines)@ == old(lines)@,
{
    if lines.len() < MAX_LINES as usize {
        lines.push(line);
    }
}

/// Number of vertices drawn for `line_count` debug lines: each line is a
/// quad of two triangles.
pub fn line_vertex_count(line_count: usize) -> (count: u32)
    requires
        line_count * 6 <= u32::MAX,
    ensures
        count == line_count * 6,
{
    line_count as u32 * 6
}

/// Number of vertices drawn for the fireflies: a quad of two triangles each.
pub fn particle_vertex_count() -> (count: u32)
    ensures
        count == PARTICLE_COUNT * 6,
{
    PARTICLE_COUNT * 6
}

/// Number of work groups dispatched so that every one of `invocations`
/// items gets an invocation: the count divided by the group size, rounded
/// up.
pub fn dispatch_group_count(invocations: u32) -> (groups: u32)
    requires
        invocations + WORK_GROUP_SIZE - 1 <= u32::MAX,
    ensures
        groups == (invocations + WORK_GROUP_SIZE - 1) / (WORK_GROUP_SIZE as int),
{
    (invocations + (WORK_GROUP_SIZE - 1)) / WORK_GROUP_SIZE
}

/// The debug line buffer never grows past its cap: pushing onto a buffer
/// within the cap leaves it within the cap.
pub proof fn lemma_lines_stay_capped<T>(before: Seq<T>, after: Seq<T>, line: T)
    requires
        before.len() <= MAX_LINES,
        before.len() < MAX_LINES ==> after == before.push(line),
        before.len() >= MAX_LINES ==> after == before,
    ensures
        after.len() <= MAX_LINES,
        after.len() >= before.len(),
{
}

/// The dispatched work groups cover every item, and no group is wholly idle:
/// `groups * 64` is at least the item count and less than 64 more.
pub proof fn lemma_groups_cover(invocations: nat, groups: nat)
    requires
        groups == (invocations + WORK_GROUP_SIZE - 1) / (WORK_GROUP_SIZE as int),
    ensures
        groups * WORK_GROUP_SIZE >= invocations,
        groups * WORK_GROUP_SIZE < invocations + WORK_GROUP_SIZE,
{
    assert(groups * 64 >= invocations && groups * 64 < invocations + 64) by (nonlinear_arith)
        requires
            groups == (invocations + 63) / 64,
    ;
}

} // verus!

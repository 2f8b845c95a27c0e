use vstd::prelude::*;

verus! {

/// Number of invocations in one workgroup, shared by every kernel of the pipeline.
pub const WORKGROUP_SIZE: u64 = 256;

/// The least number of groups of `size` items that covers `elements` items.
pub open spec fn ceil_div(elements: int, size: int) -> int {
    (elements + size - 1) / size
}

/// Number of workgroups to dispatch so that every one of `elements` items gets one invocation.
pub fn workgroup_count(elements: u64) -> (r: u64)
    ensures
        r as int == ceil_div(elements as int, WORKGROUP_SIZE as int),
{
    let full = elements / WORKGROUP_SIZE;
    if elements % WORKGROUP_SIZE == 0 {
        full
    } else {
        full + 1
    }
}

/// The global index of lane `l` of workgroup `g`.
pub open spec fn invocation_index(g: int, l: int) -> int {
    g * WORKGROUP_SIZE + l
}

/// The workgroup whose invocations include global index `i`.
pub open spec fn workgroup_of(i: int) -> int {
    i / WORKGROUP_SIZE as int
}

/// The lane of global index `i` within its workgroup.
pub open spec fn lane_of(i: int) -> int {
    i % WORKGROUP_SIZE as int
}

/// A dispatch of `ceil_div(e, 256)` workgroups covers each of the `e` elements with exactly
/// one invocation (workgroup `i / 256`, lane `i % 256`), and has no workgroup that holds no
/// element: the guarded invocations past the end are fewer than one workgroup.
pub proof fn lemma_dispatch_covers_exactly(e: nat)
    ensures
        ({
            let n = ceil_div(e as int, WORKGROUP_SIZE as int);
            &&& n * WORKGROUP_SIZE >= e
            &&& e > 0 ==> (n - 1) * WORKGROUP_SIZE < e
            &&& e == 0 ==> n == 0
            &&& forall|i: int|
                0 <= i < e ==> 0 <= #[trigger] workgroup_of(i) < n && 0 <= lane_of(i) < WORKGROUP_SIZE
                    && invocation_index(workgroup_of(i), lane_of(i)) == i
            &&& forall|g: int, l: int, g2: int, l2: int|
                0 <= l < WORKGROUP_SIZE && 0 <= l2 < WORKGROUP_SIZE && #[trigger] invocation_index(g, l)
                    == #[trigger] invocation_index(g2, l2) ==> g == g2 && l == l2
        }),
{
    let n = ceil_div(e as int, WORKGROUP_SIZE as int);
    assert(n * 256 >= e && (e > 0 ==> (n - 1) * 256 < e) && (e == 0 ==> n == 0)) by (nonlinear_arith)
        requires
            n == (e + 255) / 256,
    ;
    assert forall|i: int| 0 <= i < e implies 0 <= #[trigger] workgroup_of(i) < n && 0 <= lane_of(i)
        < WORKGROUP_SIZE && invocation_index(workgroup_of(i), lane_of(i)) == i by {
        assert(0 <= i / 256 < n) by (nonlinear_arith)
            requires
                n == (e + 255) / 256,
                0 <= i < e,
        ;
    }
    assert forall|g: int, l: int, g2: int, l2: int|
        0 <= l < WORKGROUP_SIZE && 0 <= l2 < WORKGROUP_SIZE && #[trigger] invocation_index(g, l)
            == #[trigger] invocation_index(g2, l2) implies g == g2 && l == l2 by {
        assert(g == g2) by (nonlinear_arith)
            requires
                0 <= l < 256,
                0 <= l2 < 256,
                g * 256 + l == g2 * 256 + l2,
        ;
    }
}

} // verus!

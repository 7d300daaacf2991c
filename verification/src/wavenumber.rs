use vstd::prelude::*;

verus! {

/// The count that a negative request stands for once it is taken as an
/// unsigned count: it wraps around past `usize::MAX`.
pub open spec fn requested_count(requested: i32) -> int {
    if requested >= 0 {
        requested as int
    } else {
        usize::MAX + 1 + requested
    }
}

/// Number of harmonics kept on each side of zero along one axis: the number
/// requested by the configuration, capped by the number that the wavenumber
/// cut-off can resolve. A negative request wraps to a count far beyond any
/// resolvable one, so the cut-off decides.
pub fn harmonic_limit(requested: i32, resolvable: usize) -> (count: usize)
    ensures
        count <= resolvable,
        requested >= 0 && requested <= resolvable ==> count == requested,
        requested >= 0 && requested > resolvable ==> count == resolvable,
        requested < 0 ==> count as int == if usize::MAX + 1 + requested <= resolvable {
            usize::MAX + 1 + requested
        } else {
            resolvable as int
        },
        count as int == if requested_count(requested) <= resolvable {
            requested_count(requested)
        } else {
            resolvable as int
        },
{
    let wanted: usize = if requested >= 0 {
        requested as usize
    } else {
        let below: u32 = (-((requested as i64) + 1)) as u32;
        usize::MAX - (below as usize)
    };
    if wanted <= resolvable {
        wanted
    } else {
        resolvable
    }
}

/// Signed harmonic order held at position `p` of a grid: position 0 holds
/// the zero harmonic, then each order `i >= 1` takes two neighbouring slots,
/// `-i` at `2i - 1` and `+i` at `2i`.
pub open spec fn order_at(p: int) -> int {
    if p % 2 == 1 {
        -((p + 1) / 2)
    } else {
        p / 2
    }
}

/// Position at which the grid holds the harmonic of order `h`.
pub open spec fn position_of(h: int) -> int {
    if h < 0 {
        -2 * h - 1
    } else {
        2 * h
    }
}

/// The signed harmonic orders of one axis of the wavenumber grid, in the
/// order in which the grid stores them: `0, -1, 1, -2, 2, ..., -count, count`.
pub fn harmonic_orders(count: usize) -> (orders: Vec<i64>)
    requires
        count <= (usize::MAX - 1) / 2,
    ensures
        orders.len() == 2 * count + 1,
        orders[0] == 0,
        forall|i: int| 1 <= i <= count ==> #[trigger] orders[2 * i] == i && orders[2 * i - 1] == -i,
        forall|p: int| 0 <= p < orders.len() ==> #[trigger] orders[p] == order_at(p),
{
    let mut orders: Vec<i64> = Vec::new();
    orders.push(0);
    let mut i: usize = 1;
    while i <= count
        invariant
            1 <= i <= count + 1,
            count <= (usize::MAX - 1) / 2,
            orders.len() == 2 * i - 1,
            forall|p: int| 0 <= p < orders.len() ==> #[trigger] orders[p] == order_at(p),
        decreases count + 1 - i,
    {
        let h: i64 = i as i64;
        orders.push(-h);
        orders.push(h);
        i = i + 1;
    }
    orders
}

/// Law of the grid layout: every harmonic from `-count` to `count` is held
/// exactly once, at `position_of(h)`, and each position holds the harmonic
/// whose position it is.
pub proof fn lemma_grid_layout_bijective(count: nat)
    ensures
        forall|h: int|
            -count <= h <= count ==> 0 <= #[trigger] position_of(h) < 2 * count + 1 && order_at(
                position_of(h),
            ) == h,
        forall|p: int|
            0 <= p < 2 * count + 1 ==> -count <= #[trigger] order_at(p) <= count && position_of(
                order_at(p),
            ) == p,
{
}

/// Law of the grid layout: the grid is symmetric about zero, each positive
/// harmonic directly following its negative partner.
pub proof fn lemma_grid_symmetric(count: nat, i: int)
    requires
        1 <= i <= count,
    ensures
        order_at(2 * i - 1) == -order_at(2 * i),
        order_at(2 * i) == i,
{
}

/// Law of the harmonic count: a non-negative request is taken as it stands,
/// so the count kept is the smaller of the request and the resolvable
/// count; a negative request stands for a count of at least `2^31`, beyond
/// any request that an `i32` can make.
pub proof fn lemma_request_taken_as_is(requested: i32)
    ensures
        requested >= 0 ==> requested_count(requested) == requested,
        requested < 0 ==> requested_count(requested) >= 0x8000_0000,
        requested < 0 ==> requested_count(requested) <= usize::MAX,
{
}

} // verus!

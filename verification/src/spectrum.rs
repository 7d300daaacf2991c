use vstd::prelude::*;

verus! {

/// The spectrum seen at one receiver: entry `k` is that receiver's value at
/// frequency `k`, taken from the per-frequency rows of all receivers.
pub fn receiver_column<T: Copy>(per_frequency: &Vec<Vec<T>>, receiver: usize) -> (column: Vec<T>)
    requires
        forall|k: int| 0 <= k < per_frequency.len() ==> receiver < #[trigger] per_frequency[k].len(),
    ensures
        column.len() == per_frequency.len(),
        forall|k: int|
            0 <= k < column.len() ==> #[trigger] column[k] == per_frequency[k][receiver as int],
{
    let mut column: Vec<T> = Vec::new();
    let n = per_frequency.len();
    for k in 0..n
        invariant
            n == per_frequency.len(),
            forall|q: int| 0 <= q < per_frequency.len() ==> receiver < #[trigger] per_frequency[q].len(),
            column.len() == k,
            forall|q: int| 0 <= q < column.len() ==> #[trigger] column[q] == per_frequency[q][receiver as int],
    {
        let row: &Vec<T> = &per_frequency[k];
        assert(receiver < per_frequency[k as int].len());
        column.push(row[receiver]);
    }
    column
}

/// First index past the non-negative frequencies of an `n`-sample transform
/// (zero up to the Nyquist index `n / 2`).
pub open spec fn one_sided_len(n: int) -> int {
    n / 2 + 1
}

/// Length of the given spectrum once zero-padded up to the Nyquist index.
pub open spec fn padded_len(given: int, n: int) -> int {
    if given < one_sided_len(n) {
        one_sided_len(n)
    } else {
        given
    }
}

/// Number of mirrored (negative-frequency) entries appended for an
/// `n`-sample transform: one for each index from `n / 2 + 1` to `n - 1`.
pub open spec fn mirrored_count(n: int) -> int {
    if n >= one_sided_len(n) {
        n - one_sided_len(n)
    } else {
        0
    }
}

/// Length of the extended buffer.
pub open spec fn extended_len(given: int, n: int) -> int {
    padded_len(given, n) + mirrored_count(n)
}

/// For an entry `p` of the mirrored part, the entry whose conjugate it is:
/// the `m`-th mirrored entry stands for index `j = n / 2 + 1 + m` and takes
/// the conjugate of entry `n - j`.
pub open spec fn mirror_source(given: int, n: int, p: int) -> int {
    n - (one_sided_len(n) + (p - padded_len(given, n)))
}

/// Extends a one-sided spectrum (frequencies `0, df, 2 df, ...`) into the
/// full buffer of an `n_samples`-point inverse transform: the given values,
/// then `zero` up to the Nyquist index `n_samples / 2`, then for each index
/// `j` from `n_samples / 2 + 1` to `n_samples - 1` the conjugate (`conj`) of
/// entry `n_samples - j`, so that the transform of the buffer is real.
pub fn hermitian_extend<T: Copy, F: Fn(T) -> T>(
    spectrum: Vec<T>,
    n_samples: usize,
    zero: T,
    conj: F,
) -> (full: Vec<T>)
    requires
        spectrum.len() + n_samples <= usize::MAX,
        forall|x: T| #[trigger] call_requires(conj, (x,)),
    ensures
        full.len() == extended_len(spectrum.len() as int, n_samples as int),
        forall|p: int| 0 <= p < spectrum.len() ==> #[trigger] full[p] == spectrum[p],
        forall|p: int|
            spectrum.len() <= p < padded_len(spectrum.len() as int, n_samples as int)
                ==> #[trigger] full[p] == zero,
        forall|p: int|
            padded_len(spectrum.len() as int, n_samples as int) <= p < full.len() ==> {
                let s = mirror_source(spectrum.len() as int, n_samples as int, p);
                &&& 0 <= s < padded_len(spectrum.len() as int, n_samples as int)
                &&& call_ensures(conj, (full[s],), #[trigger] full[p])
            },
        // the same, in terms of the Nyquist index `n_samples / 2` itself
        full.len() == (if spectrum.len() <= n_samples / 2 {
            n_samples / 2 + 1
        } else {
            spectrum.len() as int
        }) + (if n_samples >= 1 {
            n_samples - 1 - n_samples / 2
        } else {
            0
        }),
        forall|p: int|
            spectrum.len() <= p <= n_samples / 2 ==> p < full.len() && #[trigger] full[p] == zero,
        forall|p: int|
            n_samples / 2 < p < n_samples && spectrum.len() <= n_samples / 2 + 1 ==> p < full.len()
                && call_ensures(conj, (full[n_samples - p],), #[trigger] full[p]),
        spectrum.len() <= n_samples / 2 + 1 && n_samples >= 1 ==> full.len() == n_samples,
        forall|p: int|
            spectrum.len() > n_samples / 2 + 1 && spectrum.len() <= p < full.len() ==> {
                let j = n_samples / 2 + 1 + (p - spectrum.len());
                &&& n_samples / 2 < j < n_samples
                &&& call_ensures(conj, (full[n_samples - j],), #[trigger] full[p])
            },
{
    let given = spectrum.len();
    let half: usize = n_samples / 2;
    let mut full = spectrum;
    while full.len() <= half
        invariant
            given <= full.len() <= padded_len(given as int, n_samples as int),
            half == n_samples / 2,
            forall|p: int| 0 <= p < given ==> #[trigger] full[p] == spectrum[p],
            forall|p: int| given <= p < full.len() ==> #[trigger] full[p] == zero,
        decreases half + 1 - full.len(),
    {
        full.push(zero);
    }
    let padded = full.len();
    assert(padded == padded_len(given as int, n_samples as int));
    let mut j: usize = half + 1;
    while j < n_samples
        invariant
            padded == padded_len(given as int, n_samples as int),
            half == n_samples / 2,
            given + n_samples <= usize::MAX,
            half + 1 <= j,
            j <= n_samples || j == half + 1,
            full.len() == padded + (j - (half + 1)),
            forall|x: T| #[trigger] call_requires(conj, (x,)),
            forall|p: int| 0 <= p < given ==> #[trigger] full[p] == spectrum[p],
            forall|p: int| given <= p < padded ==> #[trigger] full[p] == zero,
            forall|p: int|
                padded <= p < full.len() ==> {
                    let s = mirror_source(given as int, n_samples as int, p);
                    &&& 0 <= s < padded
                    &&& call_ensures(conj, (full[s],), #[trigger] full[p])
                },
        decreases n_samples - j,
    {
        let source = full[n_samples - j];
        let value = conj(source);
        full.push(value);
        j = j + 1;
    }
    full
}

/// Law of the spectrum extension: the given entries are padded with zeros up
/// to the Nyquist index `n / 2` and no further, so mirroring starts right
/// after it; when the given spectrum fits below the Nyquist index, the
/// extended buffer has exactly `n` entries and every entry `p` past the
/// Nyquist index is the conjugate of its mirror `n - p`.
pub proof fn lemma_full_buffer_is_hermitian(given: nat, n: nat)
    requires
        n >= 1,
        given <= n / 2 + 1,
    ensures
        one_sided_len(n as int) == n / 2 + 1,
        padded_len(given as int, n as int) == n / 2 + 1,
        extended_len(given as int, n as int) == n,
        forall|p: int|
            n / 2 < p < n ==> padded_len(given as int, n as int) <= p && #[trigger] mirror_source(
                given as int,
                n as int,
                p,
            ) == n - p,
{
}

} // verus!

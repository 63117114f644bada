//! Rows of candidates: what makes one valid, and how one is drawn.

use crate::bits::Bits;
use crate::random::{random_up_to, shuffle};
use rand::rngs::ThreadRng;
use vstd::prelude::*;

verus! {

/// How many numbers are drawn at most for one row. Drawing stops earlier
/// once the row is full; a row still short after that many draws is filled
/// with the smallest numbers it lacks.
pub const MAX_DRAWS: usize = 1024;

/// Whether no value in `values` is above `bound`.
pub open spec fn within(values: Seq<u32>, bound: nat) -> bool {
    forall|i: int| 0 <= i < values.len() ==> #[trigger] values[i] <= bound
}

/// Whether `suggestions` can be the row of candidates of a round for
/// `bits`: as many as the width asks for, none above the largest value of
/// the width, and none twice.
pub open spec fn valid_row(bits: Bits, suggestions: Seq<u32>) -> bool {
    &&& suggestions.len() == bits.candidates()
    &&& within(suggestions, bits.max_value())
    &&& suggestions.no_duplicates()
}

/// `values` with `candidate` at its end, unless it is there already.
pub open spec fn with_new(values: Seq<u32>, candidate: u32) -> Seq<u32> {
    if values.contains(candidate) {
        values
    } else {
        values.push(candidate)
    }
}

/// `values` filled up to `count` entries with the numbers `from`,
/// `from + 1`, ... below `count` that it lacks, smallest first. A row that
/// has `count` entries or more is left as it is.
pub open spec fn topped_up(values: Seq<u32>, count: nat, from: nat) -> Seq<u32>
    decreases count - from,
{
    if from >= count || values.len() >= count {
        values
    } else {
        topped_up(with_new(values, from as u32), count, from + 1)
    }
}

/// The place of the first occurrence of `value` in `values`, if it occurs.
pub fn position(values: &Vec<u32>, value: u32) -> (found: Option<usize>)
    ensures
        match found {
            Some(i) => i < values.len() && values[i as int] == value && forall|j: int|
                0 <= j < i ==> values[j] != value,
            None => !values@.contains(value),
        },
{
    let mut i: usize = 0;
    while i < values.len()
        invariant
            i <= values.len(),
            forall|j: int| 0 <= j < i ==> values[j] != value,
        decreases values.len() - i,
    {
        if values[i] == value {
            return Some(i);
        }
        i += 1;
    }
    None
}

/// Whether no value occurs twice in `values`.
pub fn all_distinct(values: &Vec<u32>) -> (distinct: bool)
    ensures
        distinct == values@.no_duplicates(),
{
    let mut i: usize = 0;
    while i < values.len()
        invariant
            i <= values.len(),
            forall|a: int, b: int| 0 <= a < b < i ==> values[a] != values[b],
        decreases values.len() - i,
    {
        let mut j: usize = 0;
        while j < i
            invariant
                j <= i < values.len(),
                forall|a: int| 0 <= a < j ==> values[a] != values[i as int],
            decreases i - j,
        {
            if values[j] == values[i] {
                return false;
            }
            j += 1;
        }
        i += 1;
    }
    true
}

/// Whether no value in `values` is above `bound`.
pub fn all_within(values: &Vec<u32>, bound: u32) -> (within: bool)
    ensures
        within == self::within(values@, bound as nat),
{
    let mut i: usize = 0;
    while i < values.len()
        invariant
            i <= values.len(),
            forall|j: int| 0 <= j < i ==> #[trigger] values[j] <= bound,
        decreases values.len() - i,
    {
        if values[i] > bound {
            return false;
        }
        i += 1;
    }
    true
}

/// Puts `candidate` at the end of `values` unless it is there already, and
/// says whether it did.
pub fn push_if_new(values: &mut Vec<u32>, candidate: u32) -> (added: bool)
    ensures
        added == !old(values)@.contains(candidate),
        final(values)@ == with_new(old(values)@, candidate),
{
    if position(values, candidate).is_none() {
        values.push(candidate);
        true
    } else {
        false
    }
}

/// A row without duplicates that holds every number below `n` has at
/// least `n` entries.
pub proof fn lemma_distinct_cover(values: Seq<u32>, n: nat)
    requires
        n <= u32::MAX,
        values.no_duplicates(),
        forall|v: u32| v < n ==> values.contains(v),
    ensures
        values.len() >= n,
    decreases n,
{
    if n > 0 {
        let top = (n - 1) as u32;
        assert(top < n);
        assert(values.contains(top));
        let k = choose|k: int| 0 <= k < values.len() && values[k] == top;
        let rest = values.remove(k);
        assert(rest.no_duplicates()) by {
            assert forall|a: int, b: int| 0 <= a < rest.len() && 0 <= b < rest.len() && a != b implies rest[a]
                != rest[b] by {
                let a0 = if a < k { a } else { a + 1 };
                let b0 = if b < k { b } else { b + 1 };
                assert(rest[a] == values[a0] && rest[b] == values[b0]);
            }
        }
        assert forall|v: u32| v < (n - 1) as nat implies rest.contains(v) by {
            assert(values.contains(v));
            let j = choose|j: int| 0 <= j < values.len() && values[j] == v;
            assert(j != k);
            let j0 = if j < k { j } else { j - 1 };
            assert(rest[j0] == v);
        }
        lemma_distinct_cover(rest, (n - 1) as nat);
    }
}

/// Fills `values` up to `count` entries with the smallest numbers it
/// lacks, smallest first.
pub fn top_up(values: &mut Vec<u32>, count: usize)
    requires
        old(values)@.no_duplicates(),
        old(values).len() <= count <= u32::MAX,
    ensures
        final(values)@ == topped_up(old(values)@, count as nat, 0),
        final(values).len() == count,
        final(values)@.no_duplicates(),
        forall|i: int| 0 <= i < old(values).len() ==> final(values)[i] == old(values)[i],
        forall|i: int| old(values).len() <= i < count ==> final(values)[i] < count,
{
    let mut next: usize = 0;
    while next < count && values.len() < count
        invariant
            next <= count <= u32::MAX,
            values@.no_duplicates(),
            old(values).len() <= values.len() <= count,
            topped_up(old(values)@, count as nat, 0) == topped_up(values@, count as nat, next as nat),
            forall|v: u32| v < next ==> values@.contains(v),
            forall|i: int| 0 <= i < old(values).len() ==> values[i] == old(values)[i],
            forall|i: int| old(values).len() <= i < values.len() ==> values[i] < count,
        decreases count - next,
    {
        let ghost before = values@;
        let candidate: u32 = next as u32;
        let added: bool = push_if_new(values, candidate);
        proof {
            assert forall|v: u32| v < next + 1 implies values@.contains(v) by {
                if v < next {
                    assert(before.contains(v));
                    let j = choose|j: int| 0 <= j < before.len() && before[j] == v;
                    assert(values@[j] == v);
                } else {
                    assert(v == candidate);
                    if added {
                        assert(values@[values@.len() - 1] == candidate);
                    }
                }
            }
        }
        next += 1;
    }
    proof {
        if values.len() < count {
            lemma_distinct_cover(values@, count as nat);
        }
    }
}

/// Draws a row of candidates for `bits`: numbers up to the largest value of
/// the width, drawn one by one, each kept unless the row holds it already,
/// until the row is full. After `MAX_DRAWS` draws a row still short is
/// topped up. Whatever is drawn, the row is valid.
pub fn draw_row(bits: Bits, rng: &mut ThreadRng) -> (row: Vec<u32>)
    ensures
        valid_row(bits, row@),
{
    let count: usize = bits.suggestion_count();
    let upper: u32 = bits.upper_bound();
    proof {
        bits.lemma_range();
    }
    let mut row: Vec<u32> = Vec::new();
    let mut draws: usize = 0;
    while row.len() < count && draws < MAX_DRAWS
        invariant
            row.len() <= count,
            row@.no_duplicates(),
            within(row@, upper as nat),
            draws <= MAX_DRAWS,
        decreases MAX_DRAWS - draws,
    {
        let drawn: u32 = random_up_to(rng, upper);
        push_if_new(&mut row, drawn);
        draws += 1;
    }
    top_up(&mut row, count);
    row
}

/// However a valid row is reordered, it stays valid.
pub proof fn lemma_reordered_row(bits: Bits, before: Seq<u32>, after: Seq<u32>)
    requires
        valid_row(bits, before),
        before.to_multiset() == after.to_multiset(),
    ensures
        valid_row(bits, after),
{
    broadcast use vstd::seq_lib::to_multiset_len, vstd::seq_lib::to_multiset_contains;

    before.lemma_multiset_has_no_duplicates();
    after.lemma_multiset_has_no_duplicates_conv();
    assert forall|i: int| 0 <= i < after.len() implies #[trigger] after[i] <= bits.max_value() by {
        assert(after.contains(after[i]));
        assert(after.to_multiset().count(after[i]) > 0);
        assert(before.contains(after[i]));
        let j = choose|j: int| 0 <= j < before.len() && before[j] == after[i];
        assert(before[j] <= bits.max_value());
    }
    assert(after.len() == before.len()) by {
        assert(after.len() == after.to_multiset().len());
        assert(before.len() == before.to_multiset().len());
    }
}

/// Picks one of the numbers of `row` and shuffles the row. Which number
/// is picked and how the row is ordered depends on the generator; the row
/// holds the same numbers as before, the picked one among them.
pub fn pick_and_shuffle(row: Vec<u32>, rng: &mut ThreadRng) -> (picked: (Vec<u32>, u32))
    requires
        0 < row.len() <= u32::MAX,
    ensures
        picked.0@.to_multiset() == row@.to_multiset(),
        picked.0@.contains(picked.1),
{
    broadcast use vstd::seq_lib::to_multiset_contains;

    let mut row = row;
    let last: u32 = (row.len() - 1) as u32;
    let index: usize = random_up_to(rng, last) as usize;
    let number: u32 = row[index];
    assert(row@.contains(number)) by {
        assert(row@[index as int] == number);
    }
    assert(row@.to_multiset().count(number) > 0);
    shuffle(&mut row, rng);
    assert(row@.to_multiset().count(number) > 0);
    (row, number)
}

} // verus!

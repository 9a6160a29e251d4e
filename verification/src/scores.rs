use vstd::prelude::*;

verus! {

/// Sign bit of an IEEE-754 single-precision bit pattern.
pub const SIGN_BIT: u32 = 0x8000_0000;

/// Bit pattern of positive infinity; larger magnitudes encode NaN.
pub const INFINITY_BITS: u32 = 0x7f80_0000;

/// The magnitude part (all bits but the sign) of a single-precision bit pattern.
pub open spec fn magnitude(bits: u32) -> int {
    if bits >= SIGN_BIT {
        bits - SIGN_BIT
    } else {
        bits as int
    }
}

/// Whether a single-precision bit pattern encodes NaN.
pub open spec fn is_nan_bits(bits: u32) -> bool {
    magnitude(bits) > INFINITY_BITS
}

/// The comparison key of a single-precision value given by its bit pattern:
/// `None` for NaN, which no comparison ranks above anything, and otherwise
/// the signed magnitude, which orders values as `<` on floats does
/// (both zeros get the key 0).
pub open spec fn key_of_bits(bits: u32) -> Option<i64> {
    if is_nan_bits(bits) {
        None
    } else if bits >= SIGN_BIT {
        Some((-magnitude(bits)) as i64)
    } else {
        Some(magnitude(bits) as i64)
    }
}

/// Computes the comparison key of the single-precision value whose bit
/// pattern is `bits`.
pub fn score_key(bits: u32) -> (key: Option<i64>)
    ensures
        key == key_of_bits(bits),
{
    let negative: bool = bits >= SIGN_BIT;
    let magnitude: u32 = if negative {
        bits - SIGN_BIT
    } else {
        bits
    };
    if magnitude > INFINITY_BITS {
        None
    } else if negative {
        Some(-(magnitude as i64))
    } else {
        Some(magnitude as i64)
    }
}

/// Whether a score is present and strictly above `bound`.
pub open spec fn beats(score: Option<i64>, bound: int) -> bool {
    match score {
        Some(value) => value > bound,
        None => false,
    }
}

/// The value of a present score (0 for a missing one).
pub open spec fn value_of(score: Option<i64>) -> int {
    match score {
        Some(value) => value as int,
        None => 0,
    }
}

/// `index` holds the winning score of `scores` among those above `floor`:
/// its score beats the floor, no score is higher, and every earlier score
/// is strictly lower (the first of equal maxima wins).
pub open spec fn is_best_index(scores: Seq<Option<i64>>, floor: int, index: int) -> bool {
    &&& 0 <= index < scores.len()
    &&& beats(scores[index], floor)
    &&& forall|i: int| 0 <= i < scores.len() ==> !beats(#[trigger] scores[i], value_of(scores[index]))
    &&& forall|i: int| 0 <= i < index ==> !beats(#[trigger] scores[i], value_of(scores[index]) - 1)
}

/// The winning index of `scores` above `floor`, if any score beats the floor.
pub open spec fn best_index(scores: Seq<Option<i64>>, floor: int) -> Option<int> {
    if exists|index: int| is_best_index(scores, floor, index) {
        Some(choose|index: int| is_best_index(scores, floor, index))
    } else {
        None
    }
}

/// At most one index wins.
pub proof fn lemma_best_index_unique(scores: Seq<Option<i64>>, floor: int, a: int, b: int)
    requires
        is_best_index(scores, floor, a),
        is_best_index(scores, floor, b),
    ensures
        a == b,
{
    assert(!beats(scores[b], value_of(scores[a])));
    assert(!beats(scores[a], value_of(scores[b])));
    if a < b {
        assert(!beats(scores[a], value_of(scores[b]) - 1));
    } else if b < a {
        assert(!beats(scores[b], value_of(scores[a]) - 1));
    }
}

/// A winner exists exactly when some score beats the floor.
pub proof fn lemma_best_index_exists(scores: Seq<Option<i64>>, floor: int)
    ensures
        best_index(scores, floor) is Some <==> exists|i: int| 0 <= i < scores.len() && beats(#[trigger] scores[i], floor),
        best_index(scores, floor) matches Some(index) ==> is_best_index(scores, floor, index),
{
    if exists|i: int| 0 <= i < scores.len() && beats(#[trigger] scores[i], floor) {
        let w = choose|i: int| 0 <= i < scores.len() && beats(#[trigger] scores[i], floor);
        let index = first_maximum(scores, floor, w);
        assert(is_best_index(scores, floor, index));
    }
}

/// Finds the first index of the highest score, starting from a witness `w`
/// that beats the floor.
proof fn first_maximum(scores: Seq<Option<i64>>, floor: int, w: int) -> (index: int)
    requires
        0 <= w < scores.len(),
        beats(scores[w], floor),
    ensures
        is_best_index(scores, floor, index),
    decreases i64::MAX - value_of(scores[w]), w,
{
    if exists|i: int| 0 <= i < scores.len() && beats(#[trigger] scores[i], value_of(scores[w])) {
        let v = choose|i: int| 0 <= i < scores.len() && beats(#[trigger] scores[i], value_of(scores[w]));
        first_maximum(scores, floor, v)
    } else if exists|i: int| 0 <= i < w && beats(#[trigger] scores[i], value_of(scores[w]) - 1) {
        let v = choose|i: int| 0 <= i < w && beats(#[trigger] scores[i], value_of(scores[w]) - 1);
        first_maximum(scores, floor, v)
    } else {
        w
    }
}

/// Picks the index of the highest score above `floor`, the first one among
/// equal maxima, or `None` when no score is above `floor`. A missing score
/// (a NaN) never wins.
pub fn select_best(scores: &Vec<Option<i64>>, floor: i64) -> (best: Option<usize>)
    ensures
        match best {
            Some(index) => best_index(scores@, floor as int) == Some(index as int),
            None => best_index(scores@, floor as int) is None,
        },
        best matches Some(index) ==> is_best_index(scores@, floor as int, index as int),
        best is None <==> forall|i: int| 0 <= i < scores@.len() ==> !beats(#[trigger] scores@[i], floor as int),
{
    let mut best: Option<usize> = None;
    let mut best_score: i64 = floor;
    let n = scores.len();
    for i in 0..n
        invariant
            n == scores@.len(),
            best_score >= floor,
            best is None ==> best_score == floor,
            best matches Some(j) ==> {
                &&& j < i
                &&& scores@[j as int] == Some(best_score)
                &&& best_score > floor
                &&& forall|k: int| 0 <= k < j ==> !beats(#[trigger] scores@[k], best_score - 1)
            },
            forall|k: int| 0 <= k < i ==> !beats(#[trigger] scores@[k], best_score as int),
    {
        match scores[i] {
            Some(value) => {
                if value > best_score {
                    best = Some(i);
                    best_score = value;
                }
            },
            None => {},
        }
    }
    proof {
        lemma_best_index_exists(scores@, floor as int);
        match best {
            Some(j) => {
                assert(is_best_index(scores@, floor as int, j as int));
                let chosen = best_index(scores@, floor as int)->0;
                lemma_best_index_unique(scores@, floor as int, j as int, chosen);
            },
            None => {},
        }
    }
    best
}

} // verus!

verus! {

/// Whether the single-precision value with bit pattern `a` is less than the
/// one with pattern `b` (neither a NaN): values are sign and magnitude, both
/// zeros are equal, a larger magnitude is larger among positives and smaller
/// among negatives, and every negative is below every positive.
pub open spec fn float_less(a: u32, b: u32) -> bool {
    let a_negative = a >= SIGN_BIT;
    let b_negative = b >= SIGN_BIT;
    if magnitude(a) == 0 && magnitude(b) == 0 {
        false
    } else if !a_negative && !b_negative {
        magnitude(a) < magnitude(b)
    } else if a_negative && b_negative {
        magnitude(a) > magnitude(b)
    } else {
        a_negative
    }
}

/// Whether the values with bit patterns `a` and `b` are equal (neither a
/// NaN): the same pattern, or both zeros.
pub open spec fn float_equal(a: u32, b: u32) -> bool {
    a == b || (magnitude(a) == 0 && magnitude(b) == 0)
}

/// Keys order values as floating-point comparison does: a value below
/// another gets a smaller key, equal values get equal keys, and only NaNs
/// get no key.
pub proof fn lemma_key_orders_as_floats(a: u32, b: u32)
    ensures
        key_of_bits(a) is None <==> is_nan_bits(a),
        !is_nan_bits(a) && !is_nan_bits(b) ==> (float_less(a, b) <==> value_of(key_of_bits(a)) < value_of(
            key_of_bits(b),
        )),
        !is_nan_bits(a) && !is_nan_bits(b) ==> (float_equal(a, b) <==> value_of(key_of_bits(a)) == value_of(
            key_of_bits(b),
        )),
{
}

} // verus!

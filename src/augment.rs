use vstd::prelude::*;

verus! {

/// Below this many raw detections the runner pads the detection list.
pub const DETECTION_FLOOR: usize = 6;

/// Smallest number of detections the padding aims for.
pub const MIN_DETECTION_TARGET: usize = 18;

/// Largest number of detections the padding aims for.
pub const MAX_DETECTION_TARGET: usize = 64;

/// `scaled_area` clamped to the target bounds.
pub open spec fn target_for(scaled_area: int) -> int {
    if scaled_area < MIN_DETECTION_TARGET {
        MIN_DETECTION_TARGET as int
    } else if scaled_area > MAX_DETECTION_TARGET {
        MAX_DETECTION_TARGET as int
    } else {
        scaled_area
    }
}

/// Length of a list of `existing` records after padding towards `target`.
pub open spec fn padded_len(existing: int, target: int) -> int {
    if existing >= target {
        existing
    } else {
        target
    }
}

/// Whether `r` is `records` followed by one synthesized record for each index
/// from `records.len()` up to `target`; `records` itself when it is already
/// that long.
pub open spec fn is_padding_of<R, F: Fn(usize) -> R>(
    r: Seq<R>,
    records: Seq<R>,
    target: int,
    synthesize: F,
) -> bool {
    &&& r.len() == padded_len(records.len() as int, target)
    &&& r.subrange(0, records.len() as int) == records
    &&& forall|i: int|
        records.len() <= i < r.len() ==> synthesize.ensures((i as usize,), #[trigger] r[i])
}

/// Whether `r` is what the detection floor makes of `records`: `records`
/// itself when it holds at least `DETECTION_FLOOR` entries, else its padding
/// towards `target`.
pub open spec fn is_floored<R, F: Fn(usize) -> R>(
    r: Seq<R>,
    records: Seq<R>,
    target: int,
    synthesize: F,
) -> bool {
    if records.len() >= DETECTION_FLOOR {
        r == records
    } else {
        is_padding_of(r, records, target, synthesize)
    }
}

/// A detection list that already holds the target for its scenario comes
/// out of the floor unchanged: no synthesized record is added.
pub proof fn lemma_long_lists_unchanged<R, F: Fn(usize) -> R>(
    r: Seq<R>,
    records: Seq<R>,
    scaled_area: int,
    synthesize: F,
)
    requires
        is_floored(r, records, target_for(scaled_area), synthesize),
        records.len() >= target_for(scaled_area),
    ensures
        r == records,
{
    if records.len() < DETECTION_FLOOR {
        assert(r.len() == records.len());
        assert(r =~= r.subrange(0, records.len() as int));
    }
}

/// A detection list thinner than the floor comes out holding exactly the
/// target for its scenario, which is at least `MIN_DETECTION_TARGET`.
pub proof fn lemma_thin_lists_reach_target<R, F: Fn(usize) -> R>(
    r: Seq<R>,
    records: Seq<R>,
    scaled_area: int,
    synthesize: F,
)
    requires
        is_floored(r, records, target_for(scaled_area), synthesize),
        records.len() < DETECTION_FLOOR,
    ensures
        r.len() == target_for(scaled_area),
        r.len() >= MIN_DETECTION_TARGET,
{
}

/// Padding is determined by its inputs: when `synthesize` yields one value
/// per index, two paddings of the same records towards the same target are
/// the same sequence.
pub proof fn lemma_padding_deterministic<R, F: Fn(usize) -> R>(
    r1: Seq<R>,
    r2: Seq<R>,
    records: Seq<R>,
    target: int,
    synthesize: F,
)
    requires
        forall|i: usize, a: R, b: R|
            synthesize.ensures((i,), a) && synthesize.ensures((i,), b) ==> a == b,
        is_padding_of(r1, records, target, synthesize),
        is_padding_of(r2, records, target, synthesize),
    ensures
        r1 == r2,
{
    assert forall|i: int| 0 <= i < r1.len() implies r1[i] == r2[i] by {
        if i < records.len() {
            assert(r1[i] == r1.subrange(0, records.len() as int)[i]);
            assert(r2[i] == r2.subrange(0, records.len() as int)[i]);
        } else {
            assert(synthesize.ensures((i as usize,), r1[i]));
            assert(synthesize.ensures((i as usize,), r2[i]));
        }
    }
    assert(r1 =~= r2);
}

/// Number of detections to pad to, from the rounded scenario scale
/// (the mean of the area's width and height in km, times 1.8, rounded).
pub fn detection_target(scaled_area: u64) -> (r: usize)
    ensures
        r == target_for(scaled_area as int),
        MIN_DETECTION_TARGET <= r <= MAX_DETECTION_TARGET,
{
    if scaled_area < MIN_DETECTION_TARGET as u64 {
        MIN_DETECTION_TARGET
    } else if scaled_area > MAX_DETECTION_TARGET as u64 {
        MAX_DETECTION_TARGET
    } else {
        scaled_area as usize
    }
}

/// Appends `synthesize(i)` for each index `i` from `records.len()` up to
/// `target`, keeping the records already there in their order.
pub fn augment_detection_records<R, F: Fn(usize) -> R>(
    records: Vec<R>,
    target: usize,
    synthesize: F,
) -> (r: Vec<R>)
    requires
        forall|i: usize| synthesize.requires((i,)),
    ensures
        is_padding_of(r@, records@, target as int, synthesize),
        records@.len() >= target ==> r@ == records@,
{
    let mut records = records;
    let ghost given = records@;
    let start = records.len();
    if start >= target {
        assert(records@.subrange(0, start as int) =~= given);
        return records;
    }
    let mut i: usize = start;
    while i < target
        invariant
            start <= i <= target,
            start == given.len(),
            records@.len() == i,
            records@.subrange(0, start as int) == given,
            forall|n: usize| synthesize.requires((n,)),
            forall|j: int| start <= j < i ==> synthesize.ensures((j as usize,), #[trigger] records@[j]),
        decreases target - i,
    {
        let extra = synthesize(i);
        let ghost before = records@;
        records.push(extra);
        assert(records@.subrange(0, start as int) =~= before.subrange(0, start as int));
        assert forall|j: int| start <= j < i + 1 implies synthesize.ensures(
            (j as usize,),
            #[trigger] records@[j],
        ) by {
            if j < i {
                assert(records@[j] == before[j]);
            }
        }
        i = i + 1;
    }
    records
}

/// Pads a detection list that holds fewer than `DETECTION_FLOOR` records up to
/// `target`; leaves any other list as it is.
pub fn apply_detection_floor<R, F: Fn(usize) -> R>(
    records: Vec<R>,
    target: usize,
    synthesize: F,
) -> (r: Vec<R>)
    requires
        forall|i: usize| synthesize.requires((i,)),
    ensures
        is_floored(r@, records@, target as int, synthesize),
        records@.len() >= target ==> r@ == records@,
{
    if records.len() < DETECTION_FLOOR {
        augment_detection_records(records, target, synthesize)
    } else {
        records
    }
}

} // verus!

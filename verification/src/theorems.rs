use vstd::prelude::*;
use crate::api::{
    lemma_pass_continues,
    increase_of, reconciled, reconciled_increase, reconciled_total, reported_before, resumed,
    state_after, total_of, window_sum, Metric, State,
};
use crate::data::DataPoint;

verus! {

/// The total that stood before record `i` of a pass: the total of the record
/// before it, or the seed's counter for the first record.
pub open spec fn previous_total(
    seed: State,
    output: Seq<DataPoint>,
    i: int,
    metric: Metric,
) -> u32 {
    if i == 0 {
        seed.counter(metric)
    } else {
        total_of(output[i - 1], metric)
    }
}

/// The pass drops nothing and moves nothing: it gives one record for each
/// record, in the same place, with the same dates, identity, flag, report and
/// beds in use.
pub proof fn lemma_order_preserved(seed: State, input: Seq<DataPoint>, population: u32)
    ensures
        reconciled(seed, input, population).len() == input.len(),
        forall|i: int|
            #![trigger reconciled(seed, input, population)[i]]
            0 <= i < input.len() ==> {
                let out = reconciled(seed, input, population)[i];
                &&& out.dates == input[i].dates
                &&& out.object_id == input[i].object_id
                &&& out.show == input[i].show
                &&& out.cases.reported == input[i].cases.reported
                &&& out.hospitalisations.beds_in_use == input[i].hospitalisations.beds_in_use
            },
{
}

/// A record depends on the records before it and on itself, never on a later
/// one: two series that agree up to and including record `i` give the same
/// record `i`.
pub proof fn lemma_no_lookahead(
    seed: State,
    a: Seq<DataPoint>,
    b: Seq<DataPoint>,
    population: u32,
    i: int,
)
    requires
        0 <= i < a.len(),
        i < b.len(),
        a.take(i + 1) == b.take(i + 1),
    ensures
        reconciled(seed, a, population)[i] == reconciled(seed, b, population)[i],
{
    assert(a.take(i) =~= a.take(i + 1).take(i));
    assert(b.take(i) =~= b.take(i + 1).take(i));
    assert(a[i] == a.take(i + 1)[i]);
    assert(b[i] == b.take(i + 1)[i]);
}

/// After each record, every running counter stands at that record's total.
pub proof fn lemma_counters_track_totals(
    seed: State,
    input: Seq<DataPoint>,
    population: u32,
    i: int,
    metric: Metric,
)
    requires
        0 <= i < input.len(),
    ensures
        state_after(seed, input.take(i + 1)).counter(metric) == total_of(
            reconciled(seed, input, population)[i],
            metric,
        ),
{
    assert(input.take(i + 1).drop_last() =~= input.take(i));
    assert(input.take(i + 1).last() == input[i]);
}

/// Total and increase of every record agree with the total before it. Beside
/// a non-zero total the increase is the step from the previous total, or zero
/// where the total fell. Beside a zero total the increase stands and the total
/// is the previous total and the increase together, as far as that fits.
pub proof fn lemma_totals_and_increases(
    seed: State,
    input: Seq<DataPoint>,
    population: u32,
    i: int,
    metric: Metric,
)
    requires
        0 <= i < input.len(),
    ensures
        ({
            let output = reconciled(seed, input, population);
            let previous = previous_total(seed, output, i, metric);
            let total = total_of(output[i], metric);
            let increase = increase_of(output[i], metric);
            if total_of(input[i], metric) != 0 {
                &&& total == total_of(input[i], metric)
                &&& total >= previous ==> increase == total - previous
                &&& total < previous ==> increase == 0
            } else {
                &&& increase == increase_of(input[i], metric)
                &&& previous + increase <= u32::MAX ==> total == previous + increase
                &&& previous + increase > u32::MAX ==> total == u32::MAX
            }
        }),
{
    if i == 0 {
        assert(input.take(0) =~= Seq::<DataPoint>::empty());
    } else {
        lemma_counters_track_totals(seed, input, population, i - 1, metric);
    }
}

/// A total below the running counter is a correction: the increase is zero,
/// not negative, and the counter comes down to the new total.
pub proof fn lemma_correction_clamps(counter: u32, total: u32, increase: u32)
    requires
        0 < total < counter,
    ensures
        reconciled_increase(counter, total, increase) == 0,
        reconciled_total(counter, total, increase) == total,
{
}

/// The window always has seven slots. They hold the reports of the last seven
/// records, oldest first; where the pass has seen fewer, the slots before them
/// still hold what the seed held, which for the fresh state is zero.
pub proof fn lemma_window_holds_last_week(seed: State, input: Seq<DataPoint>)
    requires
        seed.wf(),
    ensures
        state_after(seed, input).wf(),
        forall|slot: int|
            #![trigger state_after(seed, input).window[slot]]
            0 <= slot < 7 ==> state_after(seed, input).window[slot] == if input.len() + slot
                >= 7 {
                input[input.len() + slot - 7].cases.reported
            } else {
                seed.window[input.len() + slot]
            },
    decreases input.len(),
{
    if input.len() > 0 {
        let before = input.drop_last();
        lemma_window_holds_last_week(seed, before);
        let earlier = state_after(seed, before).window;
        let now = state_after(seed, input).window;
        assert(now == earlier.drop_first().push(input.last().cases.reported));
        assert forall|slot: int| 0 <= slot < 7 implies now[slot] == if input.len() + slot >= 7 {
            input[input.len() + slot - 7].cases.reported
        } else {
            seed.window[input.len() + slot]
        } by {
            if slot < 6 {
                assert(now[slot] == earlier[slot + 1]);
            }
        }
    }
}

/// From the fresh state, a slot of the window that no record has reached yet
/// reads zero.
pub proof fn lemma_fresh_window_is_zero_padded(input: Seq<DataPoint>)
    ensures
        state_after(State::fresh(), input).window.len() == 7,
        forall|slot: int|
            #![trigger state_after(State::fresh(), input).window[slot]]
            0 <= slot < 7 ==> state_after(State::fresh(), input).window[slot]
                == reported_before(input, 7 - slot),
{
    lemma_window_holds_last_week(State::fresh(), input);
}

/// The incidence of a record is that of the week before it: the reports of the
/// seven records before it, the record's own report not among them, related to
/// the population. It is a fraction of two numbers that are not negative, over
/// a positive population.
pub proof fn lemma_incidence_lags(input: Seq<DataPoint>, population: u32, i: int)
    requires
        0 <= i < input.len(),
        population > 0,
    ensures
        ({
            let incidence = reconciled(State::fresh(), input, population)[i].incidence;
            let before = input.take(i);
            &&& incidence.wf()
            &&& incidence.population == population
            &&& incidence.scaled_cases == 100_000 * (reported_before(before, 7) + reported_before(
                before,
                6,
            ) + reported_before(before, 5) + reported_before(before, 4) + reported_before(
                before,
                3,
            ) + reported_before(before, 2) + reported_before(before, 1))
            &&& i == 0 ==> incidence.scaled_cases == 0
        }),
{
    let before = input.take(i);
    lemma_fresh_window_is_zero_padded(before);
    let window = state_after(State::fresh(), before).window;
    assert(window[0] == reported_before(before, 7));
    assert(window[1] == reported_before(before, 6));
    assert(window[2] == reported_before(before, 5));
    assert(window[3] == reported_before(before, 4));
    assert(window[4] == reported_before(before, 3));
    assert(window[5] == reported_before(before, 2));
    assert(window[6] == reported_before(before, 1));
    assert(window_sum(window) * 100_000 <= u64::MAX);
}

/// The incidence of a record does not depend on the record itself: two series
/// that agree before record `i` give it the same incidence, whatever the two
/// records report.
pub proof fn lemma_incidence_ignores_own_record(
    seed: State,
    a: Seq<DataPoint>,
    b: Seq<DataPoint>,
    population: u32,
    i: int,
)
    requires
        0 <= i < a.len(),
        i < b.len(),
        a.take(i) == b.take(i),
    ensures
        reconciled(seed, a, population)[i].incidence == reconciled(
            seed,
            b,
            population,
        )[i].incidence,
{
}

/// Two runs of the pass from the same state over the same series with the same
/// population give the same records.
pub proof fn lemma_rerun_is_identical(
    seed: State,
    input: Seq<DataPoint>,
    population: u32,
    first: Seq<DataPoint>,
    second: Seq<DataPoint>,
)
    requires
        first == reconciled(seed, input, population),
        second == reconciled(seed, input, population),
    ensures
        first == second,
{
}

/// Resuming from the records that a pass from the fresh state has finished
/// gives the state in which that pass stopped: records fetched later can be
/// reconciled on their own and come out as if they had been in the first pass.
pub proof fn lemma_resume_recovers_state(input: Seq<DataPoint>, population: u32)
    ensures
        resumed(reconciled(State::fresh(), input, population)) == state_after(
            State::fresh(),
            input,
        ),
{
    let output = reconciled(State::fresh(), input, population);
    let state = state_after(State::fresh(), input);
    if input.len() > 0 {
        let last = input.len() - 1;
        assert(input.take(last + 1) =~= input);
        lemma_counters_track_totals(State::fresh(), input, population, last, Metric::Cases);
        lemma_counters_track_totals(State::fresh(), input, population, last, Metric::Deaths);
        lemma_counters_track_totals(State::fresh(), input, population, last, Metric::Recoveries);
        lemma_counters_track_totals(
            State::fresh(),
            input,
            population,
            last,
            Metric::Hospitalisations,
        );
        lemma_fresh_window_is_zero_padded(input);
        assert forall|slot: int| 0 <= slot < 7 implies #[trigger] resumed(output).window[slot]
            == state.window[slot] by {
            assert(reported_before(output, 7 - slot) == reported_before(input, 7 - slot));
        }
        assert(resumed(output).window =~= state.window);
    }
}

/// Fetching in two steps changes nothing: reconciling a first part, resuming
/// from what came out and reconciling the rest gives the records of one pass
/// over both parts.
pub proof fn lemma_paginated_pass(a: Seq<DataPoint>, b: Seq<DataPoint>, population: u32)
    ensures
        reconciled(State::fresh(), a + b, population) == reconciled(
            State::fresh(),
            a,
            population,
        ) + reconciled(resumed(reconciled(State::fresh(), a, population)), b, population),
{
    lemma_resume_recovers_state(a, population);
    lemma_pass_continues(State::fresh(), a, b, population);
}

} // verus!

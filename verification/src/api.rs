use vstd::prelude::*;
use vstd::utf8::{decode_utf8, valid_utf8};
use crate::data::{
    normalizes, ApiAttributes, ApiFeatures, ApiResponse, Cases, DataPoint, Day, Deaths,
    Hospitalisations, Incidence, Recoveries,
};
use crate::date_format::{hyphenated, parse_hyphenated};
use crate::error::DataError;
use crate::trusted::{
    csv_byte_records, csv_records, parsed_day, read_byte_records, read_records, row_bytes,
    row_text, table_bytes, table_text, text_of,
};

verus! {

/// Incidences are cases per this many inhabitants.
pub const PER_INHABITANTS: u64 = 100_000;

/// The running state of one pass over the series: the cumulative count of each
/// metric as of the last record, and the reported cases of the last seven
/// records, oldest first.
#[derive(Debug, Clone, Copy, PartialEq, Eq)]
pub struct Counts {
    pub cases: u32,
    pub deaths: u32,
    pub recoveries: u32,
    pub hospitalisations: u32,
    pub rolling_increase: [u32; 7],
}

/// The running state as contracts see it.
pub struct State {
    pub cases: u32,
    pub deaths: u32,
    pub recoveries: u32,
    pub hospitalisations: u32,
    pub window: Seq<u32>,
}

/// The four groups of numbers that a record carries.
pub enum Metric {
    Cases,
    Deaths,
    Recoveries,
    Hospitalisations,
}

impl View for Counts {
    type V = State;

    open spec fn view(&self) -> State {
        State {
            cases: self.cases,
            deaths: self.deaths,
            recoveries: self.recoveries,
            hospitalisations: self.hospitalisations,
            window: self.rolling_increase@,
        }
    }
}

impl State {
    /// The window has a slot for each day of a week.
    pub open spec fn wf(self) -> bool {
        self.window.len() == 7
    }

    /// The state before any record: nothing counted, nothing reported.
    pub open spec fn fresh() -> State {
        State {
            cases: 0,
            deaths: 0,
            recoveries: 0,
            hospitalisations: 0,
            window: Seq::new(7, |i: int| 0u32),
        }
    }

    pub open spec fn counter(self, metric: Metric) -> u32 {
        match metric {
            Metric::Cases => self.cases,
            Metric::Deaths => self.deaths,
            Metric::Recoveries => self.recoveries,
            Metric::Hospitalisations => self.hospitalisations,
        }
    }
}

/// The cumulative total that a record carries for a metric.
pub open spec fn total_of(point: DataPoint, metric: Metric) -> u32 {
    match metric {
        Metric::Cases => point.cases.total,
        Metric::Deaths => point.deaths.total,
        Metric::Recoveries => point.recoveries.total,
        Metric::Hospitalisations => point.hospitalisations.total,
    }
}

/// The day-over-day increase that a record carries for a metric.
pub open spec fn increase_of(point: DataPoint, metric: Metric) -> u32 {
    match metric {
        Metric::Cases => point.cases.increase,
        Metric::Deaths => point.deaths.increase,
        Metric::Recoveries => point.recoveries.increase,
        Metric::Hospitalisations => point.hospitalisations.increase,
    }
}

/// The total of a record after reconciliation with the running counter: a
/// non-zero total stands, a zero total is made up from the counter and the
/// record's increase, and stops at the largest number that fits.
pub open spec fn reconciled_total(counter: u32, total: u32, increase: u32) -> u32 {
    if total != 0 {
        total
    } else if counter + increase > u32::MAX {
        u32::MAX
    } else {
        (counter + increase) as u32
    }
}

/// The increase of a record after reconciliation with the running counter: the
/// step from the counter to a non-zero total, or zero where the total fell
/// below the counter; beside a zero total the record's own increase stands.
pub open spec fn reconciled_increase(counter: u32, total: u32, increase: u32) -> u32 {
    if total != 0 {
        if total >= counter {
            (total - counter) as u32
        } else {
            0
        }
    } else {
        increase
    }
}

/// The sum of the seven reports in a window.
pub open spec fn window_sum(window: Seq<u32>) -> int {
    window[0] + window[1] + window[2] + window[3] + window[4] + window[5] + window[6]
}

/// The incidence that a window of reports gives for a population.
pub open spec fn incidence_of(window: Seq<u32>, population: u32) -> Incidence {
    Incidence { scaled_cases: (window_sum(window) * 100_000) as u64, population }
}

/// The report that stands `back` records before the end of `input`, or zero
/// where the series does not reach that far back.
pub open spec fn reported_before(input: Seq<DataPoint>, back: int) -> u32 {
    if 1 <= back <= input.len() {
        input[input.len() - back].cases.reported
    } else {
        0
    }
}

/// The state to go on from after a finished series: the totals of its last
/// record, and the reports of its last seven records, with zero for what a
/// shorter series lacks.
pub open spec fn resumed(prior: Seq<DataPoint>) -> State {
    if prior.len() == 0 {
        State::fresh()
    } else {
        State {
            cases: prior.last().cases.total,
            deaths: prior.last().deaths.total,
            recoveries: prior.last().recoveries.total,
            hospitalisations: prior.last().hospitalisations.total,
            window: Seq::new(7, |slot: int| reported_before(prior, 7 - slot)),
        }
    }
}

/// One record as it leaves the pass, given the state that the records before
/// it have left.
pub open spec fn merged(state: State, point: DataPoint, population: u32) -> DataPoint {
    DataPoint {
        incidence: incidence_of(state.window, population),
        cases: Cases {
            total: reconciled_total(state.cases, point.cases.total, point.cases.increase),
            increase: reconciled_increase(state.cases, point.cases.total, point.cases.increase),
            reported: point.cases.reported,
        },
        deaths: Deaths {
            total: reconciled_total(state.deaths, point.deaths.total, point.deaths.increase),
            increase: reconciled_increase(state.deaths, point.deaths.total, point.deaths.increase),
        },
        recoveries: Recoveries {
            total: reconciled_total(
                state.recoveries,
                point.recoveries.total,
                point.recoveries.increase,
            ),
            increase: reconciled_increase(
                state.recoveries,
                point.recoveries.total,
                point.recoveries.increase,
            ),
        },
        hospitalisations: Hospitalisations {
            total: reconciled_total(
                state.hospitalisations,
                point.hospitalisations.total,
                point.hospitalisations.increase,
            ),
            increase: reconciled_increase(
                state.hospitalisations,
                point.hospitalisations.total,
                point.hospitalisations.increase,
            ),
            beds_in_use: point.hospitalisations.beds_in_use,
        },
        ..point
    }
}

/// The state that a record leaves behind: each counter stands at the record's
/// reconciled total, and the record's report has pushed the oldest one out of
/// the window.
pub open spec fn advanced(state: State, point: DataPoint) -> State {
    State {
        cases: reconciled_total(state.cases, point.cases.total, point.cases.increase),
        deaths: reconciled_total(state.deaths, point.deaths.total, point.deaths.increase),
        recoveries: reconciled_total(
            state.recoveries,
            point.recoveries.total,
            point.recoveries.increase,
        ),
        hospitalisations: reconciled_total(
            state.hospitalisations,
            point.hospitalisations.total,
            point.hospitalisations.increase,
        ),
        window: state.window.drop_first().push(point.cases.reported),
    }
}

/// The state after a pass from `seed` over all of `input`.
pub open spec fn state_after(seed: State, input: Seq<DataPoint>) -> State
    decreases input.len(),
{
    if input.len() == 0 {
        seed
    } else {
        advanced(state_after(seed, input.drop_last()), input.last())
    }
}

/// The series that a pass from `seed` over `input` produces: each record merged
/// with the state that the records before it have left.
pub open spec fn reconciled(seed: State, input: Seq<DataPoint>, population: u32) -> Seq<
    DataPoint,
> {
    Seq::new(
        input.len(),
        |i: int| merged(state_after(seed, input.take(i)), input[i], population),
    )
}

impl Default for Counts {
    fn default() -> (counts: Counts)
        ensures
            counts@ == State::fresh(),
    {
        Counts::new()
    }
}

impl Counts {
    /// The state at the start of a pass over a whole series.
    pub fn new() -> (counts: Counts)
        ensures
            counts@ == State::fresh(),
    {
        let counts = Counts {
            cases: 0,
            deaths: 0,
            recoveries: 0,
            hospitalisations: 0,
            rolling_increase: [0, 0, 0, 0, 0, 0, 0],
        };
        assert(counts@.window =~= State::fresh().window);
        counts
    }

    /// The state to go on from after the finished series `prior`, so that
    /// records fetched later are reconciled as if in the same pass.
    pub fn resume(prior: &Vec<DataPoint>) -> (counts: Counts)
        ensures
            counts@ == resumed(prior@),
    {
        let mut counts = Counts::new();
        let len = prior.len();
        if len == 0 {
            return counts;
        }
        let last = &prior[len - 1];
        counts.cases = last.cases.total;
        counts.deaths = last.deaths.total;
        counts.recoveries = last.recoveries.total;
        counts.hospitalisations = last.hospitalisations.total;
        let mut window: [u32; 7] = [0, 0, 0, 0, 0, 0, 0];
        let mut slot: usize = 0;
        while slot < 7
            invariant
                slot <= 7,
                len == prior.len(),
                forall|j: int| 0 <= j < slot ==> #[trigger] window@[j] == reported_before(prior@, 7 - j),
                forall|j: int| slot <= j < 7 ==> #[trigger] window@[j] == 0,
            decreases 7 - slot,
        {
            let back: usize = 7 - slot;
            if back <= len {
                window[slot] = prior[len - back].cases.reported;
            }
            slot += 1;
        }
        counts.rolling_increase = window;
        assert(counts@.window =~= resumed(prior@).window);
        counts
    }

    /// The reports in the window, summed.
    pub fn window_total(&self) -> (sum: u64)
        ensures
            sum == window_sum(self@.window),
            sum <= 7 * u32::MAX,
    {
        let w = &self.rolling_increase;
        (w[0] as u64) + (w[1] as u64) + (w[2] as u64) + (w[3] as u64) + (w[4] as u64) + (
        w[5] as u64) + (w[6] as u64)
    }
}

/// Reconciles one metric of one record with its running counter, and gives the
/// record's total and increase; the total is the counter's next value.
pub fn reconcile(counter: u32, total: u32, increase: u32) -> (res: (u32, u32))
    ensures
        res.0 == reconciled_total(counter, total, increase),
        res.1 == reconciled_increase(counter, total, increase),
{
    if total > 0 {
        (total, total.saturating_sub(counter))
    } else {
        (counter.saturating_add(increase), increase)
    }
}

/// Finishes one record against the running state, and advances the state past
/// it. The incidence is taken from the window before the record's own report
/// enters it. Without a population there is no incidence: the record is not
/// merged and the state stays.
pub fn merge(pop: u32, counts: &mut Counts, data_point: DataPoint) -> (res: Result<
    DataPoint,
    DataError,
>)
    ensures
        pop == 0 ==> res == Err::<DataPoint, DataError>(DataError::InvalidPopulation) && *final(counts)
            == *old(counts),
        pop != 0 ==> res == Ok::<DataPoint, DataError>(merged(old(counts)@, data_point, pop))
            && final(counts)@ == advanced(old(counts)@, data_point),
{
    if pop == 0 {
        return Err(DataError::InvalidPopulation);
    }
    let mut data_point = data_point;
    let sum = counts.window_total();
    data_point.incidence = Incidence { scaled_cases: sum * PER_INHABITANTS, population: pop };

    let w = counts.rolling_increase;
    counts.rolling_increase = [w[1], w[2], w[3], w[4], w[5], w[6], data_point.cases.reported];
    assert(counts.rolling_increase@ =~= w@.drop_first().push(data_point.cases.reported));

    let (total, increase) = reconcile(
        counts.cases,
        data_point.cases.total,
        data_point.cases.increase,
    );
    data_point.cases.total = total;
    data_point.cases.increase = increase;
    counts.cases = total;

    let (total, increase) = reconcile(
        counts.deaths,
        data_point.deaths.total,
        data_point.deaths.increase,
    );
    data_point.deaths.total = total;
    data_point.deaths.increase = increase;
    counts.deaths = total;

    let (total, increase) = reconcile(
        counts.recoveries,
        data_point.recoveries.total,
        data_point.recoveries.increase,
    );
    data_point.recoveries.total = total;
    data_point.recoveries.increase = increase;
    counts.recoveries = total;

    let (total, increase) = reconcile(
        counts.hospitalisations,
        data_point.hospitalisations.total,
        data_point.hospitalisations.increase,
    );
    data_point.hospitalisations.total = total;
    data_point.hospitalisations.increase = increase;
    counts.hospitalisations = total;

    Ok(data_point)
}

/// A pass over `b` that starts where a pass over `a` stopped does what one
/// pass over `a` followed by `b` does: the same records, the same state.
pub proof fn lemma_pass_continues(seed: State, a: Seq<DataPoint>, b: Seq<DataPoint>, population: u32)
    ensures
        state_after(seed, a + b) == state_after(state_after(seed, a), b),
        reconciled(seed, a + b, population) == reconciled(seed, a, population) + reconciled(
            state_after(seed, a),
            b,
            population,
        ),
    decreases b.len(),
{
    lemma_state_continues(seed, a, b);
    let whole = reconciled(seed, a + b, population);
    let parts = reconciled(seed, a, population) + reconciled(state_after(seed, a), b, population);
    assert forall|i: int| 0 <= i < whole.len() implies whole[i] == parts[i] by {
        if i < a.len() {
            assert((a + b).take(i) =~= a.take(i));
        } else {
            assert((a + b).take(i) =~= a + b.take(i - a.len()));
            lemma_state_continues(seed, a, b.take(i - a.len()));
        }
    }
    assert(whole =~= parts);
}

/// The state after `a` followed by `b` is the state after `b`, begun from the
/// state after `a`.
pub proof fn lemma_state_continues(seed: State, a: Seq<DataPoint>, b: Seq<DataPoint>)
    ensures
        state_after(seed, a + b) == state_after(state_after(seed, a), b),
    decreases b.len(),
{
    if b.len() == 0 {
        assert(a + b =~= a);
    } else {
        assert((a + b).drop_last() =~= a + b.drop_last());
        assert((a + b).last() == b.last());
        lemma_state_continues(seed, a, b.drop_last());
    }
}

/// Runs the pass over `data_points` from the state `seed`, and gives the
/// finished records with the state that they leave, for a later pass to go on
/// from. Fails without a population, and only then.
pub fn continue_data(seed: Counts, data_points: Vec<DataPoint>, population: u32) -> (res: Result<
    (Vec<DataPoint>, Counts),
    DataError,
>)
    ensures
        population == 0 ==> res == Err::<(Vec<DataPoint>, Counts), DataError>(
            DataError::InvalidPopulation,
        ),
        population != 0 ==> res is Ok,
        res matches Ok((data, counts)) ==> {
            &&& data@ == reconciled(seed@, data_points@, population)
            &&& counts@ == state_after(seed@, data_points@)
            &&& data@.len() == data_points@.len()
            &&& forall|i: int|
                0 <= i < data@.len() ==> (#[trigger] data@[i]).dates == data_points@[i].dates
        },
{
    if population == 0 {
        return Err(DataError::InvalidPopulation);
    }
    let mut counts = seed;
    let mut data: Vec<DataPoint> = Vec::new();
    let ghost input = data_points@;
    for data_point in it: data_points.into_iter()
        invariant
            population != 0,
            it.seq() == input,
            counts@ == state_after(seed@, input.take(it.index() as int)),
            data@ == reconciled(seed@, input.take(it.index() as int), population),
    {
        let ghost done = input.take(it.index() as int);
        let ghost next = input.take(it.index() + 1);
        proof {
            assert(next =~= done + seq![data_point]);
            lemma_pass_continues(seed@, done, seq![data_point], population);
            assert(seq![data_point].drop_last() =~= Seq::<DataPoint>::empty());
            assert(seq![data_point].take(0) =~= Seq::<DataPoint>::empty());
            assert(state_after(counts@, Seq::<DataPoint>::empty()) == counts@);
            assert(state_after(counts@, seq![data_point]) == advanced(counts@, data_point));
            assert(reconciled(counts@, seq![data_point], population) =~= seq![
                merged(counts@, data_point, population),
            ]);
        }
        match merge(population, &mut counts, data_point) {
            Ok(merged_point) => {
                data.push(merged_point);
            },
            Err(e) => {
                return Err(e);
            },
        }
    }
    assert(input.take(input.len() as int) =~= input);
    Ok((data, counts))
}

/// The records of all `parts`, in order, as one series.
pub open spec fn concatenated(parts: Seq<Vec<DataPoint>>) -> Seq<DataPoint> {
    parts.map_values(|part: Vec<DataPoint>| part@).flatten()
}

/// Reconciles the parts of a series, oldest part first, in one pass from the
/// fresh state: every record leaves with a total and an increase that agree
/// with the records before it, and with the incidence of the week before
/// it. Fails without a population, and only then.
pub fn correct_data(data_points: Vec<Vec<DataPoint>>, population: u32) -> (res: Result<
    Vec<DataPoint>,
    DataError,
>)
    ensures
        population == 0 ==> res == Err::<Vec<DataPoint>, DataError>(DataError::InvalidPopulation),
        population != 0 ==> res is Ok,
        res matches Ok(data) ==> {
            &&& data@ == reconciled(State::fresh(), concatenated(data_points@), population)
            &&& data@.len() == concatenated(data_points@).len()
            &&& forall|i: int|
                0 <= i < data@.len() ==> (#[trigger] data@[i]).dates == concatenated(
                    data_points@,
                )[i].dates
        },
{
    if population == 0 {
        return Err(DataError::InvalidPopulation);
    }
    let mut counts = Counts::new();
    let mut data: Vec<DataPoint> = Vec::new();
    let ghost parts = data_points@;
    proof {
        assert(parts.take(0) =~= Seq::<Vec<DataPoint>>::empty());
        assert(concatenated(parts.take(0)) =~= Seq::<DataPoint>::empty());
    }
    for part in it: data_points.into_iter()
        invariant
            population != 0,
            it.seq() == parts,
            counts@ == state_after(State::fresh(), concatenated(parts.take(it.index() as int))),
            data@ == reconciled(
                State::fresh(),
                concatenated(parts.take(it.index() as int)),
                population,
            ),
    {
        proof {
            let views = |part: Vec<DataPoint>| part@;
            let done = parts.take(it.index() as int);
            assert(parts.take(it.index() + 1) =~= done.push(part));
            assert(done.push(part).map_values(views) =~= done.map_values(views).push(part@));
            done.map_values(views).lemma_flatten_push(part@);
            lemma_pass_continues(State::fresh(), concatenated(done), part@, population);
        }
        match continue_data(counts, part, population) {
            Ok((mut finished, next)) => {
                data.append(&mut finished);
                counts = next;
            },
            Err(e) => {
                return Err(e);
            },
        }
    }
    assert(parts.take(parts.len() as int) =~= parts);
    Ok(data)
}

/// The sources part their fields with a semicolon, which is this byte.
pub const DELIMITER: u8 = 59;

/// That a character is one of the ten decimal digits.
pub open spec fn is_digit(c: char) -> bool {
    '0' <= c <= '9'
}

/// That a text holds decimal digits and nothing else.
pub open spec fn all_digits(text: Seq<char>) -> bool {
    forall|i: int| 0 <= i < text.len() ==> is_digit(#[trigger] text[i])
}

/// The number that a run of decimal digits writes.
pub open spec fn digits_value(digits: Seq<char>) -> nat
    decreases digits.len(),
{
    if digits.len() == 0 {
        0
    } else {
        (digits_value(digits.drop_last()) * 10 + (digits.last() as int - '0' as int)) as nat
    }
}

/// The number that `text` writes in decimal, if it writes one that a `u32`
/// holds: digits and nothing else, but for one `+` that may stand before them.
pub open spec fn decimal_u32(text: Seq<char>) -> Option<u32> {
    let digits = if text.len() > 0 && text[0] == '+' {
        text.drop_first()
    } else {
        text
    };
    if digits.len() > 0 && all_digits(digits) && digits_value(digits) <= u32::MAX {
        Some(digits_value(digits) as u32)
    } else {
        None
    }
}

/// The number that `text` writes; text that writes none is malformed.
pub open spec fn number_in(text: Seq<char>) -> Result<u32, DataError> {
    match decimal_u32(text) {
        Some(number) => Ok(number),
        None => Err(DataError::MalformedField),
    }
}

/// A run of digits writes no less than any run that it begins with.
pub proof fn lemma_digits_grow(digits: Seq<char>, n: int)
    requires
        0 <= n <= digits.len(),
        all_digits(digits),
    ensures
        digits_value(digits.take(n)) <= digits_value(digits),
    decreases digits.len(),
{
    if n == digits.len() {
        assert(digits.take(n) =~= digits);
    } else {
        assert(digits.drop_last().take(n) =~= digits.take(n));
        lemma_digits_grow(digits.drop_last(), n);
    }
}

/// Reads a count as the sources write it: in decimal digits, with at most a
/// `+` before them. Anything else, and a number too large for a `u32`, is
/// malformed.
pub fn parse_number(text: &str) -> (res: Result<u32, DataError>)
    ensures
        res == number_in(text@),
{
    let len = text.unicode_len();
    let mut at: usize = 0;
    if len > 0 && text.get_char(0) == '+' {
        at = 1;
    }
    let start = at;
    let ghost digits = text@.skip(start as int);
    assert(digits =~= if text@.len() > 0 && text@[0] == '+' {
        text@.drop_first()
    } else {
        text@
    });
    if at == len {
        return Err(DataError::MalformedField);
    }
    let mut value: u32 = 0;
    assert(digits.take(0) =~= Seq::<char>::empty());
    while at < len
        invariant
            start <= at <= len,
            len == text@.len(),
            digits == text@.skip(start as int),
            digits == if text@.len() > 0 && text@[0] == '+' {
                text@.drop_first()
            } else {
                text@
            },
            forall|i: int| 0 <= i < at - start ==> is_digit(#[trigger] digits[i]),
            value == digits_value(digits.take(at - start)),
        decreases len - at,
    {
        let c = text.get_char(at);
        assert(c == digits[at - start]);
        if c < '0' || c > '9' {
            assert(!is_digit(digits[at - start]));
            return Err(DataError::MalformedField);
        }
        let digit: u32 = (c as u32) - ('0' as u32);
        proof {
            let next = digits.take(at - start + 1);
            assert(next.drop_last() =~= digits.take(at - start));
            assert(next.last() == c);
            assert(digits_value(next) == value * 10 + digit);
            if all_digits(digits) {
                lemma_digits_grow(digits, at - start + 1);
            }
        }
        let tens = match value.checked_mul(10) {
            Some(tens) => tens,
            None => {
                return Err(DataError::MalformedField);
            },
        };
        value = match tens.checked_add(digit) {
            Some(sum) => sum,
            None => {
                return Err(DataError::MalformedField);
            },
        };
        at += 1;
    }
    assert(digits.take(digits.len() as int) =~= digits);
    Ok(value)
}

/// That a row of the bulk export can be read: it reaches to the last column
/// that is read, its first field is a date, and the read columns hold counts.
pub open spec fn row_readable(row: Seq<Seq<char>>) -> bool {
    &&& row.len() >= 13
    &&& parsed_day(row[0], hyphenated()) is Some
    &&& decimal_u32(row[4]) is Some
    &&& decimal_u32(row[5]) is Some
    &&& decimal_u32(row[7]) is Some
    &&& decimal_u32(row[8]) is Some
    &&& decimal_u32(row[9]) is Some
    &&& decimal_u32(row[10]) is Some
    &&& decimal_u32(row[11]) is Some
    &&& decimal_u32(row[12]) is Some
}

/// The record that a readable row of the bulk export stands for.
pub open spec fn row_attributes(object_id: u32, row: Seq<Seq<char>>) -> ApiAttributes {
    ApiAttributes {
        object_id,
        date: Some(Day { days_from_ce: parsed_day(row[0], hyphenated())->0 }),
        date_ts: None,
        date_range: None,
        show: false,
        cases_total: decimal_u32(row[5]),
        cases_increase: None,
        cases_reported: decimal_u32(row[4]),
        deaths_total: decimal_u32(row[10]),
        deaths_increase: decimal_u32(row[9]),
        recoveries_total: decimal_u32(row[12]),
        recoveries_increase: decimal_u32(row[11]),
        hospitalisations_total: decimal_u32(row[8]),
        hospitalisations_increase: decimal_u32(row[7]),
        hospitalisations_beds_in_use: None,
    }
}

/// That every row of a table can be read and can be numbered.
pub open spec fn history_readable(table: Seq<Seq<Seq<char>>>) -> bool {
    &&& table.len() <= u32::MAX
    &&& forall|i: int| 0 <= i < table.len() ==> row_readable(#[trigger] table[i])
}

/// That `points` are the rows of `table`, each normalized, in the same order,
/// numbered from one.
pub open spec fn is_history_of(points: Seq<DataPoint>, table: Seq<Seq<Seq<char>>>) -> bool {
    &&& points.len() == table.len()
    &&& forall|i: int|
        0 <= i < points.len() ==> normalizes(
            row_attributes((i + 1) as u32, table[i]),
            #[trigger] points[i],
        )
}

fn count_at(row: &Vec<String>, column: usize) -> (res: Result<u32, DataError>)
    requires
        column < row@.len(),
    ensures
        res == number_in(row_text(*row)[column as int]),
{
    parse_number(row[column].as_str())
}

/// Reads one row of the bulk export as the record with the given number.
pub fn attributes_from_row(object_id: u32, row: &Vec<String>) -> (res: Result<
    ApiAttributes,
    DataError,
>)
    ensures
        res is Ok <==> row_readable(row_text(*row)),
        res is Err ==> res == Err::<ApiAttributes, DataError>(DataError::MalformedField),
        res matches Ok(attributes) ==> attributes == row_attributes(object_id, row_text(*row)),
{
    if row.len() < 13 {
        return Err(DataError::MalformedField);
    }
    let date = match parse_hyphenated(row[0].as_str()) {
        Ok(date) => date,
        Err(e) => {
            return Err(e);
        },
    };
    let cases_reported = match count_at(row, 4) {
        Ok(number) => number,
        Err(e) => {
            return Err(e);
        },
    };
    let cases_total = match count_at(row, 5) {
        Ok(number) => number,
        Err(e) => {
            return Err(e);
        },
    };
    let hospitalisations_increase = match count_at(row, 7) {
        Ok(number) => number,
        Err(e) => {
            return Err(e);
        },
    };
    let hospitalisations_total = match count_at(row, 8) {
        Ok(number) => number,
        Err(e) => {
            return Err(e);
        },
    };
    let deaths_increase = match count_at(row, 9) {
        Ok(number) => number,
        Err(e) => {
            return Err(e);
        },
    };
    let deaths_total = match count_at(row, 10) {
        Ok(number) => number,
        Err(e) => {
            return Err(e);
        },
    };
    let recoveries_increase = match count_at(row, 11) {
        Ok(number) => number,
        Err(e) => {
            return Err(e);
        },
    };
    let recoveries_total = match count_at(row, 12) {
        Ok(number) => number,
        Err(e) => {
            return Err(e);
        },
    };
    Ok(
        ApiAttributes {
            object_id,
            date: Some(date),
            date_ts: None,
            date_range: None,
            show: false,
            cases_total: Some(cases_total),
            cases_increase: None,
            cases_reported: Some(cases_reported),
            deaths_total: Some(deaths_total),
            deaths_increase: Some(deaths_increase),
            recoveries_total: Some(recoveries_total),
            recoveries_increase: Some(recoveries_increase),
            hospitalisations_total: Some(hospitalisations_total),
            hospitalisations_increase: Some(hospitalisations_increase),
            hospitalisations_beds_in_use: None,
        },
    )
}

/// Reads the rows of the bulk export, oldest first, as normalized records
/// numbered from one. One row that cannot be read spoils the whole: left out,
/// it would be missing from every total after it.
pub fn history_from_rows(rows: &Vec<Vec<String>>) -> (res: Result<Vec<DataPoint>, DataError>)
    ensures
        res is Ok <==> history_readable(table_text(rows@)),
        res is Err ==> res == Err::<Vec<DataPoint>, DataError>(DataError::MalformedField),
        res matches Ok(points) ==> is_history_of(points@, table_text(rows@)),
{
    let ghost table = table_text(rows@);
    if rows.len() > u32::MAX as usize {
        return Err(DataError::MalformedField);
    }
    let mut points: Vec<DataPoint> = Vec::new();
    let mut id: usize = 0;
    while id < rows.len()
        invariant
            id <= rows.len() <= u32::MAX,
            table == table_text(rows@),
            points.len() == id,
            forall|i: int| 0 <= i < id ==> row_readable(#[trigger] table[i]),
            forall|i: int|
                0 <= i < id ==> normalizes(
                    row_attributes((i + 1) as u32, table[i]),
                    #[trigger] points[i],
                ),
        decreases rows.len() - id,
    {
        assert(table[id as int] == row_text(rows@[id as int]));
        let attributes = match attributes_from_row(id as u32 + 1, &rows[id]) {
            Ok(attributes) => attributes,
            Err(e) => {
                return Err(e);
            },
        };
        let point = match DataPoint::try_from(ApiFeatures { attributes }) {
            Ok(point) => point,
            Err(e) => {
                return Err(e);
            },
        };
        points.push(point);
        id += 1;
    }
    Ok(points)
}

/// Reads the bulk export: the text of a table with a line of headers, one row
/// for each day, oldest first.
pub fn get_full_data(data: &[u8]) -> (res: Result<Vec<DataPoint>, DataError>)
    ensures
        res is Ok <==> (csv_records(data@, DELIMITER) matches Some(table) && history_readable(
            table,
        )),
        res is Err ==> res == Err::<Vec<DataPoint>, DataError>(DataError::MalformedField),
        res matches Ok(points) ==> is_history_of(points@, csv_records(data@, DELIMITER)->0),
{
    match read_records(data, DELIMITER) {
        Ok(rows) => history_from_rows(&rows),
        Err(_) => Err(DataError::MalformedField),
    }
}

/// That `points` are the records of `features`, each normalized, in the same
/// order.
pub open spec fn is_feed_of(points: Seq<DataPoint>, features: Seq<ApiFeatures>) -> bool {
    &&& points.len() == features.len()
    &&& forall|i: int|
        0 <= i < points.len() ==> normalizes(features[i].attributes, #[trigger] points[i])
}

/// Normalizes what the incremental feed answered. The feed is asked for the
/// records after those that the bulk export held; a record of it without a date
/// spoils the whole.
pub fn get_current_data(response: ApiResponse) -> (res: Result<Vec<DataPoint>, DataError>)
    ensures
        res is Ok <==> (forall|i: int|
            0 <= i < response.features@.len() ==> (
            #[trigger] response.features@[i]).attributes.date is Some),
        res is Err ==> res == Err::<Vec<DataPoint>, DataError>(DataError::MissingDate),
        res matches Ok(points) ==> is_feed_of(points@, response.features@),
{
    let ghost features = response.features@;
    let mut points: Vec<DataPoint> = Vec::new();
    for feature in it: response.features.into_iter()
        invariant
            it.seq() == features,
            points.len() == it.index(),
            forall|i: int| 0 <= i < it.index() ==> (#[trigger] features[i]).attributes.date is Some,
            forall|i: int|
                0 <= i < it.index() ==> normalizes(features[i].attributes, #[trigger] points[i]),
    {
        match DataPoint::try_from(feature) {
            Ok(point) => {
                points.push(point);
            },
            Err(e) => {
                return Err(e);
            },
        }
    }
    Ok(points)
}

/// The inhabitants that one record of the population table counts: the number
/// in its last field.
pub open spec fn district_population(record: Seq<Seq<u8>>) -> Option<u32> {
    if record.len() == 0 || !valid_utf8(record.last()) {
        None
    } else {
        decimal_u32(decode_utf8(record.last()))
    }
}

/// That every record of the population table counts inhabitants.
pub open spec fn population_readable(table: Seq<Seq<Seq<u8>>>) -> bool {
    forall|i: int| 0 <= i < table.len() ==> district_population(#[trigger] table[i]) is Some
}

/// The inhabitants that the records of the population table count together.
pub open spec fn population_of(table: Seq<Seq<Seq<u8>>>) -> nat
    decreases table.len(),
{
    if table.len() == 0 {
        0
    } else {
        population_of(table.drop_last()) + match district_population(table.last()) {
            Some(number) => number as nat,
            None => 0,
        }
    }
}

/// The first records of a table count no more inhabitants than all of them.
pub proof fn lemma_population_grows(table: Seq<Seq<Seq<u8>>>, n: int)
    requires
        0 <= n <= table.len(),
    ensures
        population_of(table.take(n)) <= population_of(table),
    decreases table.len(),
{
    if n == table.len() {
        assert(table.take(n) =~= table);
    } else {
        assert(table.drop_last().take(n) =~= table.take(n));
        lemma_population_grows(table.drop_last(), n);
    }
}

/// Sums the last field of every record of the population table. A record
/// without fields, a last field that is no count, or a sum beyond what the
/// incidence can be related to, spoils the whole.
pub fn population_from_records(records: &Vec<Vec<Vec<u8>>>) -> (res: Result<u32, DataError>)
    ensures
        res is Ok <==> population_readable(table_bytes(records@)) && population_of(
            table_bytes(records@),
        ) <= u32::MAX,
        res is Err ==> res == Err::<u32, DataError>(DataError::MalformedField),
        res matches Ok(total) ==> total == population_of(table_bytes(records@)),
{
    let ghost table = table_bytes(records@);
    let mut total: u32 = 0;
    let mut i: usize = 0;
    assert(table.take(0) =~= Seq::<Seq<Seq<u8>>>::empty());
    while i < records.len()
        invariant
            i <= records.len(),
            table == table_bytes(records@),
            total == population_of(table.take(i as int)),
            forall|k: int| 0 <= k < i ==> district_population(#[trigger] table[k]) is Some,
        decreases records.len() - i,
    {
        let record = &records[i];
        proof {
            assert(table[i as int] == row_bytes(records@[i as int]));
            assert(table.take(i + 1).drop_last() =~= table.take(i as int));
            assert(table.take(i + 1).last() == table[i as int]);
            lemma_population_grows(table, i + 1);
        }
        if record.len() == 0 {
            return Err(DataError::MalformedField);
        }
        assert(table[i as int].last() == record@[record@.len() - 1]@);
        let text = match text_of(record[record.len() - 1].as_slice()) {
            Ok(text) => text,
            Err(_) => {
                return Err(DataError::MalformedField);
            },
        };
        let number = match parse_number(text) {
            Ok(number) => number,
            Err(e) => {
                return Err(e);
            },
        };
        total = match total.checked_add(number) {
            Some(sum) => sum,
            None => {
                return Err(DataError::MalformedField);
            },
        };
        i += 1;
    }
    assert(table.take(table.len() as int) =~= table);
    Ok(total)
}

/// Reads the population table: text with a line of headers and one record for
/// each district, of which the last field counts the inhabitants.
pub fn populace(data: &[u8]) -> (res: Result<u32, DataError>)
    ensures
        res is Ok <==> (csv_byte_records(data@, DELIMITER) matches Some(table)
            && population_readable(table) && population_of(table) <= u32::MAX),
        res is Err ==> res == Err::<u32, DataError>(DataError::MalformedField),
        res matches Ok(total) ==> total == population_of(csv_byte_records(data@, DELIMITER)->0),
{
    match read_byte_records(data, DELIMITER) {
        Ok(records) => population_from_records(&records),
        Err(_) => Err(DataError::MalformedField),
    }
}

} // verus!

//! One run from configuration to converted series, and the rows that the
//! output sinks receive.
use crate::config::{lemma_tick_count_covers_duration, DeviceError, RunConfig, RunError, MICROS_PER_SECOND};
use crate::convert::{convert_series, physical_of, pressure_of, PhysicalSample, RawSample};
use crate::sampler::{
    initial_state, lemma_step_progress, next_state, state_wf, steps_left, Action, Event, Phase,
    Sampler,
};
use vstd::prelude::*;

verus! {

/// The answer of a scripted device to its `j`-th read: the `j`-th reading, or
/// a conversion failure once the script is used up.
pub open spec fn reading_at(readings: Seq<Result<i16, DeviceError>>, j: int) -> Result<
    i16,
    DeviceError,
> {
    if 0 <= j < readings.len() {
        readings[j]
    } else {
        Err(DeviceError::Conversion)
    }
}

/// Whether the first `n` reads of a script all succeed.
pub open spec fn reads_succeed(readings: Seq<Result<i16, DeviceError>>, n: int) -> bool {
    forall|j: int| 0 <= j < n ==> (#[trigger] reading_at(readings, j)) is Ok
}

/// The raw sample of tick `k`: read `2k` on channel "in", read `2k + 1` on
/// channel "out".
pub open spec fn tick_sample(readings: Seq<Result<i16, DeviceError>>, k: int) -> RawSample {
    RawSample {
        code_in: reading_at(readings, 2 * k)->Ok_0,
        code_out: reading_at(readings, 2 * k + 1)->Ok_0,
    }
}

/// The outcome of a run against a device that answers its reads, in order,
/// as the script says.
pub open spec fn scripted_outcome(config: RunConfig, readings: Seq<Result<i16, DeviceError>>) -> Result<
    Seq<PhysicalSample>,
    RunError,
> {
    let n = config.ticks_spec();
    if config.error_spec() is Some {
        Err(RunError::InvalidConfig(config.error_spec()->0))
    } else if reads_succeed(readings, 2 * n) {
        Ok(
            Seq::new(
                n as nat,
                |k: int| physical_of(config.multiplier_millionths as int, tick_sample(readings, k)),
            ),
        )
    } else {
        let j = choose|j: int|
            0 <= j < 2 * n && reads_succeed(readings, j) && reading_at(readings, j) is Err;
        Err(RunError::Device(reading_at(readings, j)->Err_0))
    }
}

/// When some read among the first `n` fails, there is exactly one first
/// failing read.
pub proof fn lemma_first_failure(readings: Seq<Result<i16, DeviceError>>, n: int)
    requires
        !reads_succeed(readings, n),
    ensures
        exists|j: int| 0 <= j < n && reads_succeed(readings, j) && reading_at(readings, j) is Err,
        forall|i: int, j: int|
            0 <= i < n && reads_succeed(readings, i) && reading_at(readings, i) is Err && 0 <= j
                < n && reads_succeed(readings, j) && reading_at(readings, j) is Err ==> i == j,
    decreases n,
{
    if reads_succeed(readings, n - 1) {
        assert(reading_at(readings, n - 1) is Err);
        assert(reads_succeed(readings, n - 1) && reading_at(readings, n - 1) is Err);
    } else {
        lemma_first_failure(readings, n - 1);
    }
    assert forall|i: int, j: int|
        0 <= i < n && reads_succeed(readings, i) && reading_at(readings, i) is Err && 0 <= j < n
            && reads_succeed(readings, j) && reading_at(readings, j) is Err implies i == j by {
        if i < j {
            assert(reading_at(readings, i) is Ok);
        } else if j < i {
            assert(reading_at(readings, j) is Ok);
        }
    }
}

/// Runs a configuration against a device that answers its reads, in order,
/// as `readings` says (sleeps are skipped), and converts the series.
///
/// The run either fails as a whole, with the error of the first failing read
/// (a script that runs out fails with a conversion error), or yields one pair
/// per tick, the pair of tick `k` built from reads `2k` ("in") and `2k + 1`
/// ("out"). Readings past those that the ticks need are not used.
pub fn run_scripted(config: &RunConfig, readings: &Vec<Result<i16, DeviceError>>) -> (r: Result<
    Vec<PhysicalSample>,
    RunError,
>)
    ensures
        r is Ok ==> scripted_outcome(*config, readings@) == Ok::<Seq<PhysicalSample>, RunError>(
            r->Ok_0@,
        ),
        r is Err ==> scripted_outcome(*config, readings@) == Err::<Seq<PhysicalSample>, RunError>(
            r->Err_0,
        ),
{
    let mut sampler = match Sampler::new(config) {
        Ok(s) => s,
        Err(e) => {
            return Err(e);
        },
    };
    let ghost reads = readings@;
    let ghost total = config.ticks_spec();
    let ghost mut last_read: int = 0;
    let mut idx: usize = 0;
    loop
        invariant
            state_wf(sampler@),
            config.error_spec() is None,
            sampler@.total == total,
            total == config.ticks_spec(),
            reads == readings@,
            idx <= readings@.len(),
            forall|k: int|
                0 <= k < sampler@.samples.len() ==> #[trigger] sampler@.samples[k] == tick_sample(
                    reads,
                    k,
                ),
            sampler@.phase is ReadIn ==> idx == 2 * sampler@.samples.len() && reads_succeed(
                reads,
                idx as int,
            ),
            sampler@.phase is Sleep ==> idx == 2 * sampler@.samples.len() && reads_succeed(
                reads,
                idx as int,
            ),
            sampler@.phase is Finished ==> idx == 2 * total && reads_succeed(reads, idx as int),
            sampler@.phase matches Phase::ReadOut(c) ==> idx == 2 * sampler@.samples.len() + 1
                && reads_succeed(reads, idx as int) && reading_at(reads, idx - 1) == Ok::<
                i16,
                DeviceError,
            >(c),
            sampler@.phase matches Phase::Failed(e) ==> 0 <= last_read < 2 * total && reads_succeed(
                reads,
                last_read,
            ) && reading_at(reads, last_read) == Err::<i16, DeviceError>(e),
        ensures
            sampler@.phase is Finished,
        decreases steps_left(sampler@),
    {
        let ghost before = sampler@;
        match sampler.action() {
            Action::Read(_) => {
                let event = if idx < readings.len() {
                    match readings[idx] {
                        Ok(c) => Event::Code(c),
                        Err(e) => Event::ReadFailed(e),
                    }
                } else {
                    Event::ReadFailed(DeviceError::Conversion)
                };
                proof {
                    last_read = idx as int;
                    assert(event == match reading_at(reads, idx as int) {
                        Ok(c) => Event::Code(c),
                        Err(e) => Event::ReadFailed(e),
                    });
                }
                sampler.on_event(event);
                if idx < readings.len() {
                    idx = idx + 1;
                }
                proof {
                    lemma_step_progress(before, event);
                    if sampler@.phase is ReadOut || sampler@.phase is Sleep {
                        assert(reads_succeed(reads, idx as int)) by {
                            assert forall|j: int| 0 <= j < idx implies #[trigger] reading_at(
                                reads,
                                j,
                            ) is Ok by {
                                if j < last_read {
                                    assert(reading_at(reads, j) is Ok);
                                }
                            }
                        }
                    }
                    if sampler@.phase is Sleep {
                        let k = sampler@.samples.len() - 1;
                        assert(sampler@.samples[k] == tick_sample(reads, k));
                    }
                }
            },
            Action::Sleep(_) => {
                sampler.on_event(Event::Slept);
                proof {
                    lemma_step_progress(before, Event::Slept);
                }
            },
            Action::Finished => {
                break ;
            },
            Action::Failed(e) => {
                proof {
                    assert(before.phase == Phase::Failed(e));
                    assert(reading_at(readings@, last_read) is Err);
                    lemma_failure_discards_series(*config, readings@, last_read);
                }
                return Err(RunError::Device(e));
            },
        }
    }
    let raw = sampler.into_samples();
    let series = convert_series(config.multiplier_millionths, &raw);
    proof {
        let expected = Seq::new(
            total as nat,
            |k: int| physical_of(config.multiplier_millionths as int, tick_sample(reads, k)),
        );
        assert forall|k: int| 0 <= k < total implies #[trigger] raw@[k] == tick_sample(reads, k) by {
            assert(sampler@.samples[k] == tick_sample(reads, k));
        }
        assert(series@ =~= expected);
    }
    Ok(series)
}

/// A successful run yields `floor(duration / interval) + 1` samples: the
/// ticks `k * interval` for every `k` with `k * interval <= duration`.
pub proof fn lemma_run_length(config: RunConfig, readings: Seq<Result<i16, DeviceError>>)
    requires
        config.duration_seconds >= 0,
        config.interval_micros > 0,
    ensures
        scripted_outcome(config, readings) is Ok ==> scripted_outcome(config, readings)->Ok_0.len()
            == (config.duration_seconds * MICROS_PER_SECOND) / (config.interval_micros as int) + 1,
        (config.ticks_spec() - 1) * config.interval_micros <= config.duration_seconds
            * MICROS_PER_SECOND < config.ticks_spec() * config.interval_micros,
{
    lemma_tick_count_covers_duration(config.duration_seconds as int, config.interval_micros as int);
}

/// A run fails as a whole: when a read among those that the ticks need fails,
/// the run yields that read's error and no samples at all, whatever the reads
/// before it gave.
pub proof fn lemma_failure_discards_series(
    config: RunConfig,
    readings: Seq<Result<i16, DeviceError>>,
    j: int,
)
    requires
        config.error_spec() is None,
        0 <= j < 2 * config.ticks_spec(),
        reads_succeed(readings, j),
        reading_at(readings, j) is Err,
    ensures
        scripted_outcome(config, readings) == Err::<Seq<PhysicalSample>, RunError>(
            RunError::Device(reading_at(readings, j)->Err_0),
        ),
{
    let n = config.ticks_spec();
    assert(!reads_succeed(readings, 2 * n));
    lemma_first_failure(readings, 2 * n);
}

/// The channels are never mixed: in a successful run, the "in" pressure of
/// sample `k` is the conversion of the "in" read of tick `k`, and the "out"
/// pressure that of the "out" read of the same tick.
pub proof fn lemma_channels_kept_apart(
    config: RunConfig,
    readings: Seq<Result<i16, DeviceError>>,
    k: int,
)
    requires
        scripted_outcome(config, readings) is Ok,
        0 <= k < scripted_outcome(config, readings)->Ok_0.len(),
    ensures
        reading_at(readings, 2 * k) is Ok,
        reading_at(readings, 2 * k + 1) is Ok,
        scripted_outcome(config, readings)->Ok_0[k].pressure_in == pressure_of(
            config.multiplier_millionths as int,
            reading_at(readings, 2 * k)->Ok_0 as int,
        ),
        scripted_outcome(config, readings)->Ok_0[k].pressure_out == pressure_of(
            config.multiplier_millionths as int,
            reading_at(readings, 2 * k + 1)->Ok_0 as int,
        ),
{
    crate::convert::lemma_pressure_bounds(
        config.multiplier_millionths as int,
        reading_at(readings, 2 * k)->Ok_0 as int,
    );
    crate::convert::lemma_pressure_bounds(
        config.multiplier_millionths as int,
        reading_at(readings, 2 * k + 1)->Ok_0 as int,
    );
}

/// One row of the output: the nominal time of a sample, `k * interval`, and
/// its two pressures.
#[derive(Clone, Copy, Debug, PartialEq, Eq, Structural)]
pub struct Row {
    pub elapsed_micros: u128,
    pub pressure_in: i128,
    pub pressure_out: i128,
}

/// The row of sample `k` of a series taken at this interval.
pub open spec fn row_of(interval_micros: int, k: int, s: PhysicalSample) -> Row {
    Row {
        elapsed_micros: (k * interval_micros) as u128,
        pressure_in: s.pressure_in,
        pressure_out: s.pressure_out,
    }
}

/// The rows that the chart and the spreadsheet receive, one per sample, in
/// the order of the series.
pub fn rows(interval_micros: u64, series: &Vec<PhysicalSample>) -> (r: Vec<Row>)
    ensures
        r@.len() == series@.len(),
        forall|k: int|
            0 <= k < series@.len() ==> #[trigger] r@[k] == row_of(
                interval_micros as int,
                k,
                series@[k],
            ),
{
    let mut out: Vec<Row> = Vec::new();
    let mut i: usize = 0;
    while i < series.len()
        invariant
            i <= series@.len(),
            out@.len() == i,
            forall|k: int|
                0 <= k < i ==> #[trigger] out@[k] == row_of(interval_micros as int, k, series@[k]),
        decreases series@.len() - i,
    {
        let s = series[i];
        assert(i as u128 * interval_micros as u128 <= u128::MAX) by (nonlinear_arith)
            requires
                i <= u64::MAX,
                interval_micros <= u64::MAX,
        ;
        let elapsed: u128 = i as u128 * interval_micros as u128;
        out.push(Row { elapsed_micros: elapsed, pressure_in: s.pressure_in, pressure_out: s.pressure_out });
        i = i + 1;
    }
    out
}

} // verus!

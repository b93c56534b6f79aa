use pressure_recorder::config::{ConfigError, DeviceError, RunConfig, RunError};
use pressure_recorder::convert::{
    convert, convert_sample, convert_series, PhysicalSample, RawSample, PRESSURE_DENOMINATOR,
};
use pressure_recorder::pipeline::{rows, run_scripted, Row};
use pressure_recorder::sampler::{Action, Channel, Event, Sampler};

fn config(duration_seconds: i16, interval_micros: i64) -> RunConfig {
    RunConfig { duration_seconds, interval_micros, multiplier_millionths: 1_000_000 }
}

fn constant_script(n: usize, code: i16) -> Vec<Result<i16, DeviceError>> {
    let mut v = Vec::new();
    for _ in 0..n {
        v.push(Ok(code));
    }
    v
}

#[test]
fn sample_count_is_floor_plus_one() {
    assert_eq!(config(1, 500_000).sample_count(), Ok(3));
    assert_eq!(config(30, 100_000).sample_count(), Ok(301));
    assert_eq!(config(1, 300_000).sample_count(), Ok(4));
    assert_eq!(config(0, 1_000_000).sample_count(), Ok(1));
    assert_eq!(config(2, 5_000_000).sample_count(), Ok(1));
    assert_eq!(config(i16::MAX, 1).sample_count(), Ok(32_767_000_001));
}

#[test]
fn zero_or_negative_interval_is_refused() {
    assert_eq!(config(1, 0).sample_count(), Err(ConfigError::NonPositiveInterval));
    assert_eq!(config(1, -500_000).sample_count(), Err(ConfigError::NonPositiveInterval));
    let script = constant_script(10, 4000);
    assert_eq!(
        run_scripted(&config(1, 0), &script),
        Err(RunError::InvalidConfig(ConfigError::NonPositiveInterval))
    );
    assert_eq!(
        run_scripted(&config(1, -1), &script),
        Err(RunError::InvalidConfig(ConfigError::NonPositiveInterval))
    );
    assert!(matches!(
        Sampler::new(&config(1, 0)),
        Err(RunError::InvalidConfig(ConfigError::NonPositiveInterval))
    ));
}

#[test]
fn negative_duration_is_refused() {
    assert_eq!(config(-1, 500_000).sample_count(), Err(ConfigError::NegativeDuration));
    assert_eq!(
        run_scripted(&config(-3, 500_000), &constant_script(4, 1)),
        Err(RunError::InvalidConfig(ConfigError::NegativeDuration))
    );
}

#[test]
fn reference_code_converts_to_exact_pressure() {
    // ((1.0 * 1.0 - 0.5) * 2.5) * 6.89475729 kPa = 8.6184466125 kPa
    let p = convert(1_000_000, 8000);
    assert_eq!(p, 2_757_902_916_000_000_000);
    assert_eq!(p * 10_000_000_000, 86_184_466_125 * PRESSURE_DENOMINATOR);
    let as_float = p as f64 / PRESSURE_DENOMINATOR as f64;
    assert!((as_float - ((1.0f64 * 1.0 - 0.5) * 2.5) * 6.89475729).abs() < 1e-12);
}

#[test]
fn conversion_is_deterministic() {
    for code in [i16::MIN, -1, 0, 1, 4000, 8000, i16::MAX] {
        for m in [i64::MIN, -1, 0, 1_000_000, 1_100_000, i64::MAX] {
            assert_eq!(convert(m, code), convert(m, code));
        }
    }
}

#[test]
fn conversion_examples() {
    // the bottom of the span, 0.5 units, is zero pressure
    assert_eq!(convert(1_000_000, 4000), 0);
    // zero code: (0 - 0.5) * 2.5 * 6.89475729 = -8.6184466125 kPa
    assert_eq!(convert(1_000_000, 0), -2_757_902_916_000_000_000);
    // a multiplier of two doubles the voltage: 4000 acts as 8000
    assert_eq!(convert(2_000_000, 4000), convert(1_000_000, 8000));
    // 4.5 units, the top of the span, is 10 psi = 68.9475729 kPa
    assert_eq!(convert(2_000_000, 18000), 22_063_223_328_000_000_000);
    assert_eq!(convert(2_000_000, 18000) * 10_000_000, 689_475_729 * PRESSURE_DENOMINATOR);
    assert_eq!(convert(i64::MAX, i16::MIN), (i64::MAX as i128 * -32768 - 4_000_000_000) * 689_475_729);
}

#[test]
fn convert_sample_keeps_channels_apart() {
    let s = convert_sample(1_000_000, RawSample { code_in: 8000, code_out: 4000 });
    assert_eq!(s, PhysicalSample { pressure_in: 2_757_902_916_000_000_000, pressure_out: 0 });
    let series = convert_series(
        1_000_000,
        &vec![RawSample { code_in: 0, code_out: 8000 }, RawSample { code_in: 4000, code_out: 0 }],
    );
    assert_eq!(
        series,
        vec![
            PhysicalSample { pressure_in: -2_757_902_916_000_000_000, pressure_out: 2_757_902_916_000_000_000 },
            PhysicalSample { pressure_in: 0, pressure_out: -2_757_902_916_000_000_000 },
        ]
    );
}

#[test]
fn constant_device_gives_three_equal_samples() {
    let r = run_scripted(&config(1, 500_000), &constant_script(6, 4000)).unwrap();
    assert_eq!(r.len(), 3);
    let expected = PhysicalSample { pressure_in: convert(1_000_000, 4000), pressure_out: convert(1_000_000, 4000) };
    for s in &r {
        assert_eq!(*s, expected);
    }
    let table = rows(500_000, &r);
    let times: Vec<u128> = table.iter().map(|row| row.elapsed_micros).collect();
    assert_eq!(times, vec![0, 500_000, 1_000_000]);
}

#[test]
fn failure_on_second_sample_discards_the_run() {
    // five ticks: 0, 1, 2, 3, 4 seconds
    let cfg = config(4, 1_000_000);
    assert_eq!(cfg.sample_count(), Ok(5));
    let mut script = constant_script(10, 4000);
    script[2] = Err(DeviceError::Conversion);
    assert_eq!(run_scripted(&cfg, &script), Err(RunError::Device(DeviceError::Conversion)));
    let mut script = constant_script(10, 4000);
    script[3] = Err(DeviceError::InvalidChannel);
    assert_eq!(run_scripted(&cfg, &script), Err(RunError::Device(DeviceError::InvalidChannel)));
}

#[test]
fn first_failure_wins() {
    let cfg = config(4, 1_000_000);
    let mut script = constant_script(10, 4000);
    script[5] = Err(DeviceError::InvalidChannel);
    script[7] = Err(DeviceError::Conversion);
    assert_eq!(run_scripted(&cfg, &script), Err(RunError::Device(DeviceError::InvalidChannel)));
}

#[test]
fn exhausted_script_fails_and_extra_readings_are_ignored() {
    let cfg = config(4, 1_000_000);
    assert_eq!(
        run_scripted(&cfg, &constant_script(9, 4000)),
        Err(RunError::Device(DeviceError::Conversion))
    );
    let mut script = constant_script(10, 8000);
    script.push(Err(DeviceError::Conversion));
    assert_eq!(run_scripted(&cfg, &script).unwrap().len(), 5);
}

#[test]
fn in_and_out_come_from_the_same_tick() {
    let cfg = config(2, 1_000_000);
    let script: Vec<Result<i16, DeviceError>> =
        vec![Ok(0), Ok(4000), Ok(8000), Ok(12000), Ok(16000), Ok(20000)];
    let r = run_scripted(&cfg, &script).unwrap();
    assert_eq!(r.len(), 3);
    for k in 0..3 {
        let code_in = script[2 * k].unwrap();
        let code_out = script[2 * k + 1].unwrap();
        assert_eq!(r[k].pressure_in, convert(1_000_000, code_in));
        assert_eq!(r[k].pressure_out, convert(1_000_000, code_out));
    }
}

#[test]
fn sampler_asks_in_then_out_then_sleep() {
    let mut s = Sampler::new(&config(1, 500_000)).unwrap();
    let mut trace = Vec::new();
    let mut code: i16 = 0;
    loop {
        let a = s.action();
        trace.push(a);
        match a {
            Action::Read(_) => {
                code += 1;
                s.on_event(Event::Code(code));
            }
            Action::Sleep(_) => s.on_event(Event::Slept),
            Action::Finished | Action::Failed(_) => break,
        }
    }
    let tick = [Action::Read(Channel::In), Action::Read(Channel::Out), Action::Sleep(500_000)];
    let mut expected = Vec::new();
    for _ in 0..3 {
        expected.extend_from_slice(&tick);
    }
    expected.push(Action::Finished);
    assert_eq!(trace, expected);
    let samples = s.into_samples();
    assert_eq!(
        samples,
        vec![
            RawSample { code_in: 1, code_out: 2 },
            RawSample { code_in: 3, code_out: 4 },
            RawSample { code_in: 5, code_out: 6 },
        ]
    );
}

#[test]
fn sampler_ignores_unexpected_events_and_stops_on_failure() {
    let mut s = Sampler::new(&config(0, 1_000)).unwrap();
    s.on_event(Event::Slept);
    assert_eq!(s.action(), Action::Read(Channel::In));
    s.on_event(Event::Code(7));
    assert_eq!(s.action(), Action::Read(Channel::Out));
    s.on_event(Event::ReadFailed(DeviceError::Conversion));
    assert_eq!(s.action(), Action::Failed(DeviceError::Conversion));
    s.on_event(Event::Code(1));
    assert_eq!(s.action(), Action::Failed(DeviceError::Conversion));
}

#[test]
fn rows_carry_nominal_times() {
    let series = vec![
        PhysicalSample { pressure_in: 1, pressure_out: 2 },
        PhysicalSample { pressure_in: 3, pressure_out: 4 },
    ];
    assert_eq!(
        rows(100_000, &series),
        vec![
            Row { elapsed_micros: 0, pressure_in: 1, pressure_out: 2 },
            Row { elapsed_micros: 100_000, pressure_in: 3, pressure_out: 4 },
        ]
    );
    assert_eq!(rows(7, &Vec::new()), Vec::new());
}

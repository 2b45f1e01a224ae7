use env_monitor::error::SensorError;
use env_monitor::sensors::dht11::{
    decode_frame, pulse_bit, start_signal, Dht11Data, Dht11Exchange, Dht11Sensor, ExchangeStep,
    LineCommand, Sample, WaitPhase, BIT_THRESHOLD_NANOS, FRAME_BITS, RESPONSE_DEADLINE_NANOS,
    START_SIGNAL_MILLIS,
};
use env_monitor::sensors::line::Level;

const MICRO: u64 = 1_000;

/// The waveform of one transmission as stretches of a level and their
/// lengths in nanoseconds, with high pulses of `zero` and `one` nanoseconds.
fn waveform(frame: [u8; 5], zero: u64, one: u64) -> Vec<(Level, u64)> {
    let mut line = vec![(Level::High, 30 * MICRO), (Level::Low, 80 * MICRO), (Level::High, 80 * MICRO)];
    for byte in frame {
        for offset in 0..8 {
            line.push((Level::Low, 50 * MICRO));
            let set = byte & (0x80 >> offset) != 0;
            line.push((Level::High, if set { one } else { zero }));
        }
    }
    line.push((Level::Low, 50 * MICRO));
    line
}

/// Samples the waveform every `tick` nanoseconds, the first time at zero.
fn sample_line(line: &[(Level, u64)], tick: u64) -> Vec<Sample> {
    let mut samples = Vec::new();
    let mut begin = 0;
    let mut at = 0;
    for (level, length) in line {
        let end = begin + length;
        while at < end {
            samples.push(Sample { level: *level, elapsed_nanos: at });
            at += tick;
        }
        begin = end;
    }
    samples
}

fn replay(frame: [u8; 5]) -> ExchangeStep {
    let samples = sample_line(&waveform(frame, 27 * MICRO, 70 * MICRO), MICRO);
    Dht11Exchange::new().run(&samples)
}

fn finished(step: ExchangeStep) -> Result<Dht11Data, SensorError> {
    match step {
        ExchangeStep::Finished(outcome) => outcome,
        ExchangeStep::Pending(exchange) => panic!("still pending: {:?}", exchange),
    }
}

fn pending(step: ExchangeStep) -> Dht11Exchange {
    match step {
        ExchangeStep::Pending(exchange) => exchange,
        ExchangeStep::Finished(outcome) => panic!("already finished: {:?}", outcome),
    }
}

fn sample(level: Level, elapsed_nanos: u64) -> Sample {
    Sample { level, elapsed_nanos }
}

#[test]
fn constants_match_the_protocol() {
    assert_eq!(START_SIGNAL_MILLIS, 20);
    assert_eq!(RESPONSE_DEADLINE_NANOS, 100_000_000);
    assert_eq!(BIT_THRESHOLD_NANOS, 40_000);
    assert_eq!(FRAME_BITS, 40);
}

#[test]
fn sensor_remembers_its_pin() {
    assert_eq!(Dht11Sensor::new(17).gpio_pin(), 17);
    assert_eq!(Dht11Sensor::new(0).gpio_pin(), 0);
    assert_eq!(Dht11Sensor::new(255).gpio_pin(), 255);
}

#[test]
fn start_signal_holds_the_line_low_then_releases_it() {
    assert_eq!(
        start_signal(),
        [
            LineCommand::Drive(Level::Low),
            LineCommand::Hold { millis: 20 },
            LineCommand::Drive(Level::High),
            LineCommand::Release,
        ]
    );
}

#[test]
fn frame_with_valid_checksum_is_accepted() {
    let outcome = decode_frame(&[0x32, 0x00, 0x1C, 0x00, 0x4E]);
    assert_eq!(outcome.unwrap(), Dht11Data { temperature: 28, humidity: 50 });
}

#[test]
fn frame_with_wrong_checksum_is_rejected() {
    let outcome = decode_frame(&[0x32, 0x00, 0x1C, 0x00, 0x4F]);
    match outcome {
        Err(SensorError::DataValidation(text)) => assert_eq!(text, "Checksum error"),
        other => panic!("unexpected outcome: {:?}", other),
    }
}

#[test]
fn fractional_bytes_count_for_the_checksum_only() {
    let outcome = decode_frame(&[45, 7, 23, 9, 84]);
    assert_eq!(outcome.unwrap(), Dht11Data { temperature: 23, humidity: 45 });
    assert!(decode_frame(&[45, 7, 23, 9, 68]).is_err());
}

#[test]
fn checksum_wraps_at_eight_bits() {
    // 200 + 100 + 50 + 10 = 360 = 256 + 104
    let outcome = decode_frame(&[200, 100, 50, 10, 104]);
    assert_eq!(outcome.unwrap(), Dht11Data { temperature: 50, humidity: 200 });
    // 255 * 4 = 1020 = 3 * 256 + 252
    let outcome = decode_frame(&[255, 255, 255, 255, 252]);
    assert_eq!(outcome.unwrap(), Dht11Data { temperature: 255, humidity: 255 });
    assert!(decode_frame(&[255, 255, 255, 255, 255]).is_err());
}

#[test]
fn every_checksum_byte_but_the_sum_is_rejected() {
    for last in 0..=255u8 {
        let outcome = decode_frame(&[0x32, 0x00, 0x1C, 0x00, last]);
        assert_eq!(outcome.is_ok(), last == 0x4E);
    }
}

#[test]
fn pulse_of_forty_microseconds_is_a_zero() {
    assert!(!pulse_bit(0, 40_000));
    assert!(!pulse_bit(5_000, 45_000));
    assert!(!pulse_bit(0, 27_000));
    assert!(!pulse_bit(0, 0));
}

#[test]
fn pulse_longer_than_forty_microseconds_is_a_one() {
    assert!(pulse_bit(0, 41_000));
    assert!(pulse_bit(0, 40_001));
    assert!(pulse_bit(5_000, 75_000));
    assert!(pulse_bit(0, u64::MAX));
}

#[test]
fn pulse_that_ends_before_it_starts_is_a_zero() {
    assert!(!pulse_bit(50_000, 10_000));
    assert!(!pulse_bit(u64::MAX, 0));
}

#[test]
fn new_exchange_waits_for_the_response() {
    let exchange = Dht11Exchange::new();
    assert_eq!(exchange.phase(), WaitPhase::Response);
    assert_eq!(exchange.bits_received(), 0);
}

#[test]
fn waits_hold_the_documented_levels() {
    assert_eq!(WaitPhase::Response.held_level(), Level::High);
    assert_eq!(WaitPhase::ResponseLow.held_level(), Level::Low);
    assert_eq!(WaitPhase::Ready.held_level(), Level::High);
    assert_eq!(WaitPhase::BitGap.held_level(), Level::Low);
    assert_eq!(WaitPhase::BitPulse { started_at: 7 }.held_level(), Level::High);
}

#[test]
fn handshake_walks_through_its_waits() {
    let exchange = Dht11Exchange::new();
    let exchange = pending(exchange.step(sample(Level::High, 1_000)));
    assert_eq!(exchange.phase(), WaitPhase::Response);
    let exchange = pending(exchange.step(sample(Level::Low, 2_000)));
    assert_eq!(exchange.phase(), WaitPhase::ResponseLow);
    let exchange = pending(exchange.step(sample(Level::Low, 3_000)));
    assert_eq!(exchange.phase(), WaitPhase::ResponseLow);
    let exchange = pending(exchange.step(sample(Level::High, 4_000)));
    assert_eq!(exchange.phase(), WaitPhase::Ready);
    let exchange = pending(exchange.step(sample(Level::Low, 5_000)));
    assert_eq!(exchange.phase(), WaitPhase::BitGap);
    let exchange = pending(exchange.step(sample(Level::High, 6_000)));
    assert_eq!(exchange.phase(), WaitPhase::BitPulse { started_at: 6_000 });
    assert_eq!(exchange.bits_received(), 0);
    let exchange = pending(exchange.step(sample(Level::Low, 76_000)));
    assert_eq!(exchange.phase(), WaitPhase::BitGap);
    assert_eq!(exchange.bits_received(), 1);
}

#[test]
fn each_wait_times_out_with_its_own_message() {
    let late = RESPONSE_DEADLINE_NANOS + 1;
    let expected = [
        "Waiting for DHT11 response timed out",
        "DHT11 response signal timed out",
        "DHT11 ready signal timed out",
        "Timed out while reading data bit",
        "Timed out during high level data bit reading",
    ];
    for (reached, message) in expected.iter().enumerate() {
        let mut exchange = Dht11Exchange::new();
        let mut level = Level::High;
        for _ in 0..reached {
            level = level.toggled();
            exchange = pending(exchange.step(sample(level, 10)));
        }
        assert_eq!(exchange.phase().timeout_message(), *message);
        let held = exchange.phase().held_level();
        match finished(exchange.step(sample(held, late))) {
            Err(SensorError::Timeout(text)) => assert_eq!(text, *message),
            other => panic!("unexpected outcome: {:?}", other),
        }
    }
}

#[test]
fn sample_at_the_deadline_is_still_in_time() {
    let exchange = Dht11Exchange::new();
    let exchange = pending(exchange.step(sample(Level::High, RESPONSE_DEADLINE_NANOS)));
    assert_eq!(exchange.phase(), WaitPhase::Response);
    assert!(finished(exchange.step(sample(Level::High, RESPONSE_DEADLINE_NANOS + 1))).is_err());
}

#[test]
fn edge_after_the_deadline_still_ends_the_wait() {
    let exchange = Dht11Exchange::new();
    let exchange = pending(exchange.step(sample(Level::Low, RESPONSE_DEADLINE_NANOS + 5)));
    assert_eq!(exchange.phase(), WaitPhase::ResponseLow);
}

#[test]
fn replayed_frame_gives_the_reading() {
    let data = finished(replay([0x32, 0x00, 0x1C, 0x00, 0x4E])).unwrap();
    assert_eq!(data, Dht11Data { temperature: 28, humidity: 50 });
    assert_eq!(data.temperature as f32, 28.0);
    assert_eq!(data.humidity as f32, 50.0);
}

#[test]
fn replayed_frame_with_corrupted_checksum_is_rejected() {
    match finished(replay([0x32, 0x00, 0x1C, 0x00, 0x4F])) {
        Err(SensorError::DataValidation(text)) => assert_eq!(text, "Checksum error"),
        other => panic!("unexpected outcome: {:?}", other),
    }
}

#[test]
fn bits_are_packed_most_significant_first() {
    // 0x80 has only its first bit set, 0x01 only its last.
    let data = finished(replay([0x80, 0x00, 0x01, 0x00, 0x81])).unwrap();
    assert_eq!(data, Dht11Data { temperature: 1, humidity: 128 });
    let data = finished(replay([0xA5, 0x5A, 0x3C, 0xC3, 0xFE])).unwrap();
    assert_eq!(data, Dht11Data { temperature: 0x3C, humidity: 0xA5 });
}

#[test]
fn pulses_at_the_threshold_read_as_zeros() {
    let line = waveform([0xFF; 5], 27 * MICRO, 40 * MICRO);
    let outcome = finished(Dht11Exchange::new().run(&sample_line(&line, MICRO)));
    assert_eq!(outcome.unwrap(), Dht11Data { temperature: 0, humidity: 0 });
}

#[test]
fn pulses_just_over_the_threshold_read_as_ones() {
    let line = waveform([0xFF, 0xFF, 0xFF, 0xFF, 0xFC], 27 * MICRO, 41 * MICRO);
    let outcome = finished(Dht11Exchange::new().run(&sample_line(&line, MICRO)));
    assert_eq!(outcome.unwrap(), Dht11Data { temperature: 255, humidity: 255 });
}

#[test]
fn coarse_sampling_still_reads_the_frame() {
    let line = waveform([0x32, 0x00, 0x1C, 0x00, 0x4E], 27 * MICRO, 70 * MICRO);
    let outcome = finished(Dht11Exchange::new().run(&sample_line(&line, 5 * MICRO)));
    assert_eq!(outcome.unwrap(), Dht11Data { temperature: 28, humidity: 50 });
}

#[test]
fn run_stops_at_the_end_of_the_frame() {
    let mut samples = sample_line(&waveform([0x32, 0x00, 0x1C, 0x00, 0x4E], 27 * MICRO, 70 * MICRO), MICRO);
    samples.push(sample(Level::Low, RESPONSE_DEADLINE_NANOS + 1));
    samples.push(sample(Level::High, RESPONSE_DEADLINE_NANOS + 2));
    let outcome = finished(Dht11Exchange::new().run(&samples));
    assert_eq!(outcome.unwrap(), Dht11Data { temperature: 28, humidity: 50 });
}

#[test]
fn run_without_samples_changes_nothing() {
    let exchange = pending(Dht11Exchange::new().run(&[]));
    assert_eq!(exchange.phase(), WaitPhase::Response);
    assert_eq!(exchange.bits_received(), 0);
}

#[test]
fn truncated_transmission_stays_pending() {
    let samples = sample_line(&waveform([0x32, 0x00, 0x1C, 0x00, 0x4E], 27 * MICRO, 70 * MICRO), MICRO);
    // The last bit is a zero: 50 samples of gap, 27 of pulse, 50 of the final low.
    let in_the_pulse = samples.len() - 60;
    let exchange = pending(Dht11Exchange::new().run(&samples[..in_the_pulse]));
    assert_eq!(exchange.bits_received(), 39);
    assert!(matches!(exchange.phase(), WaitPhase::BitPulse { .. }));
    let in_the_gap = samples.len() - 87;
    let exchange = pending(Dht11Exchange::new().run(&samples[..in_the_gap]));
    assert_eq!(exchange.bits_received(), 39);
    assert_eq!(exchange.phase(), WaitPhase::BitGap);
}

#[test]
fn silent_sensor_times_out_without_a_reading() {
    let mut samples = Vec::new();
    let mut at = 0;
    while at <= RESPONSE_DEADLINE_NANOS + 1_000_000 {
        samples.push(sample(Level::High, at));
        at += 1_000_000;
    }
    match finished(Dht11Exchange::new().run(&samples)) {
        Err(SensorError::Timeout(text)) => assert_eq!(text, "Waiting for DHT11 response timed out"),
        other => panic!("unexpected outcome: {:?}", other),
    }
}

#[test]
fn line_stuck_in_the_middle_of_a_frame_times_out() {
    let line = waveform([0x32, 0x00, 0x1C, 0x00, 0x4E], 27 * MICRO, 70 * MICRO);
    let mut samples = sample_line(&line[..20], MICRO);
    let stuck = samples.last().unwrap().level;
    assert_eq!(stuck, Level::Low);
    samples.push(sample(stuck, RESPONSE_DEADLINE_NANOS));
    samples.push(sample(stuck, RESPONSE_DEADLINE_NANOS + 1));
    match finished(Dht11Exchange::new().run(&samples)) {
        Err(SensorError::Timeout(text)) => assert_eq!(text, "Timed out while reading data bit"),
        other => panic!("unexpected outcome: {:?}", other),
    }
}

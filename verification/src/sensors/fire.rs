//! Flame detection with an audible alarm.
//!
//! A [`FireSensor`] holds the configuration of the two lines and the flag
//! that keeps a monitor running. A [`FireMonitor`] is the background
//! activity itself: a machine that is told what was observed and answers
//! with what to do next. Whoever owns the lines runs it.

use crate::clock::{is_time_error, unix_timestamp};
use crate::error::{displays_as, ErrorView, SensorError};
use crate::sensors::line::Level;
use vstd::prelude::*;
use vstd::string::*;

verus! {

/// The pitch of the alarm tone, in hertz.
pub const ALARM_FREQUENCY_HZ: u32 = 1000;

/// The length of one alarm burst, in milliseconds.
pub const ALARM_DURATION_MILLIS: u64 = 200;

/// The level that keeps the buzzer silent.
pub const BUZZER_OFF: Level = Level::High;

/// One observation of the flame sensor.
#[derive(Debug, Clone, Copy)]
pub struct FireSensorData {
    /// Whether a flame is detected.
    pub flame_detected: bool,
    /// Seconds since the Unix epoch at the detection, present only when a
    /// flame is detected.
    pub last_detection_timestamp: Option<u64>,
}

/// Whether `level` on the flame line means a flame, given the polarity of
/// the sensor.
pub open spec fn signals_flame(high_active: bool, level: Level) -> bool {
    (level == Level::High) == high_active
}

/// The observation that `level` amounts to at `now_secs` seconds since the
/// Unix epoch.
pub open spec fn observation(high_active: bool, level: Level, now_secs: u64) -> FireSensorData {
    if signals_flame(high_active, level) {
        FireSensorData { flame_detected: true, last_detection_timestamp: Some(now_secs) }
    } else {
        FireSensorData { flame_detected: false, last_detection_timestamp: None }
    }
}

/// The length in microseconds of half a period of a tone of the given
/// frequency.
pub open spec fn half_period_of(frequency_hz: u32) -> int {
    500_000int / (frequency_hz as int)
}

/// The number of full periods that fit into a burst of the given length.
pub open spec fn cycles_of(duration_millis: u64, half_period_micros: u64) -> int {
    (duration_millis * 1000) / (half_period_micros * 2)
}

/// The length in microseconds of half a period of a tone of the given
/// frequency.
pub fn half_period_micros(frequency_hz: u32) -> (half_period: u64)
    requires
        frequency_hz > 0,
    ensures
        half_period == half_period_of(frequency_hz),
{
    assert(1_000_000int / (frequency_hz as int) / 2 == 500_000int / (frequency_hz as int)) by (nonlinear_arith)
        requires
            frequency_hz > 0,
    ;
    (1_000_000 / frequency_hz / 2) as u64
}

/// The number of full periods that fit into a burst of the given length.
pub fn burst_cycles(duration_millis: u64, half_period_micros: u64) -> (cycles: u64)
    requires
        half_period_micros > 0,
        duration_millis * 1000 <= u64::MAX,
        half_period_micros * 2 <= u64::MAX,
    ensures
        cycles == cycles_of(duration_millis, half_period_micros),
{
    duration_millis * 1000 / (half_period_micros * 2)
}

/// A fire sensor as contracts see it.
pub struct FireSensorView {
    /// The pin of the flame sensor.
    pub flame_pin: u8,
    /// The pin of the buzzer.
    pub buzzer_pin: u8,
    /// Whether a monitor of this sensor should keep running.
    pub active: bool,
    /// Whether a high level on the flame line means a flame.
    pub high_active: bool,
}

impl FireSensorView {
    /// The sensor after a request to stop monitoring.
    pub open spec fn stopped(self) -> FireSensorView {
        FireSensorView { active: false, ..self }
    }
}

/// A flame sensor with a buzzer.
#[derive(Debug)]
pub struct FireSensor {
    flame_pin: u8,
    buzzer_pin: u8,
    is_active: bool,
    high_active: bool,
}

impl View for FireSensor {
    type V = FireSensorView;

    closed spec fn view(&self) -> FireSensorView {
        FireSensorView {
            flame_pin: self.flame_pin,
            buzzer_pin: self.buzzer_pin,
            active: self.is_active,
            high_active: self.high_active,
        }
    }
}

/// How the acquisition of the two lines went.
#[derive(Debug)]
pub enum LineSetup {
    /// Both lines are acquired: the flame line as an input, the buzzer line
    /// as an output at its off level.
    Ready,
    /// The flame line could not be acquired.
    FlameLineFailed(rppal::gpio::Error),
    /// The buzzer line could not be acquired.
    BuzzerLineFailed(rppal::gpio::Error),
}

/// Where a monitor is in its cycle.
#[derive(Debug, Clone, Copy, PartialEq, Eq, Structural)]
pub enum MonitorPhase {
    /// At the top of a cycle, about to look at the continue flag.
    Polling,
    /// The flag allowed another cycle; the level of the flame line is
    /// awaited.
    Sampling,
    /// The monitor has ended and does nothing more.
    Stopped,
}

/// What a monitor is told.
#[derive(Debug, Clone, Copy, PartialEq, Eq, Structural)]
pub enum MonitorEvent {
    /// A new cycle begins; `active` is the continue flag as read now.
    Wake { active: bool },
    /// The flame line was read.
    Flame(Level),
}

/// What a monitor asks for.
#[derive(Debug, Clone, Copy, PartialEq, Eq, Structural)]
pub enum MonitorAction {
    /// Read the flame line and report its level.
    ReadFlame,
    /// Sound the alarm: `cycles` times drive the buzzer on and off again,
    /// holding each level for `half_period_micros`. Then sleep for
    /// `then_sleep_millis` and begin a new cycle.
    Alarm { cycles: u64, half_period_micros: u64, then_sleep_millis: u64 },
    /// Drive the buzzer to its off level. Then sleep for
    /// `then_sleep_millis` and begin a new cycle.
    Silence { then_sleep_millis: u64 },
    /// Drive the buzzer to its off level and end the loop.
    Shutdown,
    /// Nothing: the event does not fit the phase, or the monitor has
    /// stopped.
    Nothing,
}

/// A monitor as contracts see it.
pub struct MonitorView {
    /// Whether a high level on the flame line means a flame.
    pub high_active: bool,
    /// The pause between two cycles, in milliseconds.
    pub interval_millis: u64,
    /// Where the monitor is in its cycle.
    pub phase: MonitorPhase,
}

impl MonitorView {
    /// The monitor in another phase.
    pub open spec fn at(self, phase: MonitorPhase) -> MonitorView {
        MonitorView { phase, ..self }
    }

    /// The alarm that the monitor sounds on a detection.
    pub open spec fn alarm(self) -> MonitorAction {
        MonitorAction::Alarm {
            cycles: 200,
            half_period_micros: 500,
            then_sleep_millis: self.interval_millis,
        }
    }

    /// What an event does to the monitor, and what the monitor asks for in
    /// return.
    ///
    /// At the top of a cycle the continue flag decides: cleared, the
    /// monitor shuts down for good; set, it asks for the flame line. The
    /// level of the line then decides between the alarm and silence, and
    /// the cycle is over. The flag is not looked at in between.
    pub open spec fn step(self, event: MonitorEvent) -> (MonitorView, MonitorAction) {
        match (self.phase, event) {
            (MonitorPhase::Polling, MonitorEvent::Wake { active }) => if active {
                (self.at(MonitorPhase::Sampling), MonitorAction::ReadFlame)
            } else {
                (self.at(MonitorPhase::Stopped), MonitorAction::Shutdown)
            },
            (MonitorPhase::Sampling, MonitorEvent::Flame(level)) => if signals_flame(
                self.high_active,
                level,
            ) {
                (self.at(MonitorPhase::Polling), self.alarm())
            } else {
                (
                    self.at(MonitorPhase::Polling),
                    MonitorAction::Silence { then_sleep_millis: self.interval_millis },
                )
            },
            _ => (self, MonitorAction::Nothing),
        }
    }
}

/// The background activity that watches the flame line and drives the
/// buzzer.
#[derive(Debug)]
pub struct FireMonitor {
    high_active: bool,
    interval_millis: u64,
    phase: MonitorPhase,
}

impl View for FireMonitor {
    type V = MonitorView;

    closed spec fn view(&self) -> MonitorView {
        MonitorView {
            high_active: self.high_active,
            interval_millis: self.interval_millis,
            phase: self.phase,
        }
    }
}

/// `error` reports that a line could not be set up: `what` says which, and
/// the rest is what `cause` displays as.
pub open spec fn is_setup_error(error: ErrorView, what: Seq<char>, cause: rppal::gpio::Error) -> bool {
    exists|text: Seq<char>| #[trigger]
        displays_as(&cause, text) && error == ErrorView::InitError(what + text)
}

/// Wraps the failure to acquire a line into an initialization error.
fn setup_error(what: &str, cause: &rppal::gpio::Error) -> (error: SensorError)
    ensures
        is_setup_error(error@, what@, *cause),
{
    let text = cause.to_string();
    assert(displays_as(cause, text@));
    SensorError::InitError(String::from_str(what).concat(text.as_str()))
}

impl FireSensor {
    /// A sensor with the flame line on `flame_pin` and the buzzer on
    /// `buzzer_pin`. With `high_active` a high level on the flame line
    /// means a flame, without it a low level does.
    pub fn new(flame_pin: u8, buzzer_pin: u8, high_active: bool) -> (sensor: Self)
        ensures
            sensor@ == (FireSensorView { flame_pin, buzzer_pin, active: true, high_active }),
    {
        FireSensor { flame_pin, buzzer_pin, is_active: true, high_active }
    }

    /// The pin of the flame sensor.
    pub fn flame_pin(&self) -> (pin: u8)
        ensures
            pin == self@.flame_pin,
    {
        self.flame_pin
    }

    /// The pin of the buzzer.
    pub fn buzzer_pin(&self) -> (pin: u8)
        ensures
            pin == self@.buzzer_pin,
    {
        self.buzzer_pin
    }

    /// Whether a high level on the flame line means a flame.
    pub fn high_active(&self) -> (high_active: bool)
        ensures
            high_active == self@.high_active,
    {
        self.high_active
    }

    /// Whether a monitor of this sensor should keep running.
    pub fn is_active(&self) -> (active: bool)
        ensures
            active == self@.active,
    {
        self.is_active
    }

    /// Whether `level` on the flame line means a flame.
    pub fn detects(&self, level: Level) -> (detected: bool)
        ensures
            detected == signals_flame(self@.high_active, level),
    {
        if self.high_active {
            level == Level::High
        } else {
            level == Level::Low
        }
    }

    /// The observation that `level` on the flame line amounts to at
    /// `now_secs` seconds since the Unix epoch.
    pub fn status_at(&self, level: Level, now_secs: u64) -> (data: FireSensorData)
        ensures
            data == observation(self@.high_active, level, now_secs),
    {
        if self.detects(level) {
            FireSensorData { flame_detected: true, last_detection_timestamp: Some(now_secs) }
        } else {
            FireSensorData { flame_detected: false, last_detection_timestamp: None }
        }
    }

    /// The observation that `level`, just read from the flame line, amounts
    /// to. A detection is stamped with the wall clock, which is read only
    /// then; the read fails if the clock cannot be read.
    pub fn read_level(&self, level: Level) -> (outcome: Result<FireSensorData, SensorError>)
        ensures
            !signals_flame(self@.high_active, level) ==> outcome == Ok::<FireSensorData, SensorError>(
                observation(self@.high_active, level, 0),
            ),
            signals_flame(self@.high_active, level) ==> match outcome {
                Ok(data) => exists|now_secs: u64|
                    data == #[trigger] observation(self@.high_active, level, now_secs),
                Err(error) => is_time_error(error@),
            },
    {
        if self.detects(level) {
            match unix_timestamp() {
                Ok(now_secs) => {
                    let data = self.status_at(level, now_secs);
                    assert(data == observation(self@.high_active, level, now_secs));
                    Ok(data)
                },
                Err(error) => Err(error),
            }
        } else {
            Ok(self.status_at(level, 0))
        }
    }

    /// Begins monitoring once the lines are set up: the flame line as an
    /// input, the buzzer line as an output at its off level. The monitor
    /// that comes back is at the top of its first cycle and pauses
    /// `check_interval_ms` between cycles. If a line could not be acquired
    /// there is no monitor, and the error names the line.
    pub fn start_monitoring(&self, setup: LineSetup, check_interval_ms: u64) -> (outcome: Result<
        FireMonitor,
        SensorError,
    >)
        ensures
            match setup {
                LineSetup::Ready => outcome matches Ok(monitor) && monitor@ == (MonitorView {
                    high_active: self@.high_active,
                    interval_millis: check_interval_ms,
                    phase: MonitorPhase::Polling,
                }),
                LineSetup::FlameLineFailed(cause) => outcome matches Err(error) && is_setup_error(
                    error@,
                    "Failed to initialize flame sensor: "@,
                    cause,
                ),
                LineSetup::BuzzerLineFailed(cause) => outcome matches Err(error) && is_setup_error(
                    error@,
                    "Failed to initialize buzzer: "@,
                    cause,
                ),
            },
    {
        match setup {
            LineSetup::Ready => Ok(
                FireMonitor {
                    high_active: self.high_active,
                    interval_millis: check_interval_ms,
                    phase: MonitorPhase::Polling,
                },
            ),
            LineSetup::FlameLineFailed(cause) => Err(
                setup_error("Failed to initialize flame sensor: ", &cause),
            ),
            LineSetup::BuzzerLineFailed(cause) => Err(
                setup_error("Failed to initialize buzzer: ", &cause),
            ),
        }
    }

    /// Asks the monitor of this sensor to stop. Only the continue flag
    /// changes, and it stays cleared from then on.
    pub fn stop_monitoring(&mut self)
        ensures
            final(self)@ == old(self)@.stopped(),
    {
        self.is_active = false;
    }
}

impl FireMonitor {
    /// Where the monitor is in its cycle.
    pub fn phase(&self) -> (phase: MonitorPhase)
        ensures
            phase == self@.phase,
    {
        self.phase
    }

    /// The pause between two cycles, in milliseconds.
    pub fn interval_millis(&self) -> (interval: u64)
        ensures
            interval == self@.interval_millis,
    {
        self.interval_millis
    }

    /// Tells the monitor what was observed and returns what to do next.
    pub fn step(&mut self, event: MonitorEvent) -> (action: MonitorAction)
        ensures
            (final(self)@, action) == old(self)@.step(event),
    {
        match (self.phase, event) {
            (MonitorPhase::Polling, MonitorEvent::Wake { active }) => {
                if active {
                    self.phase = MonitorPhase::Sampling;
                    MonitorAction::ReadFlame
                } else {
                    self.phase = MonitorPhase::Stopped;
                    MonitorAction::Shutdown
                }
            },
            (MonitorPhase::Sampling, MonitorEvent::Flame(level)) => {
                self.phase = MonitorPhase::Polling;
                let detected = if self.high_active {
                    level == Level::High
                } else {
                    level == Level::Low
                };
                if detected {
                    let half_period = half_period_micros(ALARM_FREQUENCY_HZ);
                    let cycles = burst_cycles(ALARM_DURATION_MILLIS, half_period);
                    MonitorAction::Alarm {
                        cycles,
                        half_period_micros: half_period,
                        then_sleep_millis: self.interval_millis,
                    }
                } else {
                    MonitorAction::Silence { then_sleep_millis: self.interval_millis }
                }
            },
            _ => MonitorAction::Nothing,
        }
    }
}

/// A request to stop clears the continue flag and changes nothing else, and
/// a second request changes nothing at all.
pub proof fn lemma_stop_is_idempotent(sensor: FireSensorView)
    ensures
        !sensor.stopped().active,
        sensor.stopped().stopped() == sensor.stopped(),
        sensor.stopped().flame_pin == sensor.flame_pin,
        sensor.stopped().buzzer_pin == sensor.buzzer_pin,
        sensor.stopped().high_active == sensor.high_active,
{
}

/// After a request to stop, a running monitor ends the next time it looks
/// at the flag, whatever the flame line shows. A monitor at the top of a
/// cycle shuts down at once. A monitor in the middle of a cycle finishes
/// that cycle, with at most one alarm burst and one pause, and shuts down at
/// the top of the next.
pub proof fn lemma_stop_ends_monitor(sensor: FireSensorView, monitor: MonitorView, level: Level)
    ensures
        monitor.phase == MonitorPhase::Polling ==> monitor.step(
            (MonitorEvent::Wake { active: sensor.stopped().active }),
        ) == (monitor.at(MonitorPhase::Stopped), MonitorAction::Shutdown),
        monitor.phase == MonitorPhase::Sampling ==> ({
            let (next, action) = monitor.step(MonitorEvent::Flame(level));
            &&& next == monitor.at(MonitorPhase::Polling)
            &&& action == (if signals_flame(monitor.high_active, level) {
                monitor.alarm()
            } else {
                (MonitorAction::Silence { then_sleep_millis: monitor.interval_millis })
            })
            &&& next.step((MonitorEvent::Wake { active: sensor.stopped().active })) == (
                monitor.at(MonitorPhase::Stopped),
                MonitorAction::Shutdown,
            )
        }),
{
}

/// A monitor that has stopped stays stopped and never asks for anything
/// again.
pub proof fn lemma_stopped_is_final(monitor: MonitorView, event: MonitorEvent)
    requires
        monitor.phase == MonitorPhase::Stopped,
    ensures
        monitor.step(event) == (monitor, MonitorAction::Nothing),
{
}

/// The polarity decides what a level means: with a high-active sensor a
/// high level is a flame and a low level is none, with a low-active sensor
/// it is the other way round. A detection carries the time, and only a
/// detection does.
pub proof fn lemma_polarity(high_active: bool, level: Level, now_secs: u64)
    ensures
        signals_flame(true, Level::High),
        !signals_flame(true, Level::Low),
        signals_flame(false, Level::Low),
        !signals_flame(false, Level::High),
        signals_flame(high_active, level) != signals_flame(!high_active, level),
        signals_flame(high_active, level) != signals_flame(high_active, level.flipped()),
        observation(high_active, level, now_secs).flame_detected == signals_flame(
            high_active,
            level,
        ),
        observation(high_active, level, now_secs).last_detection_timestamp == (if signals_flame(
            high_active,
            level,
        ) {
            Some(now_secs)
        } else {
            None
        }),
{
}

} // verus!

//! The transmission of the DHT11 as a sampling loop sees it, and the proof
//! that the decoder reads it back.
//!
//! A transmission is a train of 83 pulses: the line high after its release,
//! the low and the high pulse of the sensor's answer, and a low gap and a
//! high pulse for each of the 40 bits. A sampling loop sees each pulse as
//! some samples that still show its level, followed by one that shows the
//! other level.

use crate::error::ErrorView;
use crate::sensors::dht11::{
    checksum_of, frame_bit, frame_of, frame_outcome, lemma_frame_of_bits, pulse_is_one, Dht11Data,
    ExchangeView, Sample, StepView, WaitPhase, BIT_THRESHOLD_NANOS, FRAME_BITS,
    RESPONSE_DEADLINE_NANOS,
};
use crate::sensors::line::Level;
use vstd::prelude::*;

verus! {

/// The number of pulses in a complete transmission.
pub const TRAIN_PULSES: usize = 83;

/// One pulse as a sampling loop sees it.
pub struct Pulse {
    /// When the samples were taken that still show the level of the pulse.
    pub holds: Seq<u64>,
    /// When the sample was taken that first shows the other level.
    pub edge: u64,
}

/// The level of pulse `index` of a transmission: the line starts high and
/// every pulse ends with a change of level.
pub open spec fn level_of(index: int) -> Level {
    if index % 2 == 0 {
        Level::High
    } else {
        Level::Low
    }
}

/// Samples of one level, taken at the given times.
pub open spec fn hold_samples(level: Level, times: Seq<u64>) -> Seq<Sample> {
    Seq::new(times.len(), |i: int| Sample { level, elapsed_nanos: times[i] })
}

/// Every one of the times is within the deadline.
pub open spec fn in_time(times: Seq<u64>) -> bool {
    forall|i: int| 0 <= i < times.len() ==> times[i] <= RESPONSE_DEADLINE_NANOS
}

impl Pulse {
    /// The samples of a pulse of the given level.
    pub open spec fn samples(self, level: Level) -> Seq<Sample> {
        hold_samples(level, self.holds).push(
            Sample { level: level.flipped(), elapsed_nanos: self.edge },
        )
    }
}

/// The samples of a train of pulses, oldest first.
pub open spec fn train_samples(pulses: Seq<Pulse>) -> Seq<Sample>
    decreases pulses.len(),
{
    if pulses.len() == 0 {
        Seq::empty()
    } else {
        train_samples(pulses.drop_last()) + pulses.last().samples(level_of(pulses.len() - 1))
    }
}

/// No pulse of the train keeps the decoder waiting beyond the deadline.
pub open spec fn train_in_time(pulses: Seq<Pulse>) -> bool {
    forall|index: int| 0 <= index < pulses.len() ==> in_time(#[trigger] pulses[index].holds)
}

/// The bits that the complete bit pulses of a train carry. Bit `i` is the
/// high pulse that pulses `3 + 2 * i` and `4 + 2 * i` delimit.
pub open spec fn train_bits(pulses: Seq<Pulse>) -> Seq<bool> {
    Seq::new(
        ((pulses.len() - 3) / 2) as nat,
        |i: int| pulse_is_one(pulses[3 + 2 * i].edge, pulses[4 + 2 * i].edge),
    )
}

/// The wait that follows a train of pulses which is not yet complete.
pub open spec fn phase_after(pulses: Seq<Pulse>) -> WaitPhase {
    if pulses.len() == 0 {
        WaitPhase::Response
    } else if pulses.len() == 1 {
        WaitPhase::ResponseLow
    } else if pulses.len() == 2 {
        WaitPhase::Ready
    } else if pulses.len() % 2 == 1 {
        WaitPhase::BitGap
    } else {
        WaitPhase::BitPulse { started_at: pulses.last().edge }
    }
}

/// The exchange after a train of pulses which is not yet complete.
pub open spec fn exchange_after(pulses: Seq<Pulse>) -> ExchangeView {
    ExchangeView {
        phase: phase_after(pulses),
        bits: if pulses.len() < 3 {
            Seq::empty()
        } else {
            train_bits(pulses)
        },
    }
}

/// A run over two stretches of samples is the run over the first, continued
/// over the second if the exchange is still pending.
pub proof fn lemma_run_continues(exchange: ExchangeView, first: Seq<Sample>, second: Seq<Sample>)
    ensures
        exchange.run(first + second) == (match exchange.run(first) {
            StepView::Pending(next) => next.run(second),
            StepView::Finished(outcome) => StepView::Finished(outcome),
        }),
    decreases first.len(),
{
    if first.len() == 0 {
        assert(first + second =~= second);
    } else {
        assert((first + second)[0] == first[0]);
        assert((first + second).drop_first() =~= first.drop_first() + second);
        match exchange.step(first[0]) {
            StepView::Pending(next) => {
                lemma_run_continues(next, first.drop_first(), second);
            },
            StepView::Finished(_) => {},
        }
    }
}

/// Samples that show the level of the current wait within the deadline
/// leave the exchange as it is.
pub proof fn lemma_holds_change_nothing(exchange: ExchangeView, times: Seq<u64>)
    requires
        in_time(times),
    ensures
        exchange.run(hold_samples(exchange.phase.held(), times)) == StepView::Pending(exchange),
    decreases times.len(),
{
    let samples = hold_samples(exchange.phase.held(), times);
    if times.len() > 0 {
        assert(samples.drop_first() =~= hold_samples(exchange.phase.held(), times.drop_first()));
        lemma_holds_change_nothing(exchange, times.drop_first());
    }
}

/// A pulse within the deadline does to the exchange what its edge does.
pub proof fn lemma_pulse_is_its_edge(exchange: ExchangeView, pulse: Pulse)
    requires
        in_time(pulse.holds),
    ensures
        exchange.run(pulse.samples(exchange.phase.held())) == exchange.step(
            (Sample { level: exchange.phase.held().flipped(), elapsed_nanos: pulse.edge }),
        ),
{
    let level = exchange.phase.held();
    let edge = Sample { level: level.flipped(), elapsed_nanos: pulse.edge };
    let holds = hold_samples(level, pulse.holds);
    assert(pulse.samples(level) =~= holds + seq![edge]);
    lemma_holds_change_nothing(exchange, pulse.holds);
    lemma_run_continues(exchange, holds, seq![edge]);
    assert(seq![edge].drop_first() =~= Seq::<Sample>::empty());
    match exchange.step(edge) {
        StepView::Pending(next) => {
            assert(next.run(Seq::<Sample>::empty()) == StepView::Pending(next));
        },
        StepView::Finished(_) => {},
    }
}

/// After a train of fewer than 83 timely pulses the exchange is still
/// pending, in the wait that the number of pulses gives, and holds the bits
/// that the pulses carried.
pub proof fn lemma_train_advances(pulses: Seq<Pulse>)
    requires
        pulses.len() < TRAIN_PULSES,
        train_in_time(pulses),
    ensures
        ExchangeView::initial().run(train_samples(pulses)) == StepView::Pending(
            exchange_after(pulses),
        ),
    decreases pulses.len(),
{
    if pulses.len() > 0 {
        let before = pulses.drop_last();
        let pulse = pulses.last();
        let reached = exchange_after(before);
        assert forall|index: int| 0 <= index < before.len() implies in_time(
            #[trigger] before[index].holds,
        ) by {
            assert(before[index] == pulses[index]);
        }
        lemma_train_advances(before);
        assert(reached.phase.held() == level_of(before.len() as int));
        lemma_run_continues(
            ExchangeView::initial(),
            train_samples(before),
            pulse.samples(reached.phase.held()),
        );
        lemma_pulse_is_its_edge(reached, pulse);
        if pulses.len() >= 3 {
            assert(exchange_after(pulses).bits =~= if before.len() >= 4 && before.len() % 2 == 0 {
                reached.bits.push(pulse_is_one(before.last().edge, pulse.edge))
            } else {
                reached.bits
            });
        }
    }
}

/// A complete transmission within the deadline decodes to the frame that
/// its bit pulses spell, whatever is sampled after it: to a reading of the
/// frame's humidity and temperature bytes if the checksum byte fits, and to
/// a validation error if it does not.
pub proof fn lemma_train_decodes(pulses: Seq<Pulse>, after: Seq<Sample>)
    requires
        pulses.len() == TRAIN_PULSES,
        train_in_time(pulses),
    ensures
        train_bits(pulses).len() == FRAME_BITS,
        ExchangeView::initial().run(train_samples(pulses) + after) == StepView::Finished(
            frame_outcome(frame_of(train_bits(pulses))),
        ),
{
    let before = pulses.drop_last();
    let pulse = pulses.last();
    let reached = exchange_after(before);
    assert forall|index: int| 0 <= index < before.len() implies in_time(
        #[trigger] before[index].holds,
    ) by {
        assert(before[index] == pulses[index]);
    }
    lemma_train_advances(before);
    assert(reached.phase.held() == level_of(before.len() as int));
    lemma_run_continues(
        ExchangeView::initial(),
        train_samples(before),
        pulse.samples(reached.phase.held()),
    );
    lemma_pulse_is_its_edge(reached, pulse);
    assert(train_bits(pulses) =~= reached.bits.push(pulse_is_one(before.last().edge, pulse.edge)));
    lemma_run_continues(ExchangeView::initial(), train_samples(pulses), after);
}

/// If the line keeps its level beyond the deadline at any point of a
/// transmission, the exchange ends there with the timeout of the wait it
/// was in, whatever was received before and whatever is sampled after.
pub proof fn lemma_late_sample_times_out(
    pulses: Seq<Pulse>,
    holds: Seq<u64>,
    late: u64,
    after: Seq<Sample>,
)
    requires
        pulses.len() < TRAIN_PULSES,
        train_in_time(pulses),
        in_time(holds),
        late > RESPONSE_DEADLINE_NANOS,
    ensures
        ExchangeView::initial().run(
            train_samples(pulses) + hold_samples(level_of(pulses.len() as int), holds).push(
                (Sample { level: level_of(pulses.len() as int), elapsed_nanos: late }),
            ) + after,
        ) == StepView::Finished(Err(ErrorView::Timeout(phase_after(pulses).timeout_text()))),
{
    let reached = exchange_after(pulses);
    let level = level_of(pulses.len() as int);
    let stuck = Sample { level, elapsed_nanos: late };
    let waiting = hold_samples(level, holds);
    lemma_train_advances(pulses);
    assert(reached.phase.held() == level);
    lemma_holds_change_nothing(reached, holds);
    assert(waiting.push(stuck) =~= waiting + seq![stuck]);
    lemma_run_continues(reached, waiting, seq![stuck]);
    lemma_run_continues(ExchangeView::initial(), train_samples(pulses), waiting.push(stuck));
    lemma_run_continues(
        ExchangeView::initial(),
        train_samples(pulses) + waiting.push(stuck),
        after,
    );
}

/// The forty bits of a frame in the order in which the sensor sends them:
/// byte by byte, each most significant bit first.
pub open spec fn wire_bits(frame: Seq<u8>) -> Seq<bool> {
    Seq::new(FRAME_BITS as nat, |position: int| frame_bit(frame, position))
}

/// A complete transmission within the deadline whose pulses carry the bits
/// of a five-byte frame is read back as that frame. If the last byte is the
/// sum of the first four modulo 256, the outcome is the reading with the
/// temperature of byte 2 and the humidity of byte 0; if it is not, the
/// outcome is the checksum error.
pub proof fn lemma_frame_is_read_back(frame: Seq<u8>, pulses: Seq<Pulse>, after: Seq<Sample>)
    requires
        frame.len() == 5,
        pulses.len() == TRAIN_PULSES,
        train_in_time(pulses),
        train_bits(pulses) == wire_bits(frame),
    ensures
        ExchangeView::initial().run(train_samples(pulses) + after) == StepView::Finished(
            frame_outcome(frame),
        ),
        frame[4] == checksum_of(frame) ==> ExchangeView::initial().run(
            train_samples(pulses) + after,
        ) == StepView::Finished(
            Ok((Dht11Data { temperature: frame[2], humidity: frame[0] })),
        ),
        frame[4] != checksum_of(frame) ==> ExchangeView::initial().run(
            train_samples(pulses) + after,
        ) == StepView::Finished(Err(ErrorView::DataValidation("Checksum error"@))),
{
    lemma_train_decodes(pulses, after);
    lemma_frame_of_bits(frame, wire_bits(frame));
}

/// Every five-byte frame can be sent: there is a complete transmission
/// within the deadline whose pulses carry its bits.
pub proof fn lemma_frame_can_be_sent(frame: Seq<u8>) -> (pulses: Seq<Pulse>)
    requires
        frame.len() == 5,
    ensures
        pulses.len() == TRAIN_PULSES,
        train_in_time(pulses),
        train_bits(pulses) == wire_bits(frame),
{
    let pulses = Seq::new(
        TRAIN_PULSES as nat,
        |index: int|
            Pulse {
                holds: Seq::empty(),
                edge: if index >= 4 && index % 2 == 0 && frame_bit(frame, (index - 4) / 2) {
                    (BIT_THRESHOLD_NANOS + 1) as u64
                } else {
                    0
                },
            },
    );
    assert(train_bits(pulses) =~= wire_bits(frame)) by {
        assert forall|i: int| 0 <= i < FRAME_BITS implies train_bits(pulses)[i] == frame_bit(
            frame,
            i,
        ) by {
            assert(pulses[3 + 2 * i].edge == 0);
            assert((4 + 2 * i - 4) / 2 == i);
        }
    }
    pulses
}

/// An exchange hands out a reading only at the end of the fortieth bit, and
/// only for a frame whose checksum byte fits: the reading then holds that
/// frame's temperature and humidity bytes.
pub proof fn lemma_reading_is_validated(exchange: ExchangeView, sample: Sample, data: Dht11Data)
    requires
        exchange.step(sample) == StepView::Finished(Ok(data)),
    ensures
        exchange.phase is BitPulse,
        exchange.bits.len() + 1 == FRAME_BITS,
        sample.level == Level::Low,
        ({
            let bit = pulse_is_one(exchange.phase->started_at, sample.elapsed_nanos);
            let frame = frame_of(exchange.bits.push(bit));
            &&& frame[4] == checksum_of(frame)
            &&& data.temperature == frame[2]
            &&& data.humidity == frame[0]
        }),
{
}

} // verus!

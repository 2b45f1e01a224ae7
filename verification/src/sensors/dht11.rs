//! Decoder for the single-wire protocol of the DHT11 humidity and
//! temperature sensor.
//!
//! The sensor answers a start signal with a low pulse and a high pulse, then
//! sends 40 bits. Each bit is a low gap followed by a high pulse whose length
//! carries the value. The caller samples the line in a tight loop and feeds
//! every sample to a [`Dht11Exchange`], which decides what the sample means.

use crate::error::{ErrorView, SensorError};
use crate::sensors::line::Level;
use vstd::prelude::*;
use vstd::string::*;

verus! {

/// How long the start signal holds the line low, in milliseconds.
pub const START_SIGNAL_MILLIS: u64 = 20;

/// The deadline shared by every wait of one exchange, in nanoseconds since
/// the line was released.
pub const RESPONSE_DEADLINE_NANOS: u64 = 100_000_000;

/// A high pulse longer than this many nanoseconds carries a one.
pub const BIT_THRESHOLD_NANOS: u64 = 40_000;

/// The number of bits in one frame.
pub const FRAME_BITS: usize = 40;

/// One validated reading, in the sensor's native whole units.
#[derive(Debug, Clone, Copy, PartialEq, Eq, Structural)]
pub struct Dht11Data {
    /// Temperature in whole degrees Celsius.
    pub temperature: u8,
    /// Relative humidity in whole percent.
    pub humidity: u8,
}

/// The sum of the four data bytes of a frame, modulo 256.
pub open spec fn checksum_of(frame: Seq<u8>) -> int {
    (frame[0] + frame[1] + frame[2] + frame[3]) % 256
}

/// What a received frame amounts to: a reading if its last byte is the
/// checksum of the first four, a validation error otherwise. Of the data
/// bytes only the integer parts, bytes 0 and 2, are used.
pub open spec fn frame_outcome(frame: Seq<u8>) -> Result<Dht11Data, ErrorView> {
    if frame[4] == checksum_of(frame) {
        Ok(Dht11Data { temperature: frame[2], humidity: frame[0] })
    } else {
        Err(ErrorView::DataValidation("Checksum error"@))
    }
}

/// The outcome of a read as contracts see it.
pub open spec fn outcome_view(outcome: Result<Dht11Data, SensorError>) -> Result<
    Dht11Data,
    ErrorView,
> {
    match outcome {
        Ok(data) => Ok(data),
        Err(err) => Err(err@),
    }
}

/// Validates a received frame and extracts the reading.
pub fn decode_frame(frame: &[u8; 5]) -> (outcome: Result<Dht11Data, SensorError>)
    ensures
        outcome_view(outcome) == frame_outcome(frame@),
{
    let sum = frame[0].wrapping_add(frame[1]).wrapping_add(frame[2]).wrapping_add(frame[3]);
    if frame[4] == sum {
        Ok(Dht11Data { temperature: frame[2], humidity: frame[0] })
    } else {
        Err(SensorError::DataValidation(String::from_str("Checksum error")))
    }
}

/// Whether a high pulse seen from `started_at` to `ended_at` carries a one.
pub open spec fn pulse_is_one(started_at: u64, ended_at: u64) -> bool {
    ended_at - started_at > BIT_THRESHOLD_NANOS
}

/// Decides the bit that a high pulse carries from the times, in nanoseconds,
/// at which it was first and last seen.
pub fn pulse_bit(started_at: u64, ended_at: u64) -> (bit: bool)
    ensures
        bit == pulse_is_one(started_at, ended_at),
{
    ended_at > started_at && ended_at - started_at > BIT_THRESHOLD_NANOS
}

/// One sample of the data line.
#[derive(Debug, Clone, Copy, PartialEq, Eq, Structural)]
pub struct Sample {
    /// The level that was read.
    pub level: Level,
    /// When it was read, in nanoseconds since the line was released.
    pub elapsed_nanos: u64,
}

/// The wait that an exchange is in. Each wait lasts while the line holds
/// one level and ends with the first sample that shows the other.
#[derive(Debug, Clone, Copy, PartialEq, Eq, Structural)]
pub enum WaitPhase {
    /// The line is still high after its release; the sensor has not
    /// answered yet.
    Response,
    /// The sensor holds the line low to announce itself.
    ResponseLow,
    /// The sensor holds the line high before the first bit.
    Ready,
    /// The low gap in front of a bit.
    BitGap,
    /// The high pulse of a bit, first seen at `started_at`.
    BitPulse { started_at: u64 },
}

impl WaitPhase {
    /// The level that the line holds during the wait.
    pub open spec fn held(self) -> Level {
        match self {
            WaitPhase::Response => Level::High,
            WaitPhase::ResponseLow => Level::Low,
            WaitPhase::Ready => Level::High,
            WaitPhase::BitGap => Level::Low,
            WaitPhase::BitPulse { .. } => Level::High,
        }
    }

    /// The message of the timeout that ends the exchange in this wait.
    pub open spec fn timeout_text(self) -> Seq<char> {
        match self {
            WaitPhase::Response => "Waiting for DHT11 response timed out"@,
            WaitPhase::ResponseLow => "DHT11 response signal timed out"@,
            WaitPhase::Ready => "DHT11 ready signal timed out"@,
            WaitPhase::BitGap => "Timed out while reading data bit"@,
            WaitPhase::BitPulse { .. } => "Timed out during high level data bit reading"@,
        }
    }

    /// The level that the line holds during the wait.
    pub fn held_level(&self) -> (level: Level)
        ensures
            level == self.held(),
    {
        match self {
            WaitPhase::Response => Level::High,
            WaitPhase::ResponseLow => Level::Low,
            WaitPhase::Ready => Level::High,
            WaitPhase::BitGap => Level::Low,
            WaitPhase::BitPulse { .. } => Level::High,
        }
    }

    /// The message of the timeout that ends the exchange in this wait.
    pub fn timeout_message(&self) -> (text: &'static str)
        ensures
            text@ == self.timeout_text(),
    {
        match self {
            WaitPhase::Response => "Waiting for DHT11 response timed out",
            WaitPhase::ResponseLow => "DHT11 response signal timed out",
            WaitPhase::Ready => "DHT11 ready signal timed out",
            WaitPhase::BitGap => "Timed out while reading data bit",
            WaitPhase::BitPulse { .. } => "Timed out during high level data bit reading",
        }
    }
}

/// One for a set bit, zero for a clear one.
pub open spec fn bit_value(bit: bool) -> int {
    if bit {
        1
    } else {
        0
    }
}

/// Byte `index` of the frame that `bits` spell, most significant bit first.
pub open spec fn byte_of(bits: Seq<bool>, index: int) -> u8 {
    (128 * bit_value(bits[8 * index]) + 64 * bit_value(bits[8 * index + 1]) + 32 * bit_value(
        bits[8 * index + 2],
    ) + 16 * bit_value(bits[8 * index + 3]) + 8 * bit_value(bits[8 * index + 4]) + 4 * bit_value(
        bits[8 * index + 5],
    ) + 2 * bit_value(bits[8 * index + 6]) + bit_value(bits[8 * index + 7])) as u8
}

/// The five bytes that forty bits spell, in the order in which they arrived.
pub open spec fn frame_of(bits: Seq<bool>) -> Seq<u8> {
    Seq::new(5, |index: int| byte_of(bits, index))
}

/// An exchange in progress as contracts see it: the wait it is in and the
/// bits received so far, oldest first.
pub struct ExchangeView {
    pub phase: WaitPhase,
    pub bits: Seq<bool>,
}

/// The result of feeding one sample to an exchange, as contracts see it.
pub enum StepView {
    /// The exchange goes on and wants another sample.
    Pending(ExchangeView),
    /// The exchange is over.
    Finished(Result<Dht11Data, ErrorView>),
}

impl ExchangeView {
    /// The exchange right after the line was released.
    pub open spec fn initial() -> ExchangeView {
        ExchangeView { phase: WaitPhase::Response, bits: Seq::empty() }
    }

    /// What one sample does to the exchange.
    ///
    /// A sample that shows the level of the current wait changes nothing
    /// unless it was taken after the deadline, in which case the exchange
    /// ends with the timeout of that wait. A sample that shows the other
    /// level ends the wait, whenever it was taken. The end of a bit's high
    /// pulse yields the bit, and the fortieth bit ends the exchange with the
    /// outcome of the frame.
    pub open spec fn step(self, sample: Sample) -> StepView {
        if sample.level == self.phase.held() {
            if sample.elapsed_nanos > RESPONSE_DEADLINE_NANOS {
                StepView::Finished(Err(ErrorView::Timeout(self.phase.timeout_text())))
            } else {
                StepView::Pending(self)
            }
        } else {
            match self.phase {
                WaitPhase::Response => StepView::Pending(
                    ExchangeView { phase: WaitPhase::ResponseLow, bits: self.bits },
                ),
                WaitPhase::ResponseLow => StepView::Pending(
                    ExchangeView { phase: WaitPhase::Ready, bits: self.bits },
                ),
                WaitPhase::Ready => StepView::Pending(
                    ExchangeView { phase: WaitPhase::BitGap, bits: self.bits },
                ),
                WaitPhase::BitGap => StepView::Pending(
                    ExchangeView {
                        phase: WaitPhase::BitPulse { started_at: sample.elapsed_nanos },
                        bits: self.bits,
                    },
                ),
                WaitPhase::BitPulse { started_at } => {
                    let bits = self.bits.push(pulse_is_one(started_at, sample.elapsed_nanos));
                    if bits.len() == FRAME_BITS {
                        StepView::Finished(frame_outcome(frame_of(bits)))
                    } else {
                        StepView::Pending(ExchangeView { phase: WaitPhase::BitGap, bits })
                    }
                },
            }
        }
    }

    /// What a run of samples does to the exchange, oldest sample first.
    /// Samples that follow the end of the exchange are not looked at.
    pub open spec fn run(self, samples: Seq<Sample>) -> StepView
        decreases samples.len(),
    {
        if samples.len() == 0 {
            StepView::Pending(self)
        } else {
            match self.step(samples[0]) {
                StepView::Pending(next) => next.run(samples.drop_first()),
                StepView::Finished(outcome) => StepView::Finished(outcome),
            }
        }
    }
}

/// The single bit of a byte that holds bit `offset` of it, counted from the
/// most significant.
pub open spec fn bit_mask(offset: int) -> u8 {
    if offset == 0 {
        0x80
    } else if offset == 1 {
        0x40
    } else if offset == 2 {
        0x20
    } else if offset == 3 {
        0x10
    } else if offset == 4 {
        0x08
    } else if offset == 5 {
        0x04
    } else if offset == 6 {
        0x02
    } else {
        0x01
    }
}

/// Whether bit `position` of a frame is set, the first bit being the most
/// significant bit of the first byte.
pub open spec fn frame_bit(frame: Seq<u8>, position: int) -> bool {
    frame[position / 8] & bit_mask(position % 8) != 0
}

/// One handshake-and-read exchange with the sensor, fed sample by sample.
#[derive(Debug)]
pub struct Dht11Exchange {
    phase: WaitPhase,
    frame: [u8; 5],
    bits_read: usize,
}

/// The result of feeding one sample to an exchange.
#[derive(Debug)]
pub enum ExchangeStep {
    /// The exchange goes on and wants another sample.
    Pending(Dht11Exchange),
    /// The exchange is over: a validated reading, or the reason why there
    /// is none.
    Finished(Result<Dht11Data, SensorError>),
}

impl View for Dht11Exchange {
    type V = ExchangeView;

    closed spec fn view(&self) -> ExchangeView {
        ExchangeView {
            phase: self.phase,
            bits: Seq::new(self.bits_read as nat, |position: int| frame_bit(self.frame@, position)),
        }
    }
}

impl View for ExchangeStep {
    type V = StepView;

    open spec fn view(&self) -> StepView {
        match self {
            ExchangeStep::Pending(exchange) => StepView::Pending(exchange@),
            ExchangeStep::Finished(outcome) => StepView::Finished(outcome_view(*outcome)),
        }
    }
}

proof fn lemma_set_bit(byte: u8, offset: u8, other: u8)
    by (bit_vector)
    requires
        offset < 8,
        other < 8,
    ensures
        ((byte | (0x80u8 >> offset)) & (0x80u8 >> other) != 0) == (other == offset || (byte & (0x80u8
            >> other) != 0)),
{
}

proof fn lemma_mask_is_shift(offset: u8)
    by (bit_vector)
    requires
        offset < 8,
    ensures
        0x80u8 >> offset == (if offset == 0 {
            0x80u8
        } else if offset == 1 {
            0x40u8
        } else if offset == 2 {
            0x20u8
        } else if offset == 3 {
            0x10u8
        } else if offset == 4 {
            0x08u8
        } else if offset == 5 {
            0x04u8
        } else if offset == 6 {
            0x02u8
        } else {
            0x01u8
        }),
{
}

proof fn lemma_byte_from_bits(byte: u8)
    by (bit_vector)
    ensures
        byte == (if byte & 0x80 != 0 { 128u8 } else { 0u8 }) + (if byte & 0x40 != 0 { 64u8 } else { 0u8 })
            + (if byte & 0x20 != 0 { 32u8 } else { 0u8 }) + (if byte & 0x10 != 0 { 16u8 } else { 0u8 })
            + (if byte & 0x08 != 0 { 8u8 } else { 0u8 }) + (if byte & 0x04 != 0 { 4u8 } else { 0u8 })
            + (if byte & 0x02 != 0 { 2u8 } else { 0u8 }) + (if byte & 0x01 != 0 { 1u8 } else { 0u8 }),
{
}

/// Writing one more bit into a frame whose later bits are clear leaves the
/// earlier bits as they were and the later ones clear.
proof fn lemma_write_bit(frame: Seq<u8>, count: int, bit: bool, written: Seq<u8>)
    requires
        frame.len() == 5,
        0 <= count < FRAME_BITS,
        forall|position: int| count <= position < FRAME_BITS ==> !#[trigger] frame_bit(frame, position),
        written == (if bit {
            frame.update(count / 8, frame[count / 8] | (0x80u8 >> ((count % 8) as u8)))
        } else {
            frame
        }),
    ensures
        forall|position: int| 0 <= position < count ==> #[trigger] frame_bit(written, position) == frame_bit(frame, position),
        frame_bit(written, count) == bit,
        forall|position: int| count < position < FRAME_BITS ==> !#[trigger] frame_bit(written, position),
{
    if bit {
        let index = count / 8;
        let offset = (count % 8) as u8;
        assert forall|position: int| 0 <= position < FRAME_BITS implies #[trigger] frame_bit(written, position)
            == (position == count || frame_bit(frame, position)) by {
            let other = (position % 8) as u8;
            lemma_mask_is_shift(other);
            if position / 8 == index {
                lemma_set_bit(frame[index], offset, other);
            }
        }
    }
}

/// Bits read off a frame, most significant first, spell that frame.
pub proof fn lemma_frame_of_bits(frame: Seq<u8>, bits: Seq<bool>)
    requires
        frame.len() == 5,
        bits.len() == FRAME_BITS,
        forall|position: int| 0 <= position < FRAME_BITS ==> bits[position] == #[trigger] frame_bit(frame, position),
    ensures
        frame_of(bits) == frame,
{
    assert forall|index: int| 0 <= index < 5 implies byte_of(bits, index) == frame[index] by {
        lemma_byte_from_bits(frame[index]);
        assert(bits[8 * index] == frame_bit(frame, 8 * index));
        assert(bits[8 * index + 1] == frame_bit(frame, 8 * index + 1));
        assert(bits[8 * index + 2] == frame_bit(frame, 8 * index + 2));
        assert(bits[8 * index + 3] == frame_bit(frame, 8 * index + 3));
        assert(bits[8 * index + 4] == frame_bit(frame, 8 * index + 4));
        assert(bits[8 * index + 5] == frame_bit(frame, 8 * index + 5));
        assert(bits[8 * index + 6] == frame_bit(frame, 8 * index + 6));
        assert(bits[8 * index + 7] == frame_bit(frame, 8 * index + 7));
    }
    assert(frame_of(bits) =~= frame);
}

impl Dht11Exchange {
    #[verifier::type_invariant]
    spec fn well_formed(self) -> bool {
        &&& self.bits_read < FRAME_BITS
        &&& forall|position: int|
            self.bits_read <= position < FRAME_BITS ==> !#[trigger] frame_bit(self.frame@, position)
    }

    /// An exchange that begins as the line is released: nothing received,
    /// waiting for the sensor to answer.
    pub fn new() -> (exchange: Self)
        ensures
            exchange@ == ExchangeView::initial(),
    {
        let frame = [0u8; 5];
        assert forall|position: int| 0 <= position < FRAME_BITS implies !#[trigger] frame_bit(
            frame@,
            position,
        ) by {
            assert(0u8 & bit_mask(position % 8) == 0) by (bit_vector);
        }
        let exchange = Dht11Exchange { phase: WaitPhase::Response, frame, bits_read: 0 };
        assert(exchange@.bits =~= Seq::empty());
        exchange
    }

    /// The wait that the exchange is in.
    pub fn phase(&self) -> (phase: WaitPhase)
        ensures
            phase == self@.phase,
    {
        self.phase
    }

    /// The number of bits received so far.
    pub fn bits_received(&self) -> (count: usize)
        ensures
            count == self@.bits.len(),
            count < FRAME_BITS,
    {
        proof {
            use_type_invariant(self);
        }
        self.bits_read
    }

    /// Feeds one sample to the exchange.
    pub fn step(self, sample: Sample) -> (out: ExchangeStep)
        ensures
            out@ == self@.step(sample),
    {
        proof {
            use_type_invariant(&self);
        }
        if sample.level == self.phase.held_level() {
            if sample.elapsed_nanos > RESPONSE_DEADLINE_NANOS {
                let text = String::from_str(self.phase.timeout_message());
                ExchangeStep::Finished(Err(SensorError::Timeout(text)))
            } else {
                ExchangeStep::Pending(self)
            }
        } else {
            match self.phase {
                WaitPhase::Response => ExchangeStep::Pending(
                    Dht11Exchange {
                        phase: WaitPhase::ResponseLow,
                        frame: self.frame,
                        bits_read: self.bits_read,
                    },
                ),
                WaitPhase::ResponseLow => ExchangeStep::Pending(
                    Dht11Exchange {
                        phase: WaitPhase::Ready,
                        frame: self.frame,
                        bits_read: self.bits_read,
                    },
                ),
                WaitPhase::Ready => ExchangeStep::Pending(
                    Dht11Exchange {
                        phase: WaitPhase::BitGap,
                        frame: self.frame,
                        bits_read: self.bits_read,
                    },
                ),
                WaitPhase::BitGap => ExchangeStep::Pending(
                    Dht11Exchange {
                        phase: WaitPhase::BitPulse { started_at: sample.elapsed_nanos },
                        frame: self.frame,
                        bits_read: self.bits_read,
                    },
                ),
                WaitPhase::BitPulse { started_at } => {
                    let bit = pulse_bit(started_at, sample.elapsed_nanos);
                    let mut frame = self.frame;
                    if bit {
                        let index = self.bits_read / 8;
                        let offset = (self.bits_read % 8) as u8;
                        frame[index] = frame[index] | (0x80u8 >> offset);
                    }
                    let bits_read = self.bits_read + 1;
                    let ghost bits = self@.bits.push(bit);
                    proof {
                        lemma_write_bit(self.frame@, self.bits_read as int, bit, frame@);
                        assert(bits =~= Seq::new(
                            bits_read as nat,
                            |position: int| frame_bit(frame@, position),
                        ));
                    }
                    if bits_read == FRAME_BITS {
                        proof {
                            lemma_frame_of_bits(frame@, bits);
                        }
                        ExchangeStep::Finished(decode_frame(&frame))
                    } else {
                        ExchangeStep::Pending(
                            Dht11Exchange { phase: WaitPhase::BitGap, frame, bits_read },
                        )
                    }
                },
            }
        }
    }

    /// Feeds a recorded run of samples to the exchange, oldest first, and
    /// stops at the sample that ends it.
    pub fn run(self, samples: &[Sample]) -> (out: ExchangeStep)
        ensures
            out@ == self@.run(samples@),
    {
        let mut current = self;
        let mut fed: usize = 0;
        assert(samples@.subrange(0, samples@.len() as int) =~= samples@);
        while fed < samples.len()
            invariant
                fed <= samples.len(),
                current@.run(samples@.subrange(fed as int, samples@.len() as int)) == self@.run(
                    samples@,
                ),
            decreases samples.len() - fed,
        {
            let ghost rest = samples@.subrange(fed as int, samples@.len() as int);
            assert(rest.drop_first() =~= samples@.subrange(fed + 1, samples@.len() as int));
            assert(rest[0] == samples@[fed as int]);
            match current.step(samples[fed]) {
                ExchangeStep::Pending(next) => {
                    current = next;
                },
                ExchangeStep::Finished(outcome) => {
                    return ExchangeStep::Finished(outcome);
                },
            }
            fed += 1;
        }
        ExchangeStep::Pending(current)
    }
}

/// One thing to do with the data line.
#[derive(Debug, Clone, Copy, PartialEq, Eq, Structural)]
pub enum LineCommand {
    /// Drive the line, as an output, to the level.
    Drive(Level),
    /// Leave the line as it is for so many milliseconds.
    Hold { millis: u64 },
    /// Switch the line to an input and let the sensor drive it.
    Release,
}

/// The start signal that asks the sensor for a frame: the line is held low
/// for `START_SIGNAL_MILLIS`, driven high, and released. The exchange
/// begins with the release.
pub fn start_signal() -> (plan: [LineCommand; 4])
    ensures
        plan@ == seq![
            LineCommand::Drive(Level::Low),
            LineCommand::Hold { millis: START_SIGNAL_MILLIS },
            LineCommand::Drive(Level::High),
            LineCommand::Release,
        ],
{
    let plan = [
        LineCommand::Drive(Level::Low),
        LineCommand::Hold { millis: START_SIGNAL_MILLIS },
        LineCommand::Drive(Level::High),
        LineCommand::Release,
    ];
    assert(plan@ =~= seq![
        LineCommand::Drive(Level::Low),
        LineCommand::Hold { millis: START_SIGNAL_MILLIS },
        LineCommand::Drive(Level::High),
        LineCommand::Release,
    ]);
    plan
}

/// A DHT11 sensor bound to one GPIO pin.
#[derive(Debug)]
pub struct Dht11Sensor {
    gpio_pin: u8,
}

impl Dht11Sensor {
    /// The number of the pin that the sensor is bound to.
    pub closed spec fn pin(&self) -> u8 {
        self.gpio_pin
    }

    /// Binds a sensor to the GPIO pin with the given number.
    pub fn new(pin: u8) -> (sensor: Self)
        ensures
            sensor.pin() == pin,
    {
        Dht11Sensor { gpio_pin: pin }
    }

    /// The number of the pin that the sensor is bound to.
    pub fn gpio_pin(&self) -> (pin: u8)
        ensures
            pin == self.pin(),
    {
        self.gpio_pin
    }
}

} // verus!

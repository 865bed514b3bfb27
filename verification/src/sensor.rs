//! The sensor handle: the protocol between the core and the engine for one
//! physical sensor.
//!
//! The sensor works on one operation at a time. An operation is a short
//! script of outside work: power-cycling the sensor, calling an engine
//! primitive, waiting for the interrupt line. The handle does none of that
//! work. It hands the driver a [`Directive`], takes the outcome back as an
//! [`Event`], and decides what follows:
//!
//! ```text
//! calibrations     call, then on "not complete" wait for the interrupt and
//!                  call again, until the engine reports completion or failure
//! measure          call, then wait for the interrupt that announces the data
//! everything else  one call
//! ```
//!
//! A sensor calibration power-cycles the sensor before its first call. An
//! event that the handle is not waiting for changes nothing: the handle
//! repeats the directive that is outstanding.
//!
//! While an operation is in flight no other is started: a request for one
//! is refused with `NotReady` and leaves the operation in flight as it is.
//! The power cycle alone is never refused. It abandons what was in flight,
//! and so brings a sensor back whose operation was left unfinished.

use vstd::prelude::*;
use crate::sensor::error::SensorError;

/// Calibration results of the sensor
pub mod calibration;
/// Raw radar data
pub mod data;
/// Errors of the sensor protocol
pub mod error;

verus! {

/// The time in milliseconds that the enable line is given to settle after it
/// was driven.
pub const SETTLE_MS: u32 = 2;

/// An engine primitive that works on the sensor.
#[derive(Debug, Clone, Copy, PartialEq, Eq, Structural)]
pub enum Operation {
    /// Calibrate the sensor
    Calibrate,
    /// Prepare the sensor for a configuration and a calibration
    Prepare,
    /// Start a measurement
    Measure,
    /// Read the measured data out
    Read,
    /// Prepare the sensor for hibernation
    HibernateOn,
    /// Restore the sensor after hibernation
    HibernateOff,
    /// Calibrate a detector
    DetectorCalibrate,
    /// Update the calibration of a detector
    DetectorUpdateCalibration,
    /// Prepare a detector
    DetectorPrepare,
}

impl Operation {
    /// Whether the operation is a calibration: its primitive is called again
    /// after each interrupt until the engine reports that it is complete.
    pub open spec fn is_calibration(self) -> bool {
        self == Operation::Calibrate || self == Operation::DetectorCalibrate || self
            == Operation::DetectorUpdateCalibration
    }

    /// Whether the operation is one of a detector.
    pub open spec fn of_detector(self) -> bool {
        self == Operation::DetectorCalibrate || self == Operation::DetectorUpdateCalibration
            || self == Operation::DetectorPrepare
    }

    /// The error that ends the operation when the engine reports failure.
    pub open spec fn failure(self) -> SensorError {
        match self {
            Operation::Calibrate => SensorError::CalibrationFailed,
            Operation::Prepare => SensorError::PrepareFailed,
            Operation::Measure => SensorError::MeasurementError,
            Operation::Read => SensorError::ReadError,
            Operation::HibernateOn => SensorError::HibernationOnFailed,
            Operation::HibernateOff => SensorError::HibernationOffFailed,
            Operation::DetectorCalibrate => SensorError::CalibrationFailed,
            Operation::DetectorUpdateCalibration => SensorError::CalibrationFailed,
            Operation::DetectorPrepare => SensorError::PrepareFailed,
        }
    }

    /// Whether the operation is a calibration.
    pub fn retries_until_complete(&self) -> (r: bool)
        ensures
            r == self.is_calibration(),
    {
        match self {
            Operation::Calibrate => true,
            Operation::DetectorCalibrate => true,
            Operation::DetectorUpdateCalibration => true,
            _ => false,
        }
    }

    /// The error that ends the operation when the engine reports failure.
    pub fn failure_kind(&self) -> (e: SensorError)
        ensures
            e == self.failure(),
    {
        match self {
            Operation::Calibrate => SensorError::CalibrationFailed,
            Operation::Prepare => SensorError::PrepareFailed,
            Operation::Measure => SensorError::MeasurementError,
            Operation::Read => SensorError::ReadError,
            Operation::HibernateOn => SensorError::HibernationOnFailed,
            Operation::HibernateOff => SensorError::HibernationOffFailed,
            Operation::DetectorCalibrate => SensorError::CalibrationFailed,
            Operation::DetectorUpdateCalibration => SensorError::CalibrationFailed,
            Operation::DetectorPrepare => SensorError::PrepareFailed,
        }
    }
}

/// What follows a power cycle.
#[derive(Debug, Clone, Copy, PartialEq, Eq, Structural)]
pub enum Resume {
    /// Nothing: the power cycle was asked for on its own
    Finish,
    /// The sensor calibration, with a buffer of this many bytes
    Calibrate(usize),
}

/// Where the sensor stands in its current operation.
#[derive(Debug, Clone, Copy, PartialEq, Eq, Structural)]
pub enum Phase {
    /// No operation is in flight
    Idle,
    /// The enable line is being driven low
    PoweringDown(Resume),
    /// The enable line is being driven high again
    PoweringUp(Resume),
    /// The engine primitive of the operation is being called, with a buffer
    /// of this many bytes
    Calling(Operation, usize),
    /// The operation waits for the interrupt line
    Waiting(Operation, usize),
}

/// What the engine reported of one call.
#[derive(Debug, Clone, Copy, PartialEq, Eq, Structural)]
pub struct Reply {
    /// The value that the primitive returned: `true` for success
    pub success: bool,
    /// For a calibration, whether the engine reports it complete. Other
    /// operations do not look at it.
    pub complete: bool,
}

/// The outcome of the outside work that a directive asked for.
#[derive(Debug, Clone, Copy, PartialEq, Eq, Structural)]
pub enum Event {
    /// The enable line was driven as asked and has settled
    Settled,
    /// The engine primitive returned
    Replied(Reply),
    /// The interrupt line went high
    InterruptSeen,
}

/// The outside work that the driver does next.
#[derive(Debug, Clone, Copy, PartialEq, Eq)]
pub enum Directive {
    /// Nothing is in flight, there is nothing to do
    Idle,
    /// Drive the enable line low and let it settle for [`SETTLE_MS`], then
    /// report [`Event::Settled`]
    PowerDown,
    /// Drive the enable line high and let it settle for [`SETTLE_MS`], then
    /// report [`Event::Settled`]
    PowerUp,
    /// Call the engine primitive of the operation with the first `buffer_len`
    /// bytes of the operation's buffer, then report [`Event::Replied`]
    Call {
        /// The operation whose primitive is called
        operation: Operation,
        /// How many bytes of the buffer the primitive may use
        buffer_len: usize,
    },
    /// Wait until the interrupt line is high, then report
    /// [`Event::InterruptSeen`]
    AwaitInterrupt,
    /// The operation has ended, with this result
    Done(Result<(), SensorError>),
}

impl Phase {
    /// The directive that a sensor in this phase is waiting on.
    pub open spec fn outstanding(self) -> Directive {
        match self {
            Phase::Idle => Directive::Idle,
            Phase::PoweringDown(_) => Directive::PowerDown,
            Phase::PoweringUp(_) => Directive::PowerUp,
            Phase::Calling(operation, buffer_len) => Directive::Call { operation, buffer_len },
            Phase::Waiting(_, _) => Directive::AwaitInterrupt,
        }
    }

    /// The result with which the operation ends on `event`, if it ends there.
    ///
    /// A power cycle that was asked for on its own ends when the enable line
    /// has settled high. A call ends the operation with the operation's error
    /// where the engine reports failure. Where it reports success, a
    /// calibration ends once the engine reports it complete, a measurement
    /// goes on to wait for its data, and any other operation ends. The
    /// interrupt ends the measurement that waits for it.
    pub open spec fn result(self, event: Event) -> Option<Result<(), SensorError>> {
        match (self, event) {
            (Phase::PoweringUp(Resume::Finish), Event::Settled) => Some(Ok(())),
            (Phase::Calling(operation, _), Event::Replied(reply)) => {
                if !reply.success {
                    Some(Err(operation.failure()))
                } else if operation.is_calibration() && !reply.complete {
                    None
                } else if operation == Operation::Measure {
                    None
                } else {
                    Some(Ok(()))
                }
            },
            (Phase::Waiting(operation, _), Event::InterruptSeen) => {
                if operation.is_calibration() {
                    None
                } else {
                    Some(Ok(()))
                }
            },
            _ => None,
        }
    }

    /// The phase that follows `self` on `event`: idle where the operation
    /// ends, the next piece of outside work where the event is the one that
    /// the phase waits for, and the phase itself on any other event.
    pub open spec fn next(self, event: Event) -> Phase {
        if self.result(event) is Some {
            Phase::Idle
        } else {
            match (self, event) {
                (Phase::PoweringDown(resume), Event::Settled) => Phase::PoweringUp(resume),
                (Phase::PoweringUp(Resume::Calibrate(buffer_len)), Event::Settled) => {
                    Phase::Calling(Operation::Calibrate, buffer_len)
                },
                (Phase::Calling(operation, buffer_len), Event::Replied(_)) => Phase::Waiting(
                    operation,
                    buffer_len,
                ),
                (Phase::Waiting(operation, buffer_len), Event::InterruptSeen) => Phase::Calling(
                    operation,
                    buffer_len,
                ),
                _ => self,
            }
        }
    }

    /// The directive that answers `event`: the end of the operation where it
    /// ends, else what the next phase is waiting on.
    pub open spec fn answer(self, event: Event) -> Directive {
        match self.result(event) {
            Some(result) => Directive::Done(result),
            None => self.next(event).outstanding(),
        }
    }

    /// The directive that answers a request while an operation is in flight.
    pub open spec fn busy() -> Directive {
        Directive::Done(Err(SensorError::NotReady))
    }

    /// The phase after a request for an operation that consists of engine
    /// calls alone: the first call where the sensor is idle, else the phase
    /// as it was.
    pub open spec fn begun(self, operation: Operation, buffer_len: usize) -> Phase {
        if self == Phase::Idle {
            Phase::Calling(operation, buffer_len)
        } else {
            self
        }
    }

    /// The phase after a request for a sensor calibration: the power cycle
    /// where the sensor is idle, else the phase as it was.
    pub open spec fn calibration_begun(self, buffer_len: usize) -> Phase {
        if self == Phase::Idle {
            Phase::PoweringDown(Resume::Calibrate(buffer_len))
        } else {
            self
        }
    }

    /// The directive that answers a request: the first piece of outside work
    /// of the operation where the sensor is idle, else the refusal.
    pub open spec fn opening_answer(self, opening: Phase) -> Directive {
        if self == Phase::Idle {
            opening.outstanding()
        } else {
            Self::busy()
        }
    }
}

impl Phase {
    /// Whether a calibration with these parameters is in flight and past its
    /// power cycle.
    pub open spec fn calibrating(self, operation: Operation, buffer_len: usize) -> bool {
        self == Phase::Calling(operation, buffer_len) || self == Phase::Waiting(
            operation,
            buffer_len,
        )
    }

    /// The phase after a run of events.
    pub open spec fn run(self, events: Seq<Event>) -> Phase
        decreases events.len(),
    {
        if events.len() == 0 {
            self
        } else {
            self.run(events.drop_last()).next(events.last())
        }
    }
}

/// Whether an event leaves a calibration unfinished: it is no reply, or a
/// reply that reports success without completion.
pub open spec fn leaves_incomplete(event: Event) -> bool {
    event matches Event::Replied(reply) ==> reply.success && !reply.complete
}

/// A calibration goes on for as long as the engine reports "not complete".
///
/// Whatever the number and the order of the interrupts and of the replies
/// that report success without completion, no step of the run ends the
/// calibration, with an error or otherwise, and after the run the same
/// calibration is still in flight.
pub proof fn lemma_calibration_outlasts_replay(
    start: Phase,
    operation: Operation,
    buffer_len: usize,
    events: Seq<Event>,
)
    requires
        operation.is_calibration(),
        start.calibrating(operation, buffer_len),
        forall|i: int| 0 <= i < events.len() ==> leaves_incomplete(#[trigger] events[i]),
    ensures
        start.run(events).calibrating(operation, buffer_len),
        forall|i: int|
            0 <= i < events.len() ==> (#[trigger] start.run(events.take(i))).result(events[i])
                is None,
    decreases events.len(),
{
    if events.len() > 0 {
        let earlier = events.drop_last();
        lemma_calibration_outlasts_replay(start, operation, buffer_len, earlier);
        assert(leaves_incomplete(events[events.len() - 1]));
        assert forall|i: int| 0 <= i < events.len() implies (#[trigger] start.run(
            events.take(i),
        )).result(events[i]) is None by {
            if i < events.len() - 1 {
                assert(events.take(i) =~= earlier.take(i));
                assert(events[i] == earlier[i]);
            } else {
                assert(events.take(i) =~= earlier);
            }
        }
    }
}

/// A calibration that is waiting for the interrupt calls the engine again
/// when the interrupt comes, and ends on the first reply that reports
/// completion or failure: with success on the one, with the operation's
/// error on the other.
pub proof fn lemma_calibration_ends_on_reply(
    operation: Operation,
    buffer_len: usize,
    reply: Reply,
)
    requires
        operation.is_calibration(),
    ensures
        Phase::Waiting(operation, buffer_len).answer(Event::InterruptSeen) == (Directive::Call {
            operation,
            buffer_len,
        }),
        !reply.success ==> Phase::Calling(operation, buffer_len).answer(Event::Replied(reply))
            == Directive::Done(Err(SensorError::CalibrationFailed)),
        reply.success && reply.complete ==> Phase::Calling(operation, buffer_len).answer(
            Event::Replied(reply),
        ) == Directive::Done(Ok(())),
        reply.success && !reply.complete ==> Phase::Calling(operation, buffer_len).answer(
            Event::Replied(reply),
        ) == Directive::AwaitInterrupt,
{
}

/// The handle of one sensor.
#[derive(Debug, Clone, Copy, PartialEq, Eq)]
pub struct Sensor {
    phase: Phase,
}

impl View for Sensor {
    type V = Phase;

    closed spec fn view(&self) -> Phase {
        self.phase
    }
}

impl Sensor {
    /// Creates the handle of a sensor that the engine has created. Nothing is
    /// in flight.
    pub fn new() -> (sensor: Self)
        ensures
            sensor@ == Phase::Idle,
    {
        Self { phase: Phase::Idle }
    }

    /// Where the sensor stands in its current operation.
    pub fn phase(&self) -> (phase: Phase)
        ensures
            phase == self@,
    {
        self.phase
    }

    /// Whether no operation is in flight.
    pub fn is_idle(&self) -> (idle: bool)
        ensures
            idle == (self@ == Phase::Idle),
    {
        match self.phase {
            Phase::Idle => true,
            _ => false,
        }
    }

    /// The directive that the sensor is waiting on.
    pub fn outstanding(&self) -> (directive: Directive)
        ensures
            directive == self@.outstanding(),
    {
        match self.phase {
            Phase::Idle => Directive::Idle,
            Phase::PoweringDown(_) => Directive::PowerDown,
            Phase::PoweringUp(_) => Directive::PowerUp,
            Phase::Calling(operation, buffer_len) => Directive::Call { operation, buffer_len },
            Phase::Waiting(_, _) => Directive::AwaitInterrupt,
        }
    }

    /// Starts an operation that consists of engine calls alone, with a buffer
    /// of `buffer_len` bytes. Refused with `NotReady` while an operation is
    /// in flight.
    pub fn begin(&mut self, operation: Operation, buffer_len: usize) -> (directive: Directive)
        ensures
            final(self)@ == old(self)@.begun(operation, buffer_len),
            directive == old(self)@.opening_answer(Phase::Calling(operation, buffer_len)),
    {
        if !self.is_idle() {
            return Directive::Done(Err(SensorError::NotReady));
        }
        self.phase = Phase::Calling(operation, buffer_len);
        Directive::Call { operation, buffer_len }
    }

    /// Power-cycles the sensor: the enable line goes low, then high again.
    /// Never refused: what was in flight is abandoned.
    pub fn reset_sensor(&mut self) -> (directive: Directive)
        ensures
            final(self)@ == Phase::PoweringDown(Resume::Finish),
            directive == Directive::PowerDown,
    {
        self.phase = Phase::PoweringDown(Resume::Finish);
        Directive::PowerDown
    }

    /// Calibrates the sensor: a power cycle, then calibration attempts with a
    /// buffer of `buffer_len` bytes until the engine reports completion or
    /// failure. Refused with `NotReady` while an operation is in flight.
    pub fn calibrate(&mut self, buffer_len: usize) -> (directive: Directive)
        ensures
            final(self)@ == old(self)@.calibration_begun(buffer_len),
            directive == old(self)@.opening_answer(
                Phase::PoweringDown(Resume::Calibrate(buffer_len)),
            ),
    {
        if !self.is_idle() {
            return Directive::Done(Err(SensorError::NotReady));
        }
        self.phase = Phase::PoweringDown(Resume::Calibrate(buffer_len));
        Directive::PowerDown
    }

    /// Prepares the sensor for measurement, with a buffer of `buffer_len`
    /// bytes. Refused with `NotReady` while an operation is in flight.
    pub fn prepare(&mut self, buffer_len: usize) -> (directive: Directive)
        ensures
            final(self)@ == old(self)@.begun(Operation::Prepare, buffer_len),
            directive == old(self)@.opening_answer(Phase::Calling(Operation::Prepare, buffer_len)),
    {
        self.begin(Operation::Prepare, buffer_len)
    }

    /// Prepares the sensor for entering hibernation. Refused with `NotReady`
    /// while an operation is in flight.
    pub fn hibernate_on(&mut self) -> (directive: Directive)
        ensures
            final(self)@ == old(self)@.begun(Operation::HibernateOn, 0),
            directive == old(self)@.opening_answer(Phase::Calling(Operation::HibernateOn, 0)),
    {
        self.begin(Operation::HibernateOn, 0)
    }

    /// Restores the sensor after exiting hibernation. Refused with `NotReady`
    /// while an operation is in flight.
    pub fn hibernate_off(&mut self) -> (directive: Directive)
        ensures
            final(self)@ == old(self)@.begun(Operation::HibernateOff, 0),
            directive == old(self)@.opening_answer(Phase::Calling(Operation::HibernateOff, 0)),
    {
        self.begin(Operation::HibernateOff, 0)
    }

    /// Starts a measurement. The operation ends when the interrupt line
    /// announces the data. Refused with `NotReady` while an operation is in
    /// flight.
    pub fn measure(&mut self) -> (directive: Directive)
        ensures
            final(self)@ == old(self)@.begun(Operation::Measure, 0),
            directive == old(self)@.opening_answer(Phase::Calling(Operation::Measure, 0)),
    {
        self.begin(Operation::Measure, 0)
    }

    /// Reads the measured data into a buffer of `buffer_len` bytes. Refused
    /// with `NotReady` while an operation is in flight.
    pub fn read(&mut self, buffer_len: usize) -> (directive: Directive)
        ensures
            final(self)@ == old(self)@.begun(Operation::Read, buffer_len),
            directive == old(self)@.opening_answer(Phase::Calling(Operation::Read, buffer_len)),
    {
        self.begin(Operation::Read, buffer_len)
    }

    /// Takes the outcome of the outside work and says what follows.
    pub fn advance(&mut self, event: Event) -> (directive: Directive)
        ensures
            final(self)@ == old(self)@.next(event),
            directive == old(self)@.answer(event),
    {
        match (self.phase, event) {
            (Phase::PoweringDown(resume), Event::Settled) => {
                self.phase = Phase::PoweringUp(resume);
                Directive::PowerUp
            },
            (Phase::PoweringUp(Resume::Finish), Event::Settled) => {
                self.phase = Phase::Idle;
                Directive::Done(Ok(()))
            },
            (Phase::PoweringUp(Resume::Calibrate(buffer_len)), Event::Settled) => {
                self.phase = Phase::Calling(Operation::Calibrate, buffer_len);
                Directive::Call { operation: Operation::Calibrate, buffer_len }
            },
            (Phase::Calling(operation, buffer_len), Event::Replied(reply)) => {
                if !reply.success {
                    self.phase = Phase::Idle;
                    Directive::Done(Err(operation.failure_kind()))
                } else if operation.retries_until_complete() {
                    if reply.complete {
                        self.phase = Phase::Idle;
                        Directive::Done(Ok(()))
                    } else {
                        self.phase = Phase::Waiting(operation, buffer_len);
                        Directive::AwaitInterrupt
                    }
                } else if operation == Operation::Measure {
                    self.phase = Phase::Waiting(operation, buffer_len);
                    Directive::AwaitInterrupt
                } else {
                    self.phase = Phase::Idle;
                    Directive::Done(Ok(()))
                }
            },
            (Phase::Waiting(operation, buffer_len), Event::InterruptSeen) => {
                if operation.retries_until_complete() {
                    self.phase = Phase::Calling(operation, buffer_len);
                    Directive::Call { operation, buffer_len }
                } else {
                    self.phase = Phase::Idle;
                    Directive::Done(Ok(()))
                }
            },
            _ => self.outstanding(),
        }
    }
}

} // verus!

//! The radar: one sensor, its configuration and its lifecycle.
//!
//! ```text
//! Enabled      --prepare_sensor-->  Ready     (with a validated calibration)
//! Ready        --hibernate_on-->    Hibernating
//! Hibernating  --hibernate_off-->   Ready
//! Ready        --measure-->         Ready     (the data is read, the state stays)
//! any state    --calibrate-->       the same state
//! any state    --reset_sensor-->    Enabled
//! ```
//!
//! An operation that the state does not admit is answered at once with
//! `Done(Err(NotReady))`: nothing is started and no engine primitive is
//! called. The same holds of an operation that is asked for while another is
//! in flight: the sensor works on one operation at a time. Only the reset is
//! admitted at any time. An operation that is admitted is handed to the
//! sensor, and the driver carries it out directive by directive through
//! [`Radar::advance`]. The state changes when the operation has ended with
//! success, and only then: an operation that fails leaves the radar in the
//! state it had.

use vstd::prelude::*;
use crate::config::RadarConfig;
use crate::config::RadarConfigView;
use crate::sensor::calibration::CalibrationResult;
use crate::sensor::error::SensorError;
use crate::sensor::Directive;
use crate::sensor::Event;
use crate::sensor::Operation;
use crate::sensor::Phase;
use crate::sensor::Reply;
use crate::sensor::Resume;
use crate::sensor::Sensor;

/// Errors of the radar as a whole
pub mod error;
/// The version of the radar system software
pub mod version;

verus! {

/// Default scratch buffer size for radar operations (calibration + measurements).
///
/// This value is sufficient for most configurations.
pub const DEFAULT_SCRATCH_BUFFER_SIZE: usize = 5_560;

/// Buffer size needed for sensor prepare operations.
pub const PREPARE_BUFFER_SIZE: usize = 2_560;

/// The number of steps that bring a radar up.
pub const STARTUP_STEPS: u8 = 9;

/// The lifecycle state of the radar.
#[derive(Debug, Clone, Copy, PartialEq, Eq, Structural)]
pub enum RadarState {
    /// The sensor is powered and is not prepared for a configuration
    Enabled,
    /// The sensor is prepared and can measure
    Ready,
    /// The sensor is prepared for its power to be switched off
    Hibernating,
}

/// One step of bringing a radar up.
#[derive(Debug, Clone, Copy, PartialEq, Eq, Structural)]
pub enum StartupStep {
    /// Drive the enable line of the sensor low (`false`) or high (`true`)
    SetEnable(bool),
    /// Let this many milliseconds pass
    Delay(u32),
    /// Register the transport and the allocator with the engine
    RegisterTransport,
    /// Have the engine create its configuration object
    CreateConfig,
    /// Have the engine create its sensor object
    CreateSensor,
    /// Have the engine create its processing object
    CreateProcessing,
}

/// The steps that bring a radar up, in their order: the sensor is switched
/// off and on again with time to settle, the transport is registered with
/// the engine, and the engine creates its objects.
pub open spec fn startup_script() -> Seq<StartupStep> {
    seq![
        StartupStep::SetEnable(false),
        StartupStep::Delay(50),
        StartupStep::SetEnable(true),
        StartupStep::Delay(50),
        StartupStep::RegisterTransport,
        StartupStep::Delay(10),
        StartupStep::CreateConfig,
        StartupStep::CreateSensor,
        StartupStep::CreateProcessing,
    ]
}

/// How far the startup of a radar has come.
#[derive(Debug, Clone, Copy, PartialEq, Eq, Structural)]
pub struct Startup {
    /// How many steps have succeeded
    pub completed: u8,
    /// Whether a step has failed
    pub failed: bool,
}

impl Startup {
    /// Whether every step has succeeded.
    pub open spec fn complete(self) -> bool {
        !self.failed && self.completed >= STARTUP_STEPS
    }

    /// The step that is due, if one is: none after a failure, and none when
    /// every step has succeeded.
    pub open spec fn due(self) -> Option<StartupStep> {
        if self.failed || self.completed >= STARTUP_STEPS {
            None
        } else {
            Some(startup_script()[self.completed as int])
        }
    }

    /// The startup after the step that was due has succeeded or failed.
    /// Where no step was due, nothing changes: a startup that has failed
    /// stays failed.
    pub open spec fn recorded(self, success: bool) -> Startup {
        if self.due() is None {
            self
        } else if success {
            Startup { completed: (self.completed + 1) as u8, ..self }
        } else {
            Startup { failed: true, ..self }
        }
    }

    /// A startup of which no step has been taken.
    pub fn new() -> (startup: Self)
        ensures
            startup == (Startup { completed: 0, failed: false }),
    {
        Self { completed: 0, failed: false }
    }

    /// The step that the driver takes next, if there is one.
    pub fn next_step(&self) -> (step: Option<StartupStep>)
        ensures
            step == self.due(),
    {
        if self.failed {
            return None;
        }
        match self.completed {
            0 => Some(StartupStep::SetEnable(false)),
            1 => Some(StartupStep::Delay(50)),
            2 => Some(StartupStep::SetEnable(true)),
            3 => Some(StartupStep::Delay(50)),
            4 => Some(StartupStep::RegisterTransport),
            5 => Some(StartupStep::Delay(10)),
            6 => Some(StartupStep::CreateConfig),
            7 => Some(StartupStep::CreateSensor),
            8 => Some(StartupStep::CreateProcessing),
            _ => None,
        }
    }

    /// Takes the outcome of the step that was due.
    pub fn record(&mut self, success: bool)
        ensures
            *final(self) == old(self).recorded(success),
    {
        if self.failed || self.completed >= STARTUP_STEPS {
            return ;
        }
        if success {
            self.completed = self.completed + 1;
        } else {
            self.failed = true;
        }
    }

    /// Whether every step has succeeded.
    pub fn is_complete(&self) -> (r: bool)
        ensures
            r == self.complete(),
    {
        !self.failed && self.completed >= STARTUP_STEPS
    }

    /// Whether a step has failed.
    pub fn has_failed(&self) -> (r: bool)
        ensures
            r == self.failed,
    {
        self.failed
    }
}

/// A startup that has failed is over: whatever is recorded after the failure,
/// it stays as it is, no step is due, and it is never complete.
pub proof fn lemma_failed_startup_is_over(startup: Startup, success: bool)
    requires
        startup.failed,
    ensures
        startup.due() is None,
        !startup.complete(),
        startup.recorded(success) == startup,
{
}

/// A startup is complete when each of its nine steps has succeeded, and not
/// before.
pub proof fn lemma_startup_completes_after_every_step(startup: Startup)
    requires
        !startup.failed,
        startup.completed < STARTUP_STEPS,
    ensures
        !startup.complete(),
        startup.due() == Some(startup_script()[startup.completed as int]),
        startup.recorded(true).completed == startup.completed + 1,
        startup.recorded(true).complete() <==> startup.completed == STARTUP_STEPS - 1,
        startup.recorded(false).failed,
{
}

/// What can be asked of a radar.
#[derive(Debug, Clone, Copy, PartialEq, Eq, Structural)]
pub enum Request {
    /// Calibrate the sensor
    Calibrate,
    /// Prepare the sensor for the configuration and a calibration result,
    /// which is validated or not
    PrepareSensor {
        /// Whether the calibration result is validated
        validated: bool,
    },
    /// Measure a frame and read it into a buffer of this many bytes
    Measure(usize),
    /// Prepare the sensor for hibernation
    HibernateOn,
    /// Restore the sensor after hibernation
    HibernateOff,
    /// Power-cycle the sensor
    ResetSensor,
}

/// What the lifecycle of a radar consists of.
pub struct RadarView {
    /// The id of the sensor
    pub id: u32,
    /// The lifecycle state
    pub state: RadarState,
    /// Where the sensor stands in its current operation
    pub phase: Phase,
    /// The size of the scratch buffer in bytes
    pub scratch_size: usize,
    /// The size in bytes of the buffer that the measurement in flight reads
    /// into
    pub data_len: usize,
    /// The configuration of the sensor
    pub config: RadarConfigView,
}

impl RadarView {
    /// The radar as it is brought up: enabled, with nothing in flight.
    pub open spec fn fresh(id: u32, scratch_size: usize) -> RadarView {
        RadarView {
            id,
            state: RadarState::Enabled,
            phase: Phase::Idle,
            scratch_size,
            data_len: 0,
            config: RadarConfigView::initial(),
        }
    }

    /// The radar with its sensor in another phase.
    pub open spec fn started(self, phase: Phase) -> RadarView {
        RadarView { phase, ..self }
    }

    /// The state that a request needs, if it needs one.
    pub open spec fn needed_state(request: Request) -> Option<RadarState> {
        match request {
            Request::Calibrate => None,
            Request::ResetSensor => None,
            Request::PrepareSensor { .. } => Some(RadarState::Enabled),
            Request::Measure(_) => Some(RadarState::Ready),
            Request::HibernateOn => Some(RadarState::Ready),
            Request::HibernateOff => Some(RadarState::Hibernating),
        }
    }

    /// Why a request is refused, if it is. A reset is never refused. Any other
    /// request is refused with `NotReady` while an operation is in flight and
    /// where the radar is not in the state that the request needs. A
    /// preparation is refused with `CalibrationInvalid` where the calibration
    /// result is not validated, and with `BufferTooSmall` where the scratch
    /// buffer does not hold `PREPARE_BUFFER_SIZE` bytes.
    pub open spec fn refusal(self, request: Request) -> Option<SensorError> {
        if request == Request::ResetSensor {
            None
        } else if self.phase != Phase::Idle {
            Some(SensorError::NotReady)
        } else if Self::needed_state(request) is Some && Self::needed_state(request) != Some(
            self.state,
        ) {
            Some(SensorError::NotReady)
        } else if request == (Request::PrepareSensor { validated: false }) {
            Some(SensorError::CalibrationInvalid)
        } else if request is PrepareSensor && self.scratch_size < PREPARE_BUFFER_SIZE {
            Some(SensorError::BufferTooSmall)
        } else {
            None
        }
    }

    /// The phase in which the sensor starts on a request.
    pub open spec fn opening(self, request: Request) -> Phase {
        match request {
            Request::Calibrate => Phase::PoweringDown(Resume::Calibrate(self.scratch_size)),
            Request::ResetSensor => Phase::PoweringDown(Resume::Finish),
            Request::PrepareSensor { .. } => Phase::Calling(
                Operation::Prepare,
                PREPARE_BUFFER_SIZE,
            ),
            Request::Measure(_) => Phase::Calling(Operation::Measure, 0),
            Request::HibernateOn => Phase::Calling(Operation::HibernateOn, 0),
            Request::HibernateOff => Phase::Calling(Operation::HibernateOff, 0),
        }
    }

    /// The radar after a request: as it was where the request is refused,
    /// else with the operation in flight.
    pub open spec fn requested(self, request: Request) -> RadarView {
        if self.refusal(request) is Some {
            self
        } else {
            match request {
                Request::Measure(data_len) => RadarView {
                    phase: self.opening(request),
                    data_len,
                    ..self
                },
                _ => RadarView { phase: self.opening(request), ..self },
            }
        }
    }

    /// The directive that answers a request: the refusal, or the first piece
    /// of outside work of the operation.
    pub open spec fn first_directive(self, request: Request) -> Directive {
        match self.refusal(request) {
            Some(error) => Directive::Done(Err(error)),
            None => self.opening(request).outstanding(),
        }
    }

    /// The state in which the radar is after the sensor has answered `event`:
    /// a preparation that has succeeded makes it `Ready`, as does leaving
    /// hibernation; entering hibernation makes it `Hibernating`; a power cycle
    /// that was asked for on its own makes it `Enabled`. Nothing else changes
    /// the state.
    pub open spec fn state_after(self, event: Event) -> RadarState {
        if self.phase.result(event) == Some(Ok::<(), SensorError>(())) {
            match self.phase {
                Phase::Calling(Operation::Prepare, _) => RadarState::Ready,
                Phase::Calling(Operation::HibernateOn, _) => RadarState::Hibernating,
                Phase::Calling(Operation::HibernateOff, _) => RadarState::Ready,
                Phase::PoweringUp(Resume::Finish) => RadarState::Enabled,
                _ => self.state,
            }
        } else {
            self.state
        }
    }

    /// Whether `event` is the interrupt that ends the measurement in flight:
    /// what follows is the read-out of the data.
    pub open spec fn data_announced(self, event: Event) -> bool {
        self.phase matches Phase::Waiting(Operation::Measure, _) && event == Event::InterruptSeen
    }

    /// The radar after `event`.
    pub open spec fn next(self, event: Event) -> RadarView {
        if self.data_announced(event) {
            RadarView { phase: Phase::Calling(Operation::Read, self.data_len), ..self }
        } else {
            RadarView { phase: self.phase.next(event), state: self.state_after(event), ..self }
        }
    }

    /// The directive that answers `event`.
    pub open spec fn answer(self, event: Event) -> Directive {
        if self.data_announced(event) {
            Directive::Call { operation: Operation::Read, buffer_len: self.data_len }
        } else {
            self.phase.answer(event)
        }
    }
}

/// One step in the life of a radar: something is asked of it or of its
/// sensor, or something happens that its driver reports.
#[derive(Debug, Clone, Copy, PartialEq, Eq, Structural)]
pub enum Step {
    /// A request to the radar
    Asked(Request),
    /// A request of a detector for an operation on the sensor, with a buffer
    /// of this many bytes
    DetectorAsked(Operation, usize),
    /// The outcome of outside work
    Happened(Event),
}

impl RadarView {
    /// The radar after one step.
    pub open spec fn step(self, step: Step) -> RadarView {
        match step {
            Step::Asked(request) => self.requested(request),
            Step::DetectorAsked(operation, buffer_len) => self.started(
                self.phase.begun(operation, buffer_len),
            ),
            Step::Happened(event) => self.next(event),
        }
    }

    /// The radar after a run of steps.
    pub open spec fn run(self, steps: Seq<Step>) -> RadarView
        decreases steps.len(),
    {
        if steps.len() == 0 {
            self
        } else {
            self.run(steps.drop_last()).step(steps.last())
        }
    }

    /// The radar after a preparation with a validated calibration result was
    /// asked of it and the engine has replied.
    pub open spec fn prepared_by(self, reply: Reply) -> RadarView {
        self.requested(Request::PrepareSensor { validated: true }).next(Event::Replied(reply))
    }

    /// Whether nothing is in flight on the sensor that moves the state or
    /// needs the radar to be ready: at most a power cycle, a sensor
    /// calibration, or an operation of a detector.
    pub open spec fn keeps_state(self) -> bool {
        match self.phase {
            Phase::Idle => true,
            Phase::PoweringDown(_) => true,
            Phase::PoweringUp(_) => true,
            Phase::Calling(operation, _) => operation == Operation::Calibrate
                || operation.of_detector(),
            Phase::Waiting(operation, _) => operation == Operation::Calibrate
                || operation.of_detector(),
        }
    }
}

/// A radar that has been brought up is `Enabled`, and stays so until a
/// preparation is asked of it: whatever else is asked of it, whatever a
/// detector asks of its sensor, and whatever happens, a measurement is
/// refused with `NotReady` and changes nothing.
pub proof fn lemma_measure_needs_preparation(
    id: u32,
    scratch_size: usize,
    steps: Seq<Step>,
    data_len: usize,
)
    requires
        forall|i: int|
            0 <= i < steps.len() ==> !(#[trigger] steps[i] matches Step::Asked(
                Request::PrepareSensor { .. },
            )),
        forall|i: int|
            0 <= i < steps.len() ==> (#[trigger] steps[i] matches Step::DetectorAsked(
                operation,
                _,
            ) ==> operation.of_detector()),
    ensures
        RadarView::fresh(id, scratch_size).state == RadarState::Enabled,
        RadarView::fresh(id, scratch_size).run(steps).state == RadarState::Enabled,
        RadarView::fresh(id, scratch_size).run(steps).keeps_state(),
        RadarView::fresh(id, scratch_size).run(steps).first_directive(Request::Measure(data_len))
            == Directive::Done(Err(SensorError::NotReady)),
        RadarView::fresh(id, scratch_size).run(steps).requested(Request::Measure(data_len))
            == RadarView::fresh(id, scratch_size).run(steps),
    decreases steps.len(),
{
    if steps.len() > 0 {
        lemma_measure_needs_preparation(id, scratch_size, steps.drop_last(), data_len);
        let last = steps[steps.len() - 1];
        assert(!(last matches Step::Asked(Request::PrepareSensor { .. })));
        assert(last matches Step::DetectorAsked(operation, _) ==> operation.of_detector());
    }
}

/// Hibernation leaves no trace: a radar that is prepared, sent into
/// hibernation and brought back is the radar that was only prepared.
///
/// The radar is enabled and idle at first, the calibration result is
/// validated, and the engine reports success each time. Where the scratch
/// buffer holds a preparation, the radar is `Ready` after the preparation
/// and `Hibernating` in between.
pub proof fn lemma_hibernation_round_trip(
    radar: RadarView,
    prepared: Reply,
    entered: Reply,
    left: Reply,
)
    requires
        radar.state == RadarState::Enabled,
        radar.phase == Phase::Idle,
        prepared.success,
        entered.success,
        left.success,
    ensures
        radar.prepared_by(prepared).requested(Request::HibernateOn).next(
            Event::Replied(entered),
        ).requested(Request::HibernateOff).next(Event::Replied(left)) == radar.prepared_by(
            prepared,
        ),
        radar.scratch_size >= PREPARE_BUFFER_SIZE ==> radar.prepared_by(prepared).state
            == RadarState::Ready,
        radar.scratch_size >= PREPARE_BUFFER_SIZE ==> radar.prepared_by(prepared).requested(
            Request::HibernateOn,
        ).next(Event::Replied(entered)).state == RadarState::Hibernating,
{
}

/// The sensor works on one operation at a time: while one is in flight,
/// whatever is asked but a reset is refused with `NotReady`, and the
/// operation in flight goes on untouched. So a primitive is called only for
/// a request that found the sensor idle, or as the next step of the
/// operation that is in flight.
pub proof fn lemma_one_operation_at_a_time(radar: RadarView, request: Request)
    requires
        radar.phase != Phase::Idle,
        request != Request::ResetSensor,
    ensures
        radar.first_directive(request) == Directive::Done(Err(SensorError::NotReady)),
        radar.requested(request) == radar,
{
}

/// Nothing that fails moves the radar: a request that is refused changes
/// nothing at all, and an operation that ends in an error leaves the state,
/// the configuration and the identity of the radar as they were and the
/// sensor idle.
pub proof fn lemma_failure_keeps_state(radar: RadarView, request: Request, event: Event)
    ensures
        radar.first_directive(request) matches Directive::Done(Err(_)) ==> radar.requested(
            request,
        ) == radar,
        radar.answer(event) matches Directive::Done(Err(_)) ==> radar.next(event) == (RadarView {
            phase: Phase::Idle,
            ..radar
        }),
{
}

/// Radar sensor controller.
#[derive(Debug)]
pub struct Radar {
    id: u32,
    config: RadarConfig,
    sensor: Sensor,
    state: RadarState,
    scratch_size: usize,
    data_len: usize,
}

impl View for Radar {
    type V = RadarView;

    closed spec fn view(&self) -> RadarView {
        RadarView {
            id: self.id,
            state: self.state,
            phase: self.sensor@,
            scratch_size: self.scratch_size,
            data_len: self.data_len,
            config: self.config@,
        }
    }
}

impl Radar {
    /// Creates the radar with sensor `id` and a scratch buffer of
    /// `scratch_size` bytes, once its startup has run.
    ///
    /// # Errors
    ///
    /// Returns `SensorError::InitFailed` unless every step of `startup` has
    /// succeeded.
    pub fn new(id: u32, scratch_size: usize, startup: &Startup) -> (r: Result<Radar, SensorError>)
        ensures
            r is Ok <==> startup.complete(),
            r is Err ==> r matches Err(SensorError::InitFailed),
            r matches Ok(radar) ==> radar@ == RadarView::fresh(id, scratch_size),
    {
        if !startup.is_complete() {
            return Err(SensorError::InitFailed);
        }
        Ok(
            Radar {
                id,
                config: RadarConfig::new(),
                sensor: Sensor::new(),
                state: RadarState::Enabled,
                scratch_size,
                data_len: 0,
            },
        )
    }

    /// Returns the scratch buffer size for this radar instance.
    pub fn scratch_buffer_size(&self) -> (size: usize)
        ensures
            size == self@.scratch_size,
    {
        self.scratch_size
    }

    /// Get the current state of the radar
    pub fn state(&self) -> (state: RadarState)
        ensures
            state == self@.state,
    {
        self.state
    }

    /// Get the radar sensor ID
    pub fn id(&self) -> (id: u32)
        ensures
            id == self@.id,
    {
        self.id
    }

    /// The configuration of the sensor.
    pub fn config(&self) -> (config: &RadarConfig)
        ensures
            config@ == self@.config,
    {
        &self.config
    }

    /// The configuration of the sensor, to set it.
    pub fn config_mut(&mut self) -> (config: &mut RadarConfig)
        ensures
            config@ == old(self)@.config,
            final(self)@ == (RadarView { config: final(config)@, ..old(self)@ }),
    {
        &mut self.config
    }

    /// Where the sensor stands in its current operation.
    pub fn phase(&self) -> (phase: Phase)
        ensures
            phase == self@.phase,
    {
        self.sensor.phase()
    }

    /// Prepares the sensor for the configuration and a calibration result,
    /// with the first `PREPARE_BUFFER_SIZE` bytes of the scratch buffer.
    /// Admitted in `Enabled`, with a calibration result that is validated;
    /// success makes the radar `Ready`.
    pub fn prepare_sensor(&mut self, calibration_result: &CalibrationResult) -> (directive:
        Directive)
        ensures
            final(self)@ == old(self)@.requested(
                Request::PrepareSensor { validated: calibration_result.validated() },
            ),
            directive == old(self)@.first_directive(
                Request::PrepareSensor { validated: calibration_result.validated() },
            ),
    {
        if !self.sensor.is_idle() || self.state != RadarState::Enabled {
            return Directive::Done(Err(SensorError::NotReady));
        }
        if !calibration_result.is_validated() {
            return Directive::Done(Err(SensorError::CalibrationInvalid));
        }
        if self.scratch_size < PREPARE_BUFFER_SIZE {
            return Directive::Done(Err(SensorError::BufferTooSmall));
        }
        self.sensor.prepare(PREPARE_BUFFER_SIZE)
    }

    /// Restores the sensor after hibernation. Admitted in `Hibernating`;
    /// success makes the radar `Ready`.
    pub fn hibernate_off(&mut self) -> (directive: Directive)
        ensures
            final(self)@ == old(self)@.requested(Request::HibernateOff),
            directive == old(self)@.first_directive(Request::HibernateOff),
    {
        if !self.sensor.is_idle() || self.state != RadarState::Hibernating {
            return Directive::Done(Err(SensorError::NotReady));
        }
        self.sensor.hibernate_off()
    }

    /// Measures one frame and reads it into `data`. Admitted in `Ready`; the
    /// state stays.
    pub fn measure(&mut self, data: &[u8]) -> (directive: Directive)
        ensures
            final(self)@ == old(self)@.requested(Request::Measure(data@.len() as usize)),
            directive == old(self)@.first_directive(Request::Measure(data@.len() as usize)),
    {
        if !self.sensor.is_idle() || self.state != RadarState::Ready {
            return Directive::Done(Err(SensorError::NotReady));
        }
        self.data_len = data.len();
        self.sensor.measure()
    }

    /// Prepares the sensor for hibernation. Admitted in `Ready`; success
    /// makes the radar `Hibernating`.
    pub fn hibernate_on(&mut self) -> (directive: Directive)
        ensures
            final(self)@ == old(self)@.requested(Request::HibernateOn),
            directive == old(self)@.first_directive(Request::HibernateOn),
    {
        if !self.sensor.is_idle() || self.state != RadarState::Ready {
            return Directive::Done(Err(SensorError::NotReady));
        }
        self.sensor.hibernate_on()
    }

    /// Calibrate the sensor - available in any state
    ///
    /// The sensor is power-cycled, then calibrated with the whole scratch
    /// buffer. The state stays. Refused with `NotReady` while an operation
    /// is in flight.
    pub fn calibrate(&mut self) -> (directive: Directive)
        ensures
            final(self)@ == old(self)@.requested(Request::Calibrate),
            directive == old(self)@.first_directive(Request::Calibrate),
    {
        self.sensor.calibrate(self.scratch_size)
    }

    /// Reset the sensor - available in any state
    ///
    /// The sensor is power-cycled. When the power cycle has ended the radar
    /// is `Enabled`. A reset is never refused: it abandons the operation
    /// that is in flight.
    pub fn reset_sensor(&mut self) -> (directive: Directive)
        ensures
            final(self)@ == old(self)@.requested(Request::ResetSensor),
            directive == old(self)@.first_directive(Request::ResetSensor),
    {
        self.sensor.reset_sensor()
    }

    /// Starts an operation of a detector on the sensor, whatever the state.
    /// Refused with `NotReady` while an operation is in flight.
    pub(crate) fn begin(&mut self, operation: Operation, buffer_len: usize) -> (directive:
        Directive)
        ensures
            directive == old(self)@.phase.opening_answer(Phase::Calling(operation, buffer_len)),
            final(self)@ == old(self)@.started(old(self)@.phase.begun(operation, buffer_len)),
    {
        self.sensor.begin(operation, buffer_len)
    }

    /// Takes the outcome of the outside work and says what follows.
    pub fn advance(&mut self, event: Event) -> (directive: Directive)
        ensures
            final(self)@ == old(self)@.next(event),
            directive == old(self)@.answer(event),
    {
        let before = self.sensor.phase();
        let directive = self.sensor.advance(event);
        match (before, event) {
            (Phase::Waiting(Operation::Measure, _), Event::InterruptSeen) => {
                // the data is there: the measurement goes on with the read-out
                return self.sensor.read(self.data_len);
            },
            _ => {},
        }
        match directive {
            Directive::Done(Ok(())) => {
                match before {
                    Phase::Calling(Operation::Prepare, _) => {
                        self.state = RadarState::Ready;
                    },
                    Phase::Calling(Operation::HibernateOn, _) => {
                        self.state = RadarState::Hibernating;
                    },
                    Phase::Calling(Operation::HibernateOff, _) => {
                        self.state = RadarState::Ready;
                    },
                    Phase::PoweringUp(Resume::Finish) => {
                        self.state = RadarState::Enabled;
                    },
                    _ => {},
                }
            },
            _ => {},
        }
        directive
    }
}

} // verus!

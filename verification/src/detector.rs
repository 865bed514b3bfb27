//! Detectors: distance and presence detection on top of the sensor.
//!
//! A detector works with buffers of the caller. The engine tells how large
//! each must be, and every operation that hands a buffer to the engine comes
//! in two forms. The checked form holds the buffers against the sizes that
//! the engine reports and answers `BufferTooSmall` without anything being
//! started. The unchecked form takes the sizes as a precondition.
//!
//! What the detector asks of the sensor (calibration, preparation) runs as
//! an operation of the radar, directive by directive. Processing is a
//! computation of the engine alone: the detector admits one call of the
//! primitive, and what the engine reports of that call is turned into a
//! result.

use vstd::prelude::*;
use crate::radar::RadarView;
use crate::sensor::error::SensorError;
use crate::sensor::Directive;
use crate::sensor::Operation;
use crate::sensor::Phase;

/// Distance detection
pub mod distance;
/// Presence detection
pub mod presence;

verus! {

/// The directive with which a detector answers a request for an operation on
/// the sensor: `BufferTooSmall` where the buffers are not admitted, `NotReady`
/// where they are and the sensor has an operation in flight, else the call
/// of the operation's primitive.
pub open spec fn detector_directive(
    admitted: bool,
    phase: Phase,
    operation: Operation,
    buffer_len: usize,
) -> Directive {
    if admitted {
        phase.opening_answer(Phase::Calling(operation, buffer_len))
    } else {
        Directive::Done(Err(SensorError::BufferTooSmall))
    }
}

/// The radar after a detector was asked for an operation on the sensor: with
/// the operation in flight where the buffers are admitted and the sensor is
/// idle, else as it was.
pub open spec fn detector_started(
    radar: RadarView,
    admitted: bool,
    operation: Operation,
    buffer_len: usize,
) -> RadarView {
    if admitted {
        radar.started(radar.phase.begun(operation, buffer_len))
    } else {
        radar
    }
}

/// A buffer that is shorter than the engine asks for is refused before
/// anything is started, by one byte as by many: the answer is
/// `BufferTooSmall`, no primitive is called, and the radar is as it was.
pub proof fn lemma_short_buffer_is_refused(
    radar: RadarView,
    operation: Operation,
    required: usize,
    buffer_len: usize,
)
    requires
        buffer_len < required,
    ensures
        detector_directive(buffer_len >= required, radar.phase, operation, buffer_len)
            == Directive::Done(Err(SensorError::BufferTooSmall)),
        !(detector_directive(buffer_len >= required, radar.phase, operation, buffer_len) is Call),
        detector_started(radar, buffer_len >= required, operation, buffer_len) == radar,
{
}

/// A checked operation whose buffers are admitted does what the unchecked
/// operation does: the operation's primitive is called where the sensor is
/// idle, and `NotReady` is the answer where it is not.
pub proof fn lemma_checked_agrees_with_unchecked(
    radar: RadarView,
    operation: Operation,
    buffer_len: usize,
)
    ensures
        detector_directive(true, radar.phase, operation, buffer_len) == radar.phase.opening_answer(
            Phase::Calling(operation, buffer_len),
        ),
        detector_started(radar, true, operation, buffer_len) == radar.started(
            radar.phase.begun(operation, buffer_len),
        ),
        radar.phase == Phase::Idle ==> detector_directive(
            true,
            radar.phase,
            operation,
            buffer_len,
        ) == (Directive::Call { operation, buffer_len }),
        radar.phase != Phase::Idle ==> detector_directive(
            true,
            radar.phase,
            operation,
            buffer_len,
        ) == Directive::Done(Err(SensorError::NotReady)),
{
}

} // verus!

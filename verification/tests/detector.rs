use a121_rs::config::profile::RadarProfile;
use a121_rs::detector::distance::config::MaxStepLenght;
use a121_rs::detector::distance::config::PeakSortingMethod;
use a121_rs::detector::distance::config::RadarDistanceConfig;
use a121_rs::detector::distance::config::ReflectorShape;
use a121_rs::detector::distance::config::ThresholdMethod;
use a121_rs::detector::distance::results::DetectorDistanceResult;
use a121_rs::detector::distance::results::Distance;
use a121_rs::detector::distance::results::DistanceResult;
use a121_rs::detector::distance::results::DistanceSizes;
use a121_rs::detector::distance::results::DynamicResult;
use a121_rs::detector::distance::RadarDistanceDetector;
use a121_rs::detector::presence::config::PresenceConfig;
use a121_rs::detector::presence::results::DetectorPresenceResult;
use a121_rs::detector::presence::results::PresenceMetadata;
use a121_rs::detector::presence::results::PresenceResult;
use a121_rs::detector::presence::PresenceDetector;
use a121_rs::memory::calc_distance_external_heap;
use a121_rs::memory::calc_distance_rss_heap;
use a121_rs::memory::calc_presence_external_heap;
use a121_rs::memory::calc_presence_rss_heap;
use a121_rs::num::Float32;
use a121_rs::processing::metadata::ProcessingMetaData;
use a121_rs::processing::ProcessingResult;
use a121_rs::radar::Radar;
use a121_rs::radar::RadarState;
use a121_rs::radar::Startup;
use a121_rs::radar::DEFAULT_SCRATCH_BUFFER_SIZE;
use a121_rs::radar::PREPARE_BUFFER_SIZE;
use a121_rs::sensor::error::ProcessDataError;
use a121_rs::sensor::calibration::CalibrationResult;
use a121_rs::sensor::error::SensorError;
use a121_rs::sensor::Directive;
use a121_rs::sensor::Event;
use a121_rs::sensor::Operation;
use a121_rs::sensor::Phase;
use a121_rs::sensor::Reply;

const OK: Event = Event::Replied(Reply { success: true, complete: true });
const NOT_COMPLETE: Event = Event::Replied(Reply { success: true, complete: false });
const FAILED: Event = Event::Replied(Reply { success: false, complete: false });

fn float(value: f32) -> Float32 {
    Float32::from_bits(value.to_bits())
}

fn calibration() -> CalibrationResult {
    CalibrationResult::calibrated([0x5a; 240])
}

fn call(operation: Operation, buffer_len: usize) -> Directive {
    Directive::Call { operation, buffer_len }
}

fn enabled_radar() -> Radar {
    let mut startup = Startup::new();
    while startup.next_step().is_some() {
        startup.record(true);
    }
    Radar::new(1, DEFAULT_SCRATCH_BUFFER_SIZE, &startup).unwrap()
}

fn ready_radar() -> Radar {
    let mut radar = enabled_radar();
    radar.prepare_sensor(&calibration());
    radar.advance(OK);
    radar
}

fn sizes() -> DistanceSizes {
    DistanceSizes::new(4000, 2048)
}

#[test]
fn end_to_end_distance_detection_on_empty_data() {
    // bring-up of radar 1
    let mut startup = Startup::new();
    while startup.next_step().is_some() {
        startup.record(true);
    }
    let mut radar = Radar::new(1, DEFAULT_SCRATCH_BUFFER_SIZE, &startup).unwrap();
    assert_eq!(radar.id(), 1);
    assert_eq!(radar.state(), RadarState::Enabled);
    // calibrate() returns Ok
    assert_eq!(radar.calibrate(), Directive::PowerDown);
    assert_eq!(radar.advance(Event::Settled), Directive::PowerUp);
    assert_eq!(
        radar.advance(Event::Settled),
        call(Operation::Calibrate, DEFAULT_SCRATCH_BUFFER_SIZE)
    );
    assert_eq!(radar.advance(NOT_COMPLETE), Directive::AwaitInterrupt);
    assert_eq!(
        radar.advance(Event::InterruptSeen),
        call(Operation::Calibrate, DEFAULT_SCRATCH_BUFFER_SIZE)
    );
    assert_eq!(radar.advance(OK), Directive::Done(Ok(())));
    let calibration = CalibrationResult::calibrated([0; 240]);
    // prepare_sensor transitions to Ready
    assert_eq!(radar.prepare_sensor(&calibration), call(Operation::Prepare, PREPARE_BUFFER_SIZE));
    assert_eq!(radar.advance(OK), Directive::Done(Ok(())));
    assert_eq!(radar.state(), RadarState::Ready);
    // measure and read succeed with a buffer of 1024 bytes
    let buf = [0u8; 1024];
    assert_eq!(buf.len(), 1024);
    assert_eq!(radar.measure(&buf), call(Operation::Measure, 0));
    assert_eq!(radar.advance(OK), Directive::AwaitInterrupt);
    assert_eq!(radar.advance(Event::InterruptSeen), call(Operation::Read, 1024));
    assert_eq!(radar.advance(OK), Directive::Done(Ok(())));
    // the detector processes synthetic all-zero input
    let detector = RadarDistanceDetector::new(&radar).unwrap();
    let sizes = DistanceSizes::new(1024, 512);
    let static_result = [0u8; 512];
    let admitted = detector.process_data(&sizes, &buf, &static_result).unwrap();
    assert_eq!(admitted.buffer_len(), 1024);
    let reply = a121_rs::detector::distance::ProcessReply {
        success: true,
        result_available: true,
        result: DetectorDistanceResult::new(),
    };
    let result = admitted.result(&reply).unwrap();
    assert_eq!(result.num_distances(), 0);
    assert!(!result.calibration_needed());
    assert!(result.distances().is_empty());
    assert!(!result.near_start_edge_status());
    assert_eq!(result.temperature(), 0);
}

#[test]
fn detector_calibration_with_a_short_static_buffer_is_refused() {
    let mut radar = ready_radar();
    let detector = RadarDistanceDetector::new(&radar).unwrap();
    let sizes = sizes();
    let buffer = vec![0u8; sizes.buffer_size];
    let static_result = vec![0u8; sizes.detector_cal_result_static_size - 1];
    let directive = detector.calibrate_detector(&mut radar, &sizes, &buffer, &static_result);
    assert_eq!(directive, Directive::Done(Err(SensorError::BufferTooSmall)));
    // nothing was started
    assert_eq!(radar.phase(), Phase::Idle);
    assert_eq!(radar.state(), RadarState::Ready);
    assert_eq!(radar.advance(OK), Directive::Idle);
}

#[test]
fn distance_detector_needs_a_ready_radar() {
    let radar = enabled_radar();
    assert!(matches!(RadarDistanceDetector::new(&radar), Err(SensorError::NotReady)));
    assert!(matches!(
        RadarDistanceDetector::with_config(&radar, RadarDistanceConfig::balanced()),
        Err(SensorError::NotReady)
    ));
    let mut radar = ready_radar();
    assert!(RadarDistanceDetector::new(&radar).is_ok());
    radar.hibernate_on();
    radar.advance(OK);
    assert!(matches!(RadarDistanceDetector::new(&radar), Err(SensorError::NotReady)));
    assert!(matches!(PresenceDetector::new(&radar), Err(SensorError::NotReady)));
}

#[test]
fn distance_detector_keeps_the_configuration_it_is_given() {
    let radar = ready_radar();
    let mut config = RadarDistanceConfig::balanced();
    config.set_peak_sorting_method(PeakSortingMethod::Amplitude);
    config.sensor_set(3);
    let detector = RadarDistanceDetector::with_config(&radar, config).unwrap();
    assert_eq!(detector.config.peak_sorting_method(), PeakSortingMethod::Amplitude);
    assert_eq!(detector.config.sensor(), Some(3));
    let detector = RadarDistanceDetector::new(&radar).unwrap();
    assert_eq!(detector.config.peak_sorting_method(), PeakSortingMethod::Strength);
    assert_eq!(detector.config.sensor(), None);
}

#[test]
fn checked_distance_operations_refuse_a_buffer_one_byte_short() {
    let sizes = sizes();
    let full = vec![0u8; sizes.buffer_size];
    let short = vec![0u8; sizes.buffer_size - 1];
    let full_static = vec![0u8; sizes.detector_cal_result_static_size];
    let short_static = vec![0u8; sizes.detector_cal_result_static_size - 1];
    let mut radar = ready_radar();
    let detector = RadarDistanceDetector::new(&radar).unwrap();
    let refused = Directive::Done(Err(SensorError::BufferTooSmall));

    assert_eq!(detector.calibrate_detector(&mut radar, &sizes, &short, &full_static), refused);
    assert_eq!(radar.phase(), Phase::Idle);
    assert_eq!(detector.calibrate_detector(&mut radar, &sizes, &full, &short_static), refused);
    assert_eq!(radar.phase(), Phase::Idle);
    assert_eq!(detector.calibrate_detector(&mut radar, &sizes, &short, &short_static), refused);
    assert_eq!(radar.phase(), Phase::Idle);
    assert_eq!(detector.calibrate_detector(&mut radar, &sizes, &[], &[]), refused);
    assert_eq!(radar.phase(), Phase::Idle);
    assert_eq!(detector.update_calibration(&mut radar, &sizes, &short), refused);
    assert_eq!(radar.phase(), Phase::Idle);
    assert_eq!(detector.prepare_detector(&mut radar, &sizes, &short), refused);
    assert_eq!(radar.phase(), Phase::Idle);
    assert_eq!(radar.state(), RadarState::Ready);
    assert!(matches!(
        detector.process_data(&sizes, &short, &full_static),
        Err(ProcessDataError::BufferTooSmall)
    ));
    assert!(matches!(
        detector.process_data(&sizes, &full, &short_static),
        Err(ProcessDataError::BufferTooSmall)
    ));
}

#[test]
fn checked_distance_operations_admit_buffers_of_the_reported_sizes() {
    let sizes = sizes();
    let buffer = vec![0u8; sizes.buffer_size];
    let static_result = vec![0u8; sizes.detector_cal_result_static_size];
    let mut radar = ready_radar();
    let detector = RadarDistanceDetector::new(&radar).unwrap();
    assert_eq!(
        detector.calibrate_detector(&mut radar, &sizes, &buffer, &static_result),
        call(Operation::DetectorCalibrate, 4000)
    );
    assert_eq!(radar.advance(NOT_COMPLETE), Directive::AwaitInterrupt);
    assert_eq!(radar.advance(Event::InterruptSeen), call(Operation::DetectorCalibrate, 4000));
    assert_eq!(radar.advance(OK), Directive::Done(Ok(())));
    assert_eq!(radar.state(), RadarState::Ready);
    assert_eq!(
        detector.update_calibration(&mut radar, &sizes, &buffer),
        call(Operation::DetectorUpdateCalibration, 4000)
    );
    assert_eq!(radar.advance(NOT_COMPLETE), Directive::AwaitInterrupt);
    assert_eq!(
        radar.advance(Event::InterruptSeen),
        call(Operation::DetectorUpdateCalibration, 4000)
    );
    assert_eq!(radar.advance(FAILED), Directive::Done(Err(SensorError::CalibrationFailed)));
    assert_eq!(
        detector.prepare_detector(&mut radar, &sizes, &buffer),
        call(Operation::DetectorPrepare, 4000)
    );
    assert_eq!(radar.advance(FAILED), Directive::Done(Err(SensorError::PrepareFailed)));
    assert_eq!(
        detector.prepare_detector(&mut radar, &sizes, &buffer),
        call(Operation::DetectorPrepare, 4000)
    );
    assert_eq!(radar.advance(OK), Directive::Done(Ok(())));
    assert_eq!(radar.state(), RadarState::Ready);
    assert!(detector.process_data(&sizes, &buffer, &static_result).is_ok());
}

#[test]
fn unchecked_distance_operations_start_at_once() {
    let sizes = sizes();
    let buffer = vec![0u8; sizes.buffer_size + 10];
    let static_result = vec![0u8; sizes.detector_cal_result_static_size];
    let mut radar = ready_radar();
    let detector = RadarDistanceDetector::new(&radar).unwrap();
    assert_eq!(
        detector.calibrate_detector_unchecked(&mut radar, &sizes, &buffer, &static_result),
        call(Operation::DetectorCalibrate, 4010)
    );
    assert_eq!(radar.advance(OK), Directive::Done(Ok(())));
    assert_eq!(
        detector.update_calibration_unchecked(&mut radar, &sizes, &buffer),
        call(Operation::DetectorUpdateCalibration, 4010)
    );
    assert_eq!(radar.advance(OK), Directive::Done(Ok(())));
    assert_eq!(
        detector.prepare_detector_unchecked(&mut radar, &sizes, &buffer),
        call(Operation::DetectorPrepare, 4010)
    );
    assert_eq!(radar.advance(OK), Directive::Done(Ok(())));
    assert_eq!(
        detector.process_data_unchecked(&sizes, &buffer, &static_result).buffer_len(),
        4010
    );
}

#[test]
fn detector_operations_wait_for_the_operation_in_flight() {
    let sizes = sizes();
    let buffer = vec![0u8; sizes.buffer_size];
    let short = vec![0u8; sizes.buffer_size - 1];
    let static_result = vec![0u8; sizes.detector_cal_result_static_size];
    let mut radar = ready_radar();
    let detector = RadarDistanceDetector::new(&radar).unwrap();
    let presence = PresenceDetector::new(&radar).unwrap();
    let busy = Directive::Done(Err(SensorError::NotReady));
    let data = [0u8; 16];
    assert_eq!(radar.measure(&data), call(Operation::Measure, 0));
    let phase = radar.phase();
    assert_eq!(detector.calibrate_detector(&mut radar, &sizes, &buffer, &static_result), busy);
    assert_eq!(detector.update_calibration(&mut radar, &sizes, &buffer), busy);
    assert_eq!(detector.prepare_detector(&mut radar, &sizes, &buffer), busy);
    assert_eq!(detector.prepare_detector_unchecked(&mut radar, &sizes, &buffer), busy);
    assert_eq!(presence.prepare_detector(&mut radar, 100, &buffer), busy);
    assert_eq!(radar.phase(), phase);
    // a buffer that is too small is told so, busy or not
    assert_eq!(
        detector.prepare_detector(&mut radar, &sizes, &short),
        Directive::Done(Err(SensorError::BufferTooSmall))
    );
    assert_eq!(radar.phase(), phase);
    // the measurement goes on untouched
    assert_eq!(radar.advance(OK), Directive::AwaitInterrupt);
    assert_eq!(radar.advance(Event::InterruptSeen), call(Operation::Read, 16));
    assert_eq!(radar.advance(OK), Directive::Done(Ok(())));
    assert_eq!(
        detector.prepare_detector(&mut radar, &sizes, &buffer),
        call(Operation::DetectorPrepare, 4000)
    );
}

#[test]
fn distance_detector_measures_and_calibrates_through_the_radar() {
    let mut radar = ready_radar();
    let detector = RadarDistanceDetector::new(&radar).unwrap();
    let data = [0u8; 256];
    assert_eq!(detector.measure(&mut radar, &data), call(Operation::Measure, 0));
    radar.advance(OK);
    assert_eq!(radar.advance(Event::InterruptSeen), call(Operation::Read, 256));
    radar.advance(OK);
    assert_eq!(detector.calibrate(&mut radar), Directive::PowerDown);
    let mut radar = enabled_radar();
    assert_eq!(
        detector.measure(&mut radar, &data),
        Directive::Done(Err(SensorError::NotReady))
    );
}

#[test]
fn distance_detector_estimates_memory_from_the_radar_configuration() {
    let mut radar = ready_radar();
    radar.config_mut().set_num_points(100);
    radar.config_mut().set_sweeps_per_frame(16);
    let detector = RadarDistanceDetector::new(&radar).unwrap();
    let requirements = detector.estimate_memory_requirements(&radar);
    assert_eq!(requirements.external_heap, calc_distance_external_heap(100, 1, 16));
    assert_eq!(requirements.external_heap, 15012);
    assert_eq!(requirements.rss_heap, calc_distance_rss_heap(1));
    assert_eq!(requirements.total, 17872);
    let presence = PresenceDetector::new(&radar).unwrap();
    let requirements = presence.estimate_memory_requirements(&radar);
    assert_eq!(requirements.external_heap, calc_presence_external_heap(100, 1, 16));
    assert_eq!(requirements.rss_heap, calc_presence_rss_heap(100, 1));
    assert_eq!(requirements.total, 11708);
}

fn written(count: u8) -> DetectorDistanceResult {
    let mut result = DetectorDistanceResult::new();
    for i in 0..10 {
        result.distances[i] = float(0.5 + i as f32);
        result.strengths[i] = float(-3.0 * i as f32);
    }
    result.num_distances = count;
    result.near_start_edge_status = true;
    result.calibration_needed = true;
    result.temperature = 31;
    result
}

#[test]
fn distance_result_takes_the_valid_detections_in_order() {
    for count in 0..=10u8 {
        let mut result = DistanceResult::new();
        result.update_from_detector_result(&written(count));
        assert_eq!(result.num_distances(), count);
        assert_eq!(result.distances().len(), count as usize);
        for (i, detection) in result.distances().iter().enumerate() {
            assert_eq!(
                *detection,
                Distance { distance: float(0.5 + i as f32), strength: float(-3.0 * i as f32) }
            );
        }
        assert!(result.near_start_edge_status());
        assert!(result.calibration_needed());
        assert_eq!(result.temperature(), 31);
    }
}

#[test]
fn distance_result_is_replaced_by_each_update() {
    let mut result = DistanceResult::new();
    result.update_from_detector_result(&written(7));
    assert_eq!(result.num_distances(), 7);
    result.update_from_detector_result(&DetectorDistanceResult::new());
    assert_eq!(result.num_distances(), 0);
    assert!(result.distances().is_empty());
    assert!(!result.calibration_needed());
    assert!(!result.near_start_edge_status());
}

#[test]
fn distance_result_prefers_the_processing_result_of_the_engine() {
    let mut inner = written(1);
    let mut result = DistanceResult::new();
    result.update_from_detector_result(&inner);
    assert_eq!(
        *result.processing_result(),
        ProcessingResult {
            data_saturated: false,
            frame_delayed: false,
            calibration_needed: true,
            temperature: 31,
        }
    );
    inner.processing_result = Some(ProcessingResult {
        data_saturated: true,
        frame_delayed: true,
        calibration_needed: false,
        temperature: -5,
    });
    result.update_from_detector_result(&inner);
    assert_eq!(
        *result.processing_result(),
        ProcessingResult {
            data_saturated: true,
            frame_delayed: true,
            calibration_needed: false,
            temperature: -5,
        }
    );
    assert!(!result.calibration_needed());
    assert_eq!(result.temperature(), -5);
}

#[test]
fn distance_processing_outcomes() {
    let radar = ready_radar();
    let detector = RadarDistanceDetector::new(&radar).unwrap();
    let sizes = sizes();
    let buffer = vec![0u8; 4000];
    let static_result = vec![0u8; 2048];
    let reply = |success, result_available| a121_rs::detector::distance::ProcessReply {
        success,
        result_available,
        result: written(3),
    };
    let admitted = detector.process_data(&sizes, &buffer, &static_result).unwrap();
    let result = admitted.result(&reply(true, true)).unwrap();
    assert_eq!(result.num_distances(), 3);
    assert_eq!(result.distances()[2].distance, float(2.5));
    let admitted = detector.process_data(&sizes, &buffer, &static_result).unwrap();
    assert!(matches!(admitted.result(&reply(true, false)), Err(ProcessDataError::Unavailable)));
    let admitted = detector.process_data(&sizes, &buffer, &static_result).unwrap();
    assert!(matches!(
        admitted.result(&reply(false, false)),
        Err(ProcessDataError::ProcessingFailed)
    ));
    let admitted = detector.process_data(&sizes, &buffer, &static_result).unwrap();
    assert!(matches!(
        admitted.result(&reply(false, true)),
        Err(ProcessDataError::ProcessingFailed)
    ));
}

#[test]
fn engine_distance_result_starts_with_every_value_zero() {
    let result = DetectorDistanceResult::new();
    assert!(result.distances.iter().all(|distance| distance.to_bits() == 0));
    assert!(result.strengths.iter().all(|strength| strength.to_bits() == 0));
    assert_eq!(result.num_distances, 0);
    assert!(!result.near_start_edge_status);
    assert!(!result.calibration_needed);
    assert_eq!(result.temperature, 0);
    assert_eq!(result.processing_result, None);
}

#[test]
fn distance_sizes_and_dynamic_result() {
    let sizes = DistanceSizes::new(12, 34);
    assert_eq!(sizes.buffer_size, 12);
    assert_eq!(sizes.detector_cal_result_static_size, 34);
    let sizes = DistanceSizes::new(u32::MAX, 0);
    assert_eq!(sizes.buffer_size, u32::MAX as usize);
    assert_eq!(DynamicResult::default().data, [0, 0]);
    assert_eq!(
        Distance::default(),
        Distance { distance: float(0.0), strength: float(0.0) }
    );
}

#[test]
fn balanced_distance_configuration() {
    let config = RadarDistanceConfig::balanced();
    assert_eq!(f32::from_bits(config.start_interval().to_bits()), 0.2);
    assert_eq!(f32::from_bits(config.end_interval().to_bits()), 3.0);
    assert_eq!(config.max_step_length(), 0);
    assert_eq!(config.max_profile(), RadarProfile::AccProfile5);
    assert_eq!(config.reflector_shape(), ReflectorShape::Generic);
    assert_eq!(config.peak_sorting_method(), PeakSortingMethod::Strength);
    assert_eq!(config.threshold_method(), ThresholdMethod::Cfar);
    assert_eq!(f32::from_bits(config.threshold_sensitivity().to_bits()), 0.5);
    assert_eq!(f32::from_bits(config.signal_quality().to_bits()), 15.0);
    assert!(!config.close_range_leakage_cancelation());
    assert_eq!(config.sensor(), None);
    let default = RadarDistanceConfig::default();
    assert_eq!(default.start_interval(), config.start_interval());
    assert_eq!(default.threshold_method(), ThresholdMethod::Cfar);
}

#[test]
fn distance_configuration_holds_quality_and_sensitivity_in_their_intervals() {
    let mut config = RadarDistanceConfig::balanced();
    config.set_signal_quality(float(50.0));
    assert_eq!(f32::from_bits(config.signal_quality().to_bits()), 35.0);
    config.set_signal_quality(float(-50.0));
    assert_eq!(f32::from_bits(config.signal_quality().to_bits()), -10.0);
    config.set_signal_quality(float(20.5));
    assert_eq!(f32::from_bits(config.signal_quality().to_bits()), 20.5);
    config.set_threshold_sensitivity(float(1.5));
    assert_eq!(f32::from_bits(config.threshold_sensitivity().to_bits()), 1.0);
    config.set_threshold_sensitivity(float(-0.1));
    assert_eq!(f32::from_bits(config.threshold_sensitivity().to_bits()), 0.0);
    config.set_threshold_sensitivity(float(0.25));
    assert_eq!(f32::from_bits(config.threshold_sensitivity().to_bits()), 0.25);
    for value in [-100.0f32, -10.0, -9.5, 0.0, 0.3, 1.0, 34.9, 35.0, 35.1, 1e9, f32::INFINITY] {
        config.set_signal_quality(float(value));
        assert_eq!(config.signal_quality().to_bits(), value.clamp(-10.0, 35.0).to_bits());
        config.set_threshold_sensitivity(float(value));
        assert_eq!(config.threshold_sensitivity().to_bits(), value.clamp(0.0, 1.0).to_bits());
    }
}

#[test]
fn distance_configuration_setters() {
    let mut config = RadarDistanceConfig::balanced();
    config.set_interval(float(0.1), float(5.0));
    assert_eq!(config.start_interval(), float(0.1));
    assert_eq!(config.end_interval(), float(5.0));
    config.set_start_interval(float(0.3));
    config.set_end_interval(float(2.0));
    assert_eq!(config.start_interval(), float(0.3));
    assert_eq!(config.end_interval(), float(2.0));
    config.set_max_step_length(MaxStepLenght::Manual(12));
    assert_eq!(config.max_step_length(), 12);
    config.set_max_step_length(MaxStepLenght::ProfileBased);
    assert_eq!(config.max_step_length(), 0);
    config.set_close_range_leakage_cancelation(true);
    assert!(config.close_range_leakage_cancelation());
    config.set_max_profile(RadarProfile::AccProfile2);
    assert_eq!(config.max_profile(), RadarProfile::AccProfile2);
    config.set_peak_sorting_method(PeakSortingMethod::Amplitude);
    assert_eq!(config.peak_sorting_method(), PeakSortingMethod::Amplitude);
    config.set_reflector_shape(ReflectorShape::Planar);
    assert_eq!(config.reflector_shape(), ReflectorShape::Planar);
    config.sensor_set(2);
    assert_eq!(config.sensor(), Some(2));
}

#[test]
fn threshold_methods_carry_their_value() {
    let mut config = RadarDistanceConfig::balanced();
    config.set_threshold_method(ThresholdMethod::FixedAmplitude(float(100.0)));
    assert_eq!(config.threshold_method(), ThresholdMethod::FixedAmplitude(float(100.0)));
    config.set_threshold_method(ThresholdMethod::FixedStrenght(float(-2.0)));
    assert_eq!(config.threshold_method(), ThresholdMethod::FixedStrenght(float(-2.0)));
    config.set_threshold_method(ThresholdMethod::Recorded(50));
    assert_eq!(config.threshold_method(), ThresholdMethod::Recorded(50));
    config.set_threshold_method(ThresholdMethod::Cfar);
    assert_eq!(config.threshold_method(), ThresholdMethod::Cfar);

    let amplitude = ThresholdMethod::FixedAmplitude(float(1.0));
    let strength = ThresholdMethod::FixedStrenght(float(2.0));
    let recorded = ThresholdMethod::Recorded(3);
    assert_eq!(amplitude.to_ffi(), 0);
    assert_eq!(strength.to_ffi(), 1);
    assert_eq!(recorded.to_ffi(), 2);
    assert_eq!(ThresholdMethod::Cfar.to_ffi(), 3);
    assert_eq!(amplitude.fixed_amplitude_threshold(), Some(float(1.0)));
    assert_eq!(amplitude.fixed_strength_threshold(), None);
    assert_eq!(amplitude.num_frames_recorded_threshold(), None);
    assert_eq!(strength.fixed_strength_threshold(), Some(float(2.0)));
    assert_eq!(strength.fixed_amplitude_threshold(), None);
    assert_eq!(recorded.num_frames_recorded_threshold(), Some(3));
    assert_eq!(ThresholdMethod::Cfar.fixed_amplitude_threshold(), None);
    assert_eq!(ThresholdMethod::Cfar.num_frames_recorded_threshold(), None);
    for (number, method) in [(0u32, amplitude), (1, strength), (2, recorded), (3, ThresholdMethod::Cfar)]
    {
        assert_eq!(ThresholdMethod::from_ffi(number, float(1.0), float(2.0), 3), Some(method));
    }
    assert_eq!(ThresholdMethod::from_ffi(4, float(1.0), float(2.0), 3), None);
}

#[test]
fn reflector_shapes_and_peak_sorting_methods() {
    assert_eq!(ReflectorShape::from_ffi(0), Some(ReflectorShape::Generic));
    assert_eq!(ReflectorShape::from_ffi(1), Some(ReflectorShape::Planar));
    assert_eq!(ReflectorShape::from_ffi(2), None);
    assert_eq!(ReflectorShape::Generic.to_ffi(), 0);
    assert_eq!(ReflectorShape::Planar.to_ffi(), 1);
    assert_eq!(ReflectorShape::default(), ReflectorShape::Generic);
    assert_eq!(PeakSortingMethod::from_ffi(0), Some(PeakSortingMethod::Amplitude));
    assert_eq!(PeakSortingMethod::from_ffi(1), Some(PeakSortingMethod::Strength));
    assert_eq!(PeakSortingMethod::from_ffi(2), None);
    assert_eq!(PeakSortingMethod::Amplitude.to_ffi(), 0);
    assert_eq!(PeakSortingMethod::Strength.to_ffi(), 1);
}

#[test]
fn presence_detector_needs_a_ready_radar() {
    let radar = enabled_radar();
    assert!(matches!(PresenceDetector::new(&radar), Err(SensorError::NotReady)));
    assert!(matches!(
        PresenceDetector::with_config(&radar, PresenceConfig::default()),
        Err(SensorError::NotReady)
    ));
    let radar = ready_radar();
    let detector = PresenceDetector::new(&radar).unwrap();
    assert_eq!(*detector.presence_metadata(), PresenceMetadata::default());
    let mut config = PresenceConfig::default();
    config.set_sensor(4);
    let detector = PresenceDetector::with_config(&radar, config).unwrap();
    assert_eq!(detector.config.sensor(), Some(4));
}

#[test]
fn checked_presence_operations_refuse_a_buffer_one_byte_short() {
    let mut radar = ready_radar();
    let detector = PresenceDetector::new(&radar).unwrap();
    let required = 3000;
    let short = vec![0u8; required - 1];
    let full = vec![0u8; required];
    assert_eq!(
        detector.prepare_detector(&mut radar, required, &short),
        Directive::Done(Err(SensorError::BufferTooSmall))
    );
    assert_eq!(radar.phase(), Phase::Idle);
    assert!(matches!(
        detector.detect_presence(required, &short),
        Err(ProcessDataError::BufferTooSmall)
    ));
    assert_eq!(
        detector.prepare_detector(&mut radar, required, &full),
        call(Operation::DetectorPrepare, 3000)
    );
    assert_eq!(radar.advance(OK), Directive::Done(Ok(())));
    assert_eq!(detector.detect_presence(required, &full).unwrap().buffer_len(), 3000);
    assert_eq!(
        detector.prepare_detector_unchecked(&mut radar, required, &full),
        call(Operation::DetectorPrepare, 3000)
    );
    assert_eq!(detector.detect_presence_unchecked(required, &full).buffer_len(), 3000);
}

fn presence_written(points: usize) -> DetectorPresenceResult {
    DetectorPresenceResult {
        presence_detected: true,
        intra_presence_score: float(1.5),
        inter_presence_score: float(2.5),
        presence_distance: float(0.75),
        depthwise_intra_presence_scores: (0..points).map(|i| float(i as f32)).collect(),
        depthwise_inter_presence_scores: (0..points).map(|i| float(10.0 * i as f32)).collect(),
        depthwise_presence_scores_length: points as u32,
        processing_result: ProcessingResult {
            data_saturated: false,
            frame_delayed: true,
            calibration_needed: true,
            temperature: 22,
        },
    }
}

#[test]
fn presence_processing_outcomes() {
    let radar = ready_radar();
    let detector = PresenceDetector::new(&radar).unwrap();
    let buffer = vec![0u8; 100];
    let admitted = detector.detect_presence(100, &buffer).unwrap();
    let result = admitted
        .result(a121_rs::detector::presence::ProcessReply {
            success: true,
            result: presence_written(4),
        })
        .unwrap();
    assert!(result.presence_detected);
    assert_eq!(result.intra_presence_score, float(1.5));
    assert_eq!(result.inter_presence_score, float(2.5));
    assert_eq!(result.presence_distance, float(0.75));
    assert_eq!(result.depthwise_scores_length(), 4);
    assert_eq!(
        result.depthwise_intra_presence_scores(),
        &[float(0.0), float(1.0), float(2.0), float(3.0)]
    );
    assert_eq!(
        result.depthwise_inter_presence_scores(),
        &[float(0.0), float(10.0), float(20.0), float(30.0)]
    );
    assert!(result.processing_result.calibration_needed);
    assert_eq!(result.processing_result.temperature, 22);
    let admitted = detector.detect_presence(100, &buffer).unwrap();
    assert!(matches!(
        admitted.result(a121_rs::detector::presence::ProcessReply {
            success: false,
            result: presence_written(4),
        }),
        Err(ProcessDataError::ProcessingFailed)
    ));
}

#[test]
fn presence_result_without_score_points_hands_out_nothing() {
    let mut result = PresenceResult::new();
    assert!(!result.presence_detected);
    assert_eq!(result.depthwise_scores_length(), 0);
    assert!(result.depthwise_intra_presence_scores().is_empty());
    assert!(result.depthwise_inter_presence_scores().is_empty());
    let mut written = presence_written(3);
    written.depthwise_presence_scores_length = 0;
    result.update_from_detector_result(written);
    assert!(result.presence_detected);
    assert_eq!(result.depthwise_scores_length(), 0);
    assert!(result.depthwise_intra_presence_scores().is_empty());
    assert!(result.depthwise_inter_presence_scores().is_empty());
    assert!(!PresenceResult::default().presence_detected);
}

#[test]
fn presence_configuration_holds_what_was_set() {
    let mut config = PresenceConfig::default();
    assert_eq!(config.range(), (None, None));
    assert_eq!(config.step_length(), None);
    assert_eq!(config.auto_step_length(), None);
    assert_eq!(config.sensor(), None);
    assert_eq!(config.auto_profile(), None);
    assert_eq!(config.profile(), None);
    assert_eq!(config.frame_rate(), None);
    assert_eq!(config.reset_filters_on_prepare(), None);
    assert_eq!(config.detection_thresholds(), (None, None));
    assert_eq!(config.detection_enabled(), (None, None));
    config.set_range(float(0.5), float(4.0));
    config.set_sensor(1);
    config.set_auto_profile(false);
    config.set_profile(RadarProfile::AccProfile4);
    config.set_frame_rate(float(12.0));
    config.set_reset_filters_on_prepare(true);
    config.set_detection_thresholds(float(1.3), float(1.0));
    config.set_detection_enabled(true, false);
    assert_eq!(config.range(), (Some(float(0.5)), Some(float(4.0))));
    assert_eq!(config.sensor(), Some(1));
    assert_eq!(config.auto_profile(), Some(false));
    assert_eq!(config.profile(), Some(RadarProfile::AccProfile4));
    assert_eq!(config.frame_rate(), Some(float(12.0)));
    assert_eq!(config.reset_filters_on_prepare(), Some(true));
    assert_eq!(config.detection_thresholds(), (Some(float(1.3)), Some(float(1.0))));
    assert_eq!(config.detection_enabled(), (Some(true), Some(false)));
}

#[test]
fn presence_step_length_by_hand_or_from_the_profile() {
    let mut config = PresenceConfig::default();
    config.set_step_length(Some(24));
    assert_eq!(config.step_length(), Some(24));
    assert_eq!(config.auto_step_length(), Some(false));
    config.set_step_length(None);
    assert_eq!(config.step_length(), Some(24));
    assert_eq!(config.auto_step_length(), Some(true));
    let mut config = PresenceConfig::default();
    config.set_step_length(None);
    assert_eq!(config.step_length(), None);
    assert_eq!(config.auto_step_length(), Some(true));
}

#[test]
fn presence_metadata_of_a_detector_that_was_not_created() {
    let metadata = PresenceMetadata::new();
    assert_eq!(f32::from_bits(metadata.start_m().to_bits()), 0.0);
    assert_eq!(f32::from_bits(metadata.end_m.to_bits()), 6.0);
    assert_eq!(f32::from_bits(metadata.step_length_m().to_bits()), 0.0);
    assert_eq!(metadata.num_points(), 0);
    assert_eq!(metadata.profile(), RadarProfile::AccProfile5);
    let odd = PresenceMetadata { profile: 9, ..metadata };
    assert_eq!(odd.profile(), RadarProfile::AccProfile1);
    let second = PresenceMetadata { profile: 2, num_points: 37, ..metadata };
    assert_eq!(second.profile(), RadarProfile::AccProfile2);
    assert_eq!(second.num_points(), 37);
}

#[test]
fn processing_result_and_metadata_start_empty() {
    let result = ProcessingResult::new();
    assert!(!result.data_saturated);
    assert!(!result.frame_delayed);
    assert!(!result.calibration_needed);
    assert_eq!(result.temperature, 0);
    assert_eq!(ProcessingResult::default(), result);
    let mut metadata = ProcessingMetaData::new();
    assert_eq!(metadata.frame_data_length(), 0);
    assert_eq!(metadata.sweep_data_length(), 0);
    assert!(metadata.max_sweep_rate().is_zero());
    for index in 0..4 {
        assert_eq!(metadata.subsweep_data_offset(index), 0);
        assert_eq!(metadata.subsweep_data_length(index), 0);
    }
    metadata.frame_data_length = 320;
    metadata.sweep_data_length = 160;
    metadata.subsweep_data_offset = [0, 40, 80, 120];
    metadata.subsweep_data_length = [40, 40, 40, 40];
    assert_eq!(metadata.frame_data_length(), 320);
    assert_eq!(metadata.sweep_data_length(), 160);
    assert_eq!(metadata.subsweep_data_offset(3), 120);
    assert_eq!(metadata.subsweep_data_length(1), 40);
    assert_eq!(ProcessingMetaData::default().frame_data_length(), 0);
}

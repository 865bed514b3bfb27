use a121_rs::config::error::ConfigError;
use a121_rs::config::frame_rate::FrameRate;
use a121_rs::config::hwaas::Hwaas;
use a121_rs::config::prf::PulseRepetitionFrequency;
use a121_rs::config::profile::RadarProfile;
use a121_rs::config::RadarConfig;
use a121_rs::config::RadarIdleState;
use a121_rs::config::SweepMode;
use a121_rs::num::Float32;

fn float(value: f32) -> Float32 {
    Float32::from_bits(value.to_bits())
}

fn ready_for_continuous_mode() -> RadarConfig {
    let mut config = RadarConfig::new();
    config.set_sweep_rate(float(100.0)).unwrap();
    config.set_inter_frame_idle_state(RadarIdleState::Ready);
    config.set_inter_sweep_idle_state(RadarIdleState::Ready);
    config
}

#[test]
fn new_configuration_is_an_empty_record() {
    let config = RadarConfig::new();
    assert_eq!(config.num_subsweep(), 1);
    assert_eq!(config.sweeps_per_frame(), 0);
    assert_eq!(config.frame_rate(), FrameRate::Unlimited);
    assert!(config.sweep_rate().is_zero());
    assert!(!config.is_continuous_sweep_mode_enabled());
    assert!(!config.is_double_buffering_enabled());
    assert_eq!(config.inter_frame_idle_state(), RadarIdleState::DeepSleep);
    assert_eq!(config.inter_sweep_idle_state(), RadarIdleState::DeepSleep);
    assert_eq!(config.start_point(), 0);
    assert_eq!(config.num_points(), 0);
    assert_eq!(config.step_length(), 0);
    assert_eq!(config.profile(), RadarProfile::AccProfile1);
    assert_eq!(config.hwaas(), Hwaas::new(0));
    assert_eq!(config.receiver_gain(), 0);
    assert_eq!(config.prf(), PulseRepetitionFrequency::Prf19_5Mhz);
    assert!(!config.is_transmitter_enabled());
    assert!(!config.is_phase_enhancement_enabled());
    assert!(!config.is_loopback_enabled());
}

#[test]
fn continuous_sweep_mode_is_rejected_while_the_frame_rate_is_limited() {
    let mut config = ready_for_continuous_mode();
    config.set_frame_rate(FrameRate::Limited(float(10.0)));
    assert!(!config.is_continuous_sweep_mode_enabled());
    let result = config.set_continuous_sweep_mode(true);
    assert_eq!(result, Err(ConfigError::ContinuousSweepMode));
    assert!(!config.is_continuous_sweep_mode_enabled());
    assert_eq!(config.frame_rate(), FrameRate::Limited(float(10.0)));
}

#[test]
fn rejected_continuous_sweep_mode_keeps_the_mode_that_was_on() {
    let mut config = ready_for_continuous_mode();
    assert_eq!(config.set_continuous_sweep_mode(true), Ok(()));
    assert!(config.is_continuous_sweep_mode_enabled());
    config.set_frame_rate(FrameRate::Limited(float(10.0)));
    assert_eq!(config.set_continuous_sweep_mode(true), Err(ConfigError::ContinuousSweepMode));
    assert!(config.is_continuous_sweep_mode_enabled());
}

#[test]
fn continuous_sweep_mode_needs_a_sweep_rate() {
    let mut config = RadarConfig::new();
    config.set_inter_frame_idle_state(RadarIdleState::Ready);
    config.set_inter_sweep_idle_state(RadarIdleState::Ready);
    assert_eq!(config.set_continuous_sweep_mode(true), Err(ConfigError::ContinuousSweepMode));
    assert!(!config.is_continuous_sweep_mode_enabled());
}

#[test]
fn continuous_sweep_mode_needs_equal_idle_states() {
    let mut config = ready_for_continuous_mode();
    config.set_inter_frame_idle_state(RadarIdleState::DeepSleep);
    assert_eq!(config.set_continuous_sweep_mode(true), Err(ConfigError::ContinuousSweepMode));
    assert!(!config.is_continuous_sweep_mode_enabled());
    config.set_inter_sweep_idle_state(RadarIdleState::DeepSleep);
    assert_eq!(config.set_continuous_sweep_mode(true), Ok(()));
    assert!(config.is_continuous_sweep_mode_enabled());
}

#[test]
fn continuous_sweep_mode_can_always_be_switched_off() {
    let mut config = ready_for_continuous_mode();
    config.set_continuous_sweep_mode(true).unwrap();
    config.set_frame_rate(FrameRate::Limited(float(5.0)));
    assert_eq!(config.set_continuous_sweep_mode(false), Ok(()));
    assert!(!config.is_continuous_sweep_mode_enabled());
}

#[test]
fn sweep_rate_must_be_positive() {
    let mut config = RadarConfig::new();
    assert_eq!(config.set_sweep_rate(float(0.0)), Err(ConfigError::SweepRate));
    assert_eq!(config.set_sweep_rate(float(-0.0)), Err(ConfigError::SweepRate));
    assert_eq!(config.set_sweep_rate(float(-1.5)), Err(ConfigError::SweepRate));
    assert_eq!(config.set_sweep_rate(float(f32::NEG_INFINITY)), Err(ConfigError::SweepRate));
    assert_eq!(config.set_sweep_rate(float(f32::NAN)), Err(ConfigError::SweepRate));
    assert_eq!(config.set_sweep_rate(float(-f32::NAN)), Err(ConfigError::SweepRate));
    assert_eq!(
        config.set_sweep_rate(Float32::from_bits(0x7fc0_0000)),
        Err(ConfigError::SweepRate)
    );
    assert!(config.sweep_rate().is_zero());
    assert_eq!(config.set_sweep_rate(float(1.5)), Ok(()));
    assert_eq!(f32::from_bits(config.sweep_rate().to_bits()), 1.5);
    assert_eq!(config.set_sweep_rate(float(-3.0)), Err(ConfigError::SweepRate));
    assert_eq!(config.set_sweep_rate(float(f32::NAN)), Err(ConfigError::SweepRate));
    assert_eq!(f32::from_bits(config.sweep_rate().to_bits()), 1.5);
    assert_eq!(config.set_sweep_rate(float(f32::MIN_POSITIVE)), Ok(()));
    assert_eq!(config.set_sweep_rate(float(f32::INFINITY)), Ok(()));
}

#[test]
fn continuous_sweep_mode_is_not_switched_on_behind_a_rejected_sweep_rate() {
    let mut config = RadarConfig::new();
    config.set_inter_frame_idle_state(RadarIdleState::Ready);
    config.set_inter_sweep_idle_state(RadarIdleState::Ready);
    assert_eq!(config.set_sweep_rate(float(f32::NAN)), Err(ConfigError::SweepRate));
    assert_eq!(config.set_continuous_sweep_mode(true), Err(ConfigError::ContinuousSweepMode));
    assert!(!config.is_continuous_sweep_mode_enabled());
    assert_eq!(config.set_sweep_rate(float(-2.0)), Err(ConfigError::SweepRate));
    assert_eq!(config.set_continuous_sweep_mode(true), Err(ConfigError::ContinuousSweepMode));
    assert!(!config.is_continuous_sweep_mode_enabled());
}

#[test]
fn sweep_mode_continuous_sets_mode_and_rate() {
    let mut config = ready_for_continuous_mode();
    let result = config.set_sweep_mode(SweepMode::Continuous { sweep_rate: float(250.0) });
    assert_eq!(result, Ok(()));
    assert!(config.is_continuous_sweep_mode_enabled());
    assert_eq!(f32::from_bits(config.sweep_rate().to_bits()), 250.0);
}

#[test]
fn sweep_mode_continuous_is_rejected_on_a_limited_frame_rate() {
    let mut config = ready_for_continuous_mode();
    config.set_frame_rate(FrameRate::Limited(float(10.0)));
    let result = config.set_sweep_mode(SweepMode::Continuous { sweep_rate: float(250.0) });
    assert_eq!(result, Err(ConfigError::ContinuousSweepMode));
    assert!(!config.is_continuous_sweep_mode_enabled());
    assert_eq!(f32::from_bits(config.sweep_rate().to_bits()), 100.0);
}

#[test]
fn sweep_mode_continuous_with_a_bad_rate_changes_nothing() {
    for rate in [0.0f32, -0.0, -1.0, f32::NEG_INFINITY, f32::NAN, -f32::NAN] {
        let mut config = ready_for_continuous_mode();
        let result = config.set_sweep_mode(SweepMode::Continuous { sweep_rate: float(rate) });
        assert_eq!(result, Err(ConfigError::SweepRate));
        assert!(!config.is_continuous_sweep_mode_enabled());
        assert_eq!(f32::from_bits(config.sweep_rate().to_bits()), 100.0);
        assert_eq!(config.frame_rate(), FrameRate::Unlimited);
        assert_eq!(config.sweeps_per_frame(), 0);
    }
}

#[test]
fn sweep_mode_continuous_with_a_bad_rate_keeps_the_mode_that_was_on() {
    let mut config = ready_for_continuous_mode();
    config.set_continuous_sweep_mode(true).unwrap();
    let result = config.set_sweep_mode(SweepMode::Continuous { sweep_rate: float(0.0) });
    assert_eq!(result, Err(ConfigError::SweepRate));
    assert!(config.is_continuous_sweep_mode_enabled());
    assert_eq!(f32::from_bits(config.sweep_rate().to_bits()), 100.0);
}

#[test]
fn sweep_mode_continuous_is_rejected_without_a_stored_sweep_rate() {
    let mut config = RadarConfig::new();
    config.set_inter_frame_idle_state(RadarIdleState::Ready);
    config.set_inter_sweep_idle_state(RadarIdleState::Ready);
    let result = config.set_sweep_mode(SweepMode::Continuous { sweep_rate: float(250.0) });
    assert_eq!(result, Err(ConfigError::ContinuousSweepMode));
    assert!(!config.is_continuous_sweep_mode_enabled());
    assert!(config.sweep_rate().is_zero());
}

#[test]
fn sweep_mode_discrete_sets_frame_rate_and_sweeps() {
    let mut config = ready_for_continuous_mode();
    config.set_continuous_sweep_mode(true).unwrap();
    let result = config.set_sweep_mode(SweepMode::Discrete {
        frame_rate: FrameRate::Limited(float(20.0)),
        sweeps_per_frame: 8,
    });
    assert_eq!(result, Ok(()));
    assert!(!config.is_continuous_sweep_mode_enabled());
    assert_eq!(config.frame_rate(), FrameRate::Limited(float(20.0)));
    assert_eq!(config.sweeps_per_frame(), 8);
}

#[test]
fn frame_rate_of_zero_is_unlimited() {
    let mut config = RadarConfig::new();
    config.set_frame_rate(FrameRate::Limited(float(0.0)));
    assert_eq!(config.frame_rate(), FrameRate::Unlimited);
    config.set_frame_rate(FrameRate::Limited(float(-0.0)));
    assert_eq!(config.frame_rate(), FrameRate::Unlimited);
    config.set_frame_rate(FrameRate::Limited(float(12.5)));
    assert_eq!(config.frame_rate(), FrameRate::Limited(float(12.5)));
    config.set_frame_rate(FrameRate::Unlimited);
    assert_eq!(config.frame_rate(), FrameRate::Unlimited);
}

#[test]
fn frame_rate_values() {
    assert_eq!(f32::from_bits(FrameRate::Unlimited.value().to_bits()), 0.0);
    assert_eq!(f32::from_bits(FrameRate::Limited(float(7.5)).value().to_bits()), 7.5);
    assert!(FrameRate::Limited(float(7.5)).is_limited());
    assert!(!FrameRate::Limited(float(7.5)).is_unlimited());
    assert!(FrameRate::Unlimited.is_unlimited());
    assert!(!FrameRate::Unlimited.is_limited());
}

#[test]
fn number_of_subsweeps_is_between_one_and_four() {
    let mut config = RadarConfig::new();
    assert_eq!(config.set_num_subsweep(0), Err(ConfigError::NumSubsweep));
    assert_eq!(config.num_subsweep(), 1);
    assert_eq!(config.set_num_subsweep(4), Ok(()));
    assert_eq!(config.num_subsweep(), 4);
    assert_eq!(config.set_num_subsweep(5), Err(ConfigError::NumSubsweep));
    assert_eq!(config.set_num_subsweep(u8::MAX), Err(ConfigError::NumSubsweep));
    assert_eq!(config.num_subsweep(), 4);
    assert_eq!(config.set_num_subsweep(2), Ok(()));
    assert_eq!(config.num_subsweep(), 2);
}

#[test]
fn subsweeps_are_bounded_by_their_number() {
    let mut config = RadarConfig::new();
    assert!(config.get_subsweep(0).is_some());
    assert!(config.get_subsweep(1).is_none());
    config.set_num_subsweep(3).unwrap();
    assert_eq!(config.get_subsweep(2).unwrap().index(), 2);
    assert!(config.get_subsweep(3).is_none());
    assert!(config.get_subsweep(u8::MAX).is_none());
}

#[test]
fn subsweep_settings_are_kept_per_subsweep() {
    let mut config = RadarConfig::new();
    config.set_num_subsweep(2).unwrap();
    let first = config.get_subsweep(0).unwrap();
    let second = config.get_subsweep(1).unwrap();
    second.set_start_point(&mut config, -40);
    second.set_num_points(&mut config, 12);
    second.set_step_length(&mut config, 24);
    second.set_profile(&mut config, RadarProfile::AccProfile1);
    second.set_hwaas(&mut config, Hwaas::new(511));
    second.set_receiver_gain(&mut config, 23);
    second.set_transmitter_enabled(&mut config, false);
    second.set_prf(&mut config, PulseRepetitionFrequency::Prf5_2Mhz);
    second.set_phase_enhancement_enabled(&mut config, true);
    second.set_loopback_enabled(&mut config, true);
    assert_eq!(second.start_point(&config), -40);
    assert_eq!(second.num_points(&config), 12);
    assert_eq!(second.step_length(&config), 24);
    assert_eq!(second.profile(&config), RadarProfile::AccProfile1);
    assert_eq!(second.hwaas(&config), Hwaas::new(511));
    assert_eq!(second.receiver_gain(&config), 23);
    assert!(!second.is_transmitter_enabled(&config));
    assert_eq!(second.prf(&config), PulseRepetitionFrequency::Prf5_2Mhz);
    assert!(second.is_phase_enhancement_enabled(&config));
    assert!(second.is_loopback_enabled(&config));
    // the first subsweep is untouched
    assert_eq!(first.start_point(&config), 0);
    assert_eq!(first.num_points(&config), 0);
    assert_eq!(first.step_length(&config), 0);
    assert_eq!(first.profile(&config), RadarProfile::AccProfile1);
    assert_eq!(first.hwaas(&config), Hwaas::new(0));
    assert_eq!(first.prf(&config), PulseRepetitionFrequency::Prf19_5Mhz);
    assert!(!first.is_transmitter_enabled(&config));
    assert!(!first.is_loopback_enabled(&config));
}

#[test]
fn settings_of_the_configuration_are_those_of_the_first_subsweep() {
    let mut config = RadarConfig::new();
    config.set_start_point(100);
    config.set_num_points(50);
    config.set_step_length(2);
    config.set_profile(RadarProfile::AccProfile5);
    assert_eq!(config.set_hwaas(Hwaas::new(16)), Ok(()));
    config.receiver_gain_set(10);
    config.set_prf(PulseRepetitionFrequency::Prf13_0Mhz);
    config.set_phase_enhancement(true);
    config.set_loopback(true);
    config.set_transmitter_enabled(false);
    config.set_double_buffering(true);
    let first = config.get_subsweep(0).unwrap();
    assert_eq!(first.start_point(&config), 100);
    assert_eq!(first.num_points(&config), 50);
    assert_eq!(first.step_length(&config), 2);
    assert_eq!(first.profile(&config), RadarProfile::AccProfile5);
    assert_eq!(first.hwaas(&config), Hwaas::new(16));
    assert_eq!(first.receiver_gain(&config), 10);
    assert_eq!(first.prf(&config), PulseRepetitionFrequency::Prf13_0Mhz);
    assert!(first.is_phase_enhancement_enabled(&config));
    assert!(first.is_loopback_enabled(&config));
    assert!(!first.is_transmitter_enabled(&config));
    assert_eq!(config.start_point(), 100);
    assert_eq!(config.num_points(), 50);
    assert_eq!(config.step_length(), 2);
    assert_eq!(config.profile(), RadarProfile::AccProfile5);
    assert_eq!(config.hwaas(), Hwaas::new(16));
    assert_eq!(config.receiver_gain(), 10);
    assert_eq!(config.prf(), PulseRepetitionFrequency::Prf13_0Mhz);
    assert!(config.is_phase_enhancement_enabled());
    assert!(config.is_loopback_enabled());
    assert!(!config.is_transmitter_enabled());
    assert!(config.is_double_buffering_enabled());
}

#[test]
fn buffer_size_of_the_configuration_is_the_engines_to_tell() {
    let config = RadarConfig::new();
    assert_eq!(config.config_buffer_size(Some(4096)), Ok(4096));
    assert_eq!(config.config_buffer_size(Some(0)), Ok(0));
    assert_eq!(config.config_buffer_size(None), Err(ConfigError::BufferSize));
}

#[test]
fn hwaas_accepts_what_the_hardware_can_average() {
    assert_eq!(Hwaas::try_from(0), Ok(Hwaas::new(0)));
    assert_eq!(Hwaas::try_from(1), Ok(Hwaas::new(1)));
    assert_eq!(Hwaas::try_from(511), Ok(Hwaas::new(511)));
    assert_eq!(Hwaas::try_from(512), Err(ConfigError::Hwaas));
    assert_eq!(Hwaas::try_from(u16::MAX), Err(ConfigError::Hwaas));
    assert_eq!(u16::from(Hwaas::new(37)), 37);
    assert_eq!(Hwaas::new(600).value(), 600);
}

#[test]
fn pulse_repetition_frequencies() {
    let table = [
        (PulseRepetitionFrequency::Prf19_5Mhz, 0u32, 19_500_000u32, 3.1f32),
        (PulseRepetitionFrequency::Prf15_6Mhz, 1, 15_600_000, 5.1),
        (PulseRepetitionFrequency::Prf13_0Mhz, 2, 13_000_000, 7.0),
        (PulseRepetitionFrequency::Prf8_7Mhz, 3, 8_700_000, 12.7),
        (PulseRepetitionFrequency::Prf6_5Mhz, 4, 6_500_000, 18.5),
        (PulseRepetitionFrequency::Prf5_2Mhz, 5, 5_200_000, 24.3),
    ];
    for (prf, number, hertz, meters) in table {
        assert_eq!(prf.value(), hertz);
        assert_eq!(u32::from(prf), hertz);
        assert_eq!(prf.to_ffi(), number);
        assert_eq!(PulseRepetitionFrequency::try_from(number), Ok(prf));
        assert_eq!(f32::from_bits(prf.max_measurable_distance().to_bits()), meters);
    }
    assert_eq!(PulseRepetitionFrequency::try_from(6), Err(()));
    assert_eq!(PulseRepetitionFrequency::try_from(u32::MAX), Err(()));
}

#[test]
fn radar_profiles() {
    let table = [
        (RadarProfile::AccProfile1, 1u32),
        (RadarProfile::AccProfile2, 2),
        (RadarProfile::AccProfile3, 3),
        (RadarProfile::AccProfile4, 4),
        (RadarProfile::AccProfile5, 5),
    ];
    for (profile, number) in table {
        assert_eq!(profile.to_ffi(), number);
        assert_eq!(RadarProfile::from_ffi(number), Some(profile));
        assert_eq!(RadarProfile::from(number), profile);
    }
    assert_eq!(RadarProfile::from_ffi(0), None);
    assert_eq!(RadarProfile::from_ffi(6), None);
    assert_eq!(RadarProfile::from(0), RadarProfile::AccProfile1);
    assert_eq!(RadarProfile::from(6), RadarProfile::AccProfile1);
    assert_eq!(RadarProfile::from(u32::MAX), RadarProfile::AccProfile1);
}

#[test]
fn idle_states() {
    assert_eq!(RadarIdleState::from_ffi(0), Some(RadarIdleState::DeepSleep));
    assert_eq!(RadarIdleState::from_ffi(1), Some(RadarIdleState::Sleep));
    assert_eq!(RadarIdleState::from_ffi(2), Some(RadarIdleState::Ready));
    assert_eq!(RadarIdleState::from_ffi(3), None);
    assert_eq!(RadarIdleState::DeepSleep.to_ffi(), 0);
    assert_eq!(RadarIdleState::Sleep.to_ffi(), 1);
    assert_eq!(RadarIdleState::Ready.to_ffi(), 2);
}

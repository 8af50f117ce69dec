use playback_core::bits::ONE_BITS;
use playback_core::gain::{
    info_from_tags, parse_gain_value, parse_peak_value, ReplayGainInfo, ReplayGainMode,
    ReplayGainState,
};

#[test]
fn parses_gain_tags_in_milli_decibels() {
    assert_eq!(parse_gain_value(&Some("-7.5 dB".to_string())), Some(-7500));
    assert_eq!(parse_gain_value(&Some("  -7.5 dB ".to_string())), Some(-7500));
    assert_eq!(parse_gain_value(&Some("-7.5 dB dB".to_string())), Some(-7500));
    assert_eq!(parse_gain_value(&Some("3dB".to_string())), Some(3000));
    assert_eq!(parse_gain_value(&Some("0 dB".to_string())), Some(0));
    assert_eq!(parse_gain_value(&Some("+2.25".to_string())), Some(2250));
    assert_eq!(parse_gain_value(&Some("5".to_string())), Some(5000));
    assert_eq!(parse_gain_value(&Some("abc".to_string())), None);
    assert_eq!(parse_gain_value(&Some("".to_string())), None);
    assert_eq!(parse_gain_value(&None), None);
}

#[test]
fn parses_peak_tags_in_millionths() {
    assert_eq!(parse_peak_value(&Some("0.988".to_string())), Some(988000));
    assert_eq!(parse_peak_value(&Some("1.0".to_string())), Some(1000000));
    assert_eq!(parse_peak_value(&Some(" 0.5 ".to_string())), Some(500000));
    assert_eq!(parse_peak_value(&Some("0.1234567".to_string())), Some(123456));
    assert_eq!(parse_peak_value(&Some("nope".to_string())), None);
    assert_eq!(parse_peak_value(&None), None);
}

#[test]
fn info_from_tags_parses_all_four() {
    let info = info_from_tags(
        Some("-7.5 dB".to_string()),
        Some("0.988".to_string()),
        Some("+1 dB".to_string()),
        None,
    );
    assert_eq!(info.track_gain_db, Some(-7500));
    assert_eq!(info.track_peak, Some(988000));
    assert_eq!(info.album_gain_db, Some(1000));
    assert_eq!(info.album_peak, None);
}

#[test]
fn off_mode_applies_nothing() {
    // replay-gain identity: mode off leaves samples byte-identical
    let rg = ReplayGainState::new();
    assert_eq!(rg.get_mode(), ReplayGainMode::Off);
    assert!(rg.gain_request().is_none());
    assert!(rg.apply().is_none());
}

#[test]
fn track_mode_without_tags_applies_nothing() {
    let mut rg = ReplayGainState::new();
    rg.set_mode(ReplayGainMode::Track);
    assert!(rg.gain_request().is_none());
    assert!(rg.apply().is_none());
    assert_eq!(rg.gain_linear, ONE_BITS);
}

#[test]
fn track_mode_selects_track_gain() {
    // replay-gain selection: Track mode with gain g and no clipping
    // prevention asks for exactly 10^(g/20)
    let mut rg = ReplayGainState::new();
    let mut info = ReplayGainInfo::default();
    info.track_gain_db = Some(-7500);
    info.track_peak = Some(988000);
    rg.load_info(info);
    rg.set_clipping_prevention(false);
    rg.set_mode(ReplayGainMode::Track);
    let req = rg.gain_request().unwrap();
    assert_eq!(req.gain_db, -7500);
    assert_eq!(req.peak_cap, None);

    // the host's evaluation: scale every sample by 10^(-7.5/20)
    let g = 10.0f32.powf(req.gain_db as f32 / 20000.0);
    rg.set_gain_linear(g.to_bits());
    assert_eq!(rg.apply(), Some(g.to_bits()));
}

#[test]
fn album_mode_falls_back_to_track_gain() {
    let mut rg = ReplayGainState::new();
    let mut info = ReplayGainInfo::default();
    info.track_gain_db = Some(-2000);
    rg.load_info(info);
    rg.set_mode(ReplayGainMode::Album);
    let req = rg.gain_request().unwrap();
    assert_eq!(req.gain_db, -2000);
}

#[test]
fn clipping_prevention_caps_at_peak() {
    // clipping clamp: with prevention on and a positive peak the decision
    // carries the peak, and the capped gain keeps gain * peak <= 1
    let mut rg = ReplayGainState::new();
    let mut info = ReplayGainInfo::default();
    info.track_gain_db = Some(9000);  // +9 dB, would clip
    info.track_peak = Some(988000);  // 0.988
    rg.load_info(info);
    rg.set_mode(ReplayGainMode::Track);
    let req = rg.gain_request().unwrap();
    assert_eq!(req.gain_db, 9000);
    assert_eq!(req.peak_cap, Some(988000));

    let peak = 0.988f32;
    let raw = 10.0f32.powf(9000.0 / 20000.0);
    let capped = if raw > 1.0 / peak { 1.0 / peak } else { raw };
    assert!(capped * peak <= 1.0 + f32::EPSILON);
    assert!(capped < raw);
}

#[test]
fn zero_peak_is_ignored() {
    let mut rg = ReplayGainState::new();
    let mut info = ReplayGainInfo::default();
    info.track_gain_db = Some(1000);
    info.track_peak = Some(0);
    rg.load_info(info);
    rg.set_mode(ReplayGainMode::Track);
    let req = rg.gain_request().unwrap();
    assert_eq!(req.peak_cap, None);
}

#[test]
fn unity_gain_takes_fast_path() {
    // a computed gain within f32::EPSILON of 1.0 must not touch the data
    let mut rg = ReplayGainState::new();
    let mut info = ReplayGainInfo::default();
    info.track_gain_db = Some(0);
    rg.load_info(info);
    rg.set_mode(ReplayGainMode::Track);
    let req = rg.gain_request().unwrap();
    let g = 10.0f32.powf(req.gain_db as f32 / 20000.0);
    assert_eq!(g, 1.0);
    rg.set_gain_linear(g.to_bits());
    assert!(rg.apply().is_none());
}

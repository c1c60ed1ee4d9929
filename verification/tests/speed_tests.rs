use usbfly::speed::{
    alternative_speeds, capture_backoff_ms, capture_speed_candidates, contains_speed, fallback_supported_speeds,
    reset_settle_ms, select_best_speed, speeds_from_response, Speed, SpeedQueryError, State, TestConfig,
};

#[test]
fn speed_values_and_masks() {
    assert_eq!(Speed::Auto.value(), 0);
    assert_eq!(Speed::High.value(), 1);
    assert_eq!(Speed::Full.value(), 2);
    assert_eq!(Speed::Low.value(), 3);
    assert_eq!(Speed::Auto.mask(), 1);
    assert_eq!(Speed::High.mask(), 2);
    assert_eq!(Speed::Full.mask(), 4);
    assert_eq!(Speed::Low.mask(), 8);
}

#[test]
fn speed_names() {
    assert_eq!(Speed::Auto.name(), "Auto");
    assert_eq!(Speed::High.name(), "High");
    assert_eq!(Speed::Full.name(), "Full");
    assert_eq!(Speed::Low.name(), "Low");
}

#[test]
fn state_encodes_enable_and_speed() {
    assert_eq!(State::new(true, Speed::High).0, 0b011);
    assert_eq!(State::new(false, Speed::High).0, 0b010);
    assert_eq!(State::new(true, Speed::Low).0, 0b111);
    assert_eq!(State::new(true, Speed::Auto).0, 0b001);
    assert_eq!(State::new(false, Speed::Full).0, 0b100);
}

#[test]
fn state_round_trip_reads_back_fields() {
    for &s in &[Speed::Auto, Speed::High, Speed::Full, Speed::Low] {
        for &en in &[true, false] {
            let st = State::new(en, s);
            assert_eq!(st.0 & 1 == 1, en);
            assert_eq!((st.0 >> 1) & 3, s.value());
        }
    }
}

#[test]
fn test_config_values() {
    assert_eq!(TestConfig::new(None).0, 0);
    assert_eq!(TestConfig::new(Some(Speed::High)).0, 0b011);
    assert_eq!(TestConfig::new(Some(Speed::Low)).0, 0b111);
}

#[test]
fn speeds_from_one_byte_answer() {
    let v = speeds_from_response(&[0b1111]).unwrap();
    assert_eq!(v, vec![Speed::Auto, Speed::High, Speed::Full, Speed::Low]);
    let v = speeds_from_response(&[0b0110]).unwrap();
    assert_eq!(v, vec![Speed::High, Speed::Full]);
    let v = speeds_from_response(&[0]).unwrap();
    assert!(v.is_empty());
}

#[test]
fn speeds_answer_of_wrong_length_is_an_error() {
    assert_eq!(speeds_from_response(&[]), Err(SpeedQueryError::UnexpectedLength(0)));
    assert_eq!(speeds_from_response(&[1, 2]), Err(SpeedQueryError::UnexpectedLength(2)));
}

#[test]
fn best_speed_prefers_high_then_auto_then_full() {
    assert_eq!(select_best_speed(&[Speed::Auto, Speed::High]), Speed::High);
    assert_eq!(select_best_speed(&[Speed::Full, Speed::Auto]), Speed::Auto);
    assert_eq!(select_best_speed(&[Speed::Low, Speed::Full]), Speed::Full);
    assert_eq!(select_best_speed(&[Speed::Low]), Speed::High);
    assert_eq!(select_best_speed(&[]), Speed::High);
    assert!(contains_speed(&[Speed::Low, Speed::Full], Speed::Full));
    assert!(!contains_speed(&[Speed::Low], Speed::Full));
}

#[test]
fn fallback_speeds() {
    assert_eq!(fallback_supported_speeds(true), vec![Speed::Auto, Speed::High]);
    assert_eq!(fallback_supported_speeds(false), vec![Speed::High]);
}

#[test]
fn candidate_speeds_in_order() {
    assert_eq!(capture_speed_candidates(Speed::High), vec![Speed::High, Speed::Auto]);
    assert_eq!(capture_speed_candidates(Speed::Auto), vec![Speed::Auto, Speed::High]);
    assert_eq!(capture_speed_candidates(Speed::Full), vec![Speed::Full, Speed::Auto, Speed::High]);
    assert_eq!(capture_speed_candidates(Speed::Low), vec![Speed::Low, Speed::Auto, Speed::High, Speed::Full]);
}

#[test]
fn alternative_speeds_leave_out_the_best() {
    assert_eq!(alternative_speeds(Speed::High), vec![Speed::Auto, Speed::Full]);
    assert_eq!(alternative_speeds(Speed::Auto), vec![Speed::High, Speed::Full]);
    assert_eq!(alternative_speeds(Speed::Low), vec![Speed::Auto, Speed::High, Speed::Full]);
}

#[test]
fn backoff_doubles_up_to_three_seconds() {
    assert_eq!(capture_backoff_ms(1), 400);
    assert_eq!(capture_backoff_ms(2), 800);
    assert_eq!(capture_backoff_ms(3), 1600);
    assert_eq!(capture_backoff_ms(4), 3000);
    assert_eq!(capture_backoff_ms(6), 3000);
    assert_eq!(reset_settle_ms(3), 1500);
}

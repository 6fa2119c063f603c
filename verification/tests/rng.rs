use hexdec::config::{ConfigError, Mode};
use hexdec::rng::{base_for_round, ChallengeGen};
use hexdec::round::Base;

#[test]
fn every_challenge_stays_below_the_bound() {
    let gen = ChallengeGen::new(16).unwrap();
    for _ in 0..200 {
        let c = gen.draw();
        assert!(0 <= c && c < 16);
    }
}

#[test]
fn a_bound_of_one_always_draws_zero() {
    let gen = ChallengeGen::new(1).unwrap();
    for _ in 0..20 {
        assert_eq!(gen.draw(), 0);
    }
}

#[test]
fn non_positive_bounds_are_fatal_configuration_errors() {
    assert_eq!(
        ChallengeGen::new(0).map(|g| g.max_bound),
        Err(ConfigError::InvalidDistributionBound)
    );
    assert_eq!(
        ChallengeGen::new(-3).map(|g| g.max_bound),
        Err(ConfigError::InvalidDistributionBound)
    );
}

#[test]
fn fixed_modes_pin_the_answer_base() {
    assert_eq!(base_for_round(Mode::DecToHex, 0), Base::Hex);
    assert_eq!(base_for_round(Mode::DecToHex, 7), Base::Hex);
    assert_eq!(base_for_round(Mode::HexToDec, 0), Base::Dec);
    assert_eq!(base_for_round(Mode::HexToDec, 7), Base::Dec);
}

#[test]
fn mixed_mode_follows_the_selector_parity() {
    assert_eq!(base_for_round(Mode::Mixed, 3), Base::Hex);
    assert_eq!(base_for_round(Mode::Mixed, 4), Base::Dec);
    assert_eq!(base_for_round(Mode::Mixed, 0), Base::Dec);
    assert_eq!(base_for_round(Mode::Mixed, 1), Base::Hex);
}

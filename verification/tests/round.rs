use hexdec::config::{Config, Mode};
use hexdec::round::{Base, Round, RoundError, RoundOutcome};

#[test]
fn beginning_a_round_follows_the_mode() {
    let d2x = Config { max_bound: 256, mode: Mode::DecToHex };
    assert_eq!(Round::begin(d2x, 20, 0), Round { challenge: 20, base: Base::Hex });

    let x2d = Config { max_bound: 16, mode: Mode::HexToDec };
    assert_eq!(Round::begin(x2d, 10, 0), Round { challenge: 10, base: Base::Dec });

    let mixed = Config { max_bound: 16, mode: Mode::Mixed };
    assert_eq!(Round::begin(mixed, 5, 3).base, Base::Hex);
    assert_eq!(Round::begin(mixed, 5, 4).base, Base::Dec);
}

#[test]
fn decimal_answer_round_prompts_in_hex() {
    // max=16, mode "x2d": challenge 10 is shown as hexadecimal text
    let round = Round { challenge: 10, base: Base::Dec };
    assert_eq!(round.prompt_text().as_str(), "* 0xa = ");
}

#[test]
fn hex_answer_round_prompts_in_decimal() {
    // mode "d2x": challenge 20 is shown as decimal text
    let round = Round { challenge: 20, base: Base::Hex };
    assert_eq!(round.prompt_text().as_str(), "* 20 = ");
}

#[test]
fn correct_decimal_answer_wins_the_round() {
    let round = Round { challenge: 10, base: Base::Dec };
    let answer = round.parse_answer("10").unwrap();
    assert_eq!(answer, 10);
    assert_eq!(round.score(answer), RoundOutcome::Win);
}

#[test]
fn wrong_answer_loses_the_round() {
    let round = Round { challenge: 9, base: Base::Dec };
    let answer = round.parse_answer("11").unwrap();
    assert_eq!(answer, 11);
    assert_eq!(round.score(answer), RoundOutcome::Loss);
}

#[test]
fn malformed_answer_is_rejected_then_the_round_goes_on() {
    // mode "d2x", challenge 20: "zz" does not parse in base 16, the same
    // round is kept, and "14" (0x14 = 20) then wins it
    let round = Round { challenge: 20, base: Base::Hex };
    assert_eq!(round.parse_answer("zz"), Err(RoundError::InvalidAnswerFormat));
    let answer = round.parse_answer("14").unwrap();
    assert_eq!(answer, 20);
    assert_eq!(round.score(answer), RoundOutcome::Win);
}

#[test]
fn hex_round_accepts_hex_digits_only_when_expected() {
    let round = Round { challenge: 255, base: Base::Dec };
    // a decimal-answer round refuses hex letters
    assert_eq!(round.parse_answer("ff"), Err(RoundError::InvalidAnswerFormat));
    let answer = round.parse_answer("255").unwrap();
    assert_eq!(round.score(answer), RoundOutcome::Win);
}

#[test]
fn radix_follows_the_base() {
    assert_eq!(Base::Dec.radix(), 10);
    assert_eq!(Base::Hex.radix(), 16);
}

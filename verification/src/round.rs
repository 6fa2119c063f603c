//! One round of the quiz: rendering the prompt in the right radix,
//! parsing the player's answer in the round's base, and scoring it.

use vstd::prelude::*;
use vstd::string::*;
use crate::config::{Config, Mode};
use crate::numeral::{
    dec_chars, dec_string, hex_chars, hex_string, int_text_val, parse_i64, parses_to_i64,
};
use crate::rng::base_for_round;

verus! {

/// The radix the player's answer is expected in. A hexadecimal answer
/// base means the challenge is shown in decimal, and the other way round.
#[derive(Clone, Copy, Debug, PartialEq, Eq, Structural)]
pub enum Base {
    Dec,
    Hex,
}

impl Base {
    /// The numeric radix of this base.
    pub open spec fn spec_radix(self) -> int {
        match self {
            Base::Dec => 10,
            Base::Hex => 16,
        }
    }

    /// The numeric radix of this base.
    pub fn radix(self) -> (r: u32)
        ensures
            r == self.spec_radix(),
    {
        match self {
            Base::Dec => 10,
            Base::Hex => 16,
        }
    }
}

/// Why an answer was rejected: the line does not parse as an integer in
/// the round's base.
#[derive(Clone, Copy, Debug, PartialEq, Eq, Structural)]
pub enum RoundError {
    InvalidAnswerFormat,
}

/// Whether a scored round was answered correctly.
#[derive(Clone, Copy, Debug, PartialEq, Eq, Structural)]
pub enum RoundOutcome {
    /// The answer equals the challenge: the game goes on.
    Win,
    /// The answer differs: the session ends with the closing report.
    Loss,
}

/// The prompt shown for a challenge: the challenge rendered opposite to
/// the answer base, so a hexadecimal answer is asked for with a decimal
/// prompt and a decimal answer with a `0x`-prefixed hexadecimal one.
pub open spec fn prompt_chars(challenge: int, base: Base) -> Seq<char> {
    match base {
        Base::Hex => "* "@ + dec_chars(challenge) + " = "@,
        Base::Dec => "* 0x"@ + hex_chars(challenge) + " = "@,
    }
}

/// One challenge/answer cycle: the drawn value and the answer base.
#[derive(Clone, Copy, Debug, PartialEq, Eq, Structural)]
pub struct Round {
    pub challenge: i64,
    pub base: Base,
}

impl Round {
    /// Challenges are drawn from `[0, max_bound)`, so never negative.
    pub open spec fn wf(&self) -> bool {
        self.challenge >= 0
    }

    /// Open a round for a freshly drawn challenge: the fixed modes pin
    /// the answer base, and mixed mode lets the selector draw's parity
    /// decide it.
    pub fn begin(config: Config, challenge: i64, selector: i64) -> (r: Round)
        requires
            challenge >= 0,
            selector >= 0,
        ensures
            r.wf(),
            r.challenge == challenge,
            config.mode == Mode::DecToHex ==> r.base == Base::Hex,
            config.mode == Mode::HexToDec ==> r.base == Base::Dec,
            config.mode == Mode::Mixed ==> r.base == (if selector % 2 == 1 {
                Base::Hex
            } else {
                Base::Dec
            }),
    {
        Round { challenge, base: base_for_round(config.mode, selector) }
    }

    /// Render this round's prompt.
    pub fn prompt_text(&self) -> (s: String)
        requires
            self.wf(),
        ensures
            s@ == prompt_chars(self.challenge as int, self.base),
    {
        match self.base {
            Base::Hex => {
                let mut s = String::from_str("* ");
                let digits = dec_string(self.challenge as u64);
                s.append(digits.as_str());
                s.append(" = ");
                proof {
                    assert(s@ =~= prompt_chars(self.challenge as int, self.base));
                }
                s
            },
            Base::Dec => {
                let mut s = String::from_str("* 0x");
                let digits = hex_string(self.challenge as u64);
                s.append(digits.as_str());
                s.append(" = ");
                proof {
                    assert(s@ =~= prompt_chars(self.challenge as int, self.base));
                }
                s
            },
        }
    }

    /// Parse one input line as an answer in this round's base. A line
    /// that is no integer of that base is rejected, and the caller
    /// re-prompts the same challenge without resetting the round clock.
    pub fn parse_answer(&self, line: &str) -> (r: Result<i64, RoundError>)
        ensures
            r is Ok <==> parses_to_i64(line@, self.base.spec_radix()),
            r is Ok ==> r->Ok_0 == int_text_val(line@, self.base.spec_radix()),
            r is Err ==> r == Err::<i64, RoundError>(RoundError::InvalidAnswerFormat),
    {
        match parse_i64(line, self.base.radix()) {
            Some(v) => Ok(v),
            None => Err(RoundError::InvalidAnswerFormat),
        }
    }

    /// Score a parsed answer: a win exactly when it equals the challenge.
    pub fn score(&self, answer: i64) -> (o: RoundOutcome)
        ensures
            o == RoundOutcome::Win <==> answer == self.challenge,
            o == RoundOutcome::Loss <==> answer != self.challenge,
    {
        if answer == self.challenge {
            RoundOutcome::Win
        } else {
            RoundOutcome::Loss
        }
    }
}

} // verus!

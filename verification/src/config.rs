//! Configuration parsing: the maximal challenge value and the game mode,
//! each resolved from one raw text value.

use vstd::prelude::*;
use vstd::string::*;
use crate::numeral::{int_text_val, parse_i64, parses_to_i64};

verus! {

/// The conversion direction the player chose.
#[derive(Clone, Copy, Debug, PartialEq, Eq, Structural)]
pub enum Mode {
    /// Challenges shown in decimal, answers expected in hexadecimal.
    DecToHex,
    /// Challenges shown in hexadecimal, answers expected in decimal.
    HexToDec,
    /// The direction is drawn anew each round.
    Mixed,
}

/// Why a configuration value was rejected.
#[derive(Clone, Copy, Debug, PartialEq, Eq, Structural)]
pub enum ConfigError {
    /// The maximal-number text is neither empty nor a decimal integer.
    InvalidInteger,
    /// The mode text is none of the recognized tokens.
    InvalidMode,
    /// A maximal bound at or below zero reached the challenge generator.
    InvalidDistributionBound,
}

/// The resolved, immutable game configuration.
#[derive(Clone, Copy, Debug, PartialEq, Eq, Structural)]
pub struct Config {
    pub max_bound: i64,
    pub mode: Mode,
}

/// The two views hold the same characters.
fn str_eq(a: &str, b: &str) -> (r: bool)
    ensures
        r == (a@ == b@),
{
    let n = a.unicode_len();
    if n != b.unicode_len() {
        return false;
    }
    let mut i: usize = 0;
    while i < n
        invariant
            n == a@.len(),
            n == b@.len(),
            0 <= i <= n,
            forall|j: int| 0 <= j < i ==> a@[j] == b@[j],
        decreases n - i,
    {
        if a.get_char(i) != b.get_char(i) {
            return false;
        }
        i = i + 1;
    }
    proof {
        assert(a@ =~= b@);
    }
    true
}

/// Resolve the maximal-number text: an empty text yields the default 256,
/// decimal integer text yields its value (zero and negative values
/// included), and anything else is rejected as `InvalidInteger`.
pub fn parse_max(text: &str) -> (r: Result<i64, ConfigError>)
    ensures
        text@.len() == 0 ==> r == Ok::<i64, ConfigError>(256i64),
        text@.len() > 0 && parses_to_i64(text@, 10) ==> r is Ok && r->Ok_0 == int_text_val(
            text@,
            10,
        ),
        text@.len() > 0 && !parses_to_i64(text@, 10) ==> r == Err::<i64, ConfigError>(
            ConfigError::InvalidInteger,
        ),
{
    if text.unicode_len() == 0 {
        return Ok(256);
    }
    match parse_i64(text, 10) {
        Some(v) => Ok(v),
        None => Err(ConfigError::InvalidInteger),
    }
}

/// Resolve the mode text: `d2x`, `x2d` and `both` name the three modes,
/// an empty text defaults to `x2d`, and anything else is rejected as
/// `InvalidMode`.
pub fn parse_mode(text: &str) -> (r: Result<Mode, ConfigError>)
    ensures
        text@.len() == 0 ==> r == Ok::<Mode, ConfigError>(Mode::HexToDec),
        text@ == "d2x"@ ==> r == Ok::<Mode, ConfigError>(Mode::DecToHex),
        text@ == "x2d"@ ==> r == Ok::<Mode, ConfigError>(Mode::HexToDec),
        text@ == "both"@ ==> r == Ok::<Mode, ConfigError>(Mode::Mixed),
        text@.len() > 0 && text@ != "d2x"@ && text@ != "x2d"@ && text@ != "both"@ ==> r
            == Err::<Mode, ConfigError>(ConfigError::InvalidMode),
{
    proof {
        reveal_strlit("d2x");
        reveal_strlit("x2d");
        reveal_strlit("both");
        assert("d2x"@ != "x2d"@) by {
            assert("d2x"@[0] != "x2d"@[0]);
        }
        assert("d2x"@ != "both"@) by {
            assert("d2x"@.len() != "both"@.len());
        }
        assert("x2d"@ != "both"@) by {
            assert("x2d"@.len() != "both"@.len());
        }
    }
    if text.unicode_len() == 0 {
        Ok(Mode::HexToDec)
    } else if str_eq(text, "d2x") {
        Ok(Mode::DecToHex)
    } else if str_eq(text, "x2d") {
        Ok(Mode::HexToDec)
    } else if str_eq(text, "both") {
        Ok(Mode::Mixed)
    } else {
        Err(ConfigError::InvalidMode)
    }
}

} // verus!

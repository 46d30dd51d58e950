//! Error taxonomy of the pipeline: a fetch can fail at the transport level,
//! and a response body can fail to decode. Each failure is reported once,
//! with its stage and cause, and turns into a fixed non-zero exit code.

use vstd::prelude::*;
use vstd::string::StringExecFns;

verus! {

/// Why a response body could not be turned into a forecast.
#[derive(Debug)]
pub enum ParseError {
    /// The body is not valid JSON.
    Syntax,
    /// A required field is absent or mistyped; the payload names its path.
    Structure(String),
}

/// A failure of a whole run, by pipeline stage.
#[derive(Debug)]
pub enum WeatherError {
    /// The HTTP exchange failed at the transport level or timed out.
    Fetch,
    /// The response body could not be decoded.
    Parse(ParseError),
}

/// The diagnostic line reported for a failure: the stage, its cause, and for
/// a structure error the path of the offending field.
pub open spec fn spec_message(e: WeatherError) -> Seq<char> {
    match e {
        WeatherError::Fetch => "fetch failed: transport error or timeout"@,
        WeatherError::Parse(ParseError::Syntax) => "parse failed: response body is not valid JSON"@,
        WeatherError::Parse(ParseError::Structure(path)) => "parse failed: missing or mistyped field "@
            + path@,
    }
}

/// The process exit code for a failure: non-zero, and fixed per stage.
pub open spec fn spec_exit_code(e: WeatherError) -> int {
    match e {
        WeatherError::Fetch => 1,
        WeatherError::Parse(_) => 2,
    }
}

impl WeatherError {
    /// The diagnostic message for this failure; never empty.
    pub fn message(&self) -> (m: String)
        ensures
            m@ == spec_message(*self),
            m@.len() > 0,
    {
        proof {
            reveal_strlit("fetch failed: transport error or timeout");
            reveal_strlit("parse failed: response body is not valid JSON");
            reveal_strlit("parse failed: missing or mistyped field ");
        }
        match self {
            WeatherError::Fetch => String::from_str("fetch failed: transport error or timeout"),
            WeatherError::Parse(ParseError::Syntax) => String::from_str(
                "parse failed: response body is not valid JSON",
            ),
            WeatherError::Parse(ParseError::Structure(path)) => {
                let mut m = String::from_str("parse failed: missing or mistyped field ");
                m.append(path.as_str());
                m
            },
        }
    }

    /// The exit code for this failure: deterministic and never zero.
    pub fn exit_code(&self) -> (c: i32)
        ensures
            c == spec_exit_code(*self),
            c != 0,
    {
        match self {
            WeatherError::Fetch => 1,
            WeatherError::Parse(_) => 2,
        }
    }
}

} // verus!

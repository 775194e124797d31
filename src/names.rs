//! Reading the configuration enums from their names.
use vstd::prelude::*;

use crate::units::{CommissionType, OpenPriceMethod, SignalType};

verus! {

/// Why a name was not understood.
#[derive(Clone, Copy, Debug, PartialEq, Eq, Structural)]
pub enum ParseError {
    InvalidCommissionType,
    InvalidSignalType,
    InvalidOpenPriceMethod,
    InvalidTradeSide,
}

/// What `str::to_lowercase` returns for the characters `s`.
pub uninterp spec fn lower_of(s: Seq<char>) -> Seq<char>;

/// Relies on str::to_lowercase: the result depends on the characters alone.
#[verifier::external_body]
fn lowercase(s: &str) -> (r: String)
    ensures
        r@ == lower_of(s@),
{
    s.to_lowercase()
}

fn is_word(s: &String, word: &str) -> (r: bool)
    ensures
        r == (s@ == word@),
{
    let w = word.to_owned();
    *s == w
}

/// The commission type that a lower-case name stands for.
pub open spec fn commission_named(name: Seq<char>) -> Result<CommissionType, ParseError> {
    if name == "percent"@ || name == "pct"@ {
        Ok(CommissionType::Percent)
    } else if name == "fixed"@ || name == "absolute"@ || name == "fix"@ {
        Ok(CommissionType::Absolute)
    } else {
        Err(ParseError::InvalidCommissionType)
    }
}

/// The signal type that a lower-case name stands for.
pub open spec fn signal_named(name: Seq<char>) -> Result<SignalType, ParseError> {
    if name == "percent"@ || name == "pct"@ {
        Ok(SignalType::Percent)
    } else if name == "fixed"@ || name == "absolute"@ || name == "fix"@ {
        Ok(SignalType::Absolute)
    } else {
        Err(ParseError::InvalidSignalType)
    }
}

/// The open price method that a lower-case name stands for.
pub open spec fn open_price_method_named(name: Seq<char>) -> Result<OpenPriceMethod, ParseError> {
    if name == "first"@ {
        Ok(OpenPriceMethod::First)
    } else if name == "average"@ {
        Ok(OpenPriceMethod::Average)
    } else if name == "last"@ {
        Ok(OpenPriceMethod::Last)
    } else {
        Err(ParseError::InvalidOpenPriceMethod)
    }
}

/// The commission type named by `name`, which is already lower case.
pub fn commission_type_from_lowercase(name: &String) -> (r: Result<CommissionType, ParseError>)
    ensures
        r == commission_named(name@),
{
    if is_word(name, "percent") || is_word(name, "pct") {
        Ok(CommissionType::Percent)
    } else if is_word(name, "fixed") || is_word(name, "absolute") || is_word(name, "fix") {
        Ok(CommissionType::Absolute)
    } else {
        Err(ParseError::InvalidCommissionType)
    }
}

/// The signal type named by `name`, which is already lower case.
pub fn signal_type_from_lowercase(name: &String) -> (r: Result<SignalType, ParseError>)
    ensures
        r == signal_named(name@),
{
    if is_word(name, "percent") || is_word(name, "pct") {
        Ok(SignalType::Percent)
    } else if is_word(name, "fixed") || is_word(name, "absolute") || is_word(name, "fix") {
        Ok(SignalType::Absolute)
    } else {
        Err(ParseError::InvalidSignalType)
    }
}

/// The open price method named by `name`, which is already lower case.
pub fn open_price_method_from_lowercase(name: &String) -> (r: Result<OpenPriceMethod, ParseError>)
    ensures
        r == open_price_method_named(name@),
{
    if is_word(name, "first") {
        Ok(OpenPriceMethod::First)
    } else if is_word(name, "average") {
        Ok(OpenPriceMethod::Average)
    } else if is_word(name, "last") {
        Ok(OpenPriceMethod::Last)
    } else {
        Err(ParseError::InvalidOpenPriceMethod)
    }
}

impl CommissionType {
    /// The commission type named by `s`, in any case: `percent` or `pct`;
    /// `fixed`, `absolute` or `fix`.
    pub fn parse(s: &str) -> (r: Result<CommissionType, ParseError>)
        ensures
            r == commission_named(lower_of(s@)),
    {
        commission_type_from_lowercase(&lowercase(s))
    }
}

impl SignalType {
    /// The signal type named by `s`, in any case: `percent` or `pct`;
    /// `fixed`, `absolute` or `fix`.
    pub fn parse(s: &str) -> (r: Result<SignalType, ParseError>)
        ensures
            r == signal_named(lower_of(s@)),
    {
        signal_type_from_lowercase(&lowercase(s))
    }
}

impl OpenPriceMethod {
    /// The open price method named by `s`, in any case: `first`, `average`
    /// or `last`.
    pub fn parse(s: &str) -> (r: Result<OpenPriceMethod, ParseError>)
        ensures
            r == open_price_method_named(lower_of(s@)),
    {
        open_price_method_from_lowercase(&lowercase(s))
    }
}

impl std::str::FromStr for OpenPriceMethod {
    type Err = ParseError;

    fn from_str(s: &str) -> Result<OpenPriceMethod, ParseError> {
        OpenPriceMethod::parse(s)
    }
}

} // verus!

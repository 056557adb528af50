//! What a validation callback may answer.

use vstd::prelude::*;
use vstd::std_specs::convert::FromSpecImpl;
use crate::error::Error;
use crate::model::ErrorModel;

verus! {

/// The verdict of a validation: valid, or invalid for a reason.
#[derive(Debug)]
pub enum Validity {
    Valid,
    Invalid(String),
}

/// What a [`Validity`] is.
pub enum ValidityModel {
    Valid,
    Invalid(Seq<char>),
}

impl View for Validity {
    type V = ValidityModel;

    open spec fn view(&self) -> ValidityModel {
        match self {
            Validity::Valid => ValidityModel::Valid,
            Validity::Invalid(reason) => ValidityModel::Invalid(reason@),
        }
    }
}

impl Clone for Validity {
    fn clone(&self) -> (v: Validity)
        ensures
            v@ == self@,
    {
        match self {
            Validity::Valid => Validity::Valid,
            Validity::Invalid(reason) => Validity::Invalid(reason.clone()),
        }
    }
}

impl Validity {
    /// Whether the verdict is valid.
    pub fn is_valid(&self) -> (b: bool)
        ensures
            b == (self@ is Valid),
    {
        match self {
            Validity::Valid => true,
            _ => false,
        }
    }

    /// The reason of an invalid verdict.
    pub fn invalid_reason(&self) -> (reason: Option<&str>)
        ensures
            match reason {
                Some(text) => self@ == ValidityModel::Invalid(text@),
                None => self@ is Valid,
            },
    {
        match self {
            Validity::Invalid(reason) => Some(reason.as_str()),
            _ => None,
        }
    }
}

/// A text is the reason of an invalid verdict.
impl<'a> From<&'a str> for Validity {
    fn from(reason: &'a str) -> (v: Validity)
        ensures
            v@ == ValidityModel::Invalid(reason@),
    {
        Validity::Invalid(reason.to_owned())
    }
}

impl<'a> FromSpecImpl<&'a str> for Validity {
    open spec fn obeys_from_spec() -> bool {
        false
    }

    open spec fn from_spec(reason: &'a str) -> Validity {
        choose|v: Validity| (#[trigger] v@) == ValidityModel::Invalid(reason@)
    }
}

/// A text is the reason of an invalid verdict.
impl From<String> for Validity {
    fn from(reason: String) -> (v: Validity) {
        Validity::Invalid(reason)
    }
}

impl FromSpecImpl<String> for Validity {
    open spec fn obeys_from_spec() -> bool {
        true
    }

    open spec fn from_spec(reason: String) -> Validity {
        Validity::Invalid(reason)
    }
}

/// `true` is valid; `false` is invalid, with a reason that says no more.
impl From<bool> for Validity {
    fn from(valid: bool) -> (v: Validity)
        ensures
            v@ == (if valid {
                ValidityModel::Valid
            } else {
                ValidityModel::Invalid("value is invalid"@)
            }),
    {
        match valid {
            true => Validity::Valid,
            false => Validity::Invalid("value is invalid".to_owned()),
        }
    }
}

impl FromSpecImpl<bool> for Validity {
    open spec fn obeys_from_spec() -> bool {
        false
    }

    open spec fn from_spec(valid: bool) -> Validity {
        choose|v: Validity|
            (#[trigger] v@) == (if valid {
                ValidityModel::Valid
            } else {
                ValidityModel::Invalid("value is invalid"@)
            })
    }
}

/// Nothing to report is valid.
impl From<()> for Validity {
    fn from(nothing: ()) -> (v: Validity) {
        Validity::Valid
    }
}

impl FromSpecImpl<()> for Validity {
    open spec fn obeys_from_spec() -> bool {
        true
    }

    open spec fn from_spec(nothing: ()) -> Validity {
        Validity::Valid
    }
}

/// A reason is an invalid verdict; none is a valid one.
impl From<Option<String>> for Validity {
    fn from(reason: Option<String>) -> (v: Validity) {
        match reason {
            Some(text) => Validity::Invalid(text),
            None => Validity::Valid,
        }
    }
}

impl FromSpecImpl<Option<String>> for Validity {
    open spec fn obeys_from_spec() -> bool {
        true
    }

    open spec fn from_spec(reason: Option<String>) -> Validity {
        match reason {
            Some(text) => Validity::Invalid(text),
            None => Validity::Valid,
        }
    }
}

/// A reason is an invalid verdict; none is a valid one.
impl<'a> From<Option<&'a str>> for Validity {
    fn from(reason: Option<&'a str>) -> (v: Validity)
        ensures
            v@ == (match reason {
                Some(text) => ValidityModel::Invalid(text@),
                None => ValidityModel::Valid,
            }),
    {
        match reason {
            Some(text) => Validity::Invalid(text.to_owned()),
            None => Validity::Valid,
        }
    }
}

impl<'a> FromSpecImpl<Option<&'a str>> for Validity {
    open spec fn obeys_from_spec() -> bool {
        false
    }

    open spec fn from_spec(reason: Option<&'a str>) -> Validity {
        choose|v: Validity|
            (#[trigger] v@) == (match reason {
                Some(text) => ValidityModel::Invalid(text@),
                None => ValidityModel::Valid,
            })
    }
}

/// What a validation callback hands back: a verdict, or a verdict that the
/// callback may have failed to reach.
#[derive(Debug)]
pub enum ValidateResult {
    Validity(Validity),
    Result(Result<Validity, Error>),
}

/// What a [`ValidateResult`] is.
pub enum ValidateResultModel {
    Validity(ValidityModel),
    Result(Result<ValidityModel, ErrorModel>),
}

impl View for ValidateResult {
    type V = ValidateResultModel;

    open spec fn view(&self) -> ValidateResultModel {
        match self {
            ValidateResult::Validity(v) => ValidateResultModel::Validity(v@),
            ValidateResult::Result(Ok(v)) => ValidateResultModel::Result(Ok(v@)),
            ValidateResult::Result(Err(e)) => ValidateResultModel::Result(Err(e@)),
        }
    }
}

/// Anything that converts into a verdict is a result that holds that verdict.
impl<T: Into<Validity>> From<T> for ValidateResult {
    fn from(value: T) -> (r: ValidateResult)
        ensures
            r matches ValidateResult::Validity(v) && call_ensures(
                <T as Into<Validity>>::into,
                (value,),
                v,
            ),
    {
        ValidateResult::Validity(value.into())
    }
}

impl<T: Into<Validity>> FromSpecImpl<T> for ValidateResult {
    open spec fn obeys_from_spec() -> bool {
        false
    }

    open spec fn from_spec(value: T) -> ValidateResult {
        ValidateResult::Validity(
            choose|v: Validity| call_ensures(<T as Into<Validity>>::into, (value,), v),
        )
    }
}

/// A result whose parts convert into a verdict and into a failure is a result
/// that holds the converted part.
impl<T: Into<Validity>, U: Into<Error>> From<Result<T, U>> for ValidateResult {
    fn from(value: Result<T, U>) -> (r: ValidateResult)
        ensures
            match value {
                Ok(t) => r matches ValidateResult::Result(Ok(v)) && call_ensures(
                    <T as Into<Validity>>::into,
                    (t,),
                    v,
                ),
                Err(u) => r matches ValidateResult::Result(Err(e)) && call_ensures(
                    <U as Into<Error>>::into,
                    (u,),
                    e,
                ),
            },
    {
        match value {
            Ok(t) => ValidateResult::Result(Ok(t.into())),
            Err(e) => ValidateResult::Result(Err(e.into())),
        }
    }
}

impl<T: Into<Validity>, U: Into<Error>> FromSpecImpl<Result<T, U>> for ValidateResult {
    open spec fn obeys_from_spec() -> bool {
        false
    }

    open spec fn from_spec(value: Result<T, U>) -> ValidateResult {
        match value {
            Ok(t) => ValidateResult::Result(
                Ok(choose|v: Validity| call_ensures(<T as Into<Validity>>::into, (t,), v)),
            ),
            Err(u) => ValidateResult::Result(
                Err(choose|e: Error| call_ensures(<U as Into<Error>>::into, (u,), e)),
            ),
        }
    }
}

} // verus!

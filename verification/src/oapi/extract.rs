//! The parameters and bodies that a handler takes from a request, each
//! wrapped in a type that tells where it came from.

use std::fmt::{Debug, Display};
use std::ops::Deref;
use vstd::prelude::*;

use crate::http::request::ParseError;
use crate::text::push_text;

verus! {

/// Formats `value` with `{:?}`, that is by its `Debug`. What comes out is
/// up to that implementation, so nothing is said of it.
#[verifier::external_body]
fn debug_text<T: Debug>(value: &T) -> (text: String) {
    format!("{:?}", value)
}

/// A parameter that was passed in a cookie.
pub struct CookieParam<T> {
    name: String,
    value: T,
}

impl<T> CookieParam<T> {
    /// The name of the parameter.
    pub closed spec fn spec_name(&self) -> Seq<char> {
        self.name@
    }

    /// The value of the parameter.
    pub closed spec fn spec_value(&self) -> T {
        self.value
    }

    /// The parameter named `name` with the value `value`.
    pub fn new(name: &str, value: T) -> (param: Self)
        ensures
            param.spec_name() == name@,
            param.spec_value() == value,
    {
        CookieParam { name: name.to_owned(), value }
    }

    /// The name of the parameter.
    pub fn name(&self) -> (name: &str)
        ensures
            name@ == self.spec_name(),
    {
        self.name.as_str()
    }

    /// The value of the parameter.
    pub fn value(&self) -> (value: &T)
        ensures
            *value == self.spec_value(),
    {
        &self.value
    }
}

/// A parameter that was passed in a header.
pub struct HeaderParam<T> {
    name: String,
    value: T,
}

impl<T> HeaderParam<T> {
    /// The name of the parameter.
    pub closed spec fn spec_name(&self) -> Seq<char> {
        self.name@
    }

    /// The value of the parameter.
    pub closed spec fn spec_value(&self) -> T {
        self.value
    }

    /// The parameter named `name` with the value `value`.
    pub fn new(name: &str, value: T) -> (param: Self)
        ensures
            param.spec_name() == name@,
            param.spec_value() == value,
    {
        HeaderParam { name: name.to_owned(), value }
    }

    /// The name of the parameter.
    pub fn name(&self) -> (name: &str)
        ensures
            name@ == self.spec_name(),
    {
        self.name.as_str()
    }

    /// The value of the parameter.
    pub fn value(&self) -> (value: &T)
        ensures
            *value == self.spec_value(),
    {
        &self.value
    }

    /// Gives up the parameter for its value.
    pub fn into_value(self) -> (value: T)
        ensures
            value == self.spec_value(),
    {
        self.value
    }
}

/// A parameter that was passed in the query of the URL.
pub struct QueryParam<T> {
    name: String,
    value: T,
}

impl<T> QueryParam<T> {
    /// The name of the parameter.
    pub closed spec fn spec_name(&self) -> Seq<char> {
        self.name@
    }

    /// The value of the parameter.
    pub closed spec fn spec_value(&self) -> T {
        self.value
    }

    /// The parameter named `name` with the value `value`.
    pub fn new(name: &str, value: T) -> (param: Self)
        ensures
            param.spec_name() == name@,
            param.spec_value() == value,
    {
        QueryParam { name: name.to_owned(), value }
    }

    /// The name of the parameter.
    pub fn name(&self) -> (name: &str)
        ensures
            name@ == self.spec_name(),
    {
        self.name.as_str()
    }

    /// The value of the parameter.
    pub fn value(&self) -> (value: &T)
        ensures
            *value == self.spec_value(),
    {
        &self.value
    }
}

/// A parameter that was passed in the path of the URL.
pub struct PathParam<T>(pub T);

impl<T> PathParam<T> {
    /// Gives up the parameter for its value.
    pub fn into_inner(self) -> (value: T)
        ensures
            value == self.0,
    {
        self.0
    }

    /// The value of the parameter, to be changed in place.
    pub fn deref_mut(&mut self) -> (value: &mut T)
        ensures
            *value == old(self).0,
            final(self).0 == *final(value),
    {
        &mut self.0
    }

    /// The value of the parameter as `{:?}` writes it: the wrapper adds nothing.
    pub fn debug_string(&self) -> (text: String) where T: Debug {
        debug_text(&self.0)
    }

    /// The value of the parameter as `{}` writes it: the wrapper adds nothing.
    pub fn display_string(&self) -> (text: String) where T: Display
        ensures
            vstd::string::to_string_from_display_ensures::<T>(&self.0, text),
    {
        self.0.to_string()
    }
}

impl<T> Deref for PathParam<T> {
    type Target = T;

    fn deref(&self) -> (value: &T)
        ensures
            *value == self.0,
    {
        &self.0
    }
}

/// A body that was sent as a form.
pub struct FormBody<T>(pub T);

impl<T> FormBody<T> {
    /// Gives up the body for what it holds.
    pub fn into_inner(self) -> (value: T)
        ensures
            value == self.0,
    {
        self.0
    }
}

impl<T> Deref for FormBody<T> {
    type Target = T;

    fn deref(&self) -> (value: &T)
        ensures
            *value == self.0,
    {
        &self.0
    }
}

/// A body that was sent as JSON.
pub struct JsonBody<T>(pub T);

impl<T> JsonBody<T> {
    /// Gives up the body for what it holds.
    pub fn into_inner(self) -> (value: T)
        ensures
            value == self.0,
    {
        self.0
    }
}

impl<T> Deref for JsonBody<T> {
    type Target = T;

    fn deref(&self) -> (value: &T)
        ensures
            *value == self.0,
    {
        &self.0
    }
}

/// Where a parameter is passed.
#[derive(Clone, Copy, Debug, PartialEq, Eq, Structural)]
pub enum ParameterIn {
    /// In the query of the URL.
    Query,
    /// In the path of the URL.
    Path,
    /// In a header.
    Header,
    /// In a cookie.
    Cookie,
}

/// What the description of an operation tells of one parameter.
#[derive(Debug, PartialEq, Eq)]
pub struct Parameter {
    /// The name of the parameter.
    pub name: String,
    /// Where it is passed.
    pub parameter_in: ParameterIn,
    /// What it is, in words.
    pub description: String,
    /// Whether a request has to have it.
    pub required: bool,
}

/// The words that tell where a handler takes the parameter `arg` from.
pub open spec fn spec_description(parameter_in: ParameterIn, arg: Seq<char>) -> Seq<char> {
    let place = match parameter_in {
        ParameterIn::Cookie => "` from request cookie"@,
        ParameterIn::Header => "` from request headers"@,
        ParameterIn::Query => "` from request url query"@,
        ParameterIn::Path => "` from request url path."@,
    };
    "Get parameter `"@ + arg + place
}

/// The words that tell that the parameter `arg` could not be taken.
pub open spec fn spec_missing(parameter_in: ParameterIn, arg: Seq<char>) -> Seq<char> {
    let kind = match parameter_in {
        ParameterIn::Cookie => "cookie parameter "@,
        ParameterIn::Header => "header parameter "@,
        ParameterIn::Query => "query parameter "@,
        ParameterIn::Path => "path parameter "@,
    };
    kind + arg + " not found or convert to type failed"@
}

/// What the description of an operation tells of the parameter `arg` that
/// a handler takes from `parameter_in`. Only a parameter of the path has to
/// be there.
pub fn register(parameter_in: ParameterIn, arg: &str) -> (parameter: Parameter)
    ensures
        parameter.name@ == arg@,
        parameter.parameter_in == parameter_in,
        parameter.description@ == spec_description(parameter_in, arg@),
        parameter.required == (parameter_in == ParameterIn::Path),
{
    let mut description = String::new();
    push_text(&mut description, "Get parameter `");
    push_text(&mut description, arg);
    let required = match parameter_in {
        ParameterIn::Cookie => {
            push_text(&mut description, "` from request cookie");
            false
        },
        ParameterIn::Header => {
            push_text(&mut description, "` from request headers");
            false
        },
        ParameterIn::Query => {
            push_text(&mut description, "` from request url query");
            false
        },
        ParameterIn::Path => {
            push_text(&mut description, "` from request url path.");
            true
        },
    };
    assert(description@ =~= spec_description(parameter_in, arg@));
    Parameter { name: arg.to_owned(), parameter_in, description, required }
}

/// The error that tells that the parameter `arg` could not be taken from
/// `parameter_in`.
pub fn missing(parameter_in: ParameterIn, arg: &str) -> (error: ParseError)
    ensures
        error matches ParseError::Other(text) && text@ == spec_missing(parameter_in, arg@),
{
    let mut message = String::new();
    match parameter_in {
        ParameterIn::Cookie => push_text(&mut message, "cookie parameter "),
        ParameterIn::Header => push_text(&mut message, "header parameter "),
        ParameterIn::Query => push_text(&mut message, "query parameter "),
        ParameterIn::Path => push_text(&mut message, "path parameter "),
    }
    push_text(&mut message, arg);
    push_text(&mut message, " not found or convert to type failed");
    assert(message@ =~= spec_missing(parameter_in, arg@));
    ParseError::Other(message)
}

impl<T> CookieParam<T> {
    /// The parameter `arg` with the value that was found for it in the
    /// cookies, or the error that tells that none was.
    pub fn extract_with_arg(arg: &str, found: Option<T>) -> (param: Result<Self, ParseError>)
        ensures
            match (found, param) {
                (Some(value), Ok(taken)) => taken.spec_name() == arg@ && taken.spec_value() == value,
                (None, Err(ParseError::Other(text))) => text@ == spec_missing(
                    ParameterIn::Cookie,
                    arg@,
                ),
                _ => false,
            },
    {
        match found {
            Some(value) => Ok(Self::new(arg, value)),
            None => Err(missing(ParameterIn::Cookie, arg)),
        }
    }
}

impl<T> HeaderParam<T> {
    /// The parameter `arg` with the value that was found for it in the
    /// headers, or the error that tells that none was.
    pub fn extract_with_arg(arg: &str, found: Option<T>) -> (param: Result<Self, ParseError>)
        ensures
            match (found, param) {
                (Some(value), Ok(taken)) => taken.spec_name() == arg@ && taken.spec_value() == value,
                (None, Err(ParseError::Other(text))) => text@ == spec_missing(
                    ParameterIn::Header,
                    arg@,
                ),
                _ => false,
            },
    {
        match found {
            Some(value) => Ok(Self::new(arg, value)),
            None => Err(missing(ParameterIn::Header, arg)),
        }
    }
}

impl<T> QueryParam<T> {
    /// The parameter `arg` with the value that was found for it in the
    /// query, or the error that tells that none was.
    pub fn extract_with_arg(arg: &str, found: Option<T>) -> (param: Result<Self, ParseError>)
        ensures
            match (found, param) {
                (Some(value), Ok(taken)) => taken.spec_name() == arg@ && taken.spec_value() == value,
                (None, Err(ParseError::Other(text))) => text@ == spec_missing(
                    ParameterIn::Query,
                    arg@,
                ),
                _ => false,
            },
    {
        match found {
            Some(value) => Ok(Self::new(arg, value)),
            None => Err(missing(ParameterIn::Query, arg)),
        }
    }
}

impl<T> PathParam<T> {
    /// The parameter `arg` with the value that was found for it in the
    /// path, or the error that tells that none was.
    pub fn extract_with_arg(arg: &str, found: Option<T>) -> (param: Result<Self, ParseError>)
        ensures
            match (found, param) {
                (Some(value), Ok(taken)) => taken.0 == value,
                (None, Err(ParseError::Other(text))) => text@ == spec_missing(
                    ParameterIn::Path,
                    arg@,
                ),
                _ => false,
            },
    {
        match found {
            Some(value) => Ok(PathParam(value)),
            None => Err(missing(ParameterIn::Path, arg)),
        }
    }
}

} // verus!

//! The errors of the bridge, their display text, and the script value under
//! which each is thrown back into the engine.

use vstd::prelude::*;
use crate::value::Value;

verus! {

/// An error that comes from using the engine.
#[derive(Debug, PartialEq, Eq)]
pub enum Error {
    /// A host value could not be converted to a script value.
    ToJsConversionError {
        /// Name of the host type that could not be converted.
        from: &'static str,
        /// Name of the script type that could not be created.
        to: &'static str,
    },
    /// A script value could not be converted to the expected host type.
    FromJsConversionError {
        /// Name of the script type that could not be converted.
        from: &'static str,
        /// Name of the host type that could not be created.
        to: &'static str,
    },
    /// A mutable callback has run script code that has called the same
    /// callback again. A mutable callback can be borrowed only once at a time.
    RecursiveMutCallback,
    /// The value that was called as a function is not a function.
    NotAFunction,
    /// An error of the user's own, returned from a callback. It is held by its
    /// display text.
    ExternalError(String),
    /// An exception that was raised within the script environment.
    Value(Value),
}

/// What an error becomes when it is thrown into the engine.
#[derive(Debug, PartialEq, Eq)]
pub enum Thrown {
    /// An exception that the engine raised itself: the value as it was.
    Value(Value),
    /// Any other error: an object that the engine has yet to create, with
    /// these `name` and `message` properties.
    Object { name: &'static str, message: String },
}

impl Error {
    /// The display text of the error.
    pub open spec fn message(&self) -> Seq<char> {
        match self {
            Error::ToJsConversionError { from, to } => "error converting "@ + from@
                + " to JavaScript "@ + to@,
            Error::FromJsConversionError { from, to } => "error converting JavaScript "@ + from@
                + " to "@ + to@,
            Error::RecursiveMutCallback => "mutable callback called recursively"@,
            Error::NotAFunction => "tried to a call a non-function"@,
            Error::ExternalError(text) => text@,
            Error::Value(value) => "JavaScript runtime error ("@ + value.kind_name()@ + ")"@,
        }
    }

    /// Whether the error is thrown as a `TypeError`: a failed conversion, or
    /// a call of something that is no function.
    pub open spec fn is_type_error(&self) -> bool {
        self is ToJsConversionError || self is FromJsConversionError || self is NotAFunction
    }

    pub fn to_js_conversion(from: &'static str, to: &'static str) -> (e: Error)
        ensures
            e == (Error::ToJsConversionError { from, to }),
    {
        Error::ToJsConversionError { from, to }
    }

    pub fn from_js_conversion(from: &'static str, to: &'static str) -> (e: Error)
        ensures
            e == (Error::FromJsConversionError { from, to }),
    {
        Error::FromJsConversionError { from, to }
    }

    pub fn recursive_mut_callback() -> (e: Error)
        ensures
            e == Error::RecursiveMutCallback,
    {
        Error::RecursiveMutCallback
    }

    pub fn not_a_function() -> (e: Error)
        ensures
            e == Error::NotAFunction,
    {
        Error::NotAFunction
    }

    /// What the errors of the bridge are, in a few words that do not depend on
    /// the error.
    pub fn description(&self) -> (text: &'static str)
        ensures
            text@ == "JavaScript execution error"@,
    {
        "JavaScript execution error"
    }

    /// The display text of the error.
    pub fn describe(&self) -> (text: String)
        ensures
            text@ == self.message(),
    {
        match self {
            Error::ToJsConversionError { from, to } => {
                let mut text = String::from_str("error converting ");
                text.append(from);
                text.append(" to JavaScript ");
                text.append(to);
                text
            },
            Error::FromJsConversionError { from, to } => {
                let mut text = String::from_str("error converting JavaScript ");
                text.append(from);
                text.append(" to ");
                text.append(to);
                text
            },
            Error::RecursiveMutCallback => String::from_str("mutable callback called recursively"),
            Error::NotAFunction => String::from_str("tried to a call a non-function"),
            Error::ExternalError(inner) => inner.clone(),
            Error::Value(value) => {
                let mut text = String::from_str("JavaScript runtime error (");
                text.append(value.kind_name());
                text.append(")");
                text
            },
        }
    }

    /// Normalizes an error into what is thrown into the engine: an exception
    /// value passes through unchanged, every other error becomes an object
    /// with a `name` and a `message`.
    pub fn to_value(self) -> (thrown: Thrown)
        ensures
            match self {
                Error::Value(value) => thrown == Thrown::Value(value),
                _ => thrown matches Thrown::Object { name, message } && message@ == self.message()
                    && name@ == (if self.is_type_error() {
                    "TypeError"@
                } else {
                    "Error"@
                }),
            },
    {
        match self {
            Error::Value(value) => Thrown::Value(value),
            Error::ToJsConversionError { .. }
            | Error::FromJsConversionError { .. }
            | Error::NotAFunction => {
                let message = self.describe();
                Thrown::Object { name: "TypeError", message }
            },
            _ => {
                let message = self.describe();
                Thrown::Object { name: "Error", message }
            },
        }
    }
}

} // verus!

//! A uniform error report for the demo applications: a short message for
//! people, and, for the curious, the formatted report of the underlying
//! cause.

use vstd::prelude::*;
use vstd::string::StringExecFns;

verus! {

/// An error report: a short human-readable message, and optionally the
/// formatted report of the underlying cause.
#[derive(Debug)]
pub struct Oops {
    message: String,
    cause: Option<String>,
    debug: Option<String>,
}

/// The mathematical content of an `Oops`.
#[verifier::ext_equal]
pub struct OopsModel {
    pub message: Seq<char>,
    pub cause: Option<Seq<char>>,
    pub debug: Option<Seq<char>>,
}

impl View for Oops {
    type V = OopsModel;

    closed spec fn view(&self) -> OopsModel {
        OopsModel {
            message: self.message@,
            cause: self.cause.deep_view(),
            debug: self.debug.deep_view(),
        }
    }
}

/// Relies on the standard formatter's alternate `Debug` rendering to
/// describe a value; nothing is assumed about the text itself.
#[verifier::external_body]
fn debug_format<D: core::fmt::Debug>(value: &D) -> String {
    format!("{:#?}", value)
}

/// Wraps an error in a report; its rendering is kept for `guru_info`.
pub fn oops<E: std::error::Error + 'static>(message: &str, err: E) -> (r: Oops)
    ensures
        r@.message == message@,
        r@.cause is Some,
        r@.debug is None,
{
    Oops { message: message.to_owned(), cause: Some(debug_format(&err)), debug: None }
}

impl Oops {
    /// Builds a report around any value with a debug rendering.
    pub fn from_debug<D: core::fmt::Debug>(message: &str, err: D) -> (r: Oops)
        ensures
            r@.message == message@,
            r@.cause is None,
            r@.debug is Some,
    {
        Oops { message: message.to_owned(), cause: None, debug: Some(debug_format(&err)) }
    }

    /// The short message.
    pub fn message(&self) -> (r: &str)
        ensures
            r@ == self@.message,
    {
        self.message.as_str()
    }

    /// The rendering of the underlying cause if there is one, else whatever
    /// debug text the report was built around.
    pub fn guru_info(&self) -> (r: Option<String>)
        ensures
            r.deep_view() == (if self@.cause is Some {
                self@.cause
            } else {
                self@.debug
            }),
    {
        if let Some(c) = &self.cause {
            return Some(c.clone());
        }
        if let Some(d) = &self.debug {
            return Some(d.clone());
        }
        None
    }

    /// The one-line rendering of the report.
    pub fn display_message(&self) -> (r: String)
        ensures
            r@ == "Oops: "@ + self@.message,
    {
        let mut s = String::from_str("Oops: ");
        s.append(self.message.as_str());
        s
    }
}

} // verus!

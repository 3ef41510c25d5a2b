//! A borrowed piece of parameter text, as handed to a telemetry exporter
//! by the example glue around the library. The text is carried as-is; how
//! an exporter classifies it (number or plain text) is presentation and
//! stays with the exporter.

use vstd::prelude::*;

verus! {

/// One borrowed parameter value destined for a telemetry attribute.
#[derive(Debug)]
pub struct ParamValue<'a>(&'a str);

impl<'a> ParamValue<'a> {
    /// The characters of the carried text.
    pub closed spec fn chars(self) -> Seq<char> {
        self.0@
    }

    /// Wraps a borrowed piece of parameter text.
    pub fn new(text: &'a str) -> (r: ParamValue<'a>)
        ensures
            r.chars() == text@,
    {
        ParamValue(text)
    }

    /// The raw text of the parameter.
    pub fn text(&self) -> (r: &'a str)
        ensures
            r@ == self.chars(),
    {
        self.0
    }
}

} // verus!

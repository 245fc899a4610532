//! A builder that collects the parts of a text.

use vstd::prelude::*;

verus! {

/// The parts collected so far, in one text.
#[derive(Debug)]
pub struct Formatter {
    parts: String,
}

impl View for Formatter {
    type V = Seq<char>;

    closed spec fn view(&self) -> Seq<char> {
        self.parts@
    }
}

impl Formatter {
    /// A formatter that has collected nothing.
    pub fn new() -> (formatter: Self)
        ensures
            formatter@ == Seq::<char>::empty(),
    {
        Formatter { parts: String::new() }
    }

    /// The text of a formatter that has collected nothing: the empty text.
    pub fn to_string() -> (text: String)
        ensures
            text@ == Seq::<char>::empty(),
    {
        String::new()
    }

    /// Collects one more part.
    pub fn add(self, part: &str) -> (formatter: Self)
        ensures
            formatter@ == self@ + part@,
    {
        let mut parts = self.parts;
        parts.append(part);
        Formatter { parts }
    }

    /// Leaves the collected parts as they are.
    pub fn fg(self) -> (formatter: Self)
        ensures
            formatter@ == self@,
    {
        self
    }

    /// Leaves the collected parts as they are.
    pub fn bg(self) -> (formatter: Self)
        ensures
            formatter@ == self@,
    {
        self
    }

    /// Leaves the collected parts as they are.
    pub fn reset(self) -> (formatter: Self)
        ensures
            formatter@ == self@,
    {
        self
    }
}

} // verus!

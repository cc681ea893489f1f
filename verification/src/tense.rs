//! The eight grammatical tenses the dataset distinguishes.

use vstd::prelude::*;

use crate::text::lower_of;
use crate::text::lowercase;
use crate::text::str_eq;

verus! {

#[derive(Debug, Clone, Copy, PartialEq, Eq, Structural)]
pub enum Tense {
    Present,
    PerfectPresent,
    Past,
    PerfectPast,
    Future,
    PerfectFuture,
    SubjectiveI,
    SubjectiveII,
}

/// The tense that a lowercased token names, if any. This is the fixed,
/// case-insensitive string table of the dataset format.
pub open spec fn tense_of_name(s: Seq<char>) -> Option<Tense> {
    if s == "present"@ {
        Some(Tense::Present)
    } else if s == "perfectpresent"@ {
        Some(Tense::PerfectPresent)
    } else if s == "past"@ {
        Some(Tense::Past)
    } else if s == "perfectpast"@ {
        Some(Tense::PerfectPast)
    } else if s == "future"@ {
        Some(Tense::Future)
    } else if s == "perfectfuture"@ {
        Some(Tense::PerfectFuture)
    } else if s == "subjectivei"@ {
        Some(Tense::SubjectiveI)
    } else if s == "subjectiveii"@ {
        Some(Tense::SubjectiveII)
    } else {
        None
    }
}

impl Tense {
    /// Looks an already-lowercased token up in the name table.
    fn lookup(low: &str) -> (r: Option<Tense>)
        ensures
            r == tense_of_name(low@),
    {
        if str_eq(low, "present") {
            Some(Tense::Present)
        } else if str_eq(low, "perfectpresent") {
            Some(Tense::PerfectPresent)
        } else if str_eq(low, "past") {
            Some(Tense::Past)
        } else if str_eq(low, "perfectpast") {
            Some(Tense::PerfectPast)
        } else if str_eq(low, "future") {
            Some(Tense::Future)
        } else if str_eq(low, "perfectfuture") {
            Some(Tense::PerfectFuture)
        } else if str_eq(low, "subjectivei") {
            Some(Tense::SubjectiveI)
        } else if str_eq(low, "subjectiveii") {
            Some(Tense::SubjectiveII)
        } else {
            None
        }
    }

    /// Total form of [`Tense::from_str`]: `None` where the token, once
    /// lowercased, is not a recognized tense name.
    pub fn try_from_str(t: &str) -> (r: Option<Tense>)
        ensures
            r == tense_of_name(lower_of(t@)),
    {
        let low = lowercase(t);
        if Self::lookup(low.as_str()).is_some() {
            Some(Self::from_str(t))
        } else {
            None
        }
    }

    /// Parses a tense name, case-insensitively. The token must be one of
    /// the recognized names.
    pub fn from_str(t: &str) -> (r: Tense)
        requires
            tense_of_name(lower_of(t@)) is Some,
        ensures
            Some(r) == tense_of_name(lower_of(t@)),
    {
        let low = lowercase(t);
        Self::lookup(low.as_str()).unwrap()
    }

    /// The display form of the tense, as the question header shows it.
    pub fn display_name(&self) -> (r: &'static str)
        ensures
            r@ == self.spec_display_name(),
    {
        match self {
            Tense::Present => "Present",
            Tense::PerfectPresent => "Perfect Present",
            Tense::Past => "Past",
            Tense::PerfectPast => "Perfect Past",
            Tense::Future => "Future",
            Tense::PerfectFuture => "Perfect Future",
            Tense::SubjectiveI => "Subjective I",
            Tense::SubjectiveII => "Subjective II",
        }
    }

    pub open spec fn spec_display_name(self) -> Seq<char> {
        match self {
            Tense::Present => "Present"@,
            Tense::PerfectPresent => "Perfect Present"@,
            Tense::Past => "Past"@,
            Tense::PerfectPast => "Perfect Past"@,
            Tense::Future => "Future"@,
            Tense::PerfectFuture => "Perfect Future"@,
            Tense::SubjectiveI => "Subjective I"@,
            Tense::SubjectiveII => "Subjective II"@,
        }
    }
}

} // verus!

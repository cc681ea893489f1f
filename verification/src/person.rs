//! The six grammatical persons a conjugation can be asked in.

use vstd::prelude::*;

use crate::text::lower_of;
use crate::text::lowercase;
use crate::text::str_eq;

verus! {

#[derive(Debug, Clone, Copy, PartialEq, Eq, Structural)]
pub enum Person {
    I,
    You,
    HeSheIt,
    We,
    YouPl,
    They,
}

/// The person that a lowercased token names, if any. This is the fixed,
/// case-insensitive string table of the dataset format.
pub open spec fn person_of_name(s: Seq<char>) -> Option<Person> {
    if s == "i"@ {
        Some(Person::I)
    } else if s == "you (singular)"@ {
        Some(Person::You)
    } else if s == "he/she/it"@ {
        Some(Person::HeSheIt)
    } else if s == "we"@ {
        Some(Person::We)
    } else if s == "you (plural)"@ {
        Some(Person::YouPl)
    } else if s == "they"@ {
        Some(Person::They)
    } else {
        None
    }
}

impl Person {
    /// Looks an already-lowercased token up in the name table.
    fn lookup(low: &str) -> (r: Option<Person>)
        ensures
            r == person_of_name(low@),
    {
        if str_eq(low, "i") {
            Some(Person::I)
        } else if str_eq(low, "you (singular)") {
            Some(Person::You)
        } else if str_eq(low, "he/she/it") {
            Some(Person::HeSheIt)
        } else if str_eq(low, "we") {
            Some(Person::We)
        } else if str_eq(low, "you (plural)") {
            Some(Person::YouPl)
        } else if str_eq(low, "they") {
            Some(Person::They)
        } else {
            None
        }
    }

    /// Total form of [`Person::from_str`]: `None` where the token, once
    /// lowercased, is not a recognized person name.
    pub fn try_from_str(p: &str) -> (r: Option<Person>)
        ensures
            r == person_of_name(lower_of(p@)),
    {
        let low = lowercase(p);
        if Self::lookup(low.as_str()).is_some() {
            Some(Self::from_str(p))
        } else {
            None
        }
    }

    /// Parses a person name, case-insensitively. The token must be one of
    /// the recognized names.
    pub fn from_str(p: &str) -> (r: Person)
        requires
            person_of_name(lower_of(p@)) is Some,
        ensures
            Some(r) == person_of_name(lower_of(p@)),
    {
        let low = lowercase(p);
        Self::lookup(low.as_str()).unwrap()
    }

    /// The display form of the person, as the question header shows it.
    pub fn display_name(&self) -> (r: &'static str)
        ensures
            r@ == self.spec_display_name(),
    {
        match self {
            Person::I => "I",
            Person::You => "You (singular)",
            Person::HeSheIt => "He/she/it",
            Person::We => "We",
            Person::YouPl => "You (plural)",
            Person::They => "They",
        }
    }

    pub open spec fn spec_display_name(self) -> Seq<char> {
        match self {
            Person::I => "I"@,
            Person::You => "You (singular)"@,
            Person::HeSheIt => "He/she/it"@,
            Person::We => "We"@,
            Person::YouPl => "You (plural)"@,
            Person::They => "They"@,
        }
    }
}

} // verus!

//! The fixed, closed set of verbs the quiz can drill.

use vstd::prelude::*;

use crate::text::lower_of;
use crate::text::lowercase;
use crate::text::str_eq;

verus! {

#[derive(Debug, Clone, Copy, PartialEq, Eq, Structural)]
pub enum Verb {
    Aufwachen,
    Duschen,
    Essen,
    Gehen,
    Haben,
    Machen,
    Helfen,
    Schlafen,
    Skifahren,
    Treffen,
    Trinken,
}

/// The verb that a lowercased identifier names, if any. This is the fixed,
/// case-insensitive string table of supported verbs.
pub open spec fn verb_of_name(s: Seq<char>) -> Option<Verb> {
    if s == "aufwachen"@ {
        Some(Verb::Aufwachen)
    } else if s == "duschen"@ {
        Some(Verb::Duschen)
    } else if s == "essen"@ {
        Some(Verb::Essen)
    } else if s == "gehen"@ {
        Some(Verb::Gehen)
    } else if s == "haben"@ {
        Some(Verb::Haben)
    } else if s == "helfen"@ {
        Some(Verb::Helfen)
    } else if s == "machen"@ {
        Some(Verb::Machen)
    } else if s == "schlafen"@ {
        Some(Verb::Schlafen)
    } else if s == "skifahren"@ {
        Some(Verb::Skifahren)
    } else if s == "treffen"@ {
        Some(Verb::Treffen)
    } else if s == "trinken"@ {
        Some(Verb::Trinken)
    } else {
        None
    }
}

impl Verb {
    /// Looks an already-lowercased identifier up in the name table.
    fn lookup(low: &str) -> (r: Option<Verb>)
        ensures
            r == verb_of_name(low@),
    {
        if str_eq(low, "aufwachen") {
            Some(Verb::Aufwachen)
        } else if str_eq(low, "duschen") {
            Some(Verb::Duschen)
        } else if str_eq(low, "essen") {
            Some(Verb::Essen)
        } else if str_eq(low, "gehen") {
            Some(Verb::Gehen)
        } else if str_eq(low, "haben") {
            Some(Verb::Haben)
        } else if str_eq(low, "helfen") {
            Some(Verb::Helfen)
        } else if str_eq(low, "machen") {
            Some(Verb::Machen)
        } else if str_eq(low, "schlafen") {
            Some(Verb::Schlafen)
        } else if str_eq(low, "skifahren") {
            Some(Verb::Skifahren)
        } else if str_eq(low, "treffen") {
            Some(Verb::Treffen)
        } else if str_eq(low, "trinken") {
            Some(Verb::Trinken)
        } else {
            None
        }
    }

    /// Total form of [`Verb::from_str`]: `None` where the identifier, once
    /// lowercased, is not a supported verb.
    pub fn try_from_str(v: &str) -> (r: Option<Verb>)
        ensures
            r == verb_of_name(lower_of(v@)),
    {
        let low = lowercase(v);
        if Self::lookup(low.as_str()).is_some() {
            Some(Self::from_str(v))
        } else {
            None
        }
    }

    /// Parses a verb identifier, case-insensitively. The identifier must be
    /// one of the supported verbs.
    pub fn from_str(v: &str) -> (r: Verb)
        requires
            verb_of_name(lower_of(v@)) is Some,
        ensures
            Some(r) == verb_of_name(lower_of(v@)),
    {
        let low = lowercase(v);
        Self::lookup(low.as_str()).unwrap()
    }

    /// The display form of the verb, as the question header shows it.
    pub fn display_name(&self) -> (r: &'static str)
        ensures
            r@ == self.spec_display_name(),
    {
        match self {
            Verb::Aufwachen => "Aufwachen",
            Verb::Duschen => "Duschen",
            Verb::Essen => "Essen",
            Verb::Gehen => "Gehen",
            Verb::Haben => "Haben",
            Verb::Helfen => "Helfen",
            Verb::Machen => "Machen",
            Verb::Schlafen => "Schlafen",
            Verb::Skifahren => "Skifahren",
            Verb::Treffen => "Treffen",
            Verb::Trinken => "Trinken",
        }
    }

    pub open spec fn spec_display_name(self) -> Seq<char> {
        match self {
            Verb::Aufwachen => "Aufwachen"@,
            Verb::Duschen => "Duschen"@,
            Verb::Essen => "Essen"@,
            Verb::Gehen => "Gehen"@,
            Verb::Haben => "Haben"@,
            Verb::Machen => "Machen"@,
            Verb::Helfen => "Helfen"@,
            Verb::Schlafen => "Schlafen"@,
            Verb::Skifahren => "Skifahren"@,
            Verb::Treffen => "Treffen"@,
            Verb::Trinken => "Trinken"@,
        }
    }
}

} // verus!

//! The startup configuration surface: the question count and the optional
//! person, verb and tense arguments, with their validation rules.

use vstd::prelude::*;

use crate::person::person_of_name;
use crate::person::Person;
use crate::tense::tense_of_name;
use crate::tense::Tense;
use crate::text::lower_of;
use crate::verb::verb_of_name;
use crate::verb::Verb;

verus! {

/// The arguments the program accepts. The person and tense filters are
/// accepted at the interface but do not yet steer the judging.
#[derive(Debug)]
pub struct Args {
    /// Number of questions in the lesson; must lie in `1 ..= 99`.
    pub number: u8,
    /// The person to focus on.
    pub person: Option<String>,
    /// The verb to focus on; when set, the verb-selection sub-mode is
    /// skipped and this verb's dataset is loaded directly.
    pub verb: Option<String>,
    /// The tense to focus on.
    pub tense: Option<String>,
}

/// A fatal startup configuration error: reported, and the process exits
/// before the loop is entered.
#[derive(Debug, Clone, Copy, PartialEq, Eq, Structural)]
pub enum ConfigError {
    /// The question count lies outside `1 ..= 99`.
    QuestionCountOutOfRange,
    /// The verb argument names no supported verb.
    UnknownVerb,
    /// The person argument names no recognized person.
    UnknownPerson,
    /// The tense argument names no recognized tense.
    UnknownTense,
}

/// What validating the arguments must yield: the first violated constraint,
/// or the pre-chosen verb if one was named.
pub open spec fn spec_validate(
    number: int,
    person: Option<Seq<char>>,
    verb: Option<Seq<char>>,
    tense: Option<Seq<char>>,
) -> Result<Option<Verb>, ConfigError> {
    if !(1 <= number < 100) {
        Err(ConfigError::QuestionCountOutOfRange)
    } else if verb is Some && verb_of_name(lower_of(verb.unwrap())) is None {
        Err(ConfigError::UnknownVerb)
    } else if person is Some && person_of_name(lower_of(person.unwrap())) is None {
        Err(ConfigError::UnknownPerson)
    } else if tense is Some && tense_of_name(lower_of(tense.unwrap())) is None {
        Err(ConfigError::UnknownTense)
    } else if verb is Some {
        Ok(verb_of_name(lower_of(verb.unwrap())))
    } else {
        Ok(None)
    }
}

impl Args {
    /// Checks every startup constraint and hands back the pre-chosen verb,
    /// if one was named. Any violation is fatal to the caller.
    pub fn validate(&self) -> (r: Result<Option<Verb>, ConfigError>)
        ensures
            r == spec_validate(
                self.number as int,
                self.person.deep_view(),
                self.verb.deep_view(),
                self.tense.deep_view(),
            ),
    {
        if self.number < 1 || self.number >= 100 {
            return Err(ConfigError::QuestionCountOutOfRange);
        }
        let chosen = match &self.verb {
            Some(v) => match Verb::try_from_str(v.as_str()) {
                Some(vb) => Some(vb),
                None => {
                    return Err(ConfigError::UnknownVerb);
                },
            },
            None => None,
        };
        match &self.person {
            Some(p) => {
                if Person::try_from_str(p.as_str()).is_none() {
                    return Err(ConfigError::UnknownPerson);
                }
            },
            None => {},
        }
        match &self.tense {
            Some(t) => {
                if Tense::try_from_str(t.as_str()).is_none() {
                    return Err(ConfigError::UnknownTense);
                }
            },
            None => {},
        }
        Ok(chosen)
    }
}

} // verus!

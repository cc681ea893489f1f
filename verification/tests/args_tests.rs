use verbquiz::args::{Args, ConfigError};
use verbquiz::verb::Verb;

fn args(number: u8) -> Args {
    Args { number, person: None, verb: None, tense: None }
}

#[test]
fn default_count_without_filters_is_accepted() {
    assert_eq!(args(10).validate(), Ok(None));
}

#[test]
fn count_bounds_are_one_to_ninety_nine() {
    assert_eq!(args(1).validate(), Ok(None));
    assert_eq!(args(99).validate(), Ok(None));
    assert_eq!(args(0).validate(), Err(ConfigError::QuestionCountOutOfRange));
    assert_eq!(args(100).validate(), Err(ConfigError::QuestionCountOutOfRange));
}

#[test]
fn chosen_verb_is_parsed_case_insensitively() {
    let a = Args { number: 5, person: None, verb: Some("Gehen".to_string()), tense: None };
    assert_eq!(a.validate(), Ok(Some(Verb::Gehen)));
}

#[test]
fn unknown_verb_argument_is_fatal() {
    let a = Args { number: 5, person: None, verb: Some("laufen".to_string()), tense: None };
    assert_eq!(a.validate(), Err(ConfigError::UnknownVerb));
}

#[test]
fn unknown_person_argument_is_fatal() {
    let a = Args { number: 5, person: Some("nobody".to_string()), verb: None, tense: None };
    assert_eq!(a.validate(), Err(ConfigError::UnknownPerson));
}

#[test]
fn unknown_tense_argument_is_fatal() {
    let a = Args { number: 5, person: None, verb: None, tense: Some("sometime".to_string()) };
    assert_eq!(a.validate(), Err(ConfigError::UnknownTense));
}

#[test]
fn recognized_filters_are_accepted() {
    let a = Args {
        number: 5,
        person: Some("We".to_string()),
        verb: Some("haben".to_string()),
        tense: Some("Past".to_string()),
    };
    assert_eq!(a.validate(), Ok(Some(Verb::Haben)));
}

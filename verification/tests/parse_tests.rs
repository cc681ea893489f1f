use verbquiz::person::Person;
use verbquiz::record::{parse_conjugations, records_from_rows, DatasetError};
use verbquiz::tense::Tense;
use verbquiz::verb::Verb;

#[test]
fn parses_a_small_dataset() {
    let data = b"tense,person,english,german\npresent,i,I go,gehe\npast,we,we went,gingen\n";
    let records = parse_conjugations(Verb::Gehen, data).unwrap();
    assert_eq!(records.len(), 2);
    assert_eq!(records[0].tense, Tense::Present);
    assert_eq!(records[0].person, Person::I);
    assert_eq!(records[0].english, "I go");
    assert_eq!(records[0].german, "gehe");
    assert_eq!(records[1].tense, Tense::Past);
    assert_eq!(records[1].person, Person::We);
    assert_eq!(records[1].verb, Verb::Gehen);
}

#[test]
fn unquotes_fields_with_embedded_commas() {
    let data = b"tense,person,english,german\npresent,i,\"I go, now\",gehe\n";
    let records = parse_conjugations(Verb::Gehen, data).unwrap();
    assert_eq!(records[0].english, "I go, now");
}

#[test]
fn tense_and_person_names_are_case_insensitive() {
    let data = b"tense,person,english,german\nPERFECTPRESENT,You (Singular),you have gone,bist gegangen\n";
    let records = parse_conjugations(Verb::Gehen, data).unwrap();
    assert_eq!(records[0].tense, Tense::PerfectPresent);
    assert_eq!(records[0].person, Person::You);
}

#[test]
fn uneven_rows_are_unreadable() {
    let data = b"tense,person,english,german\npresent,i\n";
    let r = parse_conjugations(Verb::Gehen, data);
    assert_eq!(r.unwrap_err(), DatasetError::Unreadable);
}

#[test]
fn short_rows_are_missing_a_field() {
    let data = b"tense,person\npresent,i\n";
    let r = parse_conjugations(Verb::Gehen, data);
    assert_eq!(r.unwrap_err(), DatasetError::MissingField);
}

#[test]
fn unknown_tense_is_fatal() {
    let data = b"tense,person,english,german\nsometime,i,I go,gehe\n";
    let r = parse_conjugations(Verb::Gehen, data);
    assert_eq!(r.unwrap_err(), DatasetError::UnknownTense);
}

#[test]
fn unknown_person_is_fatal() {
    let data = b"tense,person,english,german\npresent,nobody,I go,gehe\n";
    let r = parse_conjugations(Verb::Gehen, data);
    assert_eq!(r.unwrap_err(), DatasetError::UnknownPerson);
}

#[test]
fn empty_dataset_is_fatal() {
    let data = b"tense,person,english,german\n";
    let r = parse_conjugations(Verb::Gehen, data);
    assert_eq!(r.unwrap_err(), DatasetError::Empty);
}

#[test]
fn first_offending_row_decides_the_error() {
    let rows = vec![
        vec!["present".to_string(), "i".to_string(), "a".to_string(), "b".to_string()],
        vec!["sometime".to_string(), "nobody".to_string(), "a".to_string(), "b".to_string()],
    ];
    let r = records_from_rows(Verb::Haben, &rows);
    assert_eq!(r.unwrap_err(), DatasetError::UnknownTense);
}

#[test]
fn rows_parse_in_order() {
    let rows = vec![
        vec!["future".to_string(), "they".to_string(), "they will have".to_string(), "werden haben".to_string()],
        vec!["subjectiveii".to_string(), "he/she/it".to_string(), "it would have".to_string(), "haette".to_string()],
    ];
    let r = records_from_rows(Verb::Haben, &rows).unwrap();
    assert_eq!(r.len(), 2);
    assert_eq!(r[0].tense, Tense::Future);
    assert_eq!(r[0].person, Person::They);
    assert_eq!(r[1].tense, Tense::SubjectiveII);
    assert_eq!(r[1].person, Person::HeSheIt);
    assert_eq!(r[1].german, "haette");
}

#[test]
fn from_str_recognizes_every_name() {
    assert_eq!(Tense::from_str("Present"), Tense::Present);
    assert_eq!(Tense::from_str("perfectpast"), Tense::PerfectPast);
    assert_eq!(Tense::from_str("SUBJECTIVEI"), Tense::SubjectiveI);
    assert_eq!(Person::from_str("You (Plural)"), Person::YouPl);
    assert_eq!(Person::from_str("i"), Person::I);
    assert_eq!(Verb::from_str("Skifahren"), Verb::Skifahren);
    assert_eq!(Verb::from_str("trinken"), Verb::Trinken);
}

#[test]
fn try_from_str_rejects_unknown_names() {
    assert_eq!(Tense::try_from_str("yesterday"), None);
    assert_eq!(Person::try_from_str("you"), None);
    assert_eq!(Verb::try_from_str("laufen"), None);
    assert_eq!(Verb::try_from_str(""), None);
}

#[test]
fn display_names_are_the_fixed_forms() {
    assert_eq!(Tense::PerfectFuture.display_name(), "Perfect Future");
    assert_eq!(Person::HeSheIt.display_name(), "He/she/it");
    assert_eq!(Verb::Aufwachen.display_name(), "Aufwachen");
}

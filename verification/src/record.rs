//! Conjugation records and the dataset parser.
//!
//! A dataset is a header-having tabular text: one record per row, four
//! ordered fields per row (tense name, person name, prompt text, answer
//! text). Tense and person names map case-insensitively to their enums;
//! an unrecognized name is a fatal parse error, never a silent skip.

use vstd::prelude::*;

use crate::person::person_of_name;
use crate::person::Person;
use crate::tense::tense_of_name;
use crate::tense::Tense;
use crate::text::lower_of;
use crate::verb::Verb;

verus! {

/// One immutable fact of the dataset: for this verb, tense and person, the
/// prompt shown to the learner and the canonical answer. The answer text is
/// assumed pre-normalized to lowercase at load time.
#[derive(Debug, Clone)]
pub struct Conjugation {
    pub verb: Verb,
    pub tense: Tense,
    pub person: Person,
    pub english: String,
    pub german: String,
}

/// The mathematical value of a [`Conjugation`]: the same fields, with the
/// texts as character sequences.
pub struct ConjugationView {
    pub verb: Verb,
    pub tense: Tense,
    pub person: Person,
    pub english: Seq<char>,
    pub german: Seq<char>,
}

impl View for Conjugation {
    type V = ConjugationView;

    open spec fn view(&self) -> ConjugationView {
        ConjugationView {
            verb: self.verb,
            tense: self.tense,
            person: self.person,
            english: self.english@,
            german: self.german@,
        }
    }
}

impl DeepView for Conjugation {
    type V = ConjugationView;

    open spec fn deep_view(&self) -> ConjugationView {
        self.view()
    }
}

/// Why a dataset could not be turned into records. Every variant is fatal:
/// the quiz has no degraded mode.
#[derive(Debug, Clone, Copy, PartialEq, Eq, Structural)]
pub enum DatasetError {
    /// The bytes are not well-formed tabular text.
    Unreadable,
    /// A row has fewer than the four required fields.
    MissingField,
    /// The first field of a row is not a recognized tense name.
    UnknownTense,
    /// The second field of a row is not a recognized person name.
    UnknownPerson,
    /// The dataset holds no record, so there is nothing to ask.
    Empty,
}

/// What csv's reader makes of `data`: the fields of each row after the
/// header row, in order, or `None` where the bytes are not well-formed.
/// The result depends on the bytes alone.
pub uninterp spec fn csv_rows_of(data: Seq<u8>) -> Option<Seq<Seq<Seq<char>>>>;

/// Relies on csv::ReaderBuilder and csv::Reader: reads header-having CSV
/// from the given bytes and hands each remaining row out as its fields.
#[verifier::external_body]
fn read_csv_rows(data: &[u8]) -> (r: Option<Vec<Vec<String>>>)
    ensures
        r matches Some(rows) ==> csv_rows_of(data@) == Some(rows.deep_view()),
        r is None ==> csv_rows_of(data@) is None,
{
    let mut reader = csv::ReaderBuilder::new().has_headers(true).from_reader(data);
    let mut rows: Vec<Vec<String>> = Vec::new();
    for record in reader.records() {
        match record {
            Ok(rec) => rows.push(rec.iter().map(|f| f.to_string()).collect()),
            Err(_) => return None,
        }
    }
    Some(rows)
}

/// One row parsed into a record: the row must have at least the four ordered
/// fields tense, person, prompt, answer, with recognized tense and person.
pub open spec fn spec_parse_row(verb: Verb, row: Seq<Seq<char>>) -> Result<
    ConjugationView,
    DatasetError,
> {
    if row.len() < 4 {
        Err(DatasetError::MissingField)
    } else if tense_of_name(lower_of(row[0])) is None {
        Err(DatasetError::UnknownTense)
    } else if person_of_name(lower_of(row[1])) is None {
        Err(DatasetError::UnknownPerson)
    } else {
        Ok(
            ConjugationView {
                verb,
                tense: tense_of_name(lower_of(row[0])).unwrap(),
                person: person_of_name(lower_of(row[1])).unwrap(),
                english: row[2],
                german: row[3],
            },
        )
    }
}

/// All rows parsed in order; the first offending row decides the error.
pub open spec fn spec_parse_rows(verb: Verb, rows: Seq<Seq<Seq<char>>>) -> Result<
    Seq<ConjugationView>,
    DatasetError,
>
    decreases rows.len(),
{
    if rows.len() == 0 {
        Ok(Seq::empty())
    } else {
        match spec_parse_row(verb, rows.first()) {
            Err(e) => Err(e),
            Ok(c) => match spec_parse_rows(verb, rows.drop_first()) {
                Err(e) => Err(e),
                Ok(rest) => Ok(seq![c] + rest),
            },
        }
    }
}

proof fn lemma_parse_rows_first_error(
    verb: Verb,
    rows: Seq<Seq<Seq<char>>>,
    j: int,
    e: DatasetError,
)
    requires
        0 <= j < rows.len(),
        forall|k: int| 0 <= k < j ==> spec_parse_row(verb, #[trigger] rows[k]) is Ok,
        spec_parse_row(verb, rows[j]) == Err::<ConjugationView, DatasetError>(e),
    ensures
        spec_parse_rows(verb, rows) == Err::<Seq<ConjugationView>, DatasetError>(e),
    decreases rows.len(),
{
    if j == 0 {
    } else {
        assert(forall|k: int|
            0 <= k < j - 1 ==> rows.drop_first()[k] == #[trigger] rows[k + 1]);
        lemma_parse_rows_first_error(verb, rows.drop_first(), j - 1, e);
    }
}

proof fn lemma_parse_rows_all_ok(verb: Verb, rows: Seq<Seq<Seq<char>>>, vals: Seq<ConjugationView>)
    requires
        vals.len() == rows.len(),
        forall|k: int|
            0 <= k < rows.len() ==> spec_parse_row(verb, #[trigger] rows[k]) == Ok::<
                ConjugationView,
                DatasetError,
            >(vals[k]),
    ensures
        spec_parse_rows(verb, rows) == Ok::<Seq<ConjugationView>, DatasetError>(vals),
    decreases rows.len(),
{
    if rows.len() == 0 {
        assert(vals =~= Seq::<ConjugationView>::empty());
    } else {
        assert(forall|k: int|
            0 <= k < rows.len() - 1 ==> rows.drop_first()[k] == #[trigger] rows[k + 1]);
        lemma_parse_rows_all_ok(verb, rows.drop_first(), vals.drop_first());
        assert(vals =~= seq![vals.first()] + vals.drop_first());
    }
}

/// Turns raw rows into records, in order; the first offending row decides
/// the error.
pub fn records_from_rows(verb: Verb, rows: &Vec<Vec<String>>) -> (r: Result<
    Vec<Conjugation>,
    DatasetError,
>)
    ensures
        match r {
            Ok(v) => spec_parse_rows(verb, rows.deep_view()) == Ok::<
                Seq<ConjugationView>,
                DatasetError,
            >(v.deep_view()),
            Err(e) => spec_parse_rows(verb, rows.deep_view()) == Err::<
                Seq<ConjugationView>,
                DatasetError,
            >(e),
        },
{
    let mut acc: Vec<Conjugation> = Vec::new();
    let mut i: usize = 0;
    while i < rows.len()
        invariant
            i <= rows.len(),
            acc.deep_view().len() == i as int,
            forall|k: int|
                0 <= k < i as int ==> spec_parse_row(verb, #[trigger] rows.deep_view()[k]) == Ok::<
                    ConjugationView,
                    DatasetError,
                >(acc.deep_view()[k]),
        decreases rows.len() - i,
    {
        let row = &rows[i];
        if row.len() < 4 {
            proof {
                lemma_parse_rows_first_error(
                    verb,
                    rows.deep_view(),
                    i as int,
                    DatasetError::MissingField,
                );
            }
            return Err(DatasetError::MissingField);
        }
        let tense = match Tense::try_from_str(row[0].as_str()) {
            Some(t) => t,
            None => {
                proof {
                    lemma_parse_rows_first_error(
                        verb,
                        rows.deep_view(),
                        i as int,
                        DatasetError::UnknownTense,
                    );
                }
                return Err(DatasetError::UnknownTense);
            },
        };
        let person = match Person::try_from_str(row[1].as_str()) {
            Some(p) => p,
            None => {
                proof {
                    lemma_parse_rows_first_error(
                        verb,
                        rows.deep_view(),
                        i as int,
                        DatasetError::UnknownPerson,
                    );
                }
                return Err(DatasetError::UnknownPerson);
            },
        };
        let english = row[2].clone();
        let german = row[3].clone();
        acc.push(Conjugation { verb, tense, person, english, german });
        i = i + 1;
    }
    proof {
        lemma_parse_rows_all_ok(verb, rows.deep_view(), acc.deep_view());
    }
    Ok(acc)
}

/// Loads a verb's dataset from raw tabular bytes: reads the rows with csv,
/// parses them into records, and refuses an empty dataset.
pub fn parse_conjugations(verb: Verb, data: &[u8]) -> (r: Result<Vec<Conjugation>, DatasetError>)
    ensures
        match csv_rows_of(data@) {
            None => r == Err::<Vec<Conjugation>, DatasetError>(DatasetError::Unreadable),
            Some(rows) => match spec_parse_rows(verb, rows) {
                Err(e) => r == Err::<Vec<Conjugation>, DatasetError>(e),
                Ok(cs) => if cs.len() == 0 {
                    r == Err::<Vec<Conjugation>, DatasetError>(DatasetError::Empty)
                } else {
                    r matches Ok(v) && v.deep_view() == cs
                },
            },
        },
        r matches Ok(v) ==> v.len() > 0,
{
    let rows = match read_csv_rows(data) {
        Some(rows) => rows,
        None => {
            return Err(DatasetError::Unreadable);
        },
    };
    let records = match records_from_rows(verb, &rows) {
        Ok(records) => records,
        Err(e) => {
            return Err(e);
        },
    };
    if records.len() == 0 {
        return Err(DatasetError::Empty);
    }
    Ok(records)
}

} // verus!

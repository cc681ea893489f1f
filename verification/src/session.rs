//! The quiz session state machine.
//!
//! A [`Session`] owns the whole lifecycle of one quiz run: the verb-selection
//! sub-mode, the question/answer loop, and the completed screen. It is
//! mutated only by [`Session::handle_event`] (one input event at a time) and
//! by [`Session::install_dataset`] (when the driver has loaded a verb's
//! records). The transition relation [`step_ok`] states each move exactly;
//! the only freedom it leaves is the freshly rolled record index, which is
//! drawn uniformly from the dataset.

use vstd::prelude::*;

use crate::record::Conjugation;
use crate::record::ConjugationView;
use crate::text::lower_of;
use crate::text::lowercase;
use crate::text::pop_char;
use crate::text::push_char;
use crate::verb::verb_of_name;
use crate::verb::Verb;

verus! {

/// One key-press, already decoded into the quiz's input alphabet. Keys
/// outside this alphabet never reach the state machine.
#[derive(Debug, Clone, Copy)]
pub enum InputEvent {
    /// Confirm: submit an answer, advance past a judged one, confirm a verb
    /// selection, or restart after completion.
    Submit,
    /// Abort the session at any point.
    Abort,
    /// Remove the last typed character.
    Erase,
    /// One printable character of the answer.
    Character(char),
    /// Move the verb-selection highlight up (wraps around).
    NavigatePrevious,
    /// Move the verb-selection highlight down (wraps around).
    NavigateNext,
}

/// Where the active question stands: still being typed, or judged.
#[derive(Debug, Clone, Copy, PartialEq, Eq, Structural)]
pub enum Judgment {
    Unjudged,
    Correct,
    Incorrect,
}

/// Why the session stopped accepting question-answering transitions.
#[derive(Debug, Clone, Copy, PartialEq, Eq, Structural)]
pub enum Terminal {
    /// The learner aborted early.
    Quit,
    /// Every question of the session was asked and advanced past.
    Completed,
}

/// What the driver must do after a transition. Everything the machine can do
/// on its own is already done; only dataset loading is left to the outside.
#[derive(Debug, Clone, Copy)]
pub enum Effect {
    /// Nothing: render the new state and wait for the next event.
    Nothing,
    /// A verb selection was confirmed: load this verb's dataset and hand it
    /// to [`Session::install_dataset`]. Failure to load is fatal.
    LoadDataset(Verb),
    /// The highlighted candidate names no supported verb: fatal.
    UnknownCandidate,
}

/// The mutable state of one quiz run.
pub struct Session {
    /// How many questions were advanced past, `0 ..= total_questions`.
    pub question_index: u8,
    /// Fixed for the session's lifetime; `1 ..= 99`.
    pub total_questions: u8,
    pub correct_count: u8,
    pub incorrect_count: u8,
    /// Index into the loaded dataset; re-rolled for each new question.
    pub current_record_index: usize,
    /// The raw keystrokes of the active question.
    pub response_buffer: String,
    pub answer_feedback: Judgment,
    /// `None` while the session runs.
    pub terminal: Option<Terminal>,
    /// `None` while the verb-selection sub-mode is active.
    pub verb: Option<Verb>,
    /// The loaded records; non-empty whenever `verb` is set.
    pub dataset: Vec<Conjugation>,
    /// The identifiers the verb-selection sub-mode offers.
    pub candidate_verbs: Vec<String>,
    /// The highlighted candidate, cycling modulo the candidate count.
    pub highlighted_index: usize,
}

/// The mathematical value of a [`Session`].
#[verifier::ext_equal]
pub struct SessionView {
    pub question_index: int,
    pub total_questions: int,
    pub correct_count: int,
    pub incorrect_count: int,
    pub current_record_index: int,
    pub response_buffer: Seq<char>,
    pub answer_feedback: Judgment,
    pub terminal: Option<Terminal>,
    pub verb: Option<Verb>,
    pub dataset: Seq<ConjugationView>,
    pub candidate_verbs: Seq<Seq<char>>,
    pub highlighted_index: int,
}

impl View for Session {
    type V = SessionView;

    open spec fn view(&self) -> SessionView {
        SessionView {
            question_index: self.question_index as int,
            total_questions: self.total_questions as int,
            correct_count: self.correct_count as int,
            incorrect_count: self.incorrect_count as int,
            current_record_index: self.current_record_index as int,
            response_buffer: self.response_buffer@,
            answer_feedback: self.answer_feedback,
            terminal: self.terminal,
            verb: self.verb,
            dataset: self.dataset.deep_view(),
            candidate_verbs: self.candidate_verbs.deep_view(),
            highlighted_index: self.highlighted_index as int,
        }
    }
}

impl SessionView {
    /// The verb-selection sub-mode is active.
    pub open spec fn selecting(self) -> bool {
        self.verb is None
    }

    /// A question is on screen and input still drives the quiz.
    pub open spec fn asking(self) -> bool {
        self.verb is Some && self.terminal is None
    }

    /// The well-formedness invariant of a session. It is established by
    /// [`Session::new`] and preserved by every transition.
    pub open spec fn inv(self) -> bool {
        &&& 1 <= self.total_questions < 100
        &&& 0 <= self.question_index <= self.total_questions
        &&& 0 <= self.correct_count
        &&& 0 <= self.incorrect_count
        &&& self.correct_count + self.incorrect_count == self.question_index + (
        if self.answer_feedback is Unjudged {
            0int
        } else {
            1int
        })
        &&& self.verb is Some ==> self.dataset.len() > 0 && 0 <= self.current_record_index
            < self.dataset.len()
        &&& self.verb is None ==> self.question_index == 0 && self.correct_count == 0
            && self.incorrect_count == 0 && self.answer_feedback is Unjudged
            && self.response_buffer.len() == 0 && self.terminal != Some(Terminal::Completed)
        &&& !(self.answer_feedback is Unjudged) ==> self.question_index < self.total_questions
        &&& self.terminal == Some(Terminal::Completed) ==> self.question_index
            == self.total_questions && self.answer_feedback is Unjudged
            && self.response_buffer.len() == 0
        &&& self.terminal is None ==> self.question_index < self.total_questions
        &&& self.candidate_verbs.len() > 0 ==> 0 <= self.highlighted_index
            < self.candidate_verbs.len()
        &&& self.candidate_verbs.len() == 0 ==> self.highlighted_index == 0
    }
}

/// The highlight after one step down the candidate list, wrapping at the
/// end; an empty list leaves it in place.
pub open spec fn next_highlight(pre: SessionView) -> int {
    if pre.candidate_verbs.len() == 0 {
        pre.highlighted_index
    } else if pre.highlighted_index >= pre.candidate_verbs.len() - 1 {
        0
    } else {
        pre.highlighted_index + 1
    }
}

/// The highlight after one step up the candidate list, wrapping at the
/// start; an empty list leaves it in place.
pub open spec fn prev_highlight(pre: SessionView) -> int {
    if pre.candidate_verbs.len() == 0 {
        pre.highlighted_index
    } else if pre.highlighted_index == 0 {
        pre.candidate_verbs.len() - 1
    } else {
        pre.highlighted_index - 1
    }
}

/// A buffer with its last character removed; an empty buffer stays empty.
pub open spec fn erased(buf: Seq<char>) -> Seq<char> {
    if buf.len() == 0 {
        buf
    } else {
        buf.drop_last()
    }
}

/// Judging a submission. An empty buffer is a strict no-op; otherwise the
/// lowercased response must equal the record's answer text exactly (no
/// trimming, no diacritic folding), and the matching counter grows.
pub open spec fn judge_step(pre: SessionView, post: SessionView) -> bool {
    if pre.response_buffer.len() == 0 {
        post == pre
    } else if lower_of(pre.response_buffer) == pre.dataset[pre.current_record_index].german {
        post == (SessionView {
            correct_count: pre.correct_count + 1,
            answer_feedback: Judgment::Correct,
            ..pre
        })
    } else {
        post == (SessionView {
            incorrect_count: pre.incorrect_count + 1,
            answer_feedback: Judgment::Incorrect,
            ..pre
        })
    }
}

/// Advancing past a judged answer: buffer cleared, judgment reset, question
/// index up. The session completes at the last question without rolling a
/// new record; otherwise a fresh record index is rolled.
pub open spec fn advance_step(pre: SessionView, post: SessionView) -> bool {
    if pre.question_index + 1 == pre.total_questions {
        post == (SessionView {
            question_index: pre.question_index + 1,
            response_buffer: Seq::<char>::empty(),
            answer_feedback: Judgment::Unjudged,
            terminal: Some(Terminal::Completed),
            ..pre
        })
    } else {
        &&& 0 <= post.current_record_index < pre.dataset.len()
        &&& post == (SessionView {
            question_index: pre.question_index + 1,
            response_buffer: Seq::<char>::empty(),
            answer_feedback: Judgment::Unjudged,
            current_record_index: post.current_record_index,
            ..pre
        })
    }
}

/// Restart with the same verb after completion: counters and question index
/// reset, terminal cleared, first question rolled anew; the dataset stays.
pub open spec fn restart_step(pre: SessionView, post: SessionView) -> bool {
    &&& 0 <= post.current_record_index < pre.dataset.len()
    &&& post == (SessionView {
        question_index: 0,
        correct_count: 0,
        incorrect_count: 0,
        terminal: None,
        current_record_index: post.current_record_index,
        ..pre
    })
}

/// Back to verb selection after completion: the dataset is discarded and
/// every counter reset; the candidate list and highlight stay.
pub open spec fn reselect_step(pre: SessionView, post: SessionView) -> bool {
    post == (SessionView {
        question_index: 0,
        correct_count: 0,
        incorrect_count: 0,
        terminal: None,
        verb: None,
        dataset: Seq::<ConjugationView>::empty(),
        current_record_index: 0,
        ..pre
    })
}

/// An explicit restart: the session is completed and the learner either
/// replays the same verb or goes back to verb selection.
pub open spec fn is_restart(pre: SessionView, e: InputEvent) -> bool {
    pre.terminal == Some(Terminal::Completed) && !(e is Abort)
}

/// The transition relation of the state machine: `post` is a state the
/// machine may reach from `pre` on the event `e`.
pub open spec fn step_ok(pre: SessionView, e: InputEvent, post: SessionView) -> bool {
    if pre.terminal == Some(Terminal::Quit) {
        post == pre
    } else if pre.terminal == Some(Terminal::Completed) {
        match e {
            InputEvent::Submit => restart_step(pre, post),
            InputEvent::Abort => post == (SessionView { terminal: Some(Terminal::Quit), ..pre }),
            _ => reselect_step(pre, post),
        }
    } else if pre.selecting() {
        match e {
            InputEvent::Abort => post == (SessionView { terminal: Some(Terminal::Quit), ..pre }),
            InputEvent::NavigateNext => post == (
            SessionView { highlighted_index: next_highlight(pre), ..pre }),
            InputEvent::NavigatePrevious => post == (
            SessionView { highlighted_index: prev_highlight(pre), ..pre }),
            _ => post == pre,
        }
    } else {
        match e {
            InputEvent::Submit => if pre.answer_feedback is Unjudged {
                judge_step(pre, post)
            } else {
                advance_step(pre, post)
            },
            InputEvent::Abort => post == (SessionView { terminal: Some(Terminal::Quit), ..pre }),
            InputEvent::Character(c) => post == (
            SessionView { response_buffer: pre.response_buffer.push(c), ..pre }),
            InputEvent::Erase => post == (
            SessionView { response_buffer: erased(pre.response_buffer), ..pre }),
            _ => post == pre,
        }
    }
}

/// When the driver is asked to act: confirming a selection asks for a
/// dataset load (or reports an unsupported candidate); everything else asks
/// for nothing.
pub open spec fn effect_ok(pre: SessionView, e: InputEvent, eff: Effect) -> bool {
    if pre.terminal is None && pre.selecting() && e is Submit && pre.candidate_verbs.len() > 0 {
        match verb_of_name(lower_of(pre.candidate_verbs[pre.highlighted_index])) {
            Some(v) => eff == Effect::LoadDataset(v),
            None => eff == Effect::UnknownCandidate,
        }
    } else {
        eff == Effect::Nothing
    }
}

/// Installing a dataset: the verb is set, the records are taken as given,
/// and the first question is rolled from them; nothing else moves.
pub open spec fn install_ok(
    pre: SessionView,
    verb: Verb,
    records: Seq<ConjugationView>,
    post: SessionView,
) -> bool {
    &&& 0 <= post.current_record_index < records.len()
    &&& post == (SessionView {
        verb: Some(verb),
        dataset: records,
        current_record_index: post.current_record_index,
        ..pre
    })
}

/// Relies on rand::thread_rng and rand::Rng::gen_range: a uniform draw from
/// the non-empty range `[0, n)`, so the call cannot panic.
#[verifier::external_body]
fn random_below(n: usize) -> (r: usize)
    requires
        n > 0,
    ensures
        r < n,
{
    rand::Rng::gen_range(&mut rand::thread_rng(), 0..n)
}

impl Session {
    /// A fresh session in verb-selection mode: zero counters, empty buffer,
    /// nothing loaded, no terminal state.
    pub fn new(total_questions: u8, candidate_verbs: Vec<String>) -> (s: Session)
        requires
            1 <= total_questions < 100,
        ensures
            s@.inv(),
            s@ == (SessionView {
                question_index: 0,
                total_questions: total_questions as int,
                correct_count: 0,
                incorrect_count: 0,
                current_record_index: 0,
                response_buffer: Seq::<char>::empty(),
                answer_feedback: Judgment::Unjudged,
                terminal: None,
                verb: None,
                dataset: Seq::<ConjugationView>::empty(),
                candidate_verbs: candidate_verbs.deep_view(),
                highlighted_index: 0,
            }),
    {
        let s = Session {
            question_index: 0,
            total_questions: total_questions,
            correct_count: 0,
            incorrect_count: 0,
            current_record_index: 0,
            response_buffer: String::new(),
            answer_feedback: Judgment::Unjudged,
            terminal: None,
            verb: None,
            dataset: Vec::new(),
            candidate_verbs: candidate_verbs,
            highlighted_index: 0,
        };
        proof {
            assert(s@.dataset =~= Seq::<ConjugationView>::empty());
            assert(s@ =~= (SessionView {
                question_index: 0,
                total_questions: total_questions as int,
                correct_count: 0,
                incorrect_count: 0,
                current_record_index: 0,
                response_buffer: Seq::<char>::empty(),
                answer_feedback: Judgment::Unjudged,
                terminal: None,
                verb: None,
                dataset: Seq::<ConjugationView>::empty(),
                candidate_verbs: s.candidate_verbs.deep_view(),
                highlighted_index: 0,
            }));
        }
        s
    }

    /// Installs a freshly loaded, non-empty dataset for `verb` and rolls the
    /// first question. Loading and emptiness are the driver's to check; an
    /// empty or unreadable dataset is fatal upstream, since the quiz has
    /// nothing to ask.
    pub fn install_dataset(&mut self, verb: Verb, dataset: Vec<Conjugation>)
        requires
            old(self)@.inv(),
            old(self)@.selecting(),
            old(self)@.terminal is None,
            dataset@.len() > 0,
        ensures
            final(self)@.inv(),
            install_ok(old(self)@, verb, dataset.deep_view(), final(self)@),
    {
        let n = dataset.len();
        self.verb = Some(verb);
        self.dataset = dataset;
        self.current_record_index = random_below(n);
    }

    /// Moves the verb-selection highlight one step down, wrapping at the
    /// end; with no candidates this is a no-op.
    pub fn next_table_item(&mut self)
        requires
            old(self)@.inv(),
        ensures
            final(self)@.inv(),
            final(self)@ == (SessionView { highlighted_index: next_highlight(old(self)@), ..old(
                self,
            )@ }),
    {
        if self.candidate_verbs.len() == 0 {
            return ;
        }
        let i = if self.highlighted_index >= self.candidate_verbs.len() - 1 {
            0
        } else {
            self.highlighted_index + 1
        };
        self.highlighted_index = i;
    }

    /// Moves the verb-selection highlight one step up, wrapping at the
    /// start; with no candidates this is a no-op.
    pub fn previous_table_item(&mut self)
        requires
            old(self)@.inv(),
        ensures
            final(self)@.inv(),
            final(self)@ == (SessionView { highlighted_index: prev_highlight(old(self)@), ..old(
                self,
            )@ }),
    {
        if self.candidate_verbs.len() == 0 {
            return ;
        }
        let i = if self.highlighted_index == 0 {
            self.candidate_verbs.len() - 1
        } else {
            self.highlighted_index - 1
        };
        self.highlighted_index = i;
    }

    /// Judges the current response: a no-op on an empty buffer, else the
    /// lowercased response is compared with the record's answer text and the
    /// matching counter grows.
    fn check_answer(&mut self)
        requires
            old(self)@.inv(),
            old(self)@.asking(),
            old(self)@.answer_feedback is Unjudged,
        ensures
            final(self)@.inv(),
            judge_step(old(self)@, final(self)@),
    {
        if self.response_buffer.as_str().is_empty() {
            return ;
        }
        let low = lowercase(self.response_buffer.as_str());
        let correct = low == self.dataset[self.current_record_index].german;
        if !correct {
            self.incorrect_count = self.incorrect_count + 1;
            self.answer_feedback = Judgment::Incorrect;
        } else {
            self.correct_count = self.correct_count + 1;
            self.answer_feedback = Judgment::Correct;
        }
    }

    /// Advances past a judged answer: clears the buffer, resets the
    /// judgment, steps the question index; completes the session at the
    /// last question, otherwise rolls a fresh record index.
    fn next_question(&mut self)
        requires
            old(self)@.inv(),
            old(self)@.asking(),
            !(old(self)@.answer_feedback is Unjudged),
        ensures
            final(self)@.inv(),
            advance_step(old(self)@, final(self)@),
    {
        self.response_buffer = String::new();
        self.answer_feedback = Judgment::Unjudged;
        self.question_index = self.question_index + 1;
        if self.question_index == self.total_questions {
            self.terminal = Some(Terminal::Completed);
        } else {
            let n = self.dataset.len();
            self.current_record_index = random_below(n);
        }
    }

    /// The transition function: applies exactly one input event and says
    /// what, if anything, the driver must do next. The relation between the
    /// old and the new state is [`step_ok`]; the returned effect is pinned
    /// by [`effect_ok`].
    pub fn handle_event(&mut self, e: InputEvent) -> (eff: Effect)
        requires
            old(self)@.inv(),
        ensures
            final(self)@.inv(),
            step_ok(old(self)@, e, final(self)@),
            effect_ok(old(self)@, e, eff),
    {
        match self.terminal {
            Some(Terminal::Quit) => Effect::Nothing,
            Some(Terminal::Completed) => {
                match e {
                    InputEvent::Submit => {
                        self.question_index = 0;
                        self.correct_count = 0;
                        self.incorrect_count = 0;
                        self.terminal = None;
                        let n = self.dataset.len();
                        self.current_record_index = random_below(n);
                        Effect::Nothing
                    },
                    InputEvent::Abort => {
                        self.terminal = Some(Terminal::Quit);
                        Effect::Nothing
                    },
                    _ => {
                        self.question_index = 0;
                        self.correct_count = 0;
                        self.incorrect_count = 0;
                        self.terminal = None;
                        self.verb = None;
                        self.dataset = Vec::new();
                        self.current_record_index = 0;
                        proof {
                            assert(final(self)@.dataset =~= Seq::<ConjugationView>::empty());
                        }
                        Effect::Nothing
                    },
                }
            },
            None => {
                if self.verb.is_none() {
                    match e {
                        InputEvent::Abort => {
                            self.terminal = Some(Terminal::Quit);
                            Effect::Nothing
                        },
                        InputEvent::NavigateNext => {
                            self.next_table_item();
                            Effect::Nothing
                        },
                        InputEvent::NavigatePrevious => {
                            self.previous_table_item();
                            Effect::Nothing
                        },
                        InputEvent::Submit => {
                            if self.candidate_verbs.len() == 0 {
                                Effect::Nothing
                            } else {
                                match Verb::try_from_str(
                                    self.candidate_verbs[self.highlighted_index].as_str(),
                                ) {
                                    Some(v) => Effect::LoadDataset(v),
                                    None => Effect::UnknownCandidate,
                                }
                            }
                        },
                        _ => Effect::Nothing,
                    }
                } else {
                    match e {
                        InputEvent::Submit => {
                            if matches!(self.answer_feedback, Judgment::Unjudged) {
                                self.check_answer();
                            } else {
                                self.next_question();
                            }
                            Effect::Nothing
                        },
                        InputEvent::Abort => {
                            self.terminal = Some(Terminal::Quit);
                            Effect::Nothing
                        },
                        InputEvent::Erase => {
                            let _ = pop_char(&mut self.response_buffer);
                            Effect::Nothing
                        },
                        InputEvent::Character(c) => {
                            push_char(&mut self.response_buffer, c);
                            Effect::Nothing
                        },
                        _ => Effect::Nothing,
                    }
                }
            },
        }
    }
}

} // verus!

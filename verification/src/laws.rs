//! Laws of the session state machine, stated over the invariant
//! [`SessionView::inv`] and the transition relation [`step_ok`].

use vstd::prelude::*;

use crate::session::is_restart;
use crate::session::step_ok;
use crate::session::InputEvent;
use crate::session::SessionView;
use crate::session::Terminal;

verus! {

/// While no answer is awaiting its advance, the two counters account for
/// exactly the questions advanced past: `correct + incorrect ==
/// question_index`. (While a judged answer is on screen, the sum runs one
/// ahead of the index, which only advancing moves.)
pub proof fn lemma_counts_match_index(s: SessionView)
    requires
        s.inv(),
        s.answer_feedback is Unjudged,
    ensures
        s.correct_count + s.incorrect_count == s.question_index,
{
}

/// Every transition keeps a well-formed session well-formed, so the
/// invariant — and with it the counter accounting — holds at every point of
/// a session that started from [`Session::new`].
pub proof fn lemma_step_preserves_inv(pre: SessionView, e: InputEvent, post: SessionView)
    requires
        pre.inv(),
        step_ok(pre, e, post),
    ensures
        post.inv(),
{
    assert(pre.terminal is None || pre.terminal == Some(Terminal::Quit) || pre.terminal == Some(
        Terminal::Completed,
    )) by {
        match pre.terminal {
            None => {},
            Some(Terminal::Quit) => {},
            Some(Terminal::Completed) => {},
        }
    };
}

/// The question index never goes down, except that an explicit restart after
/// completion puts it back to zero.
pub proof fn lemma_question_index_monotonic(pre: SessionView, e: InputEvent, post: SessionView)
    requires
        pre.inv(),
        step_ok(pre, e, post),
    ensures
        post.question_index >= pre.question_index || (is_restart(pre, e) && post.question_index
            == 0),
{
}

/// Submitting an empty response buffer changes nothing at all: in
/// particular neither counter nor the judgment state moves.
pub proof fn lemma_empty_submission_no_change(pre: SessionView, post: SessionView)
    requires
        pre.inv(),
        pre.asking(),
        pre.answer_feedback is Unjudged,
        pre.response_buffer.len() == 0,
        step_ok(pre, InputEvent::Submit, post),
    ensures
        post == pre,
{
}

/// Advancing past the last question completes the session: the terminal
/// state is set and no further question is rolled, so the record index keeps
/// its last value.
pub proof fn lemma_completion(pre: SessionView, post: SessionView)
    requires
        pre.inv(),
        pre.asking(),
        !(pre.answer_feedback is Unjudged),
        pre.question_index + 1 == pre.total_questions,
        step_ok(pre, InputEvent::Submit, post),
    ensures
        post.terminal == Some(Terminal::Completed),
        post.current_record_index == pre.current_record_index,
        post.question_index == pre.total_questions,
{
}

/// Restarting after completion resets both counters and the question index
/// to zero and clears the terminal state; the dataset stays loaded.
pub proof fn lemma_restart_resets(pre: SessionView, post: SessionView)
    requires
        pre.inv(),
        pre.terminal == Some(Terminal::Completed),
        step_ok(pre, InputEvent::Submit, post),
    ensures
        post.correct_count == 0,
        post.incorrect_count == 0,
        post.question_index == 0,
        post.terminal is None,
        post.verb == pre.verb,
        post.dataset == pre.dataset,
{
}

} // verus!

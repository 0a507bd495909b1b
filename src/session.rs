use vstd::prelude::*;

use crate::about_window::{about_config, next, AboutActionView, AboutEventView, AboutState};

verus! {

/// The event that tells the controller how the host answered a creation request.
pub open spec fn reply_event(reply: Result<(), Seq<char>>) -> AboutEventView {
    match reply {
        Ok(()) => AboutEventView::Created,
        Err(e) => AboutEventView::CreationFailed(e),
    }
}

/// Replays a run of "open-about" events on a host where creation takes effect
/// at once and nobody closes the about window, starting from `state` with the
/// window open or not.
///
/// `replies[i]` is what the host answers should the i-th event ask for a
/// window. The result tells, event by event, whether a creation request was
/// issued.
pub open spec fn creation_requests(
    state: AboutState,
    window_open: bool,
    replies: Seq<Result<(), Seq<char>>>,
) -> Seq<bool>
    decreases replies.len(),
{
    if replies.len() == 0 {
        Seq::empty()
    } else {
        let (s1, action) = next(state, AboutEventView::OpenAbout { about_exists: window_open });
        let rest = replies.drop_first();
        match action {
            AboutActionView::CreateWindow(_) => {
                let (s2, _) = next(s1, reply_event(replies[0]));
                seq![true] + creation_requests(s2, replies[0] is Ok, rest)
            },
            _ => seq![false] + creation_requests(s1, window_open, rest),
        }
    }
}

/// While an about window exists, no number of "open-about" events asks for
/// another one.
pub proof fn lemma_open_window_blocks_creation(
    state: AboutState,
    replies: Seq<Result<(), Seq<char>>>,
)
    ensures
        creation_requests(state, true, replies).len() == replies.len(),
        forall|i: int|
            0 <= i < replies.len() ==> !#[trigger] creation_requests(state, true, replies)[i],
    decreases replies.len(),
{
    if replies.len() > 0 {
        lemma_open_window_blocks_creation(AboutState::Present, replies.drop_first());
        let r = creation_requests(state, true, replies);
        assert forall|i: int| 0 <= i < replies.len() implies !#[trigger] r[i] by {
            if i > 0 {
                assert(r[i] == creation_requests(AboutState::Present, true, replies.drop_first())[i
                    - 1]);
            }
        }
    }
}

/// Starting with no about window, a run of "open-about" events on which every
/// creation succeeds issues exactly one creation request, on the first event.
pub proof fn lemma_first_event_creates_once(
    state: AboutState,
    replies: Seq<Result<(), Seq<char>>>,
)
    requires
        replies.len() > 0,
        forall|i: int| 0 <= i < replies.len() ==> #[trigger] replies[i] is Ok,
    ensures
        creation_requests(state, false, replies).len() == replies.len(),
        creation_requests(state, false, replies)[0],
        forall|i: int|
            0 < i < replies.len() ==> !#[trigger] creation_requests(state, false, replies)[i],
{
    let rest = replies.drop_first();
    assert(replies[0] is Ok);
    lemma_open_window_blocks_creation(AboutState::Present, rest);
    let r = creation_requests(state, false, replies);
    assert(r == seq![true] + creation_requests(AboutState::Present, true, rest));
    assert forall|i: int| 0 < i < replies.len() implies !#[trigger] r[i] by {
        assert(r[i] == creation_requests(AboutState::Present, true, rest)[i - 1]);
    }
}

/// A failed creation leaves the controller without a window, and the next
/// "open-about" event asks for exactly one more, with the same configuration.
pub proof fn lemma_failure_allows_one_retry(
    state: AboutState,
    error: Seq<char>,
    reply: Result<(), Seq<char>>,
)
    ensures
        next(state, AboutEventView::CreationFailed(error)).0 == AboutState::Absent,
        next(
            next(state, AboutEventView::CreationFailed(error)).0,
            AboutEventView::OpenAbout { about_exists: false },
        ).1 == AboutActionView::CreateWindow(about_config()),
        creation_requests(state, false, seq![Err(error), reply]) == seq![true, true],
{
    let replies = seq![Err(error), reply];
    let rest = replies.drop_first();
    assert(rest =~= seq![reply]);
    let rest2 = rest.drop_first();
    assert(rest2 =~= Seq::<Result<(), Seq<char>>>::empty());
    let s2 = next(AboutState::Absent, reply_event(reply)).0;
    assert(creation_requests(s2, reply is Ok, rest2) =~= Seq::<bool>::empty());
    let after = creation_requests(AboutState::Absent, false, rest);
    assert(after =~= seq![true]);
    assert(creation_requests(state, false, replies) =~= seq![true] + after);
}

} // verus!

use vstd::prelude::*;

use crate::text;
use crate::text::{chars_of, trim_bounds};

verus! {

/// Text with nothing but white space in it.
pub open spec fn blank(content: Seq<char>) -> bool {
    text::trim(content).len() == 0
}

/// Whether `content` holds nothing but white space.
pub fn is_blank(content: &str) -> (r: bool)
    ensures
        r == blank(content@),
{
    let v = chars_of(content);
    let (lo, hi) = trim_bounds(&v, 0, v.len());
    assert(v@.subrange(0, v@.len() as int) =~= v@);
    lo == hi
}

/// Pastes `content` into the front application with `paste` (which puts it
/// on the clipboard and sends Cmd+V); blank content is skipped without a
/// paste.
pub fn commit_text<F: FnOnce(&str) -> Result<(), String>>(content: &str, paste: F) -> (r: Result<
    (),
    String,
>)
    requires
        !blank(content@) ==> paste.requires((content,)),
    ensures
        blank(content@) ==> r == Ok::<(), String>(()),
        !blank(content@) ==> paste.ensures((content,), r),
{
    if is_blank(content) {
        return Ok(());
    }
    paste(content)
}

/// What the caller reports while sending Cmd+V to the front application:
/// the process id it found, how bringing that application forward went,
/// that the pause after it is over, or how sending the key sequence or the
/// short fallback sequence went.
pub enum CommitEvent {
    FrontmostFound(Result<i32, String>),
    Activated(Result<(), String>),
    Settled,
    PrimarySent(Result<(), String>),
    LegacySent(Result<(), String>),
}

/// What sending Cmd+V asks the caller to do next.
pub enum CommitAction {
    /// Bring the application with this process id forward.
    Activate(i32),
    /// Pause so that the application can come forward.
    Settle,
    /// Send Cmd down, V down, V up, Cmd up.
    SendPrimary,
    /// Send V down and up with the Command flag.
    SendLegacy,
    /// End with this result.
    Finish(Result<(), String>),
}

/// One step of sending Cmd+V: without a front application it ends with that
/// error; the found application is brought forward; only a successful
/// activation is followed by the pause, and a failed one is ignored; the key
/// sequence is sent; only if it fails is the short sequence sent, whose
/// outcome ends the flow.
pub open spec fn commit_transition(event: CommitEvent) -> CommitAction {
    match event {
        CommitEvent::FrontmostFound(Err(e)) => CommitAction::Finish(Err(e)),
        CommitEvent::FrontmostFound(Ok(pid)) => CommitAction::Activate(pid),
        CommitEvent::Activated(Ok(())) => CommitAction::Settle,
        CommitEvent::Activated(Err(_)) => CommitAction::SendPrimary,
        CommitEvent::Settled => CommitAction::SendPrimary,
        CommitEvent::PrimarySent(Ok(())) => CommitAction::Finish(Ok(())),
        CommitEvent::PrimarySent(Err(_)) => CommitAction::SendLegacy,
        CommitEvent::LegacySent(sent) => CommitAction::Finish(sent),
    }
}

/// Sends Cmd+V to the front application with what the clipboard holds, one
/// step at a time: the caller starts with the front application it found,
/// does what each returned action asks and reports the outcome, until the
/// flow finishes.
pub fn commit_current_clipboard(event: CommitEvent) -> (action: CommitAction)
    ensures
        action == commit_transition(event),
{
    match event {
        CommitEvent::FrontmostFound(found) => match found {
            Err(e) => CommitAction::Finish(Err(e)),
            Ok(pid) => CommitAction::Activate(pid),
        },
        CommitEvent::Activated(activated) => match activated {
            Ok(()) => CommitAction::Settle,
            Err(_) => CommitAction::SendPrimary,
        },
        CommitEvent::Settled => CommitAction::SendPrimary,
        CommitEvent::PrimarySent(sent) => match sent {
            Ok(()) => CommitAction::Finish(Ok(())),
            Err(_) => CommitAction::SendLegacy,
        },
        CommitEvent::LegacySent(sent) => CommitAction::Finish(sent),
    }
}

/// The steps of sending Cmd+V: the application brought forward is the one
/// found; the pause follows a successful activation and nothing else; the
/// short sequence is sent only after the key sequence failed; the flow ends
/// in an error only without a front application or when the short sequence
/// fails too.
pub proof fn lemma_commit_steps(event: CommitEvent)
    ensures
        commit_transition(event) matches CommitAction::Activate(pid) ==> event == CommitEvent::FrontmostFound(Ok(pid)),
        commit_transition(event) is Settle <==> event matches CommitEvent::Activated(Ok(_)),
        commit_transition(event) is SendLegacy <==> event matches CommitEvent::PrimarySent(Err(_)),
        commit_transition(event) matches CommitAction::Finish(Err(_)) ==> (event matches CommitEvent::FrontmostFound(Err(_)) || event matches CommitEvent::LegacySent(Err(_))),
{
}

} // verus!

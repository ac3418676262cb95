//! Opening a page: create a target, then attach to it.
//!
//! The two commands are sent by the caller. [`NewPage`] decides which command
//! comes next and what the whole operation ends with, from the replies that
//! the caller feeds back.

use crate::error::Error;
use crate::session::CdpSession;
use crate::wire::text_view;
use vstd::pervasive::cloned;
use vstd::prelude::*;

verus! {

/// A command of the target domain that opening a page needs.
#[derive(Debug, PartialEq, Eq)]
pub enum TargetRequest {
    /// Create a target that shows `url`.
    CreateTarget { url: String },
    /// Attach to a target. With `flatten` the session's traffic shares the
    /// connection and is told apart by its session id.
    AttachToTarget { target_id: String, flatten: bool },
}

/// A page that was opened: its target, and the session attached to it.
#[derive(Debug, PartialEq, Eq)]
pub struct PageTarget {
    pub target_id: String,
    pub session_id: String,
}

impl PageTarget {
    /// The session in which the page's commands are sent: the connection of
    /// `browser`, scoped to the session that was attached.
    pub fn session<C: Clone>(&self, browser: &CdpSession<C>) -> (scoped: CdpSession<C>)
        ensures
            cloned(browser.handle(), scoped.handle()),
            scoped.target() == Some(self.session_id@),
    {
        browser.with_session_id(Some(self.session_id.clone()))
    }
}

/// How far the opening of a page has come.
#[derive(Debug, PartialEq, Eq)]
pub enum NewPage {
    /// The target is being created.
    Creating,
    /// The target exists and is being attached to.
    Attaching { target_id: String },
}

/// What to do next while opening a page.
#[derive(Debug)]
pub enum NewPageStep {
    /// Send `request` in the browser's own session and come back with the
    /// reply.
    Send { request: TargetRequest, then: NewPage },
    /// The page is open.
    Done(PageTarget),
    /// The operation failed; there is no page.
    Failed(Error),
}

/// The step that follows a reply in a state. A reply is the id that the
/// command returned, or the error that it failed with.
pub open spec fn advanced(state: NewPage, reply: Result<String, Error>) -> NewPageStep {
    match reply {
        Err(e) => NewPageStep::Failed(e),
        Ok(id) => match state {
            NewPage::Creating => NewPageStep::Send {
                request: TargetRequest::AttachToTarget { target_id: id, flatten: true },
                then: NewPage::Attaching { target_id: id },
            },
            NewPage::Attaching { target_id } => NewPageStep::Done(
                PageTarget { target_id, session_id: id },
            ),
        },
    }
}

/// What opening a page ends with, given the replies to its two commands. The
/// second command is sent only if the first succeeded.
pub open spec fn opened(
    created: Result<String, Error>,
    attached: Result<String, Error>,
) -> NewPageStep {
    match advanced(NewPage::Creating, created) {
        NewPageStep::Send { request, then } => advanced(then, attached),
        ended => ended,
    }
}

impl NewPage {
    /// Begins the operation: the first command creates a target with an empty
    /// URL.
    pub fn start() -> (first: (NewPage, TargetRequest))
        ensures
            first.0 == NewPage::Creating,
            first.1 matches TargetRequest::CreateTarget { url } && url@ == Seq::<char>::empty(),
    {
        (NewPage::Creating, TargetRequest::CreateTarget { url: String::new() })
    }

    /// Takes the reply to the command that was sent last and decides how to
    /// go on: attach to the target that was created, flattened; finish with
    /// the page once the session is there; fail as soon as a command fails.
    pub fn advance(self, reply: Result<String, Error>) -> (next: NewPageStep)
        ensures
            next == advanced(self, reply),
    {
        match reply {
            Err(e) => NewPageStep::Failed(e),
            Ok(id) => match self {
                NewPage::Creating => {
                    let target_id = id.clone();
                    NewPageStep::Send {
                        request: TargetRequest::AttachToTarget { target_id, flatten: true },
                        then: NewPage::Attaching { target_id: id },
                    }
                },
                NewPage::Attaching { target_id } => NewPageStep::Done(
                    PageTarget { target_id, session_id: id },
                ),
            },
        }
    }
}

/// Opening a page yields a page only if both commands succeed, and then the
/// page is the created target with the attached session. If attaching fails
/// after the target was created, the operation fails with that error and
/// yields no page.
pub proof fn lemma_page_needs_both_replies(
    created: Result<String, Error>,
    attached: Result<String, Error>,
)
    ensures
        opened(created, attached) is Done <==> created is Ok && attached is Ok,
        created matches Ok(target_id) ==> (attached matches Ok(session_id) ==> opened(
            created,
            attached,
        ) == NewPageStep::Done(PageTarget { target_id, session_id })),
        created matches Err(e) ==> opened(created, attached) == NewPageStep::Failed(e),
        created is Ok ==> (attached matches Err(e) ==> opened(created, attached)
            == NewPageStep::Failed(e)),
{
}

} // verus!

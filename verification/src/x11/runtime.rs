//! The owner of the managed server: at most one server runs at a time, and it is
//! used again for as long as it answers.

use vstd::prelude::*;

use crate::x11::error::{X11ErrorView, X11ForwardingError, X11Result};

verus! {

/// The managed runtime. It holds the running server, if there is one.
pub struct ManagedWindowsX11Runtime<S> {
    server: Option<S>,
}

/// What to do for a caller who needs the server.
#[derive(Clone, Copy, Debug, PartialEq, Eq, Structural)]
pub enum ServerDecision {
    /// Use the server that runs.
    Reuse,
    /// Start a server.
    Start,
}

/// A server is used again if there is one and it answered.
pub open spec fn decision_for<S>(held: Option<S>, reachable: bool) -> ServerDecision {
    if held is Some && reachable {
        ServerDecision::Reuse
    } else {
        ServerDecision::Start
    }
}

/// What is held after the decision: a server that did not answer is let go.
pub open spec fn held_after_decision<S>(held: Option<S>, reachable: bool) -> Option<S> {
    if held is Some && reachable {
        held
    } else {
        None
    }
}

/// What is held after a start.
pub open spec fn held_after_start<S>(
    held: Option<S>,
    outcome: Result<S, X11ErrorView>,
) -> Option<S> {
    match outcome {
        Ok(server) => Some(server),
        Err(_) => held,
    }
}

impl<S> View for ManagedWindowsX11Runtime<S> {
    type V = Option<S>;

    closed spec fn view(&self) -> Option<S> {
        self.server
    }
}

impl<S> ManagedWindowsX11Runtime<S> {
    /// A runtime without a server.
    pub fn new() -> (runtime: Self)
        ensures
            runtime@ is None,
    {
        ManagedWindowsX11Runtime { server: None }
    }

    /// The running server.
    pub fn server(&self) -> (server: Option<&S>)
        ensures
            match server {
                Some(server) => self@ == Some(*server),
                None => self@ is None,
            },
    {
        self.server.as_ref()
    }

    /// Decides whether the running server can be used, given whether it
    /// answered. One that did not answer is dropped before another is started.
    pub fn decide(&mut self, reachable: bool) -> (decision: ServerDecision)
        ensures
            decision == decision_for(old(self)@, reachable),
            final(self)@ == held_after_decision(old(self)@, reachable),
            decision == ServerDecision::Reuse <==> old(self)@ is Some && reachable,
            decision == ServerDecision::Reuse ==> final(self)@ == old(self)@,
            decision == ServerDecision::Start ==> final(self)@ is None,
    {
        if self.server.is_some() && reachable {
            ServerDecision::Reuse
        } else {
            self.server = None;
            ServerDecision::Start
        }
    }

    /// Keeps a server that was started. An error of the start leaves the runtime
    /// as it is.
    pub fn started(&mut self, outcome: X11Result<S>) -> (result: X11Result<()>)
        ensures
            result == (match outcome {
                Ok(_) => Ok::<(), X11ForwardingError>(()),
                Err(error) => Err::<(), X11ForwardingError>(error),
            }),
            final(self)@ == held_after_start(
                old(self)@,
                match outcome {
                    Ok(server) => Ok(server),
                    Err(error) => Err(error@),
                },
            ),
            outcome matches Ok(server) ==> final(self)@ == Some(server),
            outcome is Err ==> final(self)@ == old(self)@,
    {
        match outcome {
            Ok(server) => {
                self.server = Some(server);
                Ok(())
            },
            Err(error) => Err(error),
        }
    }
}

/// What a runtime holds after it was asked for a server, and a start, if there
/// was one, went as `outcome` says.
pub open spec fn server_after<S>(
    before: Option<S>,
    reachable: bool,
    outcome: Result<S, X11ErrorView>,
) -> Option<S> {
    match decision_for(before, reachable) {
        ServerDecision::Reuse => held_after_decision(before, reachable),
        ServerDecision::Start => held_after_start(held_after_decision(before, reachable), outcome),
    }
}

/// While the server answers, asking gives the same server again, whatever a
/// start would have given. A server that does not answer is never handed out
/// again: a failed start leaves nothing.
pub proof fn lemma_server_is_kept_while_it_answers<S>(
    before: Option<S>,
    outcome: Result<S, X11ErrorView>,
)
    ensures
        before is Some ==> server_after(before, true, outcome) == before,
        outcome is Err ==> server_after(before, false, outcome) is None,
        outcome matches Ok(server) ==> server_after(before, false, outcome) == Some(server),
{
}

/// The error for a caller who comes before the owner of the runtime, or after
/// it is gone.
pub open spec fn owner_not_installed() -> X11ErrorView {
    X11ErrorView::ManagedRuntimeUnavailable("the application runtime owner is not installed"@)
}

/// The runtime that the application installed, if its owner still holds it.
pub fn installed_runtime<R>(runtime: Option<R>) -> (result: X11Result<R>)
    ensures
        match runtime {
            Some(runtime) => result == Ok::<R, X11ForwardingError>(runtime),
            None => (result matches Err(error) && error@ == owner_not_installed()),
        },
        runtime is None ==> {
            &&& result matches Err(error)
            &&& error matches X11ForwardingError::ManagedRuntimeUnavailable(text)
            &&& text@ == "the application runtime owner is not installed"@
        },
{
    match runtime {
        Some(runtime) => Ok(runtime),
        None => Err(
            X11ForwardingError::ManagedRuntimeUnavailable(
                "the application runtime owner is not installed".to_owned(),
            ),
        ),
    }
}

} // verus!

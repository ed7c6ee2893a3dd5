//! The per-connection session state machine.
//!
//! A session starts in `AwaitJoin`, where exactly one line decides its fate:
//! a well-formed `JOIN` under a free name registers the user and activates
//! the session; a taken name is rejected with an error line; anything else
//! closes the connection unregistered. An `Active` session turns `MSG` lines
//! into broadcast plans, ignores unrecognized lines, and reaches
//! `Terminated` on `LEAVE` or on disconnect — both run the same cleanup,
//! which removes the registry entry. `Terminated` is absorbing: events
//! arriving after cleanup change nothing, so cleanup happens exactly once.

use vstd::prelude::*;

verus! {

use crate::protocol::is_join_line;
use crate::protocol::is_leave_line;
use crate::protocol::is_msg_line;
use crate::protocol::join_username;
use crate::protocol::msg_body;
use crate::protocol::envelope_spec;
use crate::protocol::taken_error_spec;
use crate::protocol::parse_join;
use crate::protocol::parse_msg;
use crate::protocol::is_leave;
use crate::protocol::taken_error_line;
use crate::registry::Registry;
use crate::registry::has_name;
use crate::registry::registry_unchanged;
use crate::router::Delivery;
use crate::router::plan_broadcast;
use crate::router::targets_of;

/// The three phases of a connection's life. There is no way back: once
/// `Terminated`, a session stays so.
pub enum SessionState {
    AwaitJoin,
    Active { username: String, handle: u64 },
    Terminated,
}

/// What the caller must do after feeding one event to the session.
pub enum Effect {
    /// Nothing: an unrecognized line while active, or an event after
    /// termination.
    Ignored,
    /// Close the connection; the user was never registered.
    Close,
    /// Write this rejection line, then close; the user was never registered.
    Reject(String),
    /// Registration succeeded: start the delivery task that drains the queue
    /// behind this handle.
    Joined(u64),
    /// Enqueue the payload onto every listed delivery handle.
    Deliver(Delivery),
    /// Cleanup is done: the registry entry is gone; stop the delivery task
    /// and close the connection.
    Left,
}

/// The cleanup that one terminal transition performs for an active user:
/// the user's entry leaves the registry, everyone else stays in place, the
/// user's handle is gone for good (the allocator never moves back).
pub open spec fn leave_cleanup(r0: Registry, r1: Registry, username: Seq<char>) -> bool {
    &&& r1.next_handle == r0.next_handle
    &&& !has_name(r1.entries(), username)
    &&& (!has_name(r0.entries(), username) ==> r1.entries() == r0.entries())
    &&& (forall|i: int|
        0 <= i < r0.entries().len() && (#[trigger] r0.entries()[i]).0 == username
            ==> r1.entries() == r0.entries().remove(i) && !crate::registry::has_handle(
            r1.entries(),
            r0.entries()[i].1,
        ))
}

/// The transition relation of one inbound line: how the session and the
/// registry move from their old values to their new ones, and which effect
/// the caller is handed.
pub open spec fn on_line_spec(
    pre: Session,
    r0: Registry,
    line: Seq<char>,
    post: Session,
    r1: Registry,
    e: Effect,
) -> bool {
    match pre.state {
        SessionState::AwaitJoin => {
            if is_join_line(line) {
                let u = join_username(line);
                if r0.join_admitted(u) {
                    &&& (post.state matches SessionState::Active { username, handle }
                        && username@ == u && handle == r0.next_handle)
                    &&& r1.entries() == r0.entries().push((u, r0.next_handle))
                    &&& r1.next_handle == r0.next_handle + 1
                    &&& (e matches Effect::Joined(h) && h == r0.next_handle)
                } else if has_name(r0.entries(), u) {
                    &&& post.state is Terminated
                    &&& registry_unchanged(r0, r1)
                    &&& (e matches Effect::Reject(reply) && reply@ == taken_error_spec())
                } else {
                    &&& post.state is Terminated
                    &&& registry_unchanged(r0, r1)
                    &&& e is Close
                }
            } else {
                &&& post.state is Terminated
                &&& registry_unchanged(r0, r1)
                &&& e is Close
            }
        },
        SessionState::Active { username, handle } => {
            if is_leave_line(line) {
                &&& post.state is Terminated
                &&& leave_cleanup(r0, r1, username@)
                &&& e is Left
            } else if is_msg_line(line) {
                &&& post.state == pre.state
                &&& registry_unchanged(r0, r1)
                &&& (e matches Effect::Deliver(d) && d.targets@ == targets_of(
                    r0.entries(),
                    username@,
                ) && d.payload@ == envelope_spec(username@, msg_body(line)))
            } else {
                &&& post.state == pre.state
                &&& registry_unchanged(r0, r1)
                &&& e is Ignored
            }
        },
        SessionState::Terminated => {
            &&& post.state is Terminated
            &&& registry_unchanged(r0, r1)
            &&& e is Ignored
        },
    }
}

/// The transition relation of end-of-stream or a read error: for an active
/// user it is exactly the `LEAVE` cleanup, only without the explicit request.
pub open spec fn on_disconnect_spec(
    pre: Session,
    r0: Registry,
    post: Session,
    r1: Registry,
    e: Effect,
) -> bool {
    match pre.state {
        SessionState::AwaitJoin => {
            &&& post.state is Terminated
            &&& registry_unchanged(r0, r1)
            &&& e is Close
        },
        SessionState::Active { username, handle } => {
            &&& post.state is Terminated
            &&& leave_cleanup(r0, r1, username@)
            &&& e is Left
        },
        SessionState::Terminated => {
            &&& post.state is Terminated
            &&& registry_unchanged(r0, r1)
            &&& e is Ignored
        },
    }
}

/// The session–registry correspondence: while a session is active, its
/// user is registered under the session's delivery handle.
pub open spec fn session_registered(s: Session, r: Registry) -> bool {
    s.state matches SessionState::Active { username, handle } ==> crate::registry::has_entry(
        r.entries(),
        username@,
        handle,
    )
}

/// Membership tracks activity: every step a session takes preserves the
/// correspondence above. A join establishes the entry as it activates the
/// session, a broadcast or an ignored line touches neither side, and every
/// terminal transition leaves `Active` for good, so an entry exists while —
/// and only as long as — its session is active.
pub proof fn lemma_active_session_stays_registered(
    pre: Session,
    r0: Registry,
    line: Seq<char>,
    post: Session,
    r1: Registry,
    e: Effect,
)
    requires
        session_registered(pre, r0),
        on_line_spec(pre, r0, line, post, r1, e),
    ensures
        session_registered(post, r1),
{
    match pre.state {
        SessionState::AwaitJoin => {
            if is_join_line(line) && r0.join_admitted(join_username(line)) {
                assert(r1.entries()[r0.entries().len() as int] == (
                    join_username(line),
                    r0.next_handle,
                ));
            }
        },
        SessionState::Active { .. } => {},
        SessionState::Terminated => {},
    }
}

/// Leave-removes: after the terminal cleanup has run for `username` — as
/// the contracts of `on_line` and `on_disconnect` state it for every path
/// into `Terminated` from `Active` — the user is no longer registered, and
/// no broadcast planned from the cleaned registry targets the handle that
/// was registered under that name, whoever the sender is.
pub proof fn lemma_terminated_user_unreachable(
    r0: Registry,
    r1: Registry,
    username: Seq<char>,
    i: int,
    sender: Seq<char>,
)
    requires
        leave_cleanup(r0, r1, username),
        0 <= i < r0.entries().len(),
        r0.entries()[i].0 == username,
    ensures
        !has_name(r1.entries(), username),
        !targets_of(r1.entries(), sender).contains(r0.entries()[i].1),
{
    crate::router::lemma_absent_handle_not_targeted(r1.entries(), sender, r0.entries()[i].1);
}

/// One server-side connection: the protocol state machine that drives the
/// registry and the router.
pub struct Session {
    pub state: SessionState,
}

impl Session {
    /// A fresh session, waiting for its `JOIN` line.
    pub fn new() -> (s: Session)
        ensures
            s.state is AwaitJoin,
    {
        Session { state: SessionState::AwaitJoin }
    }

    /// Feeds one inbound line to the session.
    pub fn on_line(&mut self, registry: &mut Registry, line: &str) -> (e: Effect)
        requires
            old(registry).wf(),
        ensures
            final(registry).wf(),
            on_line_spec(*old(self), *old(registry), line@, *final(self), *final(registry), e),
    {
        let mut st = SessionState::Terminated;
        core::mem::swap(&mut st, &mut self.state);
        match st {
            SessionState::AwaitJoin => {
                match parse_join(line) {
                    None => Effect::Close,
                    Some(username) => {
                        let was_taken = registry.contains(username.as_str());
                        match registry.insert_if_absent(username.as_str()) {
                            Some(handle) => {
                                self.state = SessionState::Active { username, handle };
                                Effect::Joined(handle)
                            },
                            None => {
                                if was_taken {
                                    Effect::Reject(taken_error_line())
                                } else {
                                    Effect::Close
                                }
                            },
                        }
                    },
                }
            },
            SessionState::Active { username, handle } => {
                if is_leave(line) {
                    registry.remove(username.as_str());
                    Effect::Left
                } else {
                    match parse_msg(line) {
                        Some(body) => {
                            let d = plan_broadcast(registry, username.as_str(), body.as_str());
                            self.state = SessionState::Active { username, handle };
                            Effect::Deliver(d)
                        },
                        None => {
                            self.state = SessionState::Active { username, handle };
                            Effect::Ignored
                        },
                    }
                }
            },
            SessionState::Terminated => Effect::Ignored,
        }
    }

    /// Reports end-of-stream or a read error on the connection.
    pub fn on_disconnect(&mut self, registry: &mut Registry) -> (e: Effect)
        requires
            old(registry).wf(),
        ensures
            final(registry).wf(),
            on_disconnect_spec(*old(self), *old(registry), *final(self), *final(registry), e),
    {
        let mut st = SessionState::Terminated;
        core::mem::swap(&mut st, &mut self.state);
        match st {
            SessionState::AwaitJoin => Effect::Close,
            SessionState::Active { username, handle: _ } => {
                registry.remove(username.as_str());
                Effect::Left
            },
            SessionState::Terminated => Effect::Ignored,
        }
    }
}

} // verus!

//! The handle through which commands reach the running sidecar.
use tokio::sync::oneshot;
use vstd::prelude::*;
use vstd::string::to_string_from_display_ensures;

use crate::errors::SendCommandError;
use crate::events::SendChatResult;
use crate::pending::{next_request_id, Pending};

verus! {

/// The live sidecar child, if there is one, and the requests that wait for its answers. `C` is
/// the child's handle, through which lines are written to its stdin.
pub struct SidecarCommandSender<C> {
    pub child: Option<C>,
    pub pending: Pending,
}

/// What it comes to that `bytes` were written to the child for a request with the line `line`:
/// the child goes from `child` to `child_after`, the id is spent, and `tx` waits for the answer
/// unless the write failed.
pub open spec fn line_sent<C, E: std::fmt::Display>(
    before: SidecarCommandSender<C>,
    after: SidecarCommandSender<C>,
    tx: oneshot::Sender<SendChatResult>,
    line: Seq<u8>,
    bytes: Seq<u8>,
    child: C,
    child_after: C,
    written: Result<(), E>,
    r: Result<(), SendCommandError>,
) -> bool {
    let id = before.pending.next_id;
    &&& bytes == line
    &&& before.child == Some(child)
    &&& after.child == Some(child_after)
    &&& after.pending.next_id == next_request_id(id)
    &&& match written {
        Ok(_) => {
            &&& r is Ok
            &&& after.pending.map@ == before.pending.map@.insert(id, tx)
        },
        Err(e) => {
            &&& r matches Err(SendCommandError::Io { message })
            &&& to_string_from_display_ensures(&e, message)
            &&& after.pending.map@ == before.pending.map@.remove(id)
        },
    }
}

impl<C> Default for SidecarCommandSender<C> {
    /// No child, and nobody waits.
    fn default() -> (s: Self)
        ensures
            s.child is None,
            s.pending.wf(),
            s.pending.map@ == Map::<u64, oneshot::Sender<SendChatResult>>::empty(),
            s.pending.next_id == 1,
    {
        SidecarCommandSender { child: None, pending: Pending::new() }
    }
}

impl<C> SidecarCommandSender<C> {
    /// Publishes the live child, in place of any earlier one.
    pub fn publish(&mut self, child: C)
        ensures
            final(self).child == Some(child),
            final(self).pending == old(self).pending,
    {
        self.child = Some(child);
    }

    /// Takes the child handle out and drops every pending completer, so that nobody waits for a
    /// response that will never come.
    pub fn clear(&mut self) -> (child: Option<C>)
        ensures
            child == old(self).child,
            final(self).child is None,
            final(self).pending.map@ == Map::<u64, oneshot::Sender<SendChatResult>>::empty(),
            final(self).pending.next_id == old(self).pending.next_id,
            old(self).pending.wf() ==> final(self).pending.wf(),
    {
        self.pending.clear();
        self.child.take()
    }

    /// Routes a `send_chat_result` notification from the sidecar's stdout to the awaiting
    /// command. A no-op if no completer is registered for the id.
    pub fn complete_send_chat(&mut self, result: SendChatResult)
        ensures
            old(self).pending.map@.contains_key(result.request_id) ==> exists|
                sent: Result<(), SendChatResult>,
            | #[trigger]
                call_ensures(
                    oneshot::Sender::<SendChatResult>::send,
                    (old(self).pending.map@[result.request_id], result),
                    sent,
                ),
            final(self).child == old(self).child,
            final(self).pending.map@ == old(self).pending.map@.remove(result.request_id),
            final(self).pending.next_id == old(self).pending.next_id,
            old(self).pending.wf() ==> final(self).pending.wf(),
            !old(self).pending.map@.contains_key(result.request_id) ==> final(self).pending.map@
                == old(self).pending.map@,
    {
        self.pending.complete(result)
    }

    /// Allocates a fresh request id, registers `tx` under it, and writes the line that
    /// `build_line` makes for it to the child's stdin. If the line cannot be built or written,
    /// the registration is taken back, so that whoever waits fails fast.
    ///
    /// Without a child nothing happens but the error. The id is spent even where the request
    /// fails.
    pub fn send_with_pending<F, W, E>(
        &mut self,
        tx: oneshot::Sender<SendChatResult>,
        build_line: F,
        write: W,
    ) -> (r: Result<(), SendCommandError>) where
        F: FnOnce(u64) -> Result<Vec<u8>, serde_json::Error>,
        W: FnOnce(&mut C, &[u8]) -> Result<(), E>,
        E: std::fmt::Display,

        requires
            forall|id: u64| call_requires(build_line, (id,)),
            forall|child: &mut C, line: &[u8]| call_requires(write, (child, line)),
        ensures
            old(self).child is None ==> r == Err::<(), SendCommandError>(
                SendCommandError::SidecarNotRunning,
            ) && *final(self) == *old(self),
            old(self).child is Some ==> {
                let id = old(self).pending.next_id;
                exists|built: Result<Vec<u8>, serde_json::Error>| #[trigger]
                    call_ensures(build_line, (id,), built) && match built {
                        Err(e) => {
                            &&& final(self).child == old(self).child
                            &&& final(self).pending.next_id == next_request_id(id)
                            &&& final(self).pending.map@ == old(self).pending.map@.remove(id)
                            &&& r matches Err(SendCommandError::Json { message })
                            &&& to_string_from_display_ensures(&e, message)
                        },
                        Ok(line) => exists|child: &mut C, bytes: &[u8], written: Result<(), E>|
                         #[trigger]
                            call_ensures(write, (child, bytes), written) && line_sent(
                                *old(self),
                                *final(self),
                                tx,
                                line@,
                                bytes@,
                                *child,
                                *final(child),
                                written,
                                r,
                            ),
                    }
            },
            old(self).pending.wf() ==> final(self).pending.wf(),
    {
        match &mut self.child {
            None => Err(SendCommandError::SidecarNotRunning),
            Some(child) => {
                let id = self.pending.allocate(tx);
                proof {
                    assert(old(self).pending.map@.insert(id, tx).remove(id)
                        =~= old(self).pending.map@.remove(id));
                }
                let line = match build_line(id) {
                    Ok(line) => line,
                    Err(e) => {
                        self.pending.cancel(id);
                        return Err(SendCommandError::Json { message: e.to_string() });
                    },
                };
                match write(child, line.as_slice()) {
                    Ok(()) => Ok(()),
                    Err(e) => {
                        self.pending.cancel(id);
                        Err(SendCommandError::Io { message: e.to_string() })
                    },
                }
            },
        }
    }

    /// Writes a line that is already encoded to the child's stdin. `false` if there is no child,
    /// or if it could not be written.
    pub fn write_raw<W, E>(&mut self, line: &[u8], write: W) -> (ok: bool) where
        W: FnOnce(&mut C, &[u8]) -> Result<(), E>,

        requires
            forall|child: &mut C, bytes: &[u8]| call_requires(write, (child, bytes)),
        ensures
            final(self).pending == old(self).pending,
            old(self).child is None ==> !ok && final(self).child is None,
            old(self).child is Some ==> final(self).child is Some && exists|
                child: &mut C,
                bytes: &[u8],
                written: Result<(), E>,
            | #[trigger]
                call_ensures(write, (child, bytes), written) && {
                    &&& *child == old(self).child->0
                    &&& *final(child) == final(self).child->0
                    &&& bytes@ == line@
                    &&& ok == written is Ok
                },
    {
        match &mut self.child {
            Some(child) => write(child, line).is_ok(),
            None => false,
        }
    }
}

/// A request waits for its answer exactly where its line was written: under its own id, with its
/// own completer, and with every other request left as it was. A failed write leaves nobody under
/// the id, and is told in the words of the failure. What is written is the line, to the child that
/// was there.
pub proof fn law_written_requests_wait<C, E: std::fmt::Display>(
    before: SidecarCommandSender<C>,
    after: SidecarCommandSender<C>,
    tx: oneshot::Sender<SendChatResult>,
    line: Seq<u8>,
    bytes: Seq<u8>,
    child: C,
    child_after: C,
    written: Result<(), E>,
    r: Result<(), SendCommandError>,
    other: u64,
)
    requires
        line_sent(before, after, tx, line, bytes, child, child_after, written, r),
        other != before.pending.next_id,
    ensures
        bytes == line,
        before.child == Some(child),
        after.child == Some(child_after),
        r is Ok <==> written is Ok,
        written is Ok <==> after.pending.map@.contains_key(before.pending.next_id),
        written is Ok ==> after.pending.map@[before.pending.next_id] == tx,
        written matches Err(e) ==> (r matches Err(SendCommandError::Io { message })
            && to_string_from_display_ensures(&e, message)),
        after.pending.map@.contains_key(other) <==> before.pending.map@.contains_key(other),
        before.pending.map@.contains_key(other) ==> after.pending.map@[other]
            == before.pending.map@[other],
        before.pending.next_id < u64::MAX ==> after.pending.next_id == before.pending.next_id + 1,
{
}

} // verus!

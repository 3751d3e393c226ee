//! The ticket store service: a single server loop owns the store and
//! serializes all access by consuming commands from a bounded channel;
//! cloneable client handles submit commands and block for the reply that
//! travels back on a one-shot channel carried inside each command.
//!
//! The blocking receive loop lives in the application shell; every step
//! it takes goes through `handle_command`, which is verified for any
//! command that may arrive.

use vstd::prelude::*;
use std::sync::mpsc::Sender;
use std::sync::mpsc::SyncSender;
use crate::store::record_for;
use crate::store::StoredTicket;
use crate::store::TicketDraft;
use crate::store::TicketId;
use crate::store::TicketStore;

verus! {

/// A request to the server.  Each variant owns the one-shot reply channel
/// on which the server sends this request's single response.
pub enum Command {
    Insert { draft: TicketDraft, response_channel: Sender<TicketId> },
    Get { id: TicketId, response_channel: Sender<Option<StoredTicket>> },
}

/// Why a client call failed.
#[derive(Clone, Copy, Debug, PartialEq, Eq, Structural)]
pub enum QueueError {
    /// The command queue is closed: the server has shut down.
    Closed,
    /// The server dropped the reply channel without answering.
    NoReply,
}

/// One server step: dispatch a command against the store and send the
/// single reply on the command's own channel.  A reply that cannot be
/// delivered is silently dropped: the requester has gone away, and that
/// must not bring the server down.
pub fn handle_command(store: &mut TicketStore, command: Command)
    ensures
        command matches Command::Insert { draft, .. } ==> final(store)@ == old(store)@.push(
            record_for(old(store)@, draft@),
        ),
        command matches Command::Get { .. } ==> final(store)@ == old(store)@,
{
    match command {
        Command::Insert { draft, response_channel } => {
            let id = store.add_ticket(draft);
            let _ = response_channel.send(id);
        },
        Command::Get { id, response_channel } => {
            let reply = match store.get(id) {
                Some(ticket) => Some(ticket.clone()),
                None => None,
            };
            let _ = response_channel.send(reply);
        },
    }
}

/// Cloneable front-end to the service.  Clones share the outbound queue
/// endpoint and may be used concurrently from any number of threads.
pub struct TicketStoreClient {
    sender: SyncSender<Command>,
}

impl Clone for TicketStoreClient {
    fn clone(&self) -> (r: Self) {
        TicketStoreClient { sender: self.sender.clone() }
    }
}

impl TicketStoreClient {
    /// Builds a handle over the sending half of the server's command
    /// queue.  Whoever launches the service creates the bounded channel,
    /// hands the receiving half to the server loop, and wraps the sending
    /// half here.
    pub fn new(sender: SyncSender<Command>) -> (r: TicketStoreClient) {
        TicketStoreClient { sender }
    }

    /// Submits an insert command and blocks for the assigned identifier.
    /// Which identifier arrives is the server's choice and cannot be
    /// stated here; the store laws say it is fresh and that looking it up
    /// returns the draft's content.  Fails instead of panicking when the
    /// queue is closed or the reply never comes.
    pub fn insert(&self, draft: TicketDraft) -> (r: Result<TicketId, QueueError>) {
        let (response_sender, response_receiver) = std::sync::mpsc::channel();
        let command = Command::Insert { draft, response_channel: response_sender };
        match self.sender.send(command) {
            Ok(_) => {},
            Err(_) => {
                return Err(QueueError::Closed);
            },
        }
        match response_receiver.recv() {
            Ok(id) => Ok(id),
            Err(_) => Err(QueueError::NoReply),
        }
    }

    /// Submits a get command and blocks for the reply: the stored ticket
    /// under that identifier, or nothing if the identifier is unknown.
    /// Fails instead of panicking when the queue is closed or the reply
    /// never comes.
    pub fn get(&self, id: TicketId) -> (r: Result<Option<StoredTicket>, QueueError>) {
        let (response_sender, response_receiver) = std::sync::mpsc::channel();
        let command = Command::Get { id, response_channel: response_sender };
        match self.sender.send(command) {
            Ok(_) => {},
            Err(_) => {
                return Err(QueueError::Closed);
            },
        }
        match response_receiver.recv() {
            Ok(reply) => Ok(reply),
            Err(_) => Err(QueueError::NoReply),
        }
    }
}

} // verus!

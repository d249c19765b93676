//! Messages between processes, over queues that a shared object keeps.
//!
//! The queues are the shared object's. What is here says what is asked of them, and what
//! their answers mean.

use vstd::prelude::*;

verus! {

/// A message.
#[derive(Clone, Copy, Debug, Eq, PartialEq)]
pub struct IPCItem {
    pub sender: u64,
    pub msg_type: u64,
    pub rep_type: u64,
    pub data: [u64; 8],
}

/// What can go wrong.
#[derive(Clone, Copy, Debug, Eq, PartialEq, Structural)]
pub enum IpcError {
    /// There is no place for another entity.
    RegisterFailed,
    /// The receiver's queue is full.
    QueueFull,
}

impl IpcError {
    /// The error in words.
    pub fn message(&self) -> (text: &'static str)
        ensures
            text@ == (match self {
                IpcError::RegisterFailed => "register failed"@,
                IpcError::QueueFull => "queue full"@,
            }),
    {
        match self {
            IpcError::RegisterFailed => "register failed",
            IpcError::QueueFull => "queue full",
        }
    }
}

/// What is asked of the queues.
#[derive(Clone, Copy, Debug, Eq, PartialEq)]
pub enum VqueueCall {
    SetPid { process_id: usize, pid: usize },
    GetPid { process_id: usize },
    /// Add a message to a queue.
    DequePush { process_id: usize, item: IPCItem },
    /// Take the next message out of a queue.
    DequePop { process_id: usize },
    MapAddEntry { process_id: usize, msg_type: usize, ntf_id: usize },
    MapGetNtfId { process_id: usize, msg_type: usize },
    MapPopNtfId { process_id: usize, msg_type: usize },
    /// Count one more user of an entity's place.
    RetainSlot { process_id: usize },
    /// Count one less.
    ReleaseSlot { process_id: usize },
}

/// One who sends and receives messages. It counts as one user of its place in the queues.
#[derive(Debug, Eq, PartialEq, Structural)]
pub struct IpcEntity {
    pub process_id: usize,
}

impl IpcEntity {
    /// Makes a new entity. `slot` is the place that the queues gave it, if they had one.
    pub fn register(slot: Option<usize>) -> (entity: Result<Self, IpcError>)
        ensures
            entity == (match slot {
                Some(process_id) => Ok::<IpcEntity, IpcError>(IpcEntity { process_id }),
                None => Err(IpcError::RegisterFailed),
            }),
    {
        match slot {
            Some(process_id) => Ok(IpcEntity { process_id }),
            None => Err(IpcError::RegisterFailed),
        }
    }

    /// Makes another entity of a place that an entity has: it counts as one more user.
    pub fn from_id(id: u64) -> (entity: (Self, VqueueCall))
        requires
            id <= usize::MAX,
        ensures
            entity.0.process_id == id,
            entity.1 == (VqueueCall::RetainSlot { process_id: id as usize }),
    {
        (
            IpcEntity { process_id: id as usize },
            VqueueCall::RetainSlot { process_id: id as usize },
        )
    }

    /// The entity's number, by which other processes know it.
    pub fn id(&self) -> (id: u64)
        ensures
            id == self.process_id,
    {
        self.process_id as u64
    }

    /// Sets the scheduler's process ID that is notified.
    pub fn set_pid(&self, pid: usize) -> (call: VqueueCall)
        ensures
            call == (VqueueCall::SetPid { process_id: self.process_id, pid }),
    {
        VqueueCall::SetPid { process_id: self.process_id, pid }
    }

    /// Asks for the scheduler's process ID.
    pub fn get_pid(&self) -> (call: VqueueCall)
        ensures
            call == (VqueueCall::GetPid { process_id: self.process_id }),
    {
        VqueueCall::GetPid { process_id: self.process_id }
    }

    /// Sends a message to another entity.
    pub fn send_to(&self, dst_id: u64, msg_type: u64, data: [u64; 8]) -> (call: VqueueCall)
        requires
            dst_id <= usize::MAX,
        ensures
            call == push_call(*self, dst_id as usize, msg_type, data),
    {
        let item: IPCItem = IPCItem {
            sender: self.process_id as u64,
            msg_type,
            rep_type: 0,
            data,
        };
        VqueueCall::DequePush { process_id: dst_id as usize, item }
    }

    /// What became of a message: `pushed` says whether the queue took it.
    pub fn sent(pushed: bool) -> (r: Result<(), IpcError>)
        ensures
            r == (if pushed {
                Ok::<(), IpcError>(())
            } else {
                Err(IpcError::QueueFull)
            }),
    {
        if pushed {
            Ok(())
        } else {
            Err(IpcError::QueueFull)
        }
    }

    /// Asks for the next message of the entity's own queue. It does not wait for one.
    pub fn try_recv(&self) -> (call: VqueueCall)
        ensures
            call == pop_call(*self),
    {
        VqueueCall::DequePop { process_id: self.process_id }
    }

    /// Says by which notification a type of message is announced.
    pub fn map_add(&self, msg_type: usize, ntf_id: usize) -> (call: VqueueCall)
        ensures
            call == (VqueueCall::MapAddEntry { process_id: self.process_id, msg_type, ntf_id }),
    {
        VqueueCall::MapAddEntry { process_id: self.process_id, msg_type, ntf_id }
    }

    /// Asks by which notification a type of message is announced.
    pub fn map_get(&self, msg_type: usize) -> (call: VqueueCall)
        ensures
            call == (VqueueCall::MapGetNtfId { process_id: self.process_id, msg_type }),
    {
        VqueueCall::MapGetNtfId { process_id: self.process_id, msg_type }
    }

    /// Takes back by which notification a type of message is announced.
    pub fn map_pop(&self, msg_type: usize) -> (call: VqueueCall)
        ensures
            call == (VqueueCall::MapPopNtfId { process_id: self.process_id, msg_type }),
    {
        VqueueCall::MapPopNtfId { process_id: self.process_id, msg_type }
    }

    /// Gives the entity up: its place has one user less.
    pub fn release(self) -> (call: VqueueCall)
        ensures
            call == (VqueueCall::ReleaseSlot { process_id: self.process_id }),
    {
        VqueueCall::ReleaseSlot { process_id: self.process_id }
    }
}

/// What is asked of the queues to send a message.
pub open spec fn push_call(
    sender: IpcEntity,
    dst: usize,
    msg_type: u64,
    data: [u64; 8],
) -> VqueueCall {
    VqueueCall::DequePush {
        process_id: dst,
        item: IPCItem { sender: sender.process_id as u64, msg_type, rep_type: 0, data },
    }
}

/// What is asked of the queues to receive a message.
pub open spec fn pop_call(receiver: IpcEntity) -> VqueueCall {
    VqueueCall::DequePop { process_id: receiver.process_id }
}

/// A message that one entity sends to another is put into the queue that the other reads,
/// and carries the number under which an answer finds the sender.
pub proof fn law_messages_and_answers_find_their_queues(
    sender: IpcEntity,
    receiver: IpcEntity,
    msg_type: u64,
    data: [u64; 8],
    answer_type: u64,
    answer: [u64; 8],
)
    ensures
        ({
            let sent = push_call(sender, receiver.process_id, msg_type, data);
            let answered = push_call(
                receiver,
                sent->item.sender as usize,
                answer_type,
                answer,
            );
            &&& sent->DequePush_process_id == pop_call(receiver)->DequePop_process_id
            &&& answered->DequePush_process_id == pop_call(sender)->DequePop_process_id
        }),
{
}

} // verus!

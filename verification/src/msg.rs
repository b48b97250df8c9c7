//! The requests that the contract takes.

use vstd::prelude::*;

verus! {

/// The request that sets the contract up. It carries nothing.
#[derive(Clone, Copy, Debug, PartialEq)]
pub struct InitMsg {}

/// The terms of a swap to be created.
#[derive(Debug, PartialEq)]
pub struct CreateMsg {
    /// The handle of the swap, 3 to 20 bytes long.
    pub id: String,
    /// The hash lock: 32 bytes in hexadecimal.
    pub hash: String,
    /// Who gets the funds when the lock is opened in time.
    pub recipient: String,
    /// The block height at which the swap expires; 0 for none.
    pub end_height: u64,
    /// The block time, in seconds, at which the swap expires; 0 for none.
    pub end_time: u64,
}

/// A `CreateMsg` as a mathematical value.
pub struct CreateMsgView {
    pub id: Seq<char>,
    pub hash: Seq<char>,
    pub recipient: Seq<char>,
    pub end_height: u64,
    pub end_time: u64,
}

impl View for CreateMsg {
    type V = CreateMsgView;

    open spec fn view(&self) -> CreateMsgView {
        CreateMsgView {
            id: self.id@,
            hash: self.hash@,
            recipient: self.recipient@,
            end_height: self.end_height,
            end_time: self.end_time,
        }
    }
}

impl Clone for CreateMsg {
    fn clone(&self) -> (copy: Self)
        ensures
            copy@ == self@,
    {
        CreateMsg {
            id: self.id.clone(),
            hash: self.hash.clone(),
            recipient: self.recipient.clone(),
            end_height: self.end_height,
            end_time: self.end_time,
        }
    }
}

/// A request on a swap.
#[derive(Debug, PartialEq)]
pub enum HandleMsg {
    /// Escrow the attached funds under the given terms.
    Create(CreateMsg),
    /// Send the funds of a swap to its recipient, on the preimage of its hash lock.
    Release { id: String, preimage: String },
    /// Send funds back to the source of an expired swap.
    Refund { id: String },
}

/// A `HandleMsg` as a mathematical value.
pub enum HandleMsgView {
    Create(CreateMsgView),
    Release { id: Seq<char>, preimage: Seq<char> },
    Refund { id: Seq<char> },
}

impl View for HandleMsg {
    type V = HandleMsgView;

    open spec fn view(&self) -> HandleMsgView {
        match *self {
            HandleMsg::Create(msg) => HandleMsgView::Create(msg@),
            HandleMsg::Release { id, preimage } => HandleMsgView::Release {
                id: id@,
                preimage: preimage@,
            },
            HandleMsg::Refund { id } => HandleMsgView::Refund { id: id@ },
        }
    }
}

impl Clone for HandleMsg {
    fn clone(&self) -> (copy: Self)
        ensures
            copy@ == self@,
    {
        match self {
            HandleMsg::Create(msg) => HandleMsg::Create(msg.clone()),
            HandleMsg::Release { id, preimage } => HandleMsg::Release {
                id: id.clone(),
                preimage: preimage.clone(),
            },
            HandleMsg::Refund { id } => HandleMsg::Refund { id: id.clone() },
        }
    }
}

} // verus!

//! Errors surfaced by the chat client and the session store.
use vstd::prelude::*;

verus! {

/// What went wrong during one chat interaction.
#[derive(Debug, Clone)]
pub enum ChatError {
    /// The request was refused before sending: a conversation needs at least
    /// one message.
    InvalidRequest { reason: String },
    /// The request never got a response: DNS, connect or timeout failure.
    Transport { cause: String },
    /// The backend kept answering with a non-2xx status.
    Remote { status: u16, body: String },
    /// A frame of the event stream could not be understood.
    Decode { data: String },
    /// The caller's progress hook failed.
    Callback { cause: String },
    /// A filesystem operation of the session store failed.
    Storage { cause: String },
}

} // verus!

use vstd::prelude::*;

verus! {

/// The sender's configuration.
#[derive(Clone, Copy, Debug, PartialEq, Eq, Structural)]
pub struct SenderConfig {
    receiver_commit: bool,
}

impl SenderConfig {
    /// A configuration; with `receiver_commit` the sender records a tape of
    /// the receiver's blinded choices.
    pub fn new(receiver_commit: bool) -> (r: SenderConfig)
        ensures
            r.commit() == receiver_commit,
    {
        SenderConfig { receiver_commit }
    }

    pub closed spec fn commit(&self) -> bool {
        self.receiver_commit
    }

    /// Whether the receiver commits to its choices.
    pub fn receiver_commit(&self) -> (r: bool)
        ensures
            r == self.commit(),
    {
        self.receiver_commit
    }
}

impl Default for SenderConfig {
    fn default() -> (r: SenderConfig)
        ensures
            !r.commit(),
    {
        SenderConfig { receiver_commit: false }
    }
}

/// The receiver's configuration.
#[derive(Clone, Copy, Debug, PartialEq, Eq, Structural)]
pub struct ReceiverConfig {
    receiver_commit: bool,
}

impl ReceiverConfig {
    /// A configuration; with `receiver_commit` the receiver keeps its choices
    /// so that it can reveal them.
    pub fn new(receiver_commit: bool) -> (r: ReceiverConfig)
        ensures
            r.commit() == receiver_commit,
    {
        ReceiverConfig { receiver_commit }
    }

    pub closed spec fn commit(&self) -> bool {
        self.receiver_commit
    }

    /// Whether the receiver commits to its choices.
    pub fn receiver_commit(&self) -> (r: bool)
        ensures
            r == self.commit(),
    {
        self.receiver_commit
    }
}

impl Default for ReceiverConfig {
    fn default() -> (r: ReceiverConfig)
        ensures
            !r.commit(),
    {
        ReceiverConfig { receiver_commit: false }
    }
}

} // verus!

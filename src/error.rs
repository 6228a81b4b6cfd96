use vstd::prelude::*;

verus! {

/// The stage at which a run failed. Every error ends the run.
#[derive(Debug, Clone, Copy, PartialEq, Eq, Structural)]
pub enum PacketSenderError {
    /// The template frame could not be laid out in a buffer.
    PacketBuildError,
    /// The generation task could not hand a batch to the queue.
    ChannelSendError,
    /// The queue was closed before every frame had been received.
    ChannelReceiveError,
    /// The device refused a write.
    PacketSendError,
    /// The generation task ended abnormally.
    ThreadJoinError,
    /// No preset carries the requested name.
    SettingsNotFound,
}

/// The description of each error.
pub open spec fn error_message(e: PacketSenderError) -> Seq<char> {
    match e {
        PacketSenderError::PacketBuildError => "failed to build the packet"@,
        PacketSenderError::ChannelSendError => "failed to send a batch to the queue"@,
        PacketSenderError::ChannelReceiveError => "failed to receive a batch from the queue"@,
        PacketSenderError::PacketSendError => "failed to send a packet to the device"@,
        PacketSenderError::ThreadJoinError => "failed to join the generation thread"@,
        PacketSenderError::SettingsNotFound => "no settings preset with that name"@,
    }
}

impl PacketSenderError {
    /// A short human-readable description naming the failed stage.
    pub fn message(&self) -> (r: &'static str)
        ensures
            r@ == error_message(*self),
    {
        proof {
            reveal_strlit("failed to build the packet");
            reveal_strlit("failed to send a batch to the queue");
            reveal_strlit("failed to receive a batch from the queue");
            reveal_strlit("failed to send a packet to the device");
            reveal_strlit("failed to join the generation thread");
            reveal_strlit("no settings preset with that name");
        }
        match self {
            PacketSenderError::PacketBuildError => "failed to build the packet",
            PacketSenderError::ChannelSendError => "failed to send a batch to the queue",
            PacketSenderError::ChannelReceiveError => "failed to receive a batch from the queue",
            PacketSenderError::PacketSendError => "failed to send a packet to the device",
            PacketSenderError::ThreadJoinError => "failed to join the generation thread",
            PacketSenderError::SettingsNotFound => "no settings preset with that name",
        }
    }
}

} // verus!

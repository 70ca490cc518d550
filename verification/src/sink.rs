//! The local sink: a bounded, non-blocking queue carrying emitted indicator
//! commands to the co-located indicator task. The queue is the channel type
//! of the embassy-sync crate; its behaviour enters the proofs only through
//! the contracts of the small wrappers below.

use embassy_sync::blocking_mutex::raw::NoopRawMutex;
use embassy_sync::channel::Channel;
use vstd::prelude::*;

use crate::command::IndicatorCommand;

verus! {

/// How many commands the local sink buffers before dropping new ones.
pub const LOCAL_SINK_CAPACITY: usize = 4;

/// The bounded queue between the dispatch logic and the indicator task.
/// It owns both ends of the channel; the producer and consumer sides below
/// take `&mut self`, so the queue's contents are a function of the calls
/// made on this value.
#[verifier::external_body]
pub struct LocalSink {
    channel: Channel<NoopRawMutex, IndicatorCommand, 4>,
}

/// The commands currently buffered in the sink, front first.
pub uninterp spec fn sink_queue(s: LocalSink) -> Seq<IndicatorCommand>;

impl LocalSink {
    /// Relies on embassy_sync::channel::Channel::new: a fresh channel
    /// buffers no messages.
    #[verifier::external_body]
    pub fn new() -> (s: LocalSink)
        ensures
            sink_queue(s) == Seq::<IndicatorCommand>::empty(),
    {
        LocalSink { channel: Channel::new() }
    }

    /// Relies on embassy_sync::channel::Channel::try_send: appends the
    /// message at the back of the queue and succeeds iff the queue holds
    /// fewer messages than its capacity; a full queue is left unchanged
    /// and the call returns immediately either way.
    #[verifier::external_body]
    pub(crate) fn try_send(&mut self, cmd: IndicatorCommand) -> (ok: bool)
        ensures
            ok == (sink_queue(*old(self)).len() < LOCAL_SINK_CAPACITY),
            ok ==> sink_queue(*final(self)) == sink_queue(*old(self)).push(cmd),
            !ok ==> sink_queue(*final(self)) == sink_queue(*old(self)),
    {
        self.channel.try_send(cmd).is_ok()
    }

    /// Relies on embassy_sync::channel::Channel::try_receive: removes and
    /// returns the front message, or fails on an empty queue; the channel
    /// is first-in first-out.
    #[verifier::external_body]
    pub(crate) fn try_receive(&mut self) -> (r: Option<IndicatorCommand>)
        ensures
            sink_queue(*old(self)).len() == 0 ==> r is None && sink_queue(*final(self))
                == sink_queue(*old(self)),
            sink_queue(*old(self)).len() > 0 ==> r == Some(sink_queue(*old(self))[0])
                && sink_queue(*final(self)) == sink_queue(*old(self)).drop_first(),
    {
        match self.channel.try_receive() {
            Ok(cmd) => Some(cmd),
            Err(_) => None,
        }
    }

    /// Empties the sink, returning the buffered commands in the order they
    /// were queued. This is the consumer side used by the indicator task.
    pub fn drain(&mut self) -> (cmds: Vec<IndicatorCommand>)
        ensures
            cmds@ == sink_queue(*old(self)),
            sink_queue(*final(self)) == Seq::<IndicatorCommand>::empty(),
    {
        let mut cmds: Vec<IndicatorCommand> = Vec::new();
        loop
            invariant
                cmds@ + sink_queue(*self) == sink_queue(*old(self)),
            ensures
                cmds@ == sink_queue(*old(self)),
                sink_queue(*self).len() == 0,
            decreases sink_queue(*self).len(),
        {
            match self.try_receive() {
                Some(cmd) => {
                    cmds.push(cmd);
                },
                None => {
                    proof {
                        assert(cmds@ + sink_queue(*self) =~= cmds@);
                    }
                    break;
                },
            }
        }
        cmds
    }
}

} // verus!

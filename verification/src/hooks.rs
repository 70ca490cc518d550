//! The per-tick hook implementations: on every state update the master hook
//! maps the summary to an indicator command, runs it through the change
//! gate, and on a change dispatches it to the configured sinks — the local
//! bounded queue, and encoded payloads bound for the remote peer. The rgb
//! hook applies an emitted command to the LED cutoff line.

use vstd::prelude::*;

use crate::codec::{
    encode_indicator, encode_keyboard_report, encode_mouse_report, spec_encode_indicator,
    spec_encode_keyboard, spec_encode_mouse, MAX_PAYLOAD_BYTES,
};
use crate::command::{IndicatorCommand, KeyboardStateSummary};
use crate::gate::{spec_accept_emits, spec_accept_next, spec_gate_init, ChangeGate};
use crate::mapper::{map_indicator, spec_map_layer};
use crate::sink::{sink_queue, LocalSink, LOCAL_SINK_CAPACITY};

verus! {

/// Link channel id for indicator command payloads.
pub const LINK_CHANNEL_INDICATOR: u8 = 1;

/// Link channel id for forwarded keyboard report payloads.
pub const LINK_CHANNEL_KEYBOARD: u8 = 2;

/// Link channel id for forwarded mouse report payloads.
pub const LINK_CHANNEL_MOUSE: u8 = 3;

/// The capability set of one keyboard half's dispatcher, fixed at startup.
#[derive(Clone, Copy, Debug, PartialEq, Eq, Structural)]
pub struct SinkConfig {
    /// Drive the co-located indicator task through the bounded local queue.
    pub local_sink: bool,
    /// Send emitted commands to the remote peer over the link.
    pub remote_sink: bool,
    /// Also forward the HID report snapshots to the remote peer (the
    /// dongle-forwarding variant); meaningful only with `remote_sink`.
    pub forward_reports: bool,
}

/// A fully encoded message bound for the remote peer, tagged with the link
/// channel it goes out on. Built, handed to the link driver, and discarded
/// within one tick.
pub struct OutgoingPayload {
    pub channel_id: u8,
    pub bytes: Vec<u8>,
}

/// The mathematical content of a payload: its link channel and its bytes.
pub open spec fn spec_payload_model(p: OutgoingPayload) -> (u8, Seq<u8>) {
    (p.channel_id, p.bytes@)
}

/// What one tick hands back to the caller: whether downstream processing
/// continues, the command emitted this tick if any, and the payloads the
/// link driver should send.
pub struct TickOutcome {
    pub proceed: bool,
    pub emitted: Option<IndicatorCommand>,
    pub remote: Vec<OutgoingPayload>,
}

/// The master-side hook state: the change gate, the local sink and the
/// capability configuration.
pub struct NegMasterHooks {
    pub gate: ChangeGate,
    pub sink: LocalSink,
    pub config: SinkConfig,
}

/// The command one tick computes for a summary.
pub open spec fn spec_tick_command(s: KeyboardStateSummary) -> IndicatorCommand {
    spec_map_layer(s.highest_layer)
}

/// Whether a tick on summary `s` emits, given the hook state `h`.
pub open spec fn spec_tick_emits(h: NegMasterHooks, s: KeyboardStateSummary) -> bool {
    spec_accept_emits(h.gate, spec_tick_command(s))
}

/// The local queue after one tick: an emitted command is pushed when the
/// local sink is configured and the queue is below capacity; a full queue
/// drops the command silently; everything else leaves the queue unchanged.
pub open spec fn spec_tick_sink(h: NegMasterHooks, s: KeyboardStateSummary) -> Seq<
    IndicatorCommand,
> {
    if spec_tick_emits(h, s) && h.config.local_sink && sink_queue(h.sink).len()
        < LOCAL_SINK_CAPACITY {
        sink_queue(h.sink).push(spec_tick_command(s))
    } else {
        sink_queue(h.sink)
    }
}

/// The report payloads forwarded to the remote peer: one message per
/// available report, keyboard first.
pub open spec fn spec_report_batch(s: KeyboardStateSummary) -> Seq<(u8, Seq<u8>)> {
    (match s.keyboard_report {
        Some(r) => seq![(LINK_CHANNEL_KEYBOARD, spec_encode_keyboard(r))],
        None => Seq::<(u8, Seq<u8>)>::empty(),
    }) + (match s.mouse_report {
        Some(r) => seq![(LINK_CHANNEL_MOUSE, spec_encode_mouse(r))],
        None => Seq::<(u8, Seq<u8>)>::empty(),
    })
}

/// The payloads one tick hands to the link driver: on an emission with the
/// remote sink configured, the encoded command followed — in the
/// report-forwarding variant — by the available report messages; otherwise
/// nothing.
pub open spec fn spec_tick_remote(h: NegMasterHooks, s: KeyboardStateSummary) -> Seq<
    (u8, Seq<u8>),
> {
    if spec_tick_emits(h, s) && h.config.remote_sink {
        seq![(LINK_CHANNEL_INDICATOR, spec_encode_indicator(spec_tick_command(s)))] + (
        if h.config.forward_reports {
            spec_report_batch(s)
        } else {
            Seq::<(u8, Seq<u8>)>::empty()
        })
    } else {
        Seq::<(u8, Seq<u8>)>::empty()
    }
}

impl NegMasterHooks {
    /// Hook state for one half: an empty gate, an empty local queue, and
    /// the given capability set.
    pub fn new(config: SinkConfig) -> (h: Self)
        ensures
            h.gate == spec_gate_init(),
            sink_queue(h.sink) == Seq::<IndicatorCommand>::empty(),
            h.config == config,
    {
        NegMasterHooks { gate: ChangeGate::new(), sink: LocalSink::new(), config }
    }

    /// One tick of the pipeline: maps the summary to a command, offers it
    /// to the change gate, and on a change dispatches it to every
    /// configured sink independently. The change gate is updated first,
    /// so a dropped or failed delivery never makes the same command look
    /// new on the next tick; a full local queue drops the command without
    /// blocking or failing. Always asks the caller to continue.
    pub fn on_state_update(&mut self, state_report: &KeyboardStateSummary) -> (out: TickOutcome)
        ensures
            out.proceed,
            final(self).config == old(self).config,
            final(self).gate == spec_accept_next(old(self).gate, spec_tick_command(*state_report)),
            out.emitted == (if spec_tick_emits(*old(self), *state_report) {
                Some(spec_tick_command(*state_report))
            } else {
                None::<IndicatorCommand>
            }),
            sink_queue(final(self).sink) == spec_tick_sink(*old(self), *state_report),
            out.remote@.map_values(|p: OutgoingPayload| spec_payload_model(p)) == spec_tick_remote(
                *old(self),
                *state_report,
            ),
            forall|i: int| 0 <= i < out.remote@.len() ==> #[trigger] out.remote@[i].bytes@.len()
                <= MAX_PAYLOAD_BYTES,
    {
        let cmd = map_indicator(state_report);
        let emit = self.gate.accept(cmd);
        let mut remote: Vec<OutgoingPayload> = Vec::new();
        let mut emitted: Option<IndicatorCommand> = None;
        if emit {
            emitted = Some(cmd);
            if self.config.local_sink {
                let _ = self.sink.try_send(cmd);
            }
            if self.config.remote_sink {
                remote.push(
                    OutgoingPayload {
                        channel_id: LINK_CHANNEL_INDICATOR,
                        bytes: encode_indicator(&cmd),
                    },
                );
                if self.config.forward_reports {
                    match &state_report.keyboard_report {
                        Some(r) => {
                            remote.push(
                                OutgoingPayload {
                                    channel_id: LINK_CHANNEL_KEYBOARD,
                                    bytes: encode_keyboard_report(r),
                                },
                            );
                        },
                        None => {},
                    }
                    match &state_report.mouse_report {
                        Some(r) => {
                            remote.push(
                                OutgoingPayload {
                                    channel_id: LINK_CHANNEL_MOUSE,
                                    bytes: encode_mouse_report(r),
                                },
                            );
                        },
                        None => {},
                    }
                }
            }
        }
        proof {
            assert(remote@.map_values(|p: OutgoingPayload| spec_payload_model(p)) =~= spec_tick_remote(
                *old(self),
                *state_report,
            ));
        }
        TickOutcome { proceed: true, emitted, remote }
    }
}

/// Drop-safety: when the local queue is already at capacity, a tick leaves
/// the queue unchanged — the command is dropped rather than blocking or
/// failing — while the change gate still takes the new command, so the
/// tick after it suppresses an identical command even though delivery
/// failed.
pub proof fn lemma_drop_safety(h: NegMasterHooks, s: KeyboardStateSummary)
    requires
        sink_queue(h.sink).len() >= LOCAL_SINK_CAPACITY,
    ensures
        spec_tick_sink(h, s) == sink_queue(h.sink),
        !spec_accept_emits(spec_accept_next(h.gate, spec_tick_command(s)), spec_tick_command(s)),
{
}

/// The rgb-side hook state: the desired level of the LED cutoff line. The
/// physical pin is driven by the surrounding program from this value; high
/// switches the LEDs off.
pub struct NegRgbHooks {
    pub led_off_high: bool,
}

impl NegRgbHooks {
    /// The cutoff line starts low.
    pub fn new() -> (h: Self)
        ensures
            !h.led_off_high,
    {
        NegRgbHooks { led_off_high: false }
    }

    /// At indicator start-up the LEDs are switched off until a command
    /// arrives.
    pub fn on_rgb_init(&mut self)
        ensures
            final(self).led_off_high,
    {
        self.led_off_high = true;
    }

    /// Applies a command to the cutoff line: `Reset` switches the LEDs
    /// off, any `Start` command switches them on. Idempotent, so dropped
    /// intermediate commands only delay convergence.
    pub fn on_rgb_process(&mut self, command: &IndicatorCommand)
        ensures
            final(self).led_off_high == (*command is Reset),
    {
        self.led_off_high = command.is_reset();
    }
}

/// Builds the hook pair for one keyboard half: the master-side dispatch
/// state and the rgb-side indicator state.
pub fn create_hooks(config: SinkConfig) -> (hooks: (NegMasterHooks, NegRgbHooks))
    ensures
        hooks.0.gate == spec_gate_init(),
        sink_queue(hooks.0.sink) == Seq::<IndicatorCommand>::empty(),
        hooks.0.config == config,
        !hooks.1.led_off_high,
{
    (NegMasterHooks::new(config), NegRgbHooks::new())
}

} // verus!

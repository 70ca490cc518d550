use negl_core::codec::decode_message;
use negl_core::codec::RemoteMessage;
use negl_core::command::{
    IndicatorCommand, KeyboardReport, KeyboardStateSummary, MouseReport, Pattern,
};
use negl_core::hooks::{
    create_hooks, NegMasterHooks, NegRgbHooks, SinkConfig, LINK_CHANNEL_INDICATOR,
    LINK_CHANNEL_KEYBOARD, LINK_CHANNEL_MOUSE,
};
use negl_core::sink::LOCAL_SINK_CAPACITY;

const RED: IndicatorCommand = IndicatorCommand::Start(Pattern::SolidColor(10, 0, 0));

fn summary(layer: u8) -> KeyboardStateSummary {
    KeyboardStateSummary { highest_layer: layer, keyboard_report: None, mouse_report: None }
}

fn local_only() -> NegMasterHooks {
    NegMasterHooks::new(SinkConfig { local_sink: true, remote_sink: false, forward_reports: false })
}

#[test]
fn end_to_end_scenario() {
    let mut h = NegMasterHooks::new(SinkConfig {
        local_sink: true,
        remote_sink: true,
        forward_reports: false,
    });

    // Tick 1: base layer maps to Reset and still emits (first tick).
    let o1 = h.on_state_update(&summary(0));
    assert!(o1.proceed);
    assert_eq!(o1.emitted, Some(IndicatorCommand::Reset));

    // Tick 2: layer 2 maps to solid red and emits (changed).
    let o2 = h.on_state_update(&summary(2));
    assert_eq!(o2.emitted, Some(RED));

    // Tick 3: layer 2 again: no emission, no payloads.
    let o3 = h.on_state_update(&summary(2));
    assert_eq!(o3.emitted, None);
    assert!(o3.remote.is_empty());

    // Tick 4: unmapped layer 7 maps to Reset and emits (changed).
    let o4 = h.on_state_update(&summary(7));
    assert_eq!(o4.emitted, Some(IndicatorCommand::Reset));

    // The local queue saw each emitted command once, in order.
    assert_eq!(
        h.sink.drain(),
        vec![IndicatorCommand::Reset, RED, IndicatorCommand::Reset]
    );
}

#[test]
fn remote_payloads_decode_to_the_emitted_command() {
    let mut h = NegMasterHooks::new(SinkConfig {
        local_sink: false,
        remote_sink: true,
        forward_reports: false,
    });
    let out = h.on_state_update(&summary(3));
    assert_eq!(out.remote.len(), 1);
    assert_eq!(out.remote[0].channel_id, LINK_CHANNEL_INDICATOR);
    assert_eq!(
        decode_message(&out.remote[0].bytes),
        Some(RemoteMessage::Indicator(IndicatorCommand::Start(Pattern::SolidColor(0, 10, 0))))
    );
}

#[test]
fn report_forwarding_sends_each_available_report() {
    let mut h = NegMasterHooks::new(SinkConfig {
        local_sink: false,
        remote_sink: true,
        forward_reports: true,
    });
    let kb = KeyboardReport { modifier: 0, keycodes: [4, 5, 6, 7, 8, 9] };
    let mouse = MouseReport { buttons: 1, x: -2, y: 3, wheel: 0, pan: 0 };
    let s = KeyboardStateSummary {
        highest_layer: 1,
        keyboard_report: Some(kb),
        mouse_report: Some(mouse),
    };
    let out = h.on_state_update(&s);
    assert_eq!(out.remote.len(), 3);
    assert_eq!(out.remote[0].channel_id, LINK_CHANNEL_INDICATOR);
    assert_eq!(out.remote[1].channel_id, LINK_CHANNEL_KEYBOARD);
    assert_eq!(out.remote[2].channel_id, LINK_CHANNEL_MOUSE);
    assert_eq!(decode_message(&out.remote[1].bytes), Some(RemoteMessage::Keyboard(kb)));
    assert_eq!(decode_message(&out.remote[2].bytes), Some(RemoteMessage::Mouse(mouse)));

    // An unchanged command on the next tick forwards nothing.
    let out2 = h.on_state_update(&s);
    assert!(out2.remote.is_empty());
}

#[test]
fn missing_reports_are_skipped() {
    let mut h = NegMasterHooks::new(SinkConfig {
        local_sink: false,
        remote_sink: true,
        forward_reports: true,
    });
    let out = h.on_state_update(&summary(2));
    assert_eq!(out.remote.len(), 1);
    assert_eq!(out.remote[0].channel_id, LINK_CHANNEL_INDICATOR);
}

#[test]
fn full_queue_drops_but_gate_still_updates() {
    let mut h = local_only();
    // Four distinct commands fill the queue to capacity.
    for layer in [1u8, 2, 3, 4] {
        let out = h.on_state_update(&summary(layer));
        assert!(out.emitted.is_some());
    }
    // The fifth emission finds the queue full: no error, no block, and the
    // command is dropped.
    let o5 = h.on_state_update(&summary(0));
    assert_eq!(o5.emitted, Some(IndicatorCommand::Reset));
    // The change gate took the dropped command: it is now suppressed.
    let o6 = h.on_state_update(&summary(0));
    assert_eq!(o6.emitted, None);
    // The queue still holds exactly the first four commands.
    let drained = h.sink.drain();
    assert_eq!(drained.len(), LOCAL_SINK_CAPACITY);
    assert_eq!(
        drained,
        vec![
            IndicatorCommand::Start(Pattern::SolidColor(0, 0, 10)),
            RED,
            IndicatorCommand::Start(Pattern::SolidColor(0, 10, 0)),
            IndicatorCommand::Start(Pattern::SolidColor(10, 10, 0)),
        ]
    );
    // After draining, the once-dropped command can flow again when it changes.
    let o7 = h.on_state_update(&summary(2));
    assert_eq!(o7.emitted, Some(RED));
    assert_eq!(h.sink.drain(), vec![RED]);
}

#[test]
fn drain_leaves_the_sink_empty() {
    let mut h = local_only();
    h.on_state_update(&summary(1));
    assert_eq!(h.sink.drain().len(), 1);
    assert_eq!(h.sink.drain(), vec![]);
}

#[test]
fn rgb_hook_follows_commands() {
    let (_master, mut rgb) = create_hooks(SinkConfig {
        local_sink: true,
        remote_sink: false,
        forward_reports: false,
    });
    assert!(!rgb.led_off_high);
    rgb.on_rgb_init();
    assert!(rgb.led_off_high);
    rgb.on_rgb_process(&RED);
    assert!(!rgb.led_off_high);
    rgb.on_rgb_process(&IndicatorCommand::Reset);
    assert!(rgb.led_off_high);
    // Idempotent application.
    rgb.on_rgb_process(&IndicatorCommand::Reset);
    assert!(rgb.led_off_high);
}

#[test]
fn local_sink_disabled_queues_nothing() {
    let mut h = NegMasterHooks::new(SinkConfig {
        local_sink: false,
        remote_sink: false,
        forward_reports: false,
    });
    let out = h.on_state_update(&summary(1));
    assert_eq!(
        out.emitted,
        Some(IndicatorCommand::Start(Pattern::SolidColor(0, 0, 10)))
    );
    assert!(out.remote.is_empty());
    assert_eq!(h.sink.drain(), vec![]);
}

#[test]
fn rgb_hooks_new_starts_low() {
    let rgb = NegRgbHooks::new();
    assert!(!rgb.led_off_high);
}

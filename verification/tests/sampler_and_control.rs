//! Tick-level behaviour of the input sampler and the control channel.

use one_button_keyboard::control::decode_control_report;
use one_button_keyboard::descriptor::{control_descriptor, keyboard_descriptor};
use one_button_keyboard::pattern::ReportPattern;
use one_button_keyboard::report::KeyboardReport;
use one_button_keyboard::sampler::InputSampler;

fn report_bytes(r: &KeyboardReport) -> [u8; 7] {
    [
        r.modifier,
        r.keycodes[0],
        r.keycodes[1],
        r.keycodes[2],
        r.keycodes[3],
        r.keycodes[4],
        r.keycodes[5],
    ]
}

#[test]
fn press_and_release_emit_pattern_then_empty() {
    let pattern = ReportPattern { modifier: 0x00, keycodes: [0x04, 0, 0, 0, 0, 0] };
    let mut s = InputSampler::new();
    let mut emitted: Vec<[u8; 7]> = Vec::new();

    for pressed in [false, true, false] {
        let out = s.tick(pressed, &pattern);
        if let Some(r) = out.keyboard {
            emitted.push(report_bytes(&r));
        }
    }

    assert_eq!(
        emitted,
        vec![[0x00, 0x04, 0x00, 0x00, 0x00, 0x00, 0x00], [0x00; 7]]
    );
}

#[test]
fn shift_tab_pattern_is_typed_verbatim() {
    let pattern = ReportPattern { modifier: 0x02, keycodes: [0x2B, 0, 0, 0, 0, 0] };
    let mut s = InputSampler::new();
    let out = s.tick(true, &pattern);
    let r = out.keyboard.expect("a press is an edge");
    assert_eq!(report_bytes(&r), [0x02, 0x2B, 0x00, 0x00, 0x00, 0x00, 0x00]);
}

#[test]
fn broadcast_fires_within_eleven_ticks_while_idle() {
    let pattern = ReportPattern { modifier: 0x07, keycodes: [9, 8, 7, 6, 5, 4] };
    let mut s = InputSampler::new();
    let mut broadcasts: Vec<[u8; 7]> = Vec::new();
    let mut keyboard_pushes = 0usize;

    for _ in 0..11 {
        let out = s.tick(false, &pattern);
        if let Some(c) = out.control {
            broadcasts.push(c.get_report_pattern);
            assert_eq!(c.set_report_pattern, [0u8; 7]);
        }
        if out.keyboard.is_some() {
            keyboard_pushes += 1;
        }
    }

    assert_eq!(broadcasts, vec![pattern.pack()]);
    // The one keyboard report of the window is the broadcast tick's empty
    // report; there was no edge.
    assert_eq!(keyboard_pushes, 1);
}

#[test]
fn broadcast_cadence_is_eleven_ticks() {
    let pattern = ReportPattern::default();
    let mut s = InputSampler::new();
    let mut fired: Vec<usize> = Vec::new();
    for t in 0..33 {
        if s.tick(false, &pattern).control.is_some() {
            fired.push(t);
        }
    }
    assert_eq!(fired, vec![10, 21, 32]);
}

#[test]
fn shared_tick_emits_keyboard_report_and_broadcast() {
    let pattern = ReportPattern { modifier: 0x01, keycodes: [0x05, 0, 0, 0, 0, 0] };
    let mut s = InputSampler::new();
    for _ in 0..10 {
        s.tick(true, &pattern);
    }
    // Eleventh tick: no edge, but the broadcast is due; the keyboard report
    // re-transmits the held pattern and the broadcast carries it too.
    let out = s.tick(true, &pattern);
    let r = out.keyboard.expect("broadcast tick re-transmits");
    assert_eq!(report_bytes(&r), [0x01, 0x05, 0, 0, 0, 0, 0]);
    let c = out.control.expect("broadcast due");
    assert_eq!(c.get_report_pattern, pattern.pack());
}

#[test]
fn control_out_accepts_only_seven_bytes() {
    let p = decode_control_report(&[0x02, 0x2B, 0, 0, 0, 0, 0]).expect("seven bytes");
    assert_eq!(p, ReportPattern { modifier: 0x02, keycodes: [0x2B, 0, 0, 0, 0, 0] });
    assert!(decode_control_report(&[0u8; 6]).is_none());
    assert!(decode_control_report(&[0u8; 8]).is_none());
    assert!(decode_control_report(&[0u8; 64]).is_none());
}

#[test]
fn keyboard_report_mirrors_pattern() {
    let pattern = ReportPattern { modifier: 0x81, keycodes: [1, 2, 3, 4, 5, 6] };
    let r = KeyboardReport::from(&pattern);
    assert_eq!(report_bytes(&r), pattern.pack());
    assert_eq!(KeyboardReport::size(), 7);
    assert_eq!(report_bytes(&KeyboardReport::empty()), [0u8; 7]);
}

#[test]
fn descriptors_declare_the_seven_byte_reports() {
    let kbd = keyboard_descriptor();
    assert_eq!(
        kbd,
        vec![
            0x05, 0x01, 0x09, 0x06, 0xA1, 0x01, 0x05, 0x07, 0x19, 0xE0, 0x29, 0xE7, 0x15, 0x00,
            0x25, 0x01, 0x75, 0x01, 0x95, 0x08, 0x81, 0x02, 0x05, 0x07, 0x19, 0x00, 0x29, 0xDD,
            0x26, 0xFF, 0x00, 0x75, 0x08, 0x95, 0x06, 0x81, 0x00, 0xC0,
        ]
    );
    let ctrl = control_descriptor();
    assert_eq!(
        ctrl,
        vec![
            0x06, 0x00, 0xFF, 0x09, 0x00, 0xA1, 0x02, 0x19, 0x00, 0x29, 0xFF, 0x15, 0x00, 0x26,
            0xFF, 0x00, 0x75, 0x08, 0x95, 0x07, 0x91, 0x00, 0x19, 0x00, 0x29, 0xFF, 0x81, 0x00,
            0xC0,
        ]
    );
}

use fearless_nes::debug_events::{DebugEvent, DebugEvents, EventKind};
use fearless_nes::replay::{Button, InputChange, ReplayInputs};
use fearless_nes::sample_buffer::SampleBuffer;

#[test]
fn sample_buffer_keeps_the_last_values() {
    let mut b: SampleBuffer<i16, 4> = SampleBuffer::new();
    assert_eq!(b.len(), 4);
    let (old, new) = b.get_samples();
    assert_eq!([old, new].concat(), vec![0, 0, 0, 0]);
    for v in 1..=6 {
        b.push(v);
    }
    let (old, new) = b.get_samples();
    assert_eq!([old, new].concat(), vec![3, 4, 5, 6]);
}

#[test]
fn debug_events_of_the_previous_frame() {
    let mut d = DebugEvents::new();
    assert!(d.events().is_empty());
    d.add(EventKind::Irq, 10, 20);
    assert!(d.events().is_empty());
    d.on_frame_ended();
    assert_eq!(
        d.events().to_vec(),
        vec![DebugEvent { kind: EventKind::Irq, scanline: 10, xpos: 20 }]
    );
    d.on_frame_ended();
    assert!(d.events().is_empty());
    assert_eq!(EventKind::Irq.to_string(), "IRQ");
}

#[test]
fn replay_records_changes() {
    let mut r = ReplayInputs::new();
    r.add_input_change(5, Button::Start, true);
    r.add_input_change(9, Button::Start, false);
    r.set_end_frame(100);
    assert_eq!(r.end_frame, 100);
    assert_eq!(
        r.inputs,
        vec![
            InputChange { frame: 5, button: Button::Start, state: true },
            InputChange { frame: 9, button: Button::Start, state: false }
        ]
    );
}

#[test]
fn sample_buffer_holds_old_and_new_values_in_order() {
    let mut b: SampleBuffer<u8, 3> = SampleBuffer::new();
    b.push(7);
    let (old, new) = b.get_samples();
    assert_eq!([old, new].concat(), vec![0, 0, 7]);
    b.push(8);
    b.push(9);
    b.push(10);
    let (old, new) = b.get_samples();
    assert_eq!([old, new].concat(), vec![8, 9, 10]);
}

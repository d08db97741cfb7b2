use pincel::context::EventContext;
use pincel::event::{Channel, Message, SystemEventCode};
use pincel::input::{Buttons, InputState, Keys};

fn drain_codes(channel: &mut Channel<u8>) -> Vec<(u16, u16)> {
    let mut out = Vec::new();
    while let Some(m) = channel.try_recv() {
        match m {
            Message::Pub { code, context, .. } => out.push((code, context.get_u16(0))),
            _ => panic!("only publications are expected"),
        }
    }
    out
}

#[test]
fn held_key_publishes_a_single_press() {
    let mut input = InputState::new();
    let mut channel: Channel<u8> = Channel::new();
    input.process_key(&mut channel, Keys::K, true);
    input.process_key(&mut channel, Keys::K, true);
    let pressed = SystemEventCode::CODE_KEY_PRESSED.code();
    assert_eq!(drain_codes(&mut channel), vec![(pressed, Keys::K.code())]);
    assert!(input.is_key_down(Keys::K));
}

#[test]
fn press_then_release_is_drained_in_order() {
    let mut input = InputState::new();
    let mut channel: Channel<u8> = Channel::new();
    input.process_key(&mut channel, Keys::K, true);
    input.process_key(&mut channel, Keys::K, false);
    let pressed = SystemEventCode::CODE_KEY_PRESSED.code();
    let released = SystemEventCode::CODE_KEY_RELEASED.code();
    assert_eq!(
        drain_codes(&mut channel),
        vec![(pressed, Keys::K.code()), (released, Keys::K.code())]
    );
    assert!(!input.is_key_down(Keys::K));
}

#[test]
fn releasing_an_up_key_publishes_nothing() {
    let mut input = InputState::new();
    let mut channel: Channel<u8> = Channel::new();
    input.process_key(&mut channel, Keys::ESCAPE, false);
    assert_eq!(channel.len(), 0);
}

#[test]
fn update_copies_current_into_previous() {
    let mut input = InputState::new();
    let mut channel: Channel<u8> = Channel::new();
    input.process_key(&mut channel, Keys::A, true);
    assert!(input.is_key_down(Keys::A));
    assert!(!input.was_key_down(Keys::A));
    input.update();
    assert!(input.was_key_down(Keys::A));
    input.process_key(&mut channel, Keys::A, false);
    assert!(input.was_key_down(Keys::A));
    assert!(!input.is_key_down(Keys::A));
}

#[test]
fn buttons_are_edge_triggered() {
    let mut input = InputState::new();
    let mut channel: Channel<u8> = Channel::new();
    input.process_button(&mut channel, Buttons::BUTTON_RIGHT, true);
    input.process_button(&mut channel, Buttons::BUTTON_RIGHT, true);
    input.process_button(&mut channel, Buttons::BUTTON_RIGHT, false);
    let pressed = SystemEventCode::CODE_BUTTON_PRESSED.code();
    let released = SystemEventCode::CODE_BUTTON_RELEASED.code();
    assert_eq!(drain_codes(&mut channel), vec![(pressed, 1), (released, 1)]);
}

#[test]
fn mouse_moves_are_edge_triggered() {
    let mut input = InputState::new();
    let mut channel: Channel<u8> = Channel::new();
    input.process_mouse_move(&mut channel, 0, 0);
    assert_eq!(channel.len(), 0);
    input.process_mouse_move(&mut channel, -12, 300);
    input.process_mouse_move(&mut channel, -12, 300);
    assert_eq!(channel.len(), 1);
    match channel.try_recv() {
        Some(Message::Pub { code, sender, context }) => {
            assert_eq!(code, SystemEventCode::CODE_MOUSE_MOVED.code());
            assert!(sender.is_none());
            assert_eq!(context.get_i16(0), -12);
            assert_eq!(context.get_i16(1), 300);
        }
        _ => panic!("expected a mouse move"),
    }
}

#[test]
fn key_codes_round_trip() {
    assert_eq!(Keys::ESCAPE.code(), 0x1B);
    assert_eq!(Keys::A.code(), 0x41);
    assert_eq!(Keys::GRAVE.code(), 0xC0);
    assert_eq!(Keys::KEYS_MAX_KEYS.code(), 0xC1);
    assert_eq!(Keys::from_code(0x1B), Some(Keys::ESCAPE));
    assert_eq!(Keys::from_code(0x0A), None);
    assert_eq!(Buttons::from_index(2), Some(Buttons::BUTTON_MIDDLE));
    assert_eq!(Buttons::from_index(6), None);
}

#[test]
fn payload_slots_are_little_endian() {
    let mut c = EventContext::zeroed();
    c.set_u16(0, 0x1234);
    assert_eq!(c.data[0], 0x34);
    assert_eq!(c.data[1], 0x12);
    assert_eq!(c.get_u16(0), 0x1234);
    c.set_i16(3, -2);
    assert_eq!(c.data[6], 0xFE);
    assert_eq!(c.data[7], 0xFF);
    assert_eq!(c.get_i16(3), -2);
    assert_eq!(c.get_u16(3), 0xFFFE);
    assert_eq!(c.get_u16(1), 0);
    c.set_u8(15, 9);
    assert_eq!(c.get_u8(15), 9);
    let p = EventContext::from_i16_pair(i16::MIN, i16::MAX);
    assert_eq!(p.get_i16(0), i16::MIN);
    assert_eq!(p.get_i16(1), i16::MAX);
}

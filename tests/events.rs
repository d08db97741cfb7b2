use pincel::application::{AppCallback, AppContext};
use pincel::context::EventContext;
use pincel::event::{Message, SystemEventCode, MAX_MESSAGE_CODES};
use pincel::input::Keys;
use pincel::registry::{EventSystem, Received};

fn quit_context() -> EventContext {
    EventContext::zeroed()
}

fn escape_context() -> EventContext {
    EventContext::from_u16(Keys::ESCAPE.code())
}

fn app_context() -> AppContext {
    AppContext {
        is_running: true,
        is_suspended: false,
        width: 800,
        height: 600,
        mouse_x: 0,
        mouse_y: 0,
    }
}

fn count_quit_requests(sys: &mut EventSystem<AppCallback>) -> usize {
    let quit = SystemEventCode::CODE_APPLICATION_QUIT.code();
    let mut n = 0;
    while let Some(m) = sys.channel.try_recv() {
        match m {
            Message::Pub { code, .. } if code == quit => n += 1,
            _ => panic!("only quit requests are expected"),
        }
    }
    n
}

#[test]
fn fire_visits_in_registration_order_and_stops_at_first_handler() {
    let mut sys: EventSystem<AppCallback> = EventSystem::new();
    let pressed = SystemEventCode::CODE_KEY_PRESSED.code();
    assert!(sys.register(pressed, Some(1), AppCallback::OnQuit));
    assert!(sys.register(pressed, Some(2), AppCallback::OnResized));
    assert!(sys.register(pressed, Some(3), AppCallback::OnKey));
    assert!(sys.register(pressed, Some(4), AppCallback::OnKey));
    let mut ctx = app_context();
    assert!(sys.fire(pressed, None, escape_context(), &mut ctx));
    assert_eq!(count_quit_requests(&mut sys), 1);
    assert_eq!(ctx, app_context());
}

#[test]
fn fire_runs_every_callback_when_none_handles() {
    let mut sys: EventSystem<AppCallback> = EventSystem::new();
    let code = SystemEventCode::CODE_RESIZED.code();
    assert!(sys.register(code, None, AppCallback::OnQuit));
    assert!(sys.register(code, Some(9), AppCallback::OnKey));
    let mut ctx = app_context();
    assert!(!sys.fire(code, Some(42), EventContext::from_u16_pair(1, 2), &mut ctx));
    assert!(sys.register(code, None, AppCallback::OnResized));
    assert!(sys.fire(code, Some(42), EventContext::from_u16_pair(1, 2), &mut ctx));
    assert_eq!((ctx.width, ctx.height), (1, 2));
}

#[test]
fn duplicate_registration_returns_true_then_false() {
    let mut sys: EventSystem<AppCallback> = EventSystem::new();
    let cb = AppCallback::OnQuit;
    assert!(sys.register(0x200, Some(5), cb));
    assert!(!sys.register(0x200, Some(5), cb));
    assert!(sys.register(0x200, Some(6), cb));
    assert!(sys.register(0x200, Some(5), AppCallback::OnKey));
    assert!(sys.register(0x201, Some(5), cb));
    assert!(sys.register(0x202, None, cb));
    assert!(!sys.register(0x202, None, cb));
    assert_eq!(sys.registered[0x200].len(), 3);
}

#[test]
fn fire_without_subscribers_returns_false_and_changes_nothing() {
    let mut sys: EventSystem<AppCallback> = EventSystem::new();
    sys.channel.send(Message::Shutdown);
    let mut ctx = app_context();
    let quit = SystemEventCode::CODE_APPLICATION_QUIT.code();
    assert!(!sys.fire(quit, None, EventContext::zeroed(), &mut ctx));
    assert_eq!(ctx, app_context());
    assert_eq!(sys.channel.len(), 1);
}

#[test]
fn out_of_range_codes_are_refused() {
    let mut sys: EventSystem<AppCallback> = EventSystem::new();
    let cb = AppCallback::OnQuit;
    assert!(!sys.register(MAX_MESSAGE_CODES, None, cb));
    assert!(!sys.register(u16::MAX, None, cb));
    let mut ctx = app_context();
    assert!(!sys.fire(MAX_MESSAGE_CODES, None, EventContext::zeroed(), &mut ctx));
    assert!(!sys.unregister(MAX_MESSAGE_CODES, None, &cb));
    assert!(sys.register(MAX_MESSAGE_CODES - 1, None, cb));
}

#[test]
fn unregister_removes_the_first_matching_subscription() {
    let mut sys: EventSystem<AppCallback> = EventSystem::new();
    let quit = SystemEventCode::CODE_APPLICATION_QUIT.code();
    let a = AppCallback::OnQuit;
    let b = AppCallback::OnKey;
    assert!(sys.register(quit, Some(1), a));
    assert!(sys.register(quit, Some(2), b));
    assert!(!sys.unregister(quit, Some(2), &a));
    assert!(sys.unregister(quit, Some(1), &a));
    assert!(!sys.unregister(quit, Some(1), &a));
    let mut ctx = app_context();
    assert!(!sys.fire(quit, None, EventContext::zeroed(), &mut ctx));
    assert!(ctx.is_running);
    assert!(sys.register(quit, Some(1), a));
    assert!(sys.fire(quit, None, EventContext::zeroed(), &mut ctx));
    assert!(!ctx.is_running);
}

#[test]
fn escape_before_subscription_is_not_replayed() {
    let mut sys: EventSystem<AppCallback> = EventSystem::new();
    let mut ctx = app_context();
    let pressed = SystemEventCode::CODE_KEY_PRESSED.code();
    sys.channel.send(Message::Pub { code: pressed, sender: None, context: escape_context() });
    assert_eq!(
        sys.listen_messages(&mut ctx),
        Received::Published { code: pressed, handled: false }
    );
    sys.channel.send(Message::Sub { code: pressed, listener: None, on_event: AppCallback::OnKey });
    assert_eq!(
        sys.listen_messages(&mut ctx),
        Received::Subscribed { code: pressed, accepted: true }
    );
    assert_eq!(sys.listen_messages(&mut ctx), Received::Nothing);
    assert_eq!(sys.channel.len(), 0);
    assert_eq!(ctx, app_context());
}

#[test]
fn escape_press_through_builtin_listener_enqueues_quit() {
    let mut sys: EventSystem<AppCallback> = EventSystem::new();
    let pressed = SystemEventCode::CODE_KEY_PRESSED.code();
    let quit = SystemEventCode::CODE_APPLICATION_QUIT.code();
    assert!(sys.register(pressed, None, AppCallback::OnKey));
    assert!(sys.register(quit, None, AppCallback::OnQuit));
    let mut ctx = app_context();
    sys.channel.send(Message::Pub { code: pressed, sender: None, context: escape_context() });
    assert_eq!(sys.listen_messages(&mut ctx), Received::Published { code: pressed, handled: true });
    assert_eq!(sys.channel.len(), 1);
    match sys.channel.try_recv() {
        Some(Message::Pub { code, sender, context }) => {
            assert_eq!(code, quit);
            assert!(sender.is_none());
            assert_eq!(context.data, [0u8; 16]);
        }
        _ => panic!("expected a quit request"),
    }
    assert!(ctx.is_running);
    assert!(sys.fire(quit, None, quit_context(), &mut ctx));
    assert!(!ctx.is_running);
}

#[test]
fn other_keys_are_claimed_without_quit() {
    let mut sys: EventSystem<AppCallback> = EventSystem::new();
    let pressed = SystemEventCode::CODE_KEY_PRESSED.code();
    let released = SystemEventCode::CODE_KEY_RELEASED.code();
    assert!(sys.register(pressed, None, AppCallback::OnKey));
    assert!(sys.register(released, None, AppCallback::OnKey));
    let mut ctx = app_context();
    let a = EventContext::from_u16(Keys::A.code());
    assert!(sys.fire(pressed, None, a, &mut ctx));
    assert!(!sys.fire(released, None, escape_context(), &mut ctx));
    assert_eq!(sys.channel.len(), 0);
    assert_eq!(ctx, app_context());
}

#[test]
fn shutdown_message_empties_table_and_queue() {
    let mut sys: EventSystem<AppCallback> = EventSystem::new();
    let quit = SystemEventCode::CODE_APPLICATION_QUIT.code();
    assert!(sys.register(quit, None, AppCallback::OnQuit));
    sys.channel.send(Message::Shutdown);
    sys.channel.send(Message::Pub { code: quit, sender: None, context: quit_context() });
    let mut ctx = app_context();
    assert_eq!(sys.listen_messages(&mut ctx), Received::Shutdown);
    assert_eq!(sys.channel.len(), 0);
    assert_eq!(sys.registered[quit as usize].len(), 0);
    assert!(!sys.fire(quit, None, quit_context(), &mut ctx));
    assert!(ctx.is_running);
}

#[test]
fn subscription_message_to_invalid_code_is_refused() {
    let mut sys: EventSystem<AppCallback> = EventSystem::new();
    let mut ctx = app_context();
    sys.channel.send(Message::Sub { code: 20000, listener: Some(1), on_event: AppCallback::OnQuit });
    assert_eq!(
        sys.listen_messages(&mut ctx),
        Received::Subscribed { code: 20000, accepted: false }
    );
}

#[test]
fn resize_and_mouse_move_are_recorded() {
    let mut sys: EventSystem<AppCallback> = EventSystem::new();
    let resized = SystemEventCode::CODE_RESIZED.code();
    let moved = SystemEventCode::CODE_MOUSE_MOVED.code();
    let button = SystemEventCode::CODE_BUTTON_PRESSED.code();
    assert!(sys.register(resized, None, AppCallback::OnResized));
    assert!(sys.register(moved, None, AppCallback::OnMouseMoved));
    assert!(sys.register(button, None, AppCallback::OnMouseButton));
    let mut ctx = app_context();
    assert!(sys.fire(resized, None, EventContext::from_u16_pair(1366, 768), &mut ctx));
    assert_eq!((ctx.width, ctx.height), (1366, 768));
    assert!(sys.fire(moved, None, EventContext::from_i16_pair(-5, 40), &mut ctx));
    assert_eq!((ctx.mouse_x, ctx.mouse_y), (-5, 40));
    assert!(sys.fire(button, None, EventContext::from_u16(0), &mut ctx));
    assert_eq!((ctx.mouse_x, ctx.mouse_y), (-5, 40));
}

#[test]
fn system_codes_round_trip() {
    assert_eq!(SystemEventCode::CODE_APPLICATION_QUIT.code(), 0x01);
    assert_eq!(SystemEventCode::CODE_RESIZED.code(), 0x08);
    assert_eq!(SystemEventCode::MAX_CODE.code(), 0xFF);
    assert_eq!(SystemEventCode::from_code(0x06), Some(SystemEventCode::CODE_MOUSE_MOVED));
    assert_eq!(SystemEventCode::from_code(0x09), None);
    assert_eq!(SystemEventCode::from_code(0x100), None);
}

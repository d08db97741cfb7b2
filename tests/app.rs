use pincel::application::{
    AppCallback, AppContext, ApplicationConfig, ApplicationError, ApplicationState,
};
use pincel::clock::Clock;
use pincel::color::{CurrentColor, CurrentColorSingleton, LineWidth};
use pincel::event::{Channel, Message, SystemEventCode};
use pincel::input::{InputState, Keys};
use pincel::logger::{log_output, LogLevel};
use pincel::platform::{Backend, Platform, PlatformBackend, PlatformState};
use pincel::registry::Received;
use pincel::viewport::{Viewport, WasdMovement};

/// A backend whose surface comes up or not as told, and whose pump replays a
/// script of key reports, one per tick, then keeps the application going.
struct ScriptedBackend {
    surface_ok: bool,
    started: u32,
    surface: Option<(i16, i16, u16, u16)>,
    script: Vec<(Keys, bool)>,
}

impl PlatformBackend<AppCallback> for ScriptedBackend {
    fn surface(&self) -> Option<(i16, i16, u16, u16)> {
        self.surface
    }

    fn startup(&mut self, x: i16, y: i16, width: u16, height: u16) -> bool {
        self.started += 1;
        self.surface = if self.surface_ok { Some((x, y, width, height)) } else { None };
        self.surface_ok
    }

    fn pump_messages(&mut self, input: &mut InputState, channel: &mut Channel<AppCallback>) -> bool {
        if !self.script.is_empty() {
            let (key, pressed) = self.script.remove(0);
            input.process_key(channel, key, pressed);
        }
        true
    }
}

fn config() -> ApplicationConfig {
    ApplicationConfig { start_pos_x: 0, start_pos_y: 0, start_width: 1366, start_height: 768 }
}

fn backend(surface_ok: bool, script: Vec<(Keys, bool)>) -> ScriptedBackend {
    ScriptedBackend { surface_ok, started: 0, surface: None, script }
}

#[test]
fn create_sets_up_the_application() {
    let app = match ApplicationState::create(config(), backend(true, vec![])) {
        Ok(app) => app,
        Err(_) => panic!("startup should succeed"),
    };
    assert_eq!(
        app.context,
        AppContext {
            is_running: true,
            is_suspended: false,
            width: 1366,
            height: 768,
            mouse_x: 0,
            mouse_y: 0
        }
    );
    assert!(app.platform.started);
    assert_eq!(app.backend.started, 1);
    assert_eq!(app.backend.surface, Some((0, 0, 1366, 768)));
    assert_eq!(app.event_system.registered[1].len(), 1);
    assert_eq!(app.event_system.registered[2].len(), 1);
    assert_eq!(app.event_system.registered[9].len(), 0);
    assert_eq!(app.event_system.channel.len(), 0);
}

#[test]
fn create_fails_when_the_surface_does_not_come_up() {
    match ApplicationState::create(config(), backend(false, vec![])) {
        Err(e) => {
            assert_eq!(e.error, ApplicationError::PlatformStartupFailed);
            assert_eq!(e.backend.started, 1);
            assert_eq!(e.backend.surface, None);
        }
        Ok(_) => panic!("startup failure must be fatal"),
    }
}

#[test]
fn escape_stops_the_main_loop() {
    let mut app = match ApplicationState::create(config(), backend(true, vec![(Keys::ESCAPE, true)])) {
        Ok(app) => app,
        Err(_) => panic!("startup should succeed"),
    };
    app.prepare_run();
    let mut ticks = 0;
    while app.tick() {
        ticks += 1;
        assert!(ticks < 10, "the loop should have stopped");
    }
    assert_eq!(ticks, 1);
    assert!(!app.context.is_running);
}

#[test]
fn each_tick_advances_the_input_snapshot() {
    let script = vec![(Keys::A, true), (Keys::B, true)];
    let mut app = match ApplicationState::create(config(), backend(true, script)) {
        Ok(app) => app,
        Err(_) => panic!("startup should succeed"),
    };
    app.prepare_run();
    assert!(app.tick());
    assert!(app.input.is_key_down(Keys::A));
    assert!(!app.input.was_key_down(Keys::A));
    assert!(app.tick());
    assert!(app.input.was_key_down(Keys::A));
    assert!(app.input.is_key_down(Keys::B));
    assert!(!app.input.was_key_down(Keys::B));
}

#[test]
fn suspended_tick_leaves_the_clock() {
    let mut app = match ApplicationState::create(config(), backend(true, vec![])) {
        Ok(app) => app,
        Err(_) => panic!("startup should succeed"),
    };
    app.prepare_run();
    app.context.is_suspended = true;
    let start = app.clock.start_time;
    let elapsed = app.clock.elapsed;
    let reading = app.clock.last_reading;
    assert_eq!(app.finish_tick(true), None);
    assert_eq!(app.clock.start_time, start);
    assert_eq!(app.clock.elapsed, elapsed);
    assert_eq!(app.clock.last_reading, reading);
    app.context.is_suspended = false;
    assert_eq!(app.finish_tick(true), Some(Received::Nothing));
    assert!(app.clock.last_reading >= reading);
    assert!(app.clock.elapsed >= elapsed);
}

#[test]
fn quit_request_behind_other_messages_stops_within_their_count() {
    let mut app = match ApplicationState::create(config(), backend(true, vec![])) {
        Ok(app) => app,
        Err(_) => panic!("startup should succeed"),
    };
    let resized = SystemEventCode::CODE_RESIZED.code();
    let quit = SystemEventCode::CODE_APPLICATION_QUIT.code();
    let ctx = pincel::context::EventContext::from_u16_pair(10, 20);
    app.event_system.channel.send(Message::Pub { code: resized, sender: None, context: ctx });
    app.event_system.channel.send(Message::Pub { code: 0x300, sender: None, context: ctx });
    app.event_system.channel.send(Message::Pub {
        code: quit,
        sender: None,
        context: pincel::context::EventContext::zeroed(),
    });
    let mut ticks = 0;
    while app.context.is_running {
        app.finish_tick(true);
        ticks += 1;
        assert!(ticks <= 3);
    }
    assert_eq!(ticks, 3);
    assert_eq!((app.context.width, app.context.height), (10, 20));
}

#[test]
fn finish_tick_follows_the_queue() {
    let mut app = match ApplicationState::create(config(), backend(true, vec![])) {
        Ok(app) => app,
        Err(_) => panic!("startup should succeed"),
    };
    let pressed = SystemEventCode::CODE_KEY_PRESSED.code();
    let quit = SystemEventCode::CODE_APPLICATION_QUIT.code();
    app.input.process_key(&mut app.event_system.channel, Keys::ESCAPE, true);
    assert_eq!(app.finish_tick(true), Some(Received::Published { code: pressed, handled: true }));
    assert!(app.context.is_running);
    assert_eq!(app.finish_tick(true), Some(Received::Published { code: quit, handled: true }));
    assert!(!app.context.is_running);
    assert_eq!(app.finish_tick(true), Some(Received::Nothing));
}

#[test]
fn refused_pump_and_suspension() {
    let mut app = match ApplicationState::create(config(), backend(true, vec![])) {
        Ok(app) => app,
        Err(_) => panic!("startup should succeed"),
    };
    app.context.is_suspended = true;
    app.event_system.channel.send(Message::Shutdown);
    assert_eq!(app.finish_tick(true), None);
    assert!(app.context.is_running);
    assert_eq!(app.event_system.channel.len(), 1);
    assert_eq!(app.finish_tick(false), None);
    assert!(!app.context.is_running);
}

#[test]
fn shutdown_stops_the_application() {
    let mut app = match ApplicationState::create(config(), backend(true, vec![])) {
        Ok(app) => app,
        Err(_) => panic!("startup should succeed"),
    };
    app.event_system.channel.send(Message::Shutdown);
    assert_eq!(app.finish_tick(true), Some(Received::Shutdown));
    assert!(!app.context.is_running);
    assert_eq!(app.event_system.registered[1].len(), 0);
}

#[test]
fn platform_startup_depends_on_backend() {
    let mut wayland = PlatformState::new(Platform::Linux { backend: Backend::Wayland });
    let mut b = backend(true, vec![]);
    assert!(!wayland.startup(&mut b, 0, 0, 10, 10));
    assert_eq!(b.started, 0);
    let mut xorg = PlatformState::new(Platform::Linux { backend: Backend::Xorg });
    assert!(!xorg.started);
    assert!(xorg.startup(&mut b, 0, 0, 10, 10));
    assert!(xorg.started);
    assert_eq!(b.started, 1);
}

#[test]
fn clock_elapsed_follows_time() {
    let mut clock = Clock::new();
    assert!(clock.start_time.is_none());
    clock.update_at(500);
    assert_eq!(clock.elapsed, 0);
    clock.start_at(1_000);
    assert_eq!(clock.elapsed, 0);
    clock.update_at(1_250);
    let e1 = clock.elapsed;
    clock.update_at(3_250);
    let e2 = clock.elapsed;
    assert_eq!(e1, 250);
    assert_eq!(e2 - e1, 2_000);
    clock.stop();
    clock.update_at(9_000);
    assert_eq!(clock.elapsed, 2_250);
    clock.update_at(10);
    assert_eq!(clock.elapsed, 2_250);
}

#[test]
fn clock_reads_the_monotonic_time() {
    let mut clock = Clock::new();
    let t1 = clock.get_absolute_time();
    assert_eq!(clock.last_reading, t1);
    let t2 = clock.get_absolute_time();
    assert!(t2 >= t1);
    clock.start();
    assert_eq!(clock.elapsed, 0);
    assert!(clock.start_time.unwrap() >= t1);
    let mut spin: u64 = 0;
    while clock.get_absolute_time() == clock.start_time.unwrap() {
        spin += 1;
    }
    assert!(spin < u64::MAX);
    clock.update();
    assert!(clock.elapsed > 0);
}

#[test]
fn log_records_carry_level_tags() {
    assert_eq!(log_output(LogLevel::Info, "ready"), "[INFO]:  ready\n");
    assert_eq!(log_output(LogLevel::Fatal, ""), "[FATAL]: \n");
    assert_eq!(log_output(LogLevel::Trace, "x"), "[TRACE]: x\n");
    assert!(LogLevel::Fatal.is_error());
    assert!(LogLevel::Error.is_error());
    assert!(!LogLevel::Warn.is_error());
    assert_eq!(LogLevel::Debug.colour(), "1;34");
}

#[test]
fn colours_by_name() {
    let mut c = CurrentColorSingleton::new();
    assert_eq!(c.value(), 0xffebb437);
    c.set("red");
    assert_eq!(c.value(), 0xffff3c3c);
    c.set("black");
    assert_eq!(c.current, CurrentColor::Black);
    assert_eq!(c.value(), 0xff242424);
    c.set("purple");
    assert_eq!(c.current, CurrentColor::NotSupported);
    assert_eq!(c.value(), 0);
    c.set("re");
    assert_eq!(c.value(), 0);
    assert_eq!(CurrentColor::from_name("orange").value(), 0xffeb7d0f);
    assert_eq!(LineWidth::Wide.pixels(), 3);
}

#[test]
fn viewport_and_movement() {
    let mut v = Viewport::for_window(800, 600);
    assert_eq!((v.x, v.y, v.w, v.h), (0, 0, 800, 600));
    v.update_size(1024, 768);
    assert_eq!((v.x, v.y, v.w, v.h), (0, 0, 1024, 768));
    let mut m = WasdMovement::new();
    assert!(!m.has_movement());
    assert_eq!(m.direction(), (0, 0, 0));
    m.right = true;
    m.up = true;
    assert!(m.has_movement());
    assert_eq!(m.direction(), (1, 0, 1));
    m.left = true;
    m.backward = true;
    assert_eq!(m.direction(), (0, -1, 1));
}

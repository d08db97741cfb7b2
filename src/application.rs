use crate::clock::Clock;
use crate::context::{signed16, u16_slot, EventContext};
use crate::event::{
    CallbackIdentity, Channel, Delivery, Message, OnEvent, Registered, SystemEventCode,
    MAX_MESSAGE_CODES,
};
use crate::input::{InputState, Keys};
use crate::platform::{Backend, Platform, PlatformBackend, PlatformState};
use crate::registry::{
    dispatch_from, fire_result, lemma_listen_advances_queue, listen_step, EventSystem, Received,
};
use vstd::prelude::*;

verus! {

/// Where and how large the application's surface starts.
#[derive(Clone, Copy, Debug)]
pub struct ApplicationConfig {
    /// Window starting position on the x axis, if applicable.
    pub start_pos_x: i16,
    /// Window starting position on the y axis, if applicable.
    pub start_pos_y: i16,
    /// Window starting width, if applicable.
    pub start_width: u16,
    /// Window starting height, if applicable.
    pub start_height: u16,
}

/// Why an application could not be created.
#[derive(Clone, Copy, Debug, PartialEq, Eq, Structural)]
pub enum ApplicationError {
    /// The platform could not bring up its surface.
    PlatformStartupFailed,
}

/// A failed creation: why, and the backend handed back.
pub struct CreateError<B> {
    pub error: ApplicationError,
    pub backend: B,
}

/// The part of the application that callbacks read and change.
#[derive(Clone, Copy, Debug, PartialEq, Eq, Structural)]
pub struct AppContext {
    pub is_running: bool,
    pub is_suspended: bool,
    pub width: u16,
    pub height: u16,
    pub mouse_x: i16,
    pub mouse_y: i16,
}

/// The listeners the application subscribes for itself.
#[derive(Clone, Copy, Debug, PartialEq, Eq, Structural)]
pub enum AppCallback {
    /// Stops the application on a quit request.
    OnQuit,
    /// Claims key presses; Escape also publishes a quit request.
    OnKey,
    /// Records the new surface size.
    OnResized,
    /// Claims mouse button and wheel events.
    OnMouseButton,
    /// Records the mouse position.
    OnMouseMoved,
}

/// Stops the application on `CODE_APPLICATION_QUIT`, claiming the event.
pub fn application_on_event(d: Delivery, state: &mut AppContext) -> (handled: bool)
    ensures
        handled == AppCallback::OnQuit.handles(d, *old(state)),
        *final(state) == AppCallback::OnQuit.next_state(d, *old(state)),
{
    if d.code == SystemEventCode::CODE_APPLICATION_QUIT.code() {
        state.is_running = false;
        true
    } else {
        false
    }
}

/// Claims every key press; when the key is Escape it also publishes a quit
/// request on `channel`. Releases are left to other listeners.
pub fn application_on_key(d: Delivery, channel: &mut Channel<AppCallback>) -> (handled: bool)
    ensures
        forall|s: AppContext| handled == #[trigger] AppCallback::OnKey.handles(d, s),
        forall|s: AppContext|
            final(channel)@ == old(channel)@ + #[trigger] AppCallback::OnKey.published(d, s),
{
    if d.code == SystemEventCode::CODE_KEY_PRESSED.code() {
        if d.context.get_u16(0) == Keys::ESCAPE.code() {
            channel.send(
                Message::Pub {
                    code: SystemEventCode::CODE_APPLICATION_QUIT.code(),
                    sender: None,
                    context: EventContext::zeroed(),
                },
            );
        } else {
            assert(old(channel)@ + Seq::<Message<AppCallback>>::empty() =~= old(channel)@);
        }
        true
    } else {
        assert(old(channel)@ + Seq::<Message<AppCallback>>::empty() =~= old(channel)@);
        false
    }
}

/// Records the width and height a resize carries, claiming the event.
pub fn application_on_resized(d: Delivery, state: &mut AppContext) -> (handled: bool)
    ensures
        handled == AppCallback::OnResized.handles(d, *old(state)),
        *final(state) == AppCallback::OnResized.next_state(d, *old(state)),
{
    if d.code == SystemEventCode::CODE_RESIZED.code() {
        state.width = d.context.get_u16(0);
        state.height = d.context.get_u16(1);
        true
    } else {
        false
    }
}

/// Records the position a mouse move carries, claiming the event.
pub fn application_on_mouse_moved(d: Delivery, state: &mut AppContext) -> (handled: bool)
    ensures
        handled == AppCallback::OnMouseMoved.handles(d, *old(state)),
        *final(state) == AppCallback::OnMouseMoved.next_state(d, *old(state)),
{
    if d.code == SystemEventCode::CODE_MOUSE_MOVED.code() {
        state.mouse_x = d.context.get_i16(0);
        state.mouse_y = d.context.get_i16(1);
        true
    } else {
        false
    }
}

/// Claims mouse button presses and releases and wheel turns.
pub fn application_on_mouse_button(d: Delivery) -> (handled: bool)
    ensures
        forall|s: AppContext| handled == #[trigger] AppCallback::OnMouseButton.handles(d, s),
{
    d.code == SystemEventCode::CODE_BUTTON_PRESSED.code() || d.code
        == SystemEventCode::CODE_BUTTON_RELEASED.code() || d.code
        == SystemEventCode::CODE_MOUSE_WHEEL.code()
}

impl CallbackIdentity for AppCallback {
    fn same_callback(&self, other: &Self) -> (r: bool) {
        match (self, other) {
            (AppCallback::OnQuit, AppCallback::OnQuit) => true,
            (AppCallback::OnKey, AppCallback::OnKey) => true,
            (AppCallback::OnResized, AppCallback::OnResized) => true,
            (AppCallback::OnMouseButton, AppCallback::OnMouseButton) => true,
            (AppCallback::OnMouseMoved, AppCallback::OnMouseMoved) => true,
            _ => false,
        }
    }
}

impl OnEvent<AppContext> for AppCallback {
    open spec fn handles(&self, d: Delivery, state: AppContext) -> bool {
        match self {
            AppCallback::OnQuit => d.code == SystemEventCode::CODE_APPLICATION_QUIT.spec_code(),
            AppCallback::OnKey => d.code == SystemEventCode::CODE_KEY_PRESSED.spec_code(),
            AppCallback::OnResized => d.code == SystemEventCode::CODE_RESIZED.spec_code(),
            AppCallback::OnMouseButton => d.code == SystemEventCode::CODE_BUTTON_PRESSED.spec_code()
                || d.code == SystemEventCode::CODE_BUTTON_RELEASED.spec_code() || d.code
                == SystemEventCode::CODE_MOUSE_WHEEL.spec_code(),
            AppCallback::OnMouseMoved => d.code == SystemEventCode::CODE_MOUSE_MOVED.spec_code(),
        }
    }

    open spec fn next_state(&self, d: Delivery, state: AppContext) -> AppContext {
        match self {
            AppCallback::OnQuit => if d.code == SystemEventCode::CODE_APPLICATION_QUIT.spec_code() {
                AppContext { is_running: false, ..state }
            } else {
                state
            },
            AppCallback::OnResized => if d.code == SystemEventCode::CODE_RESIZED.spec_code() {
                AppContext {
                    width: u16_slot(d.context.data@, 0) as u16,
                    height: u16_slot(d.context.data@, 1) as u16,
                    ..state
                }
            } else {
                state
            },
            AppCallback::OnMouseMoved => if d.code == SystemEventCode::CODE_MOUSE_MOVED.spec_code() {
                AppContext {
                    mouse_x: signed16(u16_slot(d.context.data@, 0)) as i16,
                    mouse_y: signed16(u16_slot(d.context.data@, 1)) as i16,
                    ..state
                }
            } else {
                state
            },
            _ => state,
        }
    }

    open spec fn published(&self, d: Delivery, state: AppContext) -> Seq<Message<AppCallback>> {
        match self {
            AppCallback::OnKey => if d.code == SystemEventCode::CODE_KEY_PRESSED.spec_code()
                && u16_slot(d.context.data@, 0) == Keys::ESCAPE.spec_code() {
                seq![
                    Message::Pub {
                        code: SystemEventCode::CODE_APPLICATION_QUIT.spec_code(),
                        sender: None,
                        context: EventContext::spec_zeroed(),
                    },
                ]
            } else {
                Seq::empty()
            },
            _ => Seq::empty(),
        }
    }

    fn on_event(
        &self,
        d: Delivery,
        state: &mut AppContext,
        channel: &mut Channel<AppCallback>,
    ) -> (handled: bool) {
        match self {
            AppCallback::OnQuit => {
                assert(old(channel)@ + Seq::<Message<AppCallback>>::empty() =~= old(channel)@);
                application_on_event(d, state)
            },
            AppCallback::OnKey => application_on_key(d, channel),
            AppCallback::OnResized => {
                assert(old(channel)@ + Seq::<Message<AppCallback>>::empty() =~= old(channel)@);
                application_on_resized(d, state)
            },
            AppCallback::OnMouseButton => {
                assert(old(channel)@ + Seq::<Message<AppCallback>>::empty() =~= old(channel)@);
                application_on_mouse_button(d)
            },
            AppCallback::OnMouseMoved => {
                assert(old(channel)@ + Seq::<Message<AppCallback>>::empty() =~= old(channel)@);
                application_on_mouse_moved(d, state)
            },
        }
    }
}

/// The callback the application subscribes for itself to `code`, if any.
pub open spec fn builtin_callback(code: int) -> Option<AppCallback> {
    if code == SystemEventCode::CODE_APPLICATION_QUIT.spec_code() {
        Some(AppCallback::OnQuit)
    } else if code == SystemEventCode::CODE_RESIZED.spec_code() {
        Some(AppCallback::OnResized)
    } else if code == SystemEventCode::CODE_KEY_PRESSED.spec_code() || code
        == SystemEventCode::CODE_KEY_RELEASED.spec_code() {
        Some(AppCallback::OnKey)
    } else if code == SystemEventCode::CODE_BUTTON_PRESSED.spec_code() || code
        == SystemEventCode::CODE_BUTTON_RELEASED.spec_code() || code
        == SystemEventCode::CODE_MOUSE_WHEEL.spec_code() {
        Some(AppCallback::OnMouseButton)
    } else if code == SystemEventCode::CODE_MOUSE_MOVED.spec_code() {
        Some(AppCallback::OnMouseMoved)
    } else {
        None
    }
}

/// Whether the subscriptions of `sys` are exactly the built-in ones, each made
/// without a listener identity.
pub open spec fn has_builtin_table(sys: EventSystem<AppCallback>) -> bool {
    forall|c: int|
        0 <= c < MAX_MESSAGE_CODES ==> #[trigger] sys.subscribers(c) == match builtin_callback(c) {
            Some(cb) => seq![(Registered { listener: None, callback: cb })],
            None => Seq::<Registered<AppCallback>>::empty(),
        }
}

/// Subscribes the built-in callbacks to an empty table.
fn register_builtins(sys: &mut EventSystem<AppCallback>)
    requires
        old(sys).wf(),
        forall|c: int| 0 <= c < MAX_MESSAGE_CODES ==> (#[trigger] old(sys).subscribers(c)).len() == 0,
    ensures
        final(sys).wf(),
        final(sys).channel@ == old(sys).channel@,
        has_builtin_table(*final(sys)),
{
    let ghost s0 = *sys;
    sys.register(SystemEventCode::CODE_APPLICATION_QUIT.code(), None, AppCallback::OnQuit);
    let ghost s1 = *sys;
    sys.register(SystemEventCode::CODE_RESIZED.code(), None, AppCallback::OnResized);
    let ghost s2 = *sys;
    sys.register(SystemEventCode::CODE_KEY_PRESSED.code(), None, AppCallback::OnKey);
    let ghost s3 = *sys;
    sys.register(SystemEventCode::CODE_KEY_RELEASED.code(), None, AppCallback::OnKey);
    let ghost s4 = *sys;
    sys.register(SystemEventCode::CODE_BUTTON_PRESSED.code(), None, AppCallback::OnMouseButton);
    let ghost s5 = *sys;
    sys.register(SystemEventCode::CODE_BUTTON_RELEASED.code(), None, AppCallback::OnMouseButton);
    let ghost s6 = *sys;
    sys.register(SystemEventCode::CODE_MOUSE_WHEEL.code(), None, AppCallback::OnMouseButton);
    let ghost s7 = *sys;
    sys.register(SystemEventCode::CODE_MOUSE_MOVED.code(), None, AppCallback::OnMouseMoved);
    assert forall|c: int| 0 <= c < MAX_MESSAGE_CODES implies #[trigger] sys.subscribers(c)
        == match builtin_callback(c) {
        Some(cb) => seq![(Registered { listener: None, callback: cb })],
        None => Seq::<Registered<AppCallback>>::empty(),
    } by {
        assert(s0.subscribers(c).len() == 0);
        assert(s1.subscribers(c) == s0.subscribers(c) || c == 1);
        assert(s2.subscribers(c) == s1.subscribers(c) || c == 8);
        assert(s3.subscribers(c) == s2.subscribers(c) || c == 2);
        assert(s4.subscribers(c) == s3.subscribers(c) || c == 3);
        assert(s5.subscribers(c) == s4.subscribers(c) || c == 4);
        assert(s6.subscribers(c) == s5.subscribers(c) || c == 5);
        assert(s7.subscribers(c) == s6.subscribers(c) || c == 7);
        assert(sys.subscribers(c) == s7.subscribers(c) || c == 6);
        if 1 <= c <= 8 {
            assert(s0.subscribers(c) =~= Seq::<Registered<AppCallback>>::empty());
        }
        assert(Seq::<Registered<AppCallback>>::empty().push(
            (Registered { listener: None, callback: AppCallback::OnQuit }),
        ) =~= seq![(Registered { listener: None, callback: AppCallback::OnQuit })]);
        assert(Seq::<Registered<AppCallback>>::empty().push(
            (Registered { listener: None, callback: AppCallback::OnResized }),
        ) =~= seq![(Registered { listener: None, callback: AppCallback::OnResized })]);
        assert(Seq::<Registered<AppCallback>>::empty().push(
            (Registered { listener: None, callback: AppCallback::OnKey }),
        ) =~= seq![(Registered { listener: None, callback: AppCallback::OnKey })]);
        assert(Seq::<Registered<AppCallback>>::empty().push(
            (Registered { listener: None, callback: AppCallback::OnMouseButton }),
        ) =~= seq![(Registered { listener: None, callback: AppCallback::OnMouseButton })]);
        assert(Seq::<Registered<AppCallback>>::empty().push(
            (Registered { listener: None, callback: AppCallback::OnMouseMoved }),
        ) =~= seq![(Registered { listener: None, callback: AppCallback::OnMouseMoved })]);
    }
}

/// The application: its context, the platform and its backend, the clock, the
/// input state and the event system. It is an owned value; several can live
/// side by side.
pub struct ApplicationState<B> {
    pub context: AppContext,
    pub platform: PlatformState,
    pub backend: B,
    pub clock: Clock,
    pub input: InputState,
    pub event_system: EventSystem<AppCallback>,
}

impl<B: PlatformBackend<AppCallback>> ApplicationState<B> {
    pub open spec fn wf(&self) -> bool {
        &&& self.event_system.wf()
        &&& self.clock.wf()
    }

    /// Creates the application on Linux with `backend` as its Xorg backend:
    /// subscribes the built-in callbacks, then asks the backend for a surface at
    /// the configured position and size. Fails, handing the backend back, when
    /// that surface does not come up; succeeds when it does.
    pub fn create(config: ApplicationConfig, backend: B) -> (r: Result<
        ApplicationState<B>,
        CreateError<B>,
    >)
        ensures
            r matches Err(f) ==> {
                &&& f.error == ApplicationError::PlatformStartupFailed
                &&& f.backend.surface() != Some(
                    (config.start_pos_x, config.start_pos_y, config.start_width, config.start_height),
                )
            },
            r matches Ok(app) ==> {
                &&& app.backend.surface() == Some(
                    (config.start_pos_x, config.start_pos_y, config.start_width, config.start_height),
                )
                &&& app.wf()
                &&& app.context == (AppContext {
                    is_running: true,
                    is_suspended: false,
                    width: config.start_width,
                    height: config.start_height,
                    mouse_x: 0,
                    mouse_y: 0,
                })
                &&& app.platform == (PlatformState {
                    platform: Platform::Linux { backend: Backend::Xorg },
                    started: true,
                })
                &&& has_builtin_table(app.event_system)
                &&& app.event_system.channel@ == Seq::<Message<AppCallback>>::empty()
                &&& app.clock.start_time is None
                &&& forall|i: int| 0 <= i < app.input@.keys.len() ==> !app.input@.keys[i]
            },
    {
        let mut platform = PlatformState::new(Platform::Linux { backend: Backend::Xorg });
        let input = InputState::new();
        let mut event_system: EventSystem<AppCallback> = EventSystem::new();
        register_builtins(&mut event_system);
        let mut backend = backend;
        if !platform.startup(
            &mut backend,
            config.start_pos_x,
            config.start_pos_y,
            config.start_width,
            config.start_height,
        ) {
            return Err(CreateError { error: ApplicationError::PlatformStartupFailed, backend });
        }
        Ok(
            ApplicationState {
                context: AppContext {
                    is_running: true,
                    is_suspended: false,
                    width: config.start_width,
                    height: config.start_height,
                    mouse_x: 0,
                    mouse_y: 0,
                },
                platform,
                backend,
                clock: Clock::new(),
                input,
                event_system,
            },
        )
    }

    /// Starts the clock; the main loop runs after it.
    pub fn prepare_run(&mut self)
        requires
            old(self).wf(),
        ensures
            final(self).wf(),
            final(self).clock.start_time is Some,
            final(self).clock.origin == old(self).clock.origin,
            final(self).context == old(self).context,
            final(self).event_system == old(self).event_system,
    {
        self.clock.start();
        self.clock.update();
    }

    /// The rest of a tick once the platform was pumped (`pumped` is what the pump
    /// answered): a refused pump stops the application; unless it is suspended,
    /// the clock advances and at most one message is taken and acted on, and a
    /// shutdown request stops the application too. Gives what was received, or
    /// `None` while suspended.
    pub fn finish_tick(&mut self, pumped: bool) -> (r: Option<Received>)
        requires
            old(self).wf(),
        ensures
            final(self).wf(),
            ({
                let c1 = AppContext {
                    is_running: old(self).context.is_running && pumped,
                    ..old(self).context
                };
                &&& final(self).input == old(self).input
                &&& final(self).backend == old(self).backend
                &&& final(self).platform == old(self).platform
                &&& old(self).context.is_suspended ==> {
                    &&& r is None
                    &&& final(self).context == c1
                    &&& final(self).event_system == old(self).event_system
                    &&& final(self).clock == old(self).clock
                }
                &&& !old(self).context.is_suspended ==> exists|now: u64|
                    now >= old(self).clock.last_reading && final(self).clock == old(
                        self,
                    ).clock.with_reading(now).updated_at(now)
                &&& !old(self).context.is_suspended ==> match r {
                    Some(Received::Shutdown) => {
                        &&& listen_step(
                            old(self).event_system,
                            c1,
                            Received::Shutdown,
                            final(self).event_system,
                            c1,
                        )
                        &&& final(self).context == (AppContext { is_running: false, ..c1 })
                    },
                    Some(received) => listen_step(
                        old(self).event_system,
                        c1,
                        received,
                        final(self).event_system,
                        final(self).context,
                    ),
                    None => false,
                }
            }),
    {
        if !pumped {
            self.context.is_running = false;
        }
        if self.context.is_suspended {
            return None;
        }
        self.clock.update();
        let received = self.event_system.listen_messages(&mut self.context);
        if received == Received::Shutdown {
            self.context.is_running = false;
        }
        Some(received)
    }

    /// Opens a tick: the current input snapshot becomes the previous one, before
    /// the platform reports this tick's input.
    pub fn begin_tick(&mut self)
        ensures
            final(self).input@ == old(self).input@.advanced(),
            final(self).context == old(self).context,
            final(self).clock == old(self).clock,
            final(self).event_system == old(self).event_system,
            final(self).platform == old(self).platform,
            final(self).backend == old(self).backend,
    {
        self.input.update();
    }

    /// One iteration of the main loop: opens the tick, pumps the platform, then
    /// finishes the tick. Gives whether the application is still running.
    pub fn tick(&mut self) -> (running: bool)
        requires
            old(self).wf(),
        ensures
            final(self).wf(),
            running == final(self).context.is_running,
    {
        self.begin_tick();
        let pumped = self.backend.pump_messages(&mut self.input, &mut self.event_system.channel);
        self.finish_tick(pumped);
        self.context.is_running
    }
}

/// The quit request the Escape key turns into.
pub open spec fn quit_request() -> Message<AppCallback> {
    Message::Pub {
        code: SystemEventCode::CODE_APPLICATION_QUIT.spec_code(),
        sender: None,
        context: EventContext::spec_zeroed(),
    }
}

/// With the built-in subscriptions, a press of Escape is claimed and appends a
/// quit request to the queue, leaving the context as it was; dispatching that
/// request is claimed too and stops the application.
pub proof fn lemma_escape_quits(
    sys: EventSystem<AppCallback>,
    sender: Option<u64>,
    context: EventContext,
    state: AppContext,
    queue: Seq<Message<AppCallback>>,
)
    requires
        sys.wf(),
        has_builtin_table(sys),
        u16_slot(context.data@, 0) == Keys::ESCAPE.spec_code(),
    ensures
        fire_result(
            sys.subscribers(SystemEventCode::CODE_KEY_PRESSED.spec_code() as int),
            SystemEventCode::CODE_KEY_PRESSED.spec_code(),
            sender,
            context,
            state,
            queue,
        ) == (true, state, queue.push(quit_request())),
        fire_result(
            sys.subscribers(SystemEventCode::CODE_APPLICATION_QUIT.spec_code() as int),
            SystemEventCode::CODE_APPLICATION_QUIT.spec_code(),
            sender,
            EventContext::spec_zeroed(),
            state,
            queue,
        ) == (true, AppContext { is_running: false, ..state }, queue),
{
    let key_subs = sys.subscribers(2);
    assert(key_subs == seq![(Registered { listener: None, callback: AppCallback::OnKey })]);
    assert(queue + seq![quit_request()] =~= queue.push(quit_request()));
    let quit_subs = sys.subscribers(1);
    assert(quit_subs == seq![(Registered { listener: None, callback: AppCallback::OnQuit })]);
    assert(queue + Seq::<Message<AppCallback>>::empty() =~= queue);
}

/// Whether `m` is a request to quit.
pub open spec fn is_quit_request(m: Message<AppCallback>) -> bool {
    m matches Message::Pub { code, .. } && code == SystemEventCode::CODE_APPLICATION_QUIT.spec_code()
}

/// Whether the first subscription to quit requests is the built-in quit listener.
pub open spec fn quit_listener_first(sys: EventSystem<AppCallback>) -> bool {
    let subs = sys.subscribers(SystemEventCode::CODE_APPLICATION_QUIT.spec_code() as int);
    subs.len() > 0 && subs[0].callback == AppCallback::OnQuit
}

/// A quit request at the front of the queue, with the quit listener subscribed
/// first, is claimed by the next pass of `listen_messages`, which stops the
/// application.
pub proof fn lemma_quit_at_front_stops(
    pre: EventSystem<AppCallback>,
    pre_state: AppContext,
    r: Received,
    post: EventSystem<AppCallback>,
    post_state: AppContext,
)
    requires
        pre.wf(),
        pre.channel@.len() > 0,
        is_quit_request(pre.channel@[0]),
        quit_listener_first(pre),
        listen_step(pre, pre_state, r, post, post_state),
    ensures
        r == (Received::Published {
            code: SystemEventCode::CODE_APPLICATION_QUIT.spec_code(),
            handled: true,
        }),
        !post_state.is_running,
{
    let subs = pre.subscribers(1);
    match pre.channel@[0] {
        Message::Pub { code, sender, context } => {
            let d = dispatch_from(subs, 0, code, sender, context, pre_state, pre.channel@.drop_first());
            assert(d.0);
        },
        _ => {},
    }
}

/// A quit request with `k` messages ahead of it stops the application within
/// `k + 1` passes of `listen_messages`, when the quit listener is subscribed
/// first and none of those passes meets a shutdown. `systems[j]` and
/// `systems[j + 1]` are the event system before and after pass `j`, which starts
/// from `before[j]` and leaves `after[j]`; between passes the context may change.
pub proof fn lemma_quit_request_stops_within(
    systems: Seq<EventSystem<AppCallback>>,
    before: Seq<AppContext>,
    after: Seq<AppContext>,
    received: Seq<Received>,
    k: nat,
)
    requires
        systems.len() == k + 2,
        before.len() == k + 1,
        after.len() == k + 1,
        received.len() == k + 1,
        systems[0].wf(),
        k < systems[0].channel@.len(),
        is_quit_request(systems[0].channel@[k as int]),
        quit_listener_first(systems[0]),
        forall|j: int|
            0 <= j <= k ==> #[trigger] listen_step(
                systems[j],
                before[j],
                received[j],
                systems[j + 1],
                after[j],
            ),
        forall|j: int| 0 <= j <= k ==> #[trigger] received[j] != Received::Shutdown,
    ensures
        !after[k as int].is_running,
{
    lemma_quit_request_moves_forward(systems, before, after, received, k, 0);
    assert(listen_step(systems[k as int], before[k as int], received[k as int], systems[k + 1int], after[k as int]));
    lemma_quit_at_front_stops(systems[k as int], before[k as int], received[k as int], systems[k + 1int], after[k as int]);
}

proof fn lemma_quit_request_moves_forward(
    systems: Seq<EventSystem<AppCallback>>,
    before: Seq<AppContext>,
    after: Seq<AppContext>,
    received: Seq<Received>,
    k: nat,
    j: nat,
)
    requires
        systems.len() == k + 2,
        before.len() == k + 1,
        after.len() == k + 1,
        received.len() == k + 1,
        j <= k,
        systems[j as int].wf(),
        k - j < systems[j as int].channel@.len(),
        is_quit_request(systems[j as int].channel@[k - j]),
        quit_listener_first(systems[j as int]),
        forall|i: int|
            0 <= i <= k ==> #[trigger] listen_step(
                systems[i],
                before[i],
                received[i],
                systems[i + 1],
                after[i],
            ),
        forall|i: int| 0 <= i <= k ==> #[trigger] received[i] != Received::Shutdown,
    ensures
        systems[k as int].wf(),
        0 < systems[k as int].channel@.len(),
        is_quit_request(systems[k as int].channel@[0]),
        quit_listener_first(systems[k as int]),
    decreases k - j,
{
    if j < k {
        let i = j as int;
        assert(listen_step(systems[i], before[i], received[i], systems[i + 1], after[i]));
        assert(received[i] != Received::Shutdown);
        lemma_listen_advances_queue(
            systems[i],
            before[i],
            received[i],
            systems[i + 1],
            after[i],
            k - j,
        );
        assert(systems[i + 1].subscribers(1)[0] == systems[i].subscribers(1)[0]);
        lemma_quit_request_moves_forward(systems, before, after, received, k, j + 1);
    }
}

} // verus!

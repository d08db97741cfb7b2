use crate::context::{signed16, u16_slot, EventContext, CONTEXT_BYTES};
use std::collections::VecDeque;
use vstd::prelude::*;

verus! {

/// Number of slots in the subscriber table: every valid event code is below it.
pub const MAX_MESSAGE_CODES: u16 = 16384;

/// Largest code reserved for the system; application codes are above it.
pub const MAX_SYSTEM_CODE: u16 = 0xFF;

/// Event codes reserved by the runtime itself.
#[allow(non_camel_case_types)]
#[derive(Clone, Copy, Debug, PartialEq, Eq, Structural)]
pub enum SystemEventCode {
    /// Shuts the application down on the next frame.
    CODE_APPLICATION_QUIT,
    /// A keyboard key went down; 16-bit slot 0 holds the key code.
    CODE_KEY_PRESSED,
    /// A keyboard key went up; 16-bit slot 0 holds the key code.
    CODE_KEY_RELEASED,
    /// A mouse button went down; 16-bit slot 0 holds the button id.
    CODE_BUTTON_PRESSED,
    /// A mouse button went up; 16-bit slot 0 holds the button id.
    CODE_BUTTON_RELEASED,
    /// The mouse moved; signed 16-bit slots 0 and 1 hold x and y.
    CODE_MOUSE_MOVED,
    /// The mouse wheel turned; 8-bit slot 0 holds the delta.
    CODE_MOUSE_WHEEL,
    /// The surface was resized; unsigned 16-bit slots 0 and 1 hold width and height.
    CODE_RESIZED,
    /// Sentinel: the last code reserved for the system.
    MAX_CODE,
}

impl SystemEventCode {
    pub open spec fn spec_code(self) -> u16 {
        match self {
            SystemEventCode::CODE_APPLICATION_QUIT => 0x01,
            SystemEventCode::CODE_KEY_PRESSED => 0x02,
            SystemEventCode::CODE_KEY_RELEASED => 0x03,
            SystemEventCode::CODE_BUTTON_PRESSED => 0x04,
            SystemEventCode::CODE_BUTTON_RELEASED => 0x05,
            SystemEventCode::CODE_MOUSE_MOVED => 0x06,
            SystemEventCode::CODE_MOUSE_WHEEL => 0x07,
            SystemEventCode::CODE_RESIZED => 0x08,
            SystemEventCode::MAX_CODE => MAX_SYSTEM_CODE,
        }
    }

    /// The numeric code on the bus.
    pub fn code(self) -> (r: u16)
        ensures
            r == self.spec_code(),
            r <= MAX_SYSTEM_CODE,
    {
        match self {
            SystemEventCode::CODE_APPLICATION_QUIT => 0x01,
            SystemEventCode::CODE_KEY_PRESSED => 0x02,
            SystemEventCode::CODE_KEY_RELEASED => 0x03,
            SystemEventCode::CODE_BUTTON_PRESSED => 0x04,
            SystemEventCode::CODE_BUTTON_RELEASED => 0x05,
            SystemEventCode::CODE_MOUSE_MOVED => 0x06,
            SystemEventCode::CODE_MOUSE_WHEEL => 0x07,
            SystemEventCode::CODE_RESIZED => 0x08,
            SystemEventCode::MAX_CODE => MAX_SYSTEM_CODE,
        }
    }

    /// The system code with the given number, if there is one.
    pub fn from_code(code: u16) -> (r: Option<SystemEventCode>)
        ensures
            r matches Some(c) ==> c.spec_code() == code,
            r is None ==> forall|c: SystemEventCode| c.spec_code() != code,
    {
        match code {
            0x01 => Some(SystemEventCode::CODE_APPLICATION_QUIT),
            0x02 => Some(SystemEventCode::CODE_KEY_PRESSED),
            0x03 => Some(SystemEventCode::CODE_KEY_RELEASED),
            0x04 => Some(SystemEventCode::CODE_BUTTON_PRESSED),
            0x05 => Some(SystemEventCode::CODE_BUTTON_RELEASED),
            0x06 => Some(SystemEventCode::CODE_MOUSE_MOVED),
            0x07 => Some(SystemEventCode::CODE_MOUSE_WHEEL),
            0x08 => Some(SystemEventCode::CODE_RESIZED),
            0xFF => Some(SystemEventCode::MAX_CODE),
            _ => None,
        }
    }
}


/// An envelope on the bus.
pub enum Message<C> {
    /// Deliver `context` to the subscribers of `code`.
    Pub { code: u16, sender: Option<u64>, context: EventContext },
    /// Subscribe `on_event`, on behalf of `listener`, to `code`.
    Sub { code: u16, listener: Option<u64>, on_event: C },
    /// Stop dispatching and drop what is still queued.
    Shutdown,
}

/// Whether `m` publishes `code` from no particular sender with a payload whose
/// first 16-bit slot holds `value` and whose other bytes are zero.
pub open spec fn is_publish_u16<C>(m: Message<C>, code: u16, value: u16) -> bool {
    match m {
        Message::Pub { code: c, sender, context } => {
            &&& c == code
            &&& sender is None
            &&& u16_slot(context.data@, 0) == value as int
            &&& forall|i: int| 2 <= i < CONTEXT_BYTES ==> context.data@[i] == 0
        },
        _ => false,
    }
}

/// Whether `m` publishes `code` from no particular sender with a payload whose
/// first two signed 16-bit slots hold `x` and `y` and whose other bytes are zero.
pub open spec fn is_publish_i16_pair<C>(m: Message<C>, code: u16, x: i16, y: i16) -> bool {
    match m {
        Message::Pub { code: c, sender, context } => {
            &&& c == code
            &&& sender is None
            &&& signed16(u16_slot(context.data@, 0)) == x as int
            &&& signed16(u16_slot(context.data@, 1)) == y as int
            &&& forall|i: int| 4 <= i < CONTEXT_BYTES ==> context.data@[i] == 0
        },
        _ => false,
    }
}

/// A FIFO of messages with a single consumer. Every producer appends through
/// `send`; the consumer takes from the front with `try_recv`.
pub struct Channel<C> {
    queue: VecDeque<Message<C>>,
}

impl<C> View for Channel<C> {
    type V = Seq<Message<C>>;

    closed spec fn view(&self) -> Seq<Message<C>> {
        self.queue@
    }
}

impl<C> Channel<C> {
    /// An empty channel.
    pub fn new() -> (r: Channel<C>)
        ensures
            r@ == Seq::<Message<C>>::empty(),
    {
        Channel { queue: VecDeque::new() }
    }

    /// Appends `msg` at the back of the queue.
    pub fn send(&mut self, msg: Message<C>)
        ensures
            final(self)@ == old(self)@.push(msg),
    {
        self.queue.push_back(msg);
    }

    /// Takes the message at the front of the queue, if there is one; never blocks.
    pub fn try_recv(&mut self) -> (r: Option<Message<C>>)
        ensures
            old(self)@.len() == 0 ==> r is None && final(self)@ == old(self)@,
            old(self)@.len() > 0 ==> r == Some(old(self)@[0]) && final(self)@ == old(
                self,
            )@.drop_first(),
    {
        let r = self.queue.pop_front();
        proof {
            if old(self)@.len() > 0 {
                assert(self.queue@ =~= old(self)@.drop_first());
            }
        }
        r
    }

    /// Number of messages waiting.
    pub fn len(&self) -> (r: usize)
        ensures
            r == self@.len(),
    {
        self.queue.len()
    }

    /// Drops every message waiting.
    pub fn clear(&mut self)
        ensures
            final(self)@ == Seq::<Message<C>>::empty(),
    {
        self.queue.clear();
    }
}

/// What a callback is handed when its code fires.
#[derive(Clone, Copy, Debug)]
pub struct Delivery {
    pub code: u16,
    pub sender: Option<u64>,
    pub listener: Option<u64>,
    pub context: EventContext,
}

/// Identity of callbacks, used to reject duplicate subscriptions.
pub trait CallbackIdentity: Sized {
    fn same_callback(&self, other: &Self) -> (r: bool)
        ensures
            r == (*self == *other),
    ;
}

/// A callback that subscribers register: it is invoked with the delivery, the
/// state it may change and the channel it may publish on, and answers whether it
/// handled the event. Its effect is described by three spec functions.
pub trait OnEvent<S>: Sized {
    /// Whether the callback claims the event.
    spec fn handles(&self, d: Delivery, state: S) -> bool;

    /// The state after the callback ran.
    spec fn next_state(&self, d: Delivery, state: S) -> S;

    /// The messages the callback appends to the channel, in order.
    spec fn published(&self, d: Delivery, state: S) -> Seq<Message<Self>>;

    fn on_event(&self, d: Delivery, state: &mut S, channel: &mut Channel<Self>) -> (handled: bool)
        ensures
            handled == self.handles(d, *old(state)),
            *final(state) == self.next_state(d, *old(state)),
            final(channel)@ == old(channel)@ + self.published(d, *old(state)),
    ;
}

/// One subscription: who subscribed (if anyone said) and what to call.
pub struct Registered<C> {
    pub listener: Option<u64>,
    pub callback: C,
}

/// Equality of optional identities.
pub fn same_identity(a: Option<u64>, b: Option<u64>) -> (r: bool)
    ensures
        r == (a == b),
{
    match (a, b) {
        (Some(x), Some(y)) => x == y,
        (None, None) => true,
        _ => false,
    }
}

} // verus!

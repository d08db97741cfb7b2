use crate::event::Channel;
use crate::input::InputState;
use vstd::prelude::*;

verus! {

/// Windowing backends of the Linux platform.
#[derive(Clone, Copy, Debug, PartialEq, Eq, Structural)]
pub enum Backend {
    Xorg,
    Wayland,
}

/// The platform the application runs on.
#[derive(Clone, Copy, Debug, PartialEq, Eq, Structural)]
pub enum Platform {
    Linux { backend: Backend },
}

/// What a native backend offers the runtime: a surface, and a pump that turns
/// pending native events into input reports. Each backend implements it once.
pub trait PlatformBackend<C> {
    /// The position and size of the surface that the last successful `startup`
    /// brought up; `None` while there is none.
    spec fn surface(&self) -> Option<(i16, i16, u16, u16)>;

    /// Creates and shows a native surface at the given geometry; true exactly
    /// when that surface is up afterwards.
    fn startup(&mut self, x: i16, y: i16, width: u16, height: u16) -> (r: bool)
        ensures
            r == (final(self).surface() == Some((x, y, width, height))),
    ;

    /// Processes one pending native event, or waits for one, reporting input
    /// changes through `input`; false exactly when the native layer asks the
    /// application to stop.
    fn pump_messages(&mut self, input: &mut InputState, channel: &mut Channel<C>) -> bool;
}

/// The selected platform and whether its surface is up.
#[derive(Clone, Copy, Debug)]
pub struct PlatformState {
    pub platform: Platform,
    pub started: bool,
}

impl PlatformState {
    /// The platform, not started yet.
    pub fn new(platform: Platform) -> (r: PlatformState)
        ensures
            r.platform == platform,
            !r.started,
    {
        PlatformState { platform, started: false }
    }

    /// Whether the platform has a backend that can create a surface: on Linux,
    /// only Xorg does.
    pub open spec fn supported(self) -> bool {
        self.platform == (Platform::Linux { backend: Backend::Xorg })
    }

    /// Brings up the surface through `backend`. An unsupported platform fails
    /// without calling it; otherwise the result is the backend's.
    pub fn startup<C, B: PlatformBackend<C>>(
        &mut self,
        backend: &mut B,
        x: i16,
        y: i16,
        width: u16,
        height: u16,
    ) -> (r: bool)
        ensures
            final(self).platform == old(self).platform,
            final(self).started == r,
            !old(self).supported() ==> !r && *final(backend) == *old(backend),
            old(self).supported() ==> r == (final(backend).surface() == Some((x, y, width, height))),
    {
        match self.platform {
            Platform::Linux { backend: Backend::Wayland } => {
                self.started = false;
                false
            },
            Platform::Linux { backend: Backend::Xorg } => {
                let up = backend.startup(x, y, width, height);
                self.started = up;
                up
            },
        }
    }
}

} // verus!

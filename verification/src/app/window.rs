//! Window options, the application context, and the names of the event
//! kinds a window can subscribe to.  The event loop itself is the
//! platform layer's work.

use vstd::prelude::*;

verus! {

/// Context information for the application.
#[derive(Debug, Clone, PartialEq, Eq)]
pub struct Context {
    /// The name of the application.
    pub name: String,
    /// The version of the application.
    pub version: String,
    /// The description of the application.
    pub description: String,
}

/// The kinds of events a window can subscribe a handler to.
#[derive(Debug, Clone, Copy, PartialEq, Eq, Structural)]
pub enum CoreEventReference {
    /// A window event (resize, close, input aimed at the window).
    WindowEvent,
    /// A device event (raw mouse or keyboard motion).
    DeviceEvent,
    /// A user-defined event.
    UserEvent,
    /// The application was suspended.
    AppSuspended,
    /// The application was resumed.
    AppResumed,
    /// A memory warning was received.
    MemoryWarning,
}

/// Options for creating a window.
#[derive(Debug, Clone, Copy, PartialEq, Eq, Structural)]
pub struct WindowOptions {
    /// Whether the window has decorations.
    pub decorations: bool,
    /// Whether the window can be resized.
    pub resizable: bool,
    /// Whether the window background is transparent.
    pub transparent: bool,
    /// Whether the window starts fullscreen.
    pub fullscreen: bool,
    /// Whether the title bar is hidden.
    pub no_titlebar: bool,
}

impl Default for WindowOptions {
    /// The default window: decorated, resizable, opaque, windowed, with a
    /// title bar.
    fn default() -> (r: Self)
        ensures
            r == (WindowOptions {
                decorations: true,
                resizable: true,
                transparent: false,
                fullscreen: false,
                no_titlebar: false,
            }),
    {
        WindowOptions {
            decorations: true,
            resizable: true,
            transparent: false,
            fullscreen: false,
            no_titlebar: false,
        }
    }
}

impl WindowOptions {
    /// Options for a window without decorations.
    pub fn no_decorations() -> (r: Self)
        ensures
            r == (WindowOptions {
                decorations: false,
                resizable: true,
                transparent: false,
                fullscreen: false,
                no_titlebar: false,
            }),
    {
        WindowOptions {
            decorations: false,
            resizable: true,
            transparent: false,
            fullscreen: false,
            no_titlebar: false,
        }
    }

    /// Options for a resizable window.
    pub fn resizable() -> (r: Self)
        ensures
            r == (WindowOptions {
                decorations: true,
                resizable: true,
                transparent: false,
                fullscreen: false,
                no_titlebar: false,
            }),
    {
        WindowOptions {
            decorations: true,
            resizable: true,
            transparent: false,
            fullscreen: false,
            no_titlebar: false,
        }
    }

    /// Options for a window with a transparent background.
    pub fn transparent() -> (r: Self)
        ensures
            r == (WindowOptions {
                decorations: true,
                resizable: true,
                transparent: true,
                fullscreen: false,
                no_titlebar: false,
            }),
    {
        WindowOptions {
            decorations: true,
            resizable: true,
            transparent: true,
            fullscreen: false,
            no_titlebar: false,
        }
    }

    /// Options for a fullscreen window.
    pub fn fullscreen() -> (r: Self)
        ensures
            r == (WindowOptions {
                decorations: true,
                resizable: true,
                transparent: false,
                fullscreen: true,
                no_titlebar: false,
            }),
    {
        WindowOptions {
            decorations: true,
            resizable: true,
            transparent: false,
            fullscreen: true,
            no_titlebar: false,
        }
    }

    /// Options for a window without a title bar.
    pub fn no_titlebar() -> (r: Self)
        ensures
            r == (WindowOptions {
                decorations: true,
                resizable: true,
                transparent: false,
                fullscreen: false,
                no_titlebar: true,
            }),
    {
        WindowOptions {
            decorations: true,
            resizable: true,
            transparent: false,
            fullscreen: false,
            no_titlebar: true,
        }
    }
}

} // verus!

//! A minimal application on top of the host: a window description, and the
//! routing of window events between the host's default handlers and the
//! application's own.

use vstd::prelude::*;
use vstd::string::*;
use crate::error::Error;
use crate::frame::{reaction_to, Event, Reaction, WINDOW_TITLE};

verus! {

/// How the window of an application is created and which events the host
/// handles by itself.
#[derive(Debug, PartialEq, Eq)]
pub struct WindowInitData {
    /// Title of the window.
    pub title: String,
    /// Logical size of the window, width and height.
    pub window_size: (i32, i32),
    /// The host stops the application when the window is asked to close.
    pub default_close_handler: bool,
    /// The host resizes surface and viewport when the window is resized.
    pub default_resize_handler: bool,
}

/// The state of the application. This one has none.
#[derive(Debug, Clone, Copy, PartialEq, Eq, Structural)]
pub struct AppData {
}

/// What an application hands to the host at start-up.
#[derive(Debug, PartialEq, Eq)]
pub struct InitData {
    pub window_init_data: WindowInitData,
    pub app_data: AppData,
}

/// The window of the application: 800 by 600, with both default handlers
/// switched on.
pub fn window_init() -> (init: Result<WindowInitData, Error>)
    ensures
        init matches Ok(window) && window.title@ == WINDOW_TITLE@ && window.window_size == (
            800i32,
            600i32,
        ) && window.default_close_handler && window.default_resize_handler,
{
    Ok(
        WindowInitData {
            title: String::from_str(WINDOW_TITLE),
            window_size: (800, 600),
            default_close_handler: true,
            default_resize_handler: true,
        },
    )
}

/// Called once when the loop has ended. The application has nothing to
/// give back.
pub fn app_shutdown(data: &mut AppData)
    ensures
        *final(data) == *old(data),
{
}

/// The application's own event handler, called for every event that no
/// default handler took. It ignores them all.
pub fn handle_events(event: &Event, keep_running: &mut bool, data: &mut AppData)
    ensures
        *final(keep_running) == *old(keep_running),
        *final(data) == *old(data),
{
}

/// `event` is taken by a default handler of the host.
pub open spec fn taken_by_default(window: WindowInitData, event: Event) -> bool {
    ||| window.default_close_handler && event is CloseRequested
    ||| window.default_resize_handler && event is Resized
}

/// Routes one event. A close request stops the application and a resize
/// is answered by resizing surface and viewport, each if its default
/// handler is switched on; every other event goes to [`handle_events`].
pub fn dispatch_event(
    window: &WindowInitData,
    event: &Event,
    keep_running: &mut bool,
    data: &mut AppData,
) -> (reaction: Reaction)
    ensures
        *final(keep_running) == (*old(keep_running) && !(window.default_close_handler
            && event is CloseRequested)),
        reaction == if window.default_resize_handler {
            reaction_to(*event)
        } else {
            Reaction::Nothing
        },
        *final(data) == *old(data),
{
    let mut handled: bool = false;
    let mut reaction: Reaction = Reaction::Nothing;
    if window.default_close_handler {
        match event {
            Event::CloseRequested => {
                *keep_running = false;
                handled = true;
            },
            _ => {},
        }
    }
    if window.default_resize_handler {
        match event {
            Event::Resized { width, height } => {
                reaction = Reaction::Resize { width: *width, height: *height };
                handled = true;
            },
            _ => {},
        }
    }
    if !handled {
        handle_events(event, keep_running, data);
    }
    reaction
}

} // verus!

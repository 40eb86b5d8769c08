use render_host::application::{
    app_shutdown, dispatch_event, handle_events, window_init, AppData, InitData, WindowInitData,
};
use render_host::frame::{Event, Reaction};
use render_host::input::Key;

fn window(close: bool, resize: bool) -> WindowInitData {
    WindowInitData {
        title: "t".to_string(),
        window_size: (320, 200),
        default_close_handler: close,
        default_resize_handler: resize,
    }
}

fn events() -> Vec<Event> {
    vec![
        Event::CloseRequested,
        Event::Resized { width: 640, height: 480 },
        Event::Key { key: Key::new(32).unwrap(), pressed: true },
        Event::Key { key: Key::new(32).unwrap(), pressed: false },
        Event::Other,
    ]
}

#[test]
fn window_init_describes_the_window() {
    assert_eq!(
        window_init(),
        Ok(WindowInitData {
            title: "nice window title".to_string(),
            window_size: (800, 600),
            default_close_handler: true,
            default_resize_handler: true,
        })
    );
}

#[test]
fn init_data_holds_window_and_application() {
    let init = InitData { window_init_data: window_init().unwrap(), app_data: AppData {} };
    assert_eq!(init.window_init_data.window_size, (800, 600));
    assert_eq!(init.app_data, AppData {});
}

#[test]
fn shutdown_gives_nothing_back() {
    let mut data = AppData {};
    app_shutdown(&mut data);
    assert_eq!(data, AppData {});
}

#[test]
fn the_application_ignores_every_event() {
    for event in events() {
        for running in [true, false] {
            let mut keep_running = running;
            handle_events(&event, &mut keep_running, &mut AppData {});
            assert_eq!(keep_running, running);
        }
    }
}

#[test]
fn default_close_handler_stops_the_application() {
    let mut keep_running = true;
    let reaction =
        dispatch_event(&window(true, true), &Event::CloseRequested, &mut keep_running, &mut AppData {});
    assert!(!keep_running);
    assert_eq!(reaction, Reaction::Nothing);
}

#[test]
fn without_default_close_handler_the_application_keeps_running() {
    let mut keep_running = true;
    dispatch_event(&window(false, true), &Event::CloseRequested, &mut keep_running, &mut AppData {});
    assert!(keep_running);
}

#[test]
fn default_resize_handler_resizes() {
    let mut keep_running = true;
    let event = Event::Resized { width: 640, height: 480 };
    assert_eq!(
        dispatch_event(&window(true, true), &event, &mut keep_running, &mut AppData {}),
        Reaction::Resize { width: 640, height: 480 }
    );
    assert_eq!(
        dispatch_event(&window(false, true), &event, &mut keep_running, &mut AppData {}),
        Reaction::Resize { width: 640, height: 480 }
    );
    assert!(keep_running);
}

#[test]
fn without_default_resize_handler_nothing_is_resized() {
    let mut keep_running = true;
    let event = Event::Resized { width: 640, height: 480 };
    assert_eq!(
        dispatch_event(&window(true, false), &event, &mut keep_running, &mut AppData {}),
        Reaction::Nothing
    );
    assert!(keep_running);
}

#[test]
fn other_events_leave_the_application_running() {
    for event in events() {
        if event == Event::CloseRequested {
            continue;
        }
        for (close, resize) in [(true, true), (true, false), (false, true), (false, false)] {
            let mut keep_running = true;
            dispatch_event(&window(close, resize), &event, &mut keep_running, &mut AppData {});
            assert!(keep_running);
        }
    }
}

#[test]
fn a_stopped_application_stays_stopped() {
    for event in events() {
        let mut keep_running = false;
        dispatch_event(&window(true, true), &event, &mut keep_running, &mut AppData {});
        assert!(!keep_running);
    }
}

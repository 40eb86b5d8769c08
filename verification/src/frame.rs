//! The frame loop: what one launch of the host remembers between frames,
//! how events change it, in which order a frame proceeds, and how a launch
//! ends.
//!
//! The loop itself runs in the caller, which owns the window. It feeds
//! every event to [`FrameLoop::handle_event`], asks [`FrameLoop::advance`]
//! what comes next, and carries that out.

use vstd::prelude::*;
use vstd::string::*;
use crate::commands::Command;
use crate::error::Error;
use crate::input::{motion, motion_of, Controls, Key, KeyStates, Motion, KEY_COUNT};
use crate::params::{truth_text, vsync_request, vsync_setting, vsync_under, Parameters, VSYNC};
use crate::registry::GlData;
use crate::simple_text::SimpleTextContext;

verus! {

/// Title of the window.
pub const WINDOW_TITLE: &'static str = "nice window title";

/// Logical size of the window at start-up, width and height.
pub const INITIAL_WINDOW_SIZE: (u32, u32) = (800, 600);

/// Version of the graphics API that the context is created for.
pub const GL_VERSION: (u8, u8) = (4, 3);

/// Vertical field of view in degrees.
pub const FIELD_OF_VIEW: u32 = 85;

/// Distance of the near plane: numerator and denominator of 0.2.
pub const NEAR_PLANE: (u32, u32) = (1, 5);

/// Distance of the far plane.
pub const FAR_PLANE: u32 = 1000;

/// Distance in pixels between the overlay and the window corner.
pub const OVERLAY_MARGIN: u32 = 40;

/// Size in pixels of one glyph of the overlay.
pub const OVERLAY_GLYPH_SIZE: u32 = 25;

/// Length in nanoseconds of the window over which frames are counted.
pub const RATE_WINDOW: u64 = 1_000_000_000;

/// The overlay text before the first measurement.
pub const UNKNOWN_RATE_TEXT: &'static str = "FPS: ???";

/// Something that happened to the window.
#[derive(Debug, Clone, Copy, PartialEq, Eq)]
pub enum Event {
    /// The user asked to close the window.
    CloseRequested,
    /// The window has a new logical size.
    Resized { width: u32, height: u32 },
    /// A key went down (`pressed`) or up.
    Key { key: Key, pressed: bool },
    /// Anything else.
    Other,
}

/// What the caller has to do to the window after an event.
#[derive(Debug, Clone, Copy, PartialEq, Eq, Structural)]
pub enum Reaction {
    /// Nothing.
    Nothing,
    /// Resize the surface of the window and set the viewport to the whole
    /// of it.
    Resize { width: u32, height: u32 },
}

/// The step of a frame that is carried out next.
#[derive(Debug, Clone, Copy, PartialEq, Eq, Structural)]
pub enum Phase {
    /// Drain the pending events.
    Events,
    /// Move the camera by the time that has passed.
    Update,
    /// Draw the frame.
    Render,
    /// Show the frame and take the time.
    Present,
    /// Leave the loop.
    Exit,
}

/// How a launch ended.
#[derive(Debug, Clone, PartialEq, Eq)]
pub enum LoopOutcome {
    /// The host terminates.
    Terminate,
    /// The host starts again, with these parameters laid upon its own.
    Restart(Parameters),
}

/// A quotient of two whole numbers.
#[derive(Debug, Clone, Copy, PartialEq, Eq, Structural)]
pub struct Fraction {
    pub numerator: u32,
    pub denominator: u32,
}

/// Where the overlay text starts and how large its glyphs are, in
/// normalised device coordinates: the cursor starts at `margin_x - 1`,
/// `margin_y - 1`, which keeps it a fixed number of pixels from the lower
/// left corner, and a glyph is `scale_x` wide and `scale_y` high.
#[derive(Debug, Clone, Copy, PartialEq, Eq, Structural)]
pub struct OverlayPlacement {
    pub margin_x: Fraction,
    pub margin_y: Fraction,
    pub scale_x: Fraction,
    pub scale_y: Fraction,
}

/// The number of frames shown in a span of time.
#[derive(Debug, Clone, Copy, PartialEq, Eq, Structural)]
pub struct FrameRate {
    /// Frames shown in the span.
    pub frames: u64,
    /// Length of the span in nanoseconds, at least [`RATE_WINDOW`].
    pub nanos: u64,
}

/// What a launch remembers between frames.
pub struct LoopState {
    /// Whether the context was created with vertical synchronisation.
    pub vsync: bool,
    /// The keys that steer the camera and the loop.
    pub controls: Controls,
    /// Logical size of the window, width and height.
    pub window_size: (u32, u32),
    /// For each key code, whether the key is held.
    pub keys: Seq<bool>,
    /// The loop ends at the next frame boundary.
    pub quit: bool,
    /// The parameters of the restart that was asked for, if one was.
    pub restart: Option<Map<Seq<char>, Seq<char>>>,
    /// The step that is carried out next.
    pub phase: Phase,
    /// Nanoseconds since the first frame.
    pub elapsed: u64,
    /// Frames shown since the last measurement.
    pub frames: u64,
    /// Nanoseconds since the last measurement.
    pub window: u64,
}

/// The placement of the overlay in a window of the given logical size.
pub open spec fn placement_in(window_size: (u32, u32)) -> OverlayPlacement {
    OverlayPlacement {
        margin_x: Fraction { numerator: OVERLAY_MARGIN, denominator: window_size.0 },
        margin_y: Fraction { numerator: OVERLAY_MARGIN, denominator: window_size.1 },
        scale_x: Fraction { numerator: OVERLAY_GLYPH_SIZE, denominator: window_size.0 },
        scale_y: Fraction { numerator: OVERLAY_GLYPH_SIZE, denominator: window_size.1 },
    }
}

/// The parameters of a restart that toggles vertical synchronisation.
pub open spec fn toggle_request(vsync: bool) -> Map<Seq<char>, Seq<char>> {
    Map::<Seq<char>, Seq<char>>::empty().insert(VSYNC@, truth_text(!vsync))
}

/// `event` presses the restart key, and the key was not held before: a
/// key that repeats while held asks for nothing new.
pub open spec fn asks_for_restart(state: LoopState, event: Event) -> bool {
    event matches Event::Key { key, pressed } && pressed && key@ == state.controls.restart@
        && !state.keys[key@]
}

/// The state after `event`.
///
/// A close request ends the loop. A resize replaces the stored size. A key
/// event is entered in the key table; if it presses the restart key anew,
/// a restart with vertical synchronisation toggled is asked for and the
/// loop ends. Nothing else changes anything.
pub open spec fn after_event(state: LoopState, event: Event) -> LoopState {
    match event {
        Event::CloseRequested => LoopState { quit: true, ..state },
        Event::Resized { width, height } => LoopState { window_size: (width, height), ..state },
        Event::Key { key, pressed } => {
            let keys = state.keys.update(key@, pressed);
            if asks_for_restart(state, event) {
                LoopState {
                    keys,
                    quit: true,
                    restart: Some(toggle_request(state.vsync)),
                    ..state
                }
            } else {
                LoopState { keys, ..state }
            }
        },
        Event::Other => state,
    }
}

/// What the caller has to do after `event`.
pub open spec fn reaction_to(event: Event) -> Reaction {
    match event {
        Event::Resized { width, height } => Reaction::Resize { width, height },
        _ => Reaction::Nothing,
    }
}

/// The step that follows the current one: after the events the loop is
/// left if it was told to end, else the frame goes on with update, render
/// and present, and the next frame begins. Once left, the loop stays left.
pub open spec fn following_phase(state: LoopState) -> Phase {
    match state.phase {
        Phase::Events => if state.quit {
            Phase::Exit
        } else {
            Phase::Update
        },
        Phase::Update => Phase::Render,
        Phase::Render => Phase::Present,
        Phase::Present => Phase::Events,
        Phase::Exit => Phase::Exit,
    }
}

/// `a + b`, or the largest value where that is too large.
pub open spec fn capped_sum(a: u64, b: u64) -> u64 {
    if a + b > u64::MAX {
        u64::MAX
    } else {
        (a + b) as u64
    }
}

/// The frame rate that is reported when a frame that took `nanos` is
/// shown: the frames and the time since the last report, once that time
/// has reached the length of the window.
pub open spec fn measured_rate(state: LoopState, nanos: u64) -> Option<FrameRate> {
    if capped_sum(state.window, nanos) >= RATE_WINDOW {
        Some(FrameRate { frames: capped_sum(state.frames, 1), nanos: capped_sum(state.window, nanos) })
    } else {
        None
    }
}

/// The state after a frame that took `nanos` was shown: the time is added
/// to the clock; the frame is counted, unless it completes a measurement,
/// which starts the count anew.
pub open spec fn after_present(state: LoopState, nanos: u64) -> LoopState {
    if measured_rate(state, nanos) is Some {
        LoopState { elapsed: capped_sum(state.elapsed, nanos), frames: 0, window: 0, ..state }
    } else {
        LoopState {
            elapsed: capped_sum(state.elapsed, nanos),
            frames: capped_sum(state.frames, 1),
            window: capped_sum(state.window, nanos),
            ..state
        }
    }
}

/// The state in which a launch starts.
pub open spec fn initial_state(vsync: bool, controls: Controls) -> LoopState {
    LoopState {
        vsync,
        controls,
        window_size: INITIAL_WINDOW_SIZE,
        keys: Seq::new(KEY_COUNT as nat, |i: int| false),
        quit: false,
        restart: None,
        phase: Phase::Events,
        elapsed: 0,
        frames: 0,
        window: 0,
    }
}

/// The parameters of the next launch, if there is one: the outcome's laid
/// upon those of the launch that ended.
pub open spec fn next_parameters(
    current: Map<Seq<char>, Seq<char>>,
    restart: Option<Map<Seq<char>, Seq<char>>>,
) -> Option<Map<Seq<char>, Seq<char>>> {
    match restart {
        Some(over) => Some(crate::params::merged(current, over)),
        None => None,
    }
}

/// The restart parameters that an outcome carries.
pub open spec fn restart_of(outcome: LoopOutcome) -> Option<Map<Seq<char>, Seq<char>>> {
    match outcome {
        LoopOutcome::Terminate => None,
        LoopOutcome::Restart(parameters) => Some(parameters@),
    }
}

/// The memory of one launch.
#[derive(Debug)]
pub struct FrameLoop {
    vsync: bool,
    controls: Controls,
    window_size: (u32, u32),
    keys: KeyStates,
    quit: bool,
    restart: Option<Parameters>,
    phase: Phase,
    elapsed: u64,
    frames: u64,
    window: u64,
}

impl View for FrameLoop {
    type V = LoopState;

    closed spec fn view(&self) -> LoopState {
        LoopState {
            vsync: self.vsync,
            controls: self.controls,
            window_size: self.window_size,
            keys: self.keys@,
            quit: self.quit,
            restart: match self.restart {
                Some(parameters) => Some(parameters@),
                None => None,
            },
            phase: self.phase,
            elapsed: self.elapsed,
            frames: self.frames,
            window: self.window,
        }
    }
}

impl FrameLoop {
    /// Starts a launch under `parameters`: the window has its initial
    /// size, no key is held, the clock stands at zero.
    ///
    /// Fails where the parameter for vertical synchronisation is no truth
    /// value.
    pub fn new(parameters: &Parameters, controls: Controls) -> (started: Result<FrameLoop, Error>)
        ensures
            started is Ok <==> vsync_under(parameters@) is Some,
            started matches Ok(frame_loop) ==> frame_loop@ == initial_state(
                vsync_under(parameters@)->0,
                controls,
            ),
            started matches Err(e) ==> e@ == "provided string was not `true` or `false`"@,
    {
        match vsync_setting(parameters) {
            Ok(vsync) => Ok(
                FrameLoop {
                    vsync,
                    controls,
                    window_size: INITIAL_WINDOW_SIZE,
                    keys: KeyStates::new(),
                    quit: false,
                    restart: None,
                    phase: Phase::Events,
                    elapsed: 0,
                    frames: 0,
                    window: 0,
                },
            ),
            Err(e) => Err(e),
        }
    }

    /// Whether the context is to be created with vertical synchronisation.
    pub fn vsync(&self) -> (vsync: bool)
        ensures
            vsync == self@.vsync,
    {
        self.vsync
    }

    /// Logical size of the window, width and height: the size that the
    /// aspect ratio of the projection is taken from.
    pub fn window_size(&self) -> (size: (u32, u32))
        ensures
            size == self@.window_size,
    {
        self.window_size
    }

    /// Whether the loop ends at the next frame boundary.
    pub fn quit(&self) -> (quit: bool)
        ensures
            quit == self@.quit,
    {
        self.quit
    }

    /// The step that is carried out next.
    pub fn phase(&self) -> (phase: Phase)
        ensures
            phase == self@.phase,
    {
        self.phase
    }

    /// Nanoseconds since the first frame.
    pub fn elapsed(&self) -> (nanos: u64)
        ensures
            nanos == self@.elapsed,
    {
        self.elapsed
    }

    /// The key table.
    pub fn keys(&self) -> (keys: &KeyStates)
        ensures
            keys@ == self@.keys,
    {
        &self.keys
    }

    /// Takes note of `event` and says what the caller has to do about it.
    pub fn handle_event(&mut self, event: &Event) -> (reaction: Reaction)
        ensures
            final(self)@ == after_event(old(self)@, *event),
            reaction == reaction_to(*event),
    {
        match *event {
            Event::CloseRequested => {
                self.quit = true;
                Reaction::Nothing
            },
            Event::Resized { width, height } => {
                self.window_size = (width, height);
                Reaction::Resize { width, height }
            },
            Event::Key { key, pressed } => {
                let held: bool = self.keys.is_pressed(key);
                self.keys.set(key, pressed);
                if pressed && !held && key.code() == self.controls.restart.code() {
                    self.restart = Some(vsync_request(!self.vsync));
                    self.quit = true;
                }
                Reaction::Nothing
            },
            Event::Other => Reaction::Nothing,
        }
    }

    /// Moves on to the next step of the frame and returns it.
    pub fn advance(&mut self) -> (phase: Phase)
        ensures
            phase == following_phase(old(self)@),
            final(self)@ == (LoopState { phase: following_phase(old(self)@), ..old(self)@ }),
    {
        let next: Phase = match self.phase {
            Phase::Events => if self.quit {
                Phase::Exit
            } else {
                Phase::Update
            },
            Phase::Update => Phase::Render,
            Phase::Render => Phase::Present,
            Phase::Present => Phase::Events,
            Phase::Exit => Phase::Exit,
        };
        self.phase = next;
        next
    }

    /// What the held keys ask of the camera in this frame.
    pub fn motion(&self) -> (m: Motion)
        ensures
            m == motion_of(self@.keys, self@.controls),
    {
        motion(&self.keys, &self.controls)
    }

    /// Where the overlay text goes in the window as it is now.
    pub fn overlay_placement(&self) -> (placement: OverlayPlacement)
        ensures
            placement == placement_in(self@.window_size),
    {
        OverlayPlacement {
            margin_x: Fraction { numerator: OVERLAY_MARGIN, denominator: self.window_size.0 },
            margin_y: Fraction { numerator: OVERLAY_MARGIN, denominator: self.window_size.1 },
            scale_x: Fraction { numerator: OVERLAY_GLYPH_SIZE, denominator: self.window_size.0 },
            scale_y: Fraction { numerator: OVERLAY_GLYPH_SIZE, denominator: self.window_size.1 },
        }
    }

    /// The commands of one frame: the buffers are cleared, the world is
    /// drawn, then the overlay text on top of it.
    pub fn render(
        &self,
        world: &GlData,
        time: Option<i32>,
        view_projection: Option<i32>,
        overlay: &SimpleTextContext,
        text: &str,
    ) -> (commands: Vec<Command>)
        ensures
            commands@ == seq![Command::ClearFrame] + world.draw_sequence(time, view_projection)
                + overlay.text_commands(text@),
    {
        let mut commands: Vec<Command> = Vec::new();
        commands.push(Command::ClearFrame);
        let mut scene: Vec<Command> = world.draw(time, view_projection);
        commands.append(&mut scene);
        let mut overlaid: Vec<Command> = overlay.draw_text(text);
        commands.append(&mut overlaid);
        assert(commands@ =~= seq![Command::ClearFrame] + world.draw_sequence(time, view_projection)
            + overlay.text_commands(text@));
        commands
    }

    /// Takes note that a frame was shown `nanos` nanoseconds after the one
    /// before it. Returns the frame rate once at least a second has passed
    /// since it was last returned.
    pub fn present(&mut self, nanos: u64) -> (rate: Option<FrameRate>)
        ensures
            rate == measured_rate(old(self)@, nanos),
            final(self)@ == after_present(old(self)@, nanos),
    {
        self.elapsed = self.elapsed.saturating_add(nanos);
        let frames: u64 = self.frames.saturating_add(1);
        let window: u64 = self.window.saturating_add(nanos);
        if window >= RATE_WINDOW {
            self.frames = 0;
            self.window = 0;
            Some(FrameRate { frames, nanos: window })
        } else {
            self.frames = frames;
            self.window = window;
            None
        }
    }

    /// Ends the launch: both owners give up their GPU objects, the world
    /// first, and the caller learns whether to terminate or to start again.
    ///
    /// The outcome cannot be had without the commands that delete every
    /// object of the launch, so that none outlives its context.
    pub fn finish(self, world: &mut GlData, overlay: &mut SimpleTextContext) -> (end: (
        Vec<Command>,
        LoopOutcome,
    ))
        ensures
            end.0@ == old(world).release_sequence() + old(overlay).release_commands(),
            final(world).is_empty(),
            final(overlay).released(),
            restart_of(end.1) == self@.restart,
    {
        let mut commands: Vec<Command> = world.release();
        let mut rest: Vec<Command> = overlay.release();
        commands.append(&mut rest);
        let outcome: LoopOutcome = match self.restart {
            Some(parameters) => LoopOutcome::Restart(parameters),
            None => LoopOutcome::Terminate,
        };
        (commands, outcome)
    }
}

/// The parameters of the next launch, if the host is to start again:
/// those of the launch that ended with the outcome's laid upon them.
pub fn next_launch(current: Parameters, outcome: &LoopOutcome) -> (next: Option<Parameters>)
    ensures
        next is Some <==> restart_of(*outcome) is Some,
        next matches Some(parameters) ==> Some(parameters@) == next_parameters(
            current@,
            restart_of(*outcome),
        ),
{
    match outcome {
        LoopOutcome::Terminate => None,
        LoopOutcome::Restart(over) => {
            let mut parameters: Parameters = current;
            parameters.merge(over);
            Some(parameters)
        },
    }
}

/// After the window was resized to a width and a height, the stored size
/// is exactly that, and the overlay keeps its margin of forty pixels: forty
/// over the width, forty over the height.
pub proof fn lemma_resize_is_stored(state: LoopState, width: u32, height: u32)
    ensures
        after_event(state, Event::Resized { width, height }).window_size == (width, height),
        placement_in(after_event(state, Event::Resized { width, height }).window_size).margin_x
            == (Fraction { numerator: 40, denominator: width }),
        placement_in(after_event(state, Event::Resized { width, height }).window_size).margin_y
            == (Fraction { numerator: 40, denominator: height }),
        reaction_to(Event::Resized { width, height }) == (Reaction::Resize { width, height }),
{
}

/// Only key events change the key table, and each changes only the entry
/// of its own key.
pub proof fn lemma_keys_change_by_key_events_only(state: LoopState, event: Event, code: int)
    requires
        0 <= code < state.keys.len(),
        event matches Event::Key { key, .. } ==> 0 <= key@ < state.keys.len(),
    ensures
        !(event is Key) ==> after_event(state, event).keys == state.keys,
        event matches Event::Key { key, pressed } ==> after_event(state, event).keys[code] == if code
            == key@ {
            pressed
        } else {
            state.keys[code]
        },
{
}

/// A restart that toggles vertical synchronisation makes the next launch
/// run with the opposite setting, whatever its parameters were before.
pub proof fn lemma_restart_toggles_vsync(current: Map<Seq<char>, Seq<char>>, vsync: bool)
    ensures
        next_parameters(current, Some(toggle_request(vsync))) is Some,
        vsync_under(next_parameters(current, Some(toggle_request(vsync)))->0) == Some(!vsync),
{
    reveal_strlit("true");
    reveal_strlit("false");
    assert("true"@.len() != "false"@.len());
}

/// The loop is left only at a frame boundary, and only if it was told to
/// end: by a close request, or by the restart key.
pub proof fn lemma_exit_only_after_events(state: LoopState)
    requires
        state.phase != Phase::Exit,
    ensures
        following_phase(state) == Phase::Exit <==> state.phase == Phase::Events && state.quit,
{
}

/// A launch asks for at most one restart, and every restart it asks for
/// ends the loop.
pub proof fn lemma_restart_ends_the_loop(state: LoopState, event: Event)
    requires
        state.restart is Some ==> state.quit,
    ensures
        after_event(state, event).restart is Some ==> after_event(state, event).quit,
        state.quit ==> after_event(state, event).quit,
{
}

} // verus!

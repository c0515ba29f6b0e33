use vstd::prelude::*;

use crate::input::{
    bound_to, button_matches, key_matches, modifiers_accept, modifiers_match, Input, Key,
    Modifiers, MouseButton,
};
use crate::registry::{
    accepts, after_track, holds, valid, released, track_report, ContactId, Contacts, Point,
    Registry, SUBPIXEL,
};

verus! {

/// Initial viewport width in pixels.
pub const INITIAL_WIDTH: u32 = 800;

/// Initial viewport height in pixels.
pub const INITIAL_HEIGHT: u32 = 600;

/// Distance in pixels from the opposite edge that a wrapped cursor is moved to.
pub const WRAP_MARGIN: i64 = 2;

/// Gesture mode: orbiting around the target, or looking around from the eye.
#[derive(Clone, Copy, Debug, PartialEq, Eq, Structural)]
pub enum Mode {
    Free,
    FirstPerson,
}

/// Phase of a touch contact.
#[derive(Clone, Copy, Debug, PartialEq, Eq, Structural)]
pub enum Phase {
    Start,
    Move,
    End,
    Cancel,
}

/// Press or release of a key or button.
#[derive(Clone, Copy, Debug, PartialEq, Eq, Structural)]
pub enum Action {
    Press,
    Release,
}

/// Where a gesture accumulator takes its position from.
#[derive(Clone, Copy, Debug, PartialEq, Eq, Structural)]
pub enum Source {
    /// The aggregate position last reported by the pointer registry.
    Aggregate,
    /// A screen position.
    At(Point),
}

/// An operation for the host to perform on the camera, its accumulators or the platform.
#[derive(Clone, Copy, Debug, PartialEq, Eq, Structural)]
pub enum Command {
    /// Clear the orbit baseline.
    DiscardOrbit,
    /// Clear the slide baseline.
    DiscardSlide,
    /// Feed a contact position into the pointer registry, keeping its aggregate.
    Track { id: ContactId, pos: Point },
    /// Remove a contact from the pointer registry and slide to the position it hands back.
    Release { id: ContactId },
    /// Feed the aggregate into the orbit accumulator, which holds no baseline.
    SeedOrbit,
    /// Feed the aggregate into the orbit accumulator and apply the rotation it yields.
    Orbit,
    /// Feed a position into the slide accumulator without moving the camera.
    SeedSlide(Source),
    /// Feed a position into the slide accumulator and apply the translation it yields.
    Slide(Source),
    /// Roll about the view axis and scale, both around the projected aggregate.
    RollAndPinch,
    /// Feed a position into the slide accumulator and look around by the delta it yields.
    Look(Source),
    /// Hide and grab the platform cursor.
    GrabCursor,
    /// Show and release the platform cursor.
    FreeCursor,
    /// Move the platform cursor.
    Warp(Point),
    /// Record the tracked cursor position.
    SetCursor(Point),
    /// Scale by the wheel delta around the projection of a screen position.
    Zoom(Point),
    /// Capture the frame's yaw axis and start first person view.
    EnterFirstPerson,
    /// End first person view.
    LeaveFirstPerson,
    /// Switch between orthographic and perspective projection.
    ToggleOrtho,
    /// Replace the frame with the reset frame.
    Reset,
    /// Set the viewport extent in pixels.
    Resize { w: u32, h: u32 },
}

/// An input event, with positions in `SUBPIXEL` units.
#[derive(Clone, Copy, Debug, PartialEq, Eq, Structural)]
pub enum Event {
    Touch { id: u64, pos: Point, phase: Phase },
    MouseButton { button: MouseButton, action: Action },
    /// `held` has bit `i` set where button `i + 1` is pressed.
    CursorPos { pos: Point, modifiers: Modifiers, held: u8 },
    Scroll,
    Key { key: Key, action: Action },
    FramebufferSize { w: u32, h: u32 },
    Other,
}

/// Mathematical model of the controller.
pub ghost struct State {
    pub input: Input,
    pub mode: Mode,
    pub contacts: Contacts,
    /// The orbit accumulator holds a baseline.
    pub orbit: bool,
    /// The slide accumulator holds a baseline.
    pub slide: bool,
    /// Last raw cursor position.
    pub cursor: Option<Point>,
    /// Tracked cursor position, the anchor of zoom and button presses.
    pub pointer: Point,
    pub width: u32,
    pub height: u32,
}

pub open spec fn button_index(b: MouseButton) -> u8 {
    match b {
        MouseButton::Button1 => 0,
        MouseButton::Button2 => 1,
        MouseButton::Button3 => 2,
        MouseButton::Button4 => 3,
        MouseButton::Button5 => 4,
        MouseButton::Button6 => 5,
        MouseButton::Button7 => 6,
        MouseButton::Button8 => 7,
    }
}

pub open spec fn is_held(held: u8, b: MouseButton) -> bool {
    (held >> button_index(b)) & 1u8 == 1u8
}

/// Whether a gesture bound to `button` with modifier requirement `required` is in effect.
pub open spec fn eligible(
    button: Option<MouseButton>,
    required: Option<Modifiers>,
    held: u8,
    modifiers: Modifiers,
) -> bool {
    match button {
        Some(b) => is_held(held, b) && modifiers_match(required, modifiers),
        None => false,
    }
}

/// Largest whole pixel position not above `v`.
pub open spec fn floor_px(v: i64) -> int {
    v - v % SUBPIXEL
}

/// Whether a cursor position repeats the stored one, exactly or as the stored one rounded down
/// to whole pixels.
pub open spec fn repeats(prev: Option<Point>, pos: Point) -> bool {
    match prev {
        None => false,
        Some(p) => p == pos || (pos.x == floor_px(p.x) && pos.y == floor_px(p.y)),
    }
}

pub open spec fn px(n: int) -> int {
    n * SUBPIXEL
}

pub open spec fn centre(w: u32, h: u32) -> Point {
    Point { x: (w * (SUBPIXEL / 2)) as i64, y: (h * (SUBPIXEL / 2)) as i64 }
}

pub open spec fn feed_orbit(seeded: bool) -> Command {
    if seeded {
        Command::Orbit
    } else {
        Command::SeedOrbit
    }
}

pub open spec fn feed_slide(seeded: bool, src: Source) -> Command {
    if seeded {
        Command::Slide(src)
    } else {
        Command::SeedSlide(src)
    }
}

pub open spec fn feed_look(seeded: bool, src: Source) -> Command {
    if seeded {
        Command::Look(src)
    } else {
        Command::SeedSlide(src)
    }
}

pub open spec fn warp_if(cond: bool, to: Point) -> Seq<Command> {
    if cond {
        seq![Command::Warp(to), Command::DiscardSlide]
    } else {
        seq![]
    }
}

/// Whether `pos` is at or beyond an edge of a `w` by `h` viewport.
pub open spec fn at_edge(pos: Point, w: u32, h: u32) -> bool {
    pos.y <= 0 || pos.x <= 0 || pos.x >= px(w - 1) || pos.y >= px(h - 1)
}

/// Warps that carry a cursor at an edge to just inside the opposite edge.
pub open spec fn edge_warps(pos: Point, w: u32, h: u32) -> Seq<Command> {
    warp_if(pos.y <= 0, Point { x: pos.x, y: px(h - WRAP_MARGIN) as i64 }) + warp_if(
        pos.x <= 0,
        Point { x: px(w - WRAP_MARGIN) as i64, y: pos.y },
    ) + warp_if(pos.x >= px(w - 1), Point { x: px(1) as i64, y: pos.y }) + warp_if(
        pos.y >= px(h - 1),
        Point { x: pos.x, y: px(1) as i64 },
    )
}

/// Touch event: the next state and the commands.
pub open spec fn touch_step(s: State, id: u64, pos: Point, phase: Phase) -> (State, Seq<Command>) {
    let fid = ContactId::Finger(id);
    if phase == Phase::Start || phase == Phase::Move {
        let s1 = if phase == Phase::Start {
            State { slide: false, ..s }
        } else {
            s
        };
        let pre = if phase == Phase::Start {
            seq![Command::DiscardSlide]
        } else {
            seq![]
        };
        match track_report(s1.contacts, fid, pos) {
            None => (s1, pre),
            Some(u) => {
                let s2 = State { contacts: after_track(s1.contacts, fid, pos), ..s1 };
                let tr = pre.push(Command::Track { id: fid, pos });
                if s2.mode == Mode::FirstPerson {
                    (State { slide: true, ..s2 }, tr.push(feed_look(s2.slide, Source::Aggregate)))
                } else if u.count == 1 {
                    (State { orbit: true, ..s2 }, tr.push(feed_orbit(s2.orbit)))
                } else {
                    let c = tr.push(feed_slide(s2.slide, Source::Aggregate));
                    (
                        State { slide: true, ..s2 },
                        if u.turned {
                            c.push(Command::RollAndPinch)
                        } else {
                            c
                        },
                    )
                }
            },
        }
    } else {
        let rel = if holds(s.contacts.entries, fid) {
            seq![Command::Release { id: fid }]
        } else {
            seq![]
        };
        (
            State { contacts: released(s.contacts, fid), orbit: false, slide: false, ..s },
            rel + seq![Command::DiscardOrbit, Command::DiscardSlide],
        )
    }
}

/// Mouse button event: the next state and the commands.
pub open spec fn button_step(s: State, button: MouseButton, action: Action) -> (State, Seq<Command>) {
    if s.mode == Mode::FirstPerson {
        (s, seq![])
    } else {
        let (s1, c1) = if bound_to(s.input.orbit_button, button) {
            if action == Action::Press {
                (
                    State { contacts: after_track(s.contacts, ContactId::Mouse, s.pointer), ..s },
                    if accepts(s.contacts, ContactId::Mouse) {
                        seq![Command::Track { id: ContactId::Mouse, pos: s.pointer }]
                    } else {
                        seq![]
                    },
                )
            } else {
                (
                    State { orbit: false, contacts: released(s.contacts, ContactId::Mouse), ..s },
                    if holds(s.contacts.entries, ContactId::Mouse) {
                        seq![Command::DiscardOrbit, Command::Release { id: ContactId::Mouse }]
                    } else {
                        seq![Command::DiscardOrbit]
                    },
                )
            }
        } else {
            (s, seq![])
        };
        if bound_to(s1.input.slide_button, button) {
            if action == Action::Press {
                (State { slide: true, ..s1 }, c1.push(Command::SeedSlide(Source::At(s1.pointer))))
            } else {
                (State { slide: false, ..s1 }, c1.push(Command::DiscardSlide))
            }
        } else {
            (s1, c1)
        }
    }
}

/// Cursor event in first person mode, after the repeat check.
pub open spec fn look_step(s: State, pos: Point) -> (State, Seq<Command>) {
    if s.contacts.entries.len() != 0 {
        (s, seq![])
    } else {
        let look = if s.slide {
            seq![Command::GrabCursor, Command::Look(Source::At(pos))]
        } else {
            seq![Command::SeedSlide(Source::At(pos))]
        };
        (
            State { slide: !at_edge(pos, s.width, s.height), ..s },
            look + edge_warps(pos, s.width, s.height),
        )
    }
}

/// Cursor event in free mode, after the repeat check.
pub open spec fn drag_step(s: State, pos: Point, modifiers: Modifiers, held: u8) -> (
    State,
    Seq<Command>,
) {
    let s1 = State { pointer: pos, ..s };
    let orbit = eligible(s.input.orbit_button, s.input.orbit_modifiers, held, modifiers);
    let slide = eligible(s.input.slide_button, s.input.slide_modifiers, held, modifiers);
    let s2 = if orbit && slide {
        State { orbit: false, slide: false, ..s1 }
    } else {
        s1
    };
    let c2 = if orbit && slide {
        seq![Command::SetCursor(pos), Command::DiscardOrbit, Command::DiscardSlide]
    } else {
        seq![Command::SetCursor(pos)]
    };
    let (s3, c3) = if orbit && accepts(s2.contacts, ContactId::Mouse) {
        (
            State { contacts: after_track(s2.contacts, ContactId::Mouse, pos), orbit: true, ..s2 },
            c2.push(Command::Track { id: ContactId::Mouse, pos }).push(feed_orbit(s2.orbit)),
        )
    } else {
        (s2, c2)
    };
    if slide {
        (State { slide: true, ..s3 }, c3.push(feed_slide(s3.slide, Source::At(pos))))
    } else {
        (s3, c3)
    }
}

/// Cursor event: the next state and the commands.
pub open spec fn cursor_step(s: State, pos: Point, modifiers: Modifiers, held: u8) -> (
    State,
    Seq<Command>,
) {
    let s0 = State { cursor: Some(pos), ..s };
    if repeats(s.cursor, pos) {
        (s0, seq![])
    } else if s.mode == Mode::FirstPerson {
        look_step(s0, pos)
    } else {
        drag_step(s0, pos, modifiers, held)
    }
}

/// Key event: the next state and the commands.
pub open spec fn key_step(s: State, key: Key, action: Action) -> (State, Seq<Command>) {
    let mid = centre(s.width, s.height);
    if bound_to(s.input.first_key, key) {
        if action == Action::Press {
            if s.mode == Mode::Free {
                (
                    State { mode: Mode::FirstPerson, pointer: mid, ..s },
                    seq![Command::EnterFirstPerson, Command::SetCursor(mid)],
                )
            } else {
                (s, seq![])
            }
        } else {
            (
                State { mode: Mode::Free, slide: false, ..s },
                if s.contacts.entries.len() == 0 {
                    seq![
                        Command::DiscardSlide,
                        Command::LeaveFirstPerson,
                        Command::Warp(mid),
                        Command::FreeCursor,
                    ]
                } else {
                    seq![Command::DiscardSlide, Command::LeaveFirstPerson]
                },
            )
        }
    } else if action == Action::Press && bound_to(s.input.ortho_key, key) {
        (s, seq![Command::ToggleOrtho])
    } else if action == Action::Press && bound_to(s.input.reset_key, key) {
        (s, seq![Command::Reset])
    } else {
        (s, seq![])
    }
}

/// Any event: the next state and the commands.
pub open spec fn step(s: State, e: Event) -> (State, Seq<Command>) {
    match e {
        Event::Touch { id, pos, phase } => touch_step(s, id, pos, phase),
        Event::MouseButton { button, action } => button_step(s, button, action),
        Event::CursorPos { pos, modifiers, held } => cursor_step(s, pos, modifiers, held),
        Event::Scroll => (s, seq![Command::Zoom(s.pointer)]),
        Event::Key { key, action } => key_step(s, key, action),
        Event::FramebufferSize { w, h } => (
            State { width: w, height: h, ..s },
            seq![Command::Resize { w, h }],
        ),
        Event::Other => (s, seq![]),
    }
}

/// The gesture arbitration state machine of a trackball camera.
#[derive(Debug)]
pub struct Controller {
    /// Input keys/buttons and their modifiers.
    pub input: Input,
    mode: Mode,
    registry: Registry,
    orbit: bool,
    slide: bool,
    cursor: Option<Point>,
    pointer: Point,
    width: u32,
    height: u32,
}

fn is_held_exec(held: u8, b: MouseButton) -> (r: bool)
    ensures
        r == is_held(held, b),
{
    let i: u8 = match b {
        MouseButton::Button1 => 0,
        MouseButton::Button2 => 1,
        MouseButton::Button3 => 2,
        MouseButton::Button4 => 3,
        MouseButton::Button5 => 4,
        MouseButton::Button6 => 5,
        MouseButton::Button7 => 6,
        MouseButton::Button8 => 7,
    };
    (held >> i) & 1u8 == 1u8
}

fn is_eligible(
    button: Option<MouseButton>,
    required: Option<Modifiers>,
    held: u8,
    modifiers: Modifiers,
) -> (r: bool)
    ensures
        r == eligible(button, required, held, modifiers),
{
    match button {
        Some(b) => is_held_exec(held, b) && modifiers_accept(required, modifiers),
        None => false,
    }
}

fn floor_exec(v: i64) -> (r: i64)
    ensures
        r == floor_px(v),
{
    let m = v.checked_rem_euclid(SUBPIXEL);
    match m {
        Some(rem) => {
            assert(0 <= rem < SUBPIXEL);
            assert(v - rem == floor_px(v));
            assert(v - rem >= i64::MIN) by (nonlinear_arith)
                requires
                    rem == v % 256,
                    0 <= rem < 256,
                    v >= i64::MIN,
            {
                assert(v == 256 * (v / 256) + rem);
                assert(i64::MIN == 256 * (i64::MIN / 256));
            }
            v - rem
        },
        None => v,
    }
}

fn repeats_exec(prev: Option<Point>, pos: Point) -> (r: bool)
    ensures
        r == repeats(prev, pos),
{
    match prev {
        None => false,
        Some(p) => p == pos || (pos.x == floor_exec(p.x) && pos.y == floor_exec(p.y)),
    }
}

} // verus!

verus! {

impl Controller {
    pub closed spec fn view(&self) -> State {
        State {
            input: self.input,
            mode: self.mode,
            contacts: self.registry@,
            orbit: self.orbit,
            slide: self.slide,
            cursor: self.cursor,
            pointer: self.pointer,
            width: self.width,
            height: self.height,
        }
    }

    pub open spec fn wf(&self) -> bool {
        valid(self@.contacts)
    }

    /// A controller in free mode with no contact, no baseline, the cursor at the origin and
    /// an 800 by 600 pixel viewport.
    pub fn new(input: Input) -> (r: Controller)
        ensures
            r.wf(),
            r@.input == input,
            r@.mode == Mode::Free,
            r@.contacts.entries.len() == 0,
            !r@.contacts.first_moved,
            !r@.contacts.second_moved,
            !r@.orbit,
            !r@.slide,
            r@.cursor.is_none(),
            r@.pointer == (Point { x: 0, y: 0 }),
            r@.width == INITIAL_WIDTH,
            r@.height == INITIAL_HEIGHT,
    {
        Controller {
            input,
            mode: Mode::Free,
            registry: Registry::new(),
            orbit: false,
            slide: false,
            cursor: None,
            pointer: Point { x: 0, y: 0 },
            width: INITIAL_WIDTH,
            height: INITIAL_HEIGHT,
        }
    }

    /// Current gesture mode.
    pub fn mode(&self) -> (r: Mode)
        ensures
            r == self@.mode,
    {
        self.mode
    }

    /// Number of registered contacts, fingers and the mouse.
    pub fn contacts(&self) -> (r: usize)
        ensures
            r == self@.contacts.entries.len(),
    {
        self.registry.count()
    }

    /// Whether `id` is a registered contact.
    pub fn is_registered(&self, id: ContactId) -> (r: bool)
        requires
            self.wf(),
        ensures
            r == holds(self@.contacts.entries, id),
    {
        self.registry.contains(id)
    }

    /// Whether the orbit accumulator holds a baseline.
    pub fn orbit_seeded(&self) -> (r: bool)
        ensures
            r == self@.orbit,
    {
        self.orbit
    }

    /// Whether the slide accumulator holds a baseline.
    pub fn slide_seeded(&self) -> (r: bool)
        ensures
            r == self@.slide,
    {
        self.slide
    }

    /// Tracked cursor position.
    pub fn pointer(&self) -> (r: Point)
        ensures
            r == self@.pointer,
    {
        self.pointer
    }

    /// Viewport extent in pixels.
    pub fn extent(&self) -> (r: (u32, u32))
        ensures
            r == (self@.width, self@.height),
    {
        (self.width, self.height)
    }

    /// Touch contact `id` started, moved, ended or was cancelled at `pos`.
    pub fn handle_touch(&mut self, id: u64, pos: Point, phase: Phase) -> (r: Vec<Command>)
        requires
            old(self).wf(),
        ensures
            final(self).wf(),
            (final(self)@, r@) == touch_step(old(self)@, id, pos, phase),
    {
        let ghost s = self@;
        let fid = ContactId::Finger(id);
        let mut out: Vec<Command> = Vec::new();
        match phase {
            Phase::Start | Phase::Move => {
                if phase == Phase::Start {
                    out.push(Command::DiscardSlide);
                    self.slide = false;
                }
                match self.registry.track(fid, pos) {
                    None => {
                        assert(out@ =~= touch_step(s, id, pos, phase).1);
                    },
                    Some(u) => {
                        out.push(Command::Track { id: fid, pos });
                        if self.mode == Mode::FirstPerson {
                            out.push(if self.slide { Command::Look(Source::Aggregate) } else { Command::SeedSlide(Source::Aggregate) });
                            self.slide = true;
                        } else if u.count == 1 {
                            out.push(if self.orbit { Command::Orbit } else { Command::SeedOrbit });
                            self.orbit = true;
                        } else {
                            out.push(if self.slide { Command::Slide(Source::Aggregate) } else { Command::SeedSlide(Source::Aggregate) });
                            self.slide = true;
                            if u.turned {
                                out.push(Command::RollAndPinch);
                            }
                        }
                        assert(out@ =~= touch_step(s, id, pos, phase).1);
                    },
                }
            },
            Phase::End | Phase::Cancel => {
                if self.registry.release(fid) {
                    out.push(Command::Release { id: fid });
                }
                out.push(Command::DiscardOrbit);
                out.push(Command::DiscardSlide);
                self.orbit = false;
                self.slide = false;
                assert(out@ =~= touch_step(s, id, pos, phase).1);
            },
        }
        out
    }

    /// Mouse `button` was pressed or released.
    pub fn handle_mouse_button(&mut self, button: MouseButton, action: Action) -> (r: Vec<Command>)
        requires
            old(self).wf(),
        ensures
            final(self).wf(),
            (final(self)@, r@) == button_step(old(self)@, button, action),
    {
        let ghost s = self@;
        let mut out: Vec<Command> = Vec::new();
        if self.mode == Mode::FirstPerson {
            assert(out@ =~= button_step(s, button, action).1);
            return out;
        }
        if button_matches(self.input.orbit_button, button) {
            if action == Action::Press {
                if self.registry.track(ContactId::Mouse, self.pointer).is_some() {
                    out.push(Command::Track { id: ContactId::Mouse, pos: self.pointer });
                }
            } else {
                out.push(Command::DiscardOrbit);
                self.orbit = false;
                if self.registry.release(ContactId::Mouse) {
                    out.push(Command::Release { id: ContactId::Mouse });
                }
            }
        }
        if button_matches(self.input.slide_button, button) {
            if action == Action::Press {
                out.push(Command::SeedSlide(Source::At(self.pointer)));
                self.slide = true;
            } else {
                out.push(Command::DiscardSlide);
                self.slide = false;
            }
        }
        assert(out@ =~= button_step(s, button, action).1);
        out
    }

    /// The cursor moved to `pos` with `modifiers` and the buttons of `held` pressed.
    pub fn handle_cursor_pos(&mut self, pos: Point, modifiers: Modifiers, held: u8) -> (r: Vec<
        Command,
    >)
        requires
            old(self).wf(),
        ensures
            final(self).wf(),
            (final(self)@, r@) == cursor_step(old(self)@, pos, modifiers, held),
    {
        let ghost s = self@;
        let mut out: Vec<Command> = Vec::new();
        let prev = self.cursor;
        self.cursor = Some(pos);
        if repeats_exec(prev, pos) {
            assert(out@ =~= cursor_step(s, pos, modifiers, held).1);
            return out;
        }
        if self.mode == Mode::FirstPerson {
            if self.registry.count() != 0 {
                assert(out@ =~= cursor_step(s, pos, modifiers, held).1);
                return out;
            }
            if self.slide {
                out.push(Command::GrabCursor);
                out.push(Command::Look(Source::At(pos)));
            } else {
                out.push(Command::SeedSlide(Source::At(pos)));
            }
            self.slide = true;
            let ghost feed = out@;
            let w = self.width as i64;
            let h = self.height as i64;
            if pos.y <= 0 {
                out.push(Command::Warp(Point { x: pos.x, y: (h - WRAP_MARGIN) * SUBPIXEL }));
                out.push(Command::DiscardSlide);
                self.slide = false;
            }
            if pos.x <= 0 {
                out.push(Command::Warp(Point { x: (w - WRAP_MARGIN) * SUBPIXEL, y: pos.y }));
                out.push(Command::DiscardSlide);
                self.slide = false;
            }
            if pos.x >= (w - 1) * SUBPIXEL {
                out.push(Command::Warp(Point { x: SUBPIXEL, y: pos.y }));
                out.push(Command::DiscardSlide);
                self.slide = false;
            }
            if pos.y >= (h - 1) * SUBPIXEL {
                out.push(Command::Warp(Point { x: pos.x, y: SUBPIXEL }));
                out.push(Command::DiscardSlide);
                self.slide = false;
            }
            assert(out@ =~= feed + edge_warps(pos, s.width, s.height));
            assert(out@ =~= cursor_step(s, pos, modifiers, held).1);
            return out;
        }
        self.pointer = pos;
        out.push(Command::SetCursor(pos));
        let orbit = is_eligible(self.input.orbit_button, self.input.orbit_modifiers, held, modifiers);
        let slide = is_eligible(self.input.slide_button, self.input.slide_modifiers, held, modifiers);
        if orbit && slide {
            out.push(Command::DiscardOrbit);
            out.push(Command::DiscardSlide);
            self.orbit = false;
            self.slide = false;
        }
        if orbit {
            if self.registry.track(ContactId::Mouse, pos).is_some() {
                out.push(Command::Track { id: ContactId::Mouse, pos });
                out.push(if self.orbit { Command::Orbit } else { Command::SeedOrbit });
                self.orbit = true;
            }
        }
        if slide {
            out.push(if self.slide { Command::Slide(Source::At(pos)) } else { Command::SeedSlide(Source::At(pos)) });
            self.slide = true;
        }
        assert(out@ =~= cursor_step(s, pos, modifiers, held).1);
        out
    }

    /// The wheel scrolled: zoom at the tracked cursor position.
    pub fn handle_scroll(&mut self) -> (r: Vec<Command>)
        requires
            old(self).wf(),
        ensures
            final(self).wf(),
            (final(self)@, r@) == step(old(self)@, Event::Scroll),
    {
        let mut out: Vec<Command> = Vec::new();
        out.push(Command::Zoom(self.pointer));
        assert(out@ =~= seq![Command::Zoom(self.pointer)]);
        out
    }

    /// `key` was pressed or released.
    pub fn handle_key(&mut self, key: Key, action: Action) -> (r: Vec<Command>)
        requires
            old(self).wf(),
        ensures
            final(self).wf(),
            (final(self)@, r@) == key_step(old(self)@, key, action),
    {
        let ghost s = self@;
        let mut out: Vec<Command> = Vec::new();
        if key_matches(self.input.first_key, key) {
            assert(SUBPIXEL / 2 == 128);
            let mid = Point {
                x: self.width as i64 * (SUBPIXEL / 2),
                y: self.height as i64 * (SUBPIXEL / 2),
            };
            if action == Action::Press {
                if self.mode == Mode::Free {
                    out.push(Command::EnterFirstPerson);
                    out.push(Command::SetCursor(mid));
                    self.mode = Mode::FirstPerson;
                    self.pointer = mid;
                }
            } else {
                out.push(Command::DiscardSlide);
                out.push(Command::LeaveFirstPerson);
                self.slide = false;
                self.mode = Mode::Free;
                if self.registry.count() == 0 {
                    out.push(Command::Warp(mid));
                    out.push(Command::FreeCursor);
                }
            }
        } else if action == Action::Press && key_matches(self.input.ortho_key, key) {
            out.push(Command::ToggleOrtho);
        } else if action == Action::Press && key_matches(self.input.reset_key, key) {
            out.push(Command::Reset);
        }
        assert(out@ =~= key_step(s, key, action).1);
        out
    }

    /// The framebuffer was resized to `w` by `h` pixels.
    pub fn handle_framebuffer_size(&mut self, w: u32, h: u32) -> (r: Vec<Command>)
        requires
            old(self).wf(),
        ensures
            final(self).wf(),
            (final(self)@, r@) == step(old(self)@, Event::FramebufferSize { w, h }),
    {
        self.width = w;
        self.height = h;
        let mut out: Vec<Command> = Vec::new();
        out.push(Command::Resize { w, h });
        assert(out@ =~= seq![Command::Resize { w, h }]);
        out
    }

    /// Handles one input event and returns the commands to perform, in order.
    pub fn handle_event(&mut self, event: Event) -> (r: Vec<Command>)
        requires
            old(self).wf(),
        ensures
            final(self).wf(),
            (final(self)@, r@) == step(old(self)@, event),
    {
        match event {
            Event::Touch { id, pos, phase } => self.handle_touch(id, pos, phase),
            Event::MouseButton { button, action } => self.handle_mouse_button(button, action),
            Event::CursorPos { pos, modifiers, held } => self.handle_cursor_pos(pos, modifiers, held),
            Event::Scroll => self.handle_scroll(),
            Event::Key { key, action } => self.handle_key(key, action),
            Event::FramebufferSize { w, h } => self.handle_framebuffer_size(w, h),
            Event::Other => Vec::new(),
        }
    }
}

} // verus!

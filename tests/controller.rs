use kiss3d_trackball::{Action, Command, Controller, Event, Mode, Phase, Source};
use kiss3d_trackball::{ContactId, Input, Key, Modifiers, MouseButton, Point, KEY_LSHIFT, KEY_O, KEY_RETURN};

fn p(x: i64, y: i64) -> Point {
    Point { x: x * 256, y: y * 256 }
}

fn controller() -> Controller {
    Controller::new(Input::default())
}

fn none() -> Modifiers {
    Modifiers::empty()
}

fn moves(cmds: &[Command]) -> usize {
    cmds.iter()
        .filter(|c| matches!(c, Command::Orbit | Command::Slide(_) | Command::Look(_) | Command::RollAndPinch))
        .count()
}

#[test]
fn single_finger_start_then_move_orbits_once() {
    let mut c = controller();
    let a = c.handle_touch(7, p(100, 100), Phase::Start);
    assert_eq!(
        a,
        vec![
            Command::DiscardSlide,
            Command::Track { id: ContactId::Finger(7), pos: p(100, 100) },
            Command::SeedOrbit,
        ]
    );
    let b = c.handle_touch(7, p(110, 100), Phase::Move);
    assert_eq!(b, vec![Command::Track { id: ContactId::Finger(7), pos: p(110, 100) }, Command::Orbit]);
    let all: Vec<Command> = a.into_iter().chain(b).collect();
    assert_eq!(all.iter().filter(|c| **c == Command::Orbit).count(), 1);
    assert_eq!(all.iter().filter(|c| matches!(c, Command::Slide(_))).count(), 0);
}

#[test]
fn single_contact_count_until_end() {
    let mut c = controller();
    c.handle_touch(1, p(5, 5), Phase::Start);
    assert_eq!(c.contacts(), 1);
    c.handle_touch(1, p(6, 5), Phase::Move);
    assert_eq!(c.contacts(), 1);
    c.handle_touch(1, p(6, 5), Phase::Move);
    assert_eq!(c.contacts(), 1);
    assert!(c.is_registered(ContactId::Finger(1)));
    let end = c.handle_touch(1, p(6, 5), Phase::End);
    assert_eq!(
        end,
        vec![Command::Release { id: ContactId::Finger(1) }, Command::DiscardOrbit, Command::DiscardSlide]
    );
    assert_eq!(c.contacts(), 0);
    assert!(!c.is_registered(ContactId::Finger(1)));
}

#[test]
fn unchanged_touch_position_still_reports() {
    let mut c = controller();
    c.handle_touch(1, p(5, 5), Phase::Start);
    assert_eq!(
        c.handle_touch(1, p(5, 5), Phase::Move),
        vec![Command::Track { id: ContactId::Finger(1), pos: p(5, 5) }, Command::Orbit]
    );
}

#[test]
fn two_fingers_roll_only_after_both_moved() {
    let mut c = controller();
    c.handle_touch(1, p(100, 100), Phase::Start);
    let b = c.handle_touch(2, p(200, 100), Phase::Start);
    assert_eq!(c.contacts(), 2);
    assert_eq!(
        b,
        vec![
            Command::DiscardSlide,
            Command::Track { id: ContactId::Finger(2), pos: p(200, 100) },
            Command::SeedSlide(Source::Aggregate),
        ]
    );
    let m1 = c.handle_touch(1, p(90, 110), Phase::Move);
    assert_eq!(
        m1,
        vec![Command::Track { id: ContactId::Finger(1), pos: p(90, 110) }, Command::Slide(Source::Aggregate)]
    );
    let m2 = c.handle_touch(2, p(210, 90), Phase::Move);
    assert_eq!(
        m2,
        vec![
            Command::Track { id: ContactId::Finger(2), pos: p(210, 90) },
            Command::Slide(Source::Aggregate),
            Command::RollAndPinch,
        ]
    );
    // an update that moves nothing measures no roll
    let still = c.handle_touch(1, p(90, 110), Phase::Move);
    assert_eq!(moves(&still), 1);
    assert!(!still.contains(&Command::RollAndPinch));
}

#[test]
fn one_of_two_fingers_released_discards_both_baselines() {
    let mut c = controller();
    c.handle_touch(1, p(100, 100), Phase::Start);
    c.handle_touch(2, p(200, 100), Phase::Start);
    c.handle_touch(1, p(90, 100), Phase::Move);
    let r = c.handle_touch(2, p(200, 100), Phase::End);
    assert!(r.contains(&Command::DiscardOrbit));
    assert!(r.contains(&Command::DiscardSlide));
    assert_eq!(c.contacts(), 1);
    assert!(c.is_registered(ContactId::Finger(1)));
    assert!(!c.orbit_seeded());
    assert!(!c.slide_seeded());
}

#[test]
fn cancel_of_unknown_finger_only_discards() {
    let mut c = controller();
    let r = c.handle_touch(9, p(1, 1), Phase::Cancel);
    assert_eq!(r, vec![Command::DiscardOrbit, Command::DiscardSlide]);
}

#[test]
fn eleventh_finger_is_ignored() {
    let mut c = controller();
    for i in 0..10u64 {
        c.handle_touch(i, p(i as i64 + 1, 1), Phase::Start);
    }
    assert_eq!(c.contacts(), 10);
    assert_eq!(c.handle_touch(10, p(50, 50), Phase::Start), vec![Command::DiscardSlide]);
    assert_eq!(c.contacts(), 10);
}

#[test]
fn conflicting_orbit_and_slide_reset_both() {
    let mut c = controller();
    c.handle_cursor_pos(p(10, 10), none(), 0);
    let both = 0b11u8;
    let first = c.handle_cursor_pos(p(20, 20), none(), both);
    assert_eq!(
        first,
        vec![
            Command::SetCursor(p(20, 20)),
            Command::DiscardOrbit,
            Command::DiscardSlide,
            Command::Track { id: ContactId::Mouse, pos: p(20, 20) },
            Command::SeedOrbit,
            Command::SeedSlide(Source::At(p(20, 20))),
        ]
    );
    let second = c.handle_cursor_pos(p(30, 20), none(), both);
    assert_eq!(moves(&second), 0);
    assert!(c.orbit_seeded());
    assert!(c.slide_seeded());
}

#[test]
fn conflict_reseeds_orbit_at_unchanged_mouse_contact() {
    let mut c = controller();
    c.handle_key(Key { code: KEY_LSHIFT }, Action::Press);
    c.handle_key(Key { code: KEY_LSHIFT }, Action::Release);
    let press = c.handle_mouse_button(MouseButton::Button1, Action::Press);
    assert_eq!(press, vec![Command::Track { id: ContactId::Mouse, pos: p(400, 300) }]);
    let r = c.handle_cursor_pos(p(400, 300), none(), 0b11);
    assert_eq!(
        r,
        vec![
            Command::SetCursor(p(400, 300)),
            Command::DiscardOrbit,
            Command::DiscardSlide,
            Command::Track { id: ContactId::Mouse, pos: p(400, 300) },
            Command::SeedOrbit,
            Command::SeedSlide(Source::At(p(400, 300))),
        ]
    );
    assert!(c.orbit_seeded());
    assert!(c.slide_seeded());
}

#[test]
fn orbit_drag_with_mouse() {
    let mut c = controller();
    c.handle_cursor_pos(p(10, 10), none(), 0);
    c.handle_cursor_pos(p(50, 60), none(), 0);
    let press = c.handle_mouse_button(MouseButton::Button1, Action::Press);
    assert_eq!(press, vec![Command::Track { id: ContactId::Mouse, pos: p(50, 60) }]);
    let d1 = c.handle_cursor_pos(p(55, 60), none(), 0b01);
    assert_eq!(
        d1,
        vec![
            Command::SetCursor(p(55, 60)),
            Command::Track { id: ContactId::Mouse, pos: p(55, 60) },
            Command::SeedOrbit,
        ]
    );
    let d2 = c.handle_cursor_pos(p(58, 60), none(), 0b01);
    assert_eq!(d2[2], Command::Orbit);
    let rel = c.handle_mouse_button(MouseButton::Button1, Action::Release);
    assert_eq!(rel, vec![Command::DiscardOrbit, Command::Release { id: ContactId::Mouse }]);
    assert_eq!(c.contacts(), 0);
}

#[test]
fn slide_drag_with_mouse() {
    let mut c = controller();
    c.handle_cursor_pos(p(10, 10), none(), 0);
    c.handle_cursor_pos(p(40, 40), none(), 0);
    let press = c.handle_mouse_button(MouseButton::Button2, Action::Press);
    assert_eq!(press, vec![Command::SeedSlide(Source::At(p(40, 40)))]);
    let d = c.handle_cursor_pos(p(45, 40), none(), 0b10);
    assert_eq!(d, vec![Command::SetCursor(p(45, 40)), Command::Slide(Source::At(p(45, 40)))]);
    assert_eq!(c.handle_mouse_button(MouseButton::Button2, Action::Release), vec![Command::DiscardSlide]);
}

#[test]
fn modifier_requirement_is_exact() {
    let mut c = controller();
    let shift = Modifiers { shift: true, control: false, alt: false, logo: false };
    c.input.set_orbit_modifiers(Some(shift));
    c.handle_cursor_pos(p(10, 10), none(), 0);
    let without = c.handle_cursor_pos(p(11, 10), none(), 0b01);
    assert_eq!(without, vec![Command::SetCursor(p(11, 10))]);
    let with = c.handle_cursor_pos(p(12, 10), shift, 0b01);
    assert_eq!(with[2], Command::SeedOrbit);
}

#[test]
fn disabled_binding_never_matches() {
    let mut c = controller();
    c.input.rebind_orbit_button(None);
    assert_eq!(c.handle_mouse_button(MouseButton::Button1, Action::Press), vec![]);
    c.input.rebind_reset_key(None);
    assert_eq!(c.handle_key(Key { code: KEY_RETURN }, Action::Press), vec![]);
}

#[test]
fn first_cursor_event_is_processed_and_repeats_ignored() {
    let mut c = controller();
    assert_eq!(c.handle_cursor_pos(p(5, 5), none(), 0), vec![Command::SetCursor(p(5, 5))]);
    assert_eq!(c.pointer(), p(5, 5));
    assert_eq!(c.handle_cursor_pos(p(5, 5), none(), 0), vec![]);
    let frac = Point { x: 10 * 256 + 128, y: 10 * 256 + 3 };
    assert_eq!(c.handle_cursor_pos(frac, none(), 0), vec![Command::SetCursor(frac)]);
    // the stored position rounded down to whole pixels
    assert_eq!(c.handle_cursor_pos(p(10, 10), none(), 0), vec![]);
    assert_eq!(c.pointer(), frac);
    // a sub-pixel position whose floor is the stored one is not a repeat
    let half = Point { x: 10 * 256 + 128, y: 10 * 256 };
    assert_eq!(c.handle_cursor_pos(half, none(), 0), vec![Command::SetCursor(half)]);
}

#[test]
fn floor_of_negative_positions() {
    let mut c = controller();
    let q = Point { x: -200, y: -1 };
    assert_eq!(c.handle_cursor_pos(q, none(), 0), vec![Command::SetCursor(q)]);
    assert_eq!(c.handle_cursor_pos(p(-1, -1), none(), 0), vec![]);
}

#[test]
fn first_person_touch_precedence() {
    let mut c = controller();
    c.handle_touch(3, p(100, 100), Phase::Start);
    let enter = c.handle_key(Key { code: KEY_LSHIFT }, Action::Press);
    assert_eq!(enter, vec![Command::EnterFirstPerson, Command::SetCursor(p(400, 300))]);
    assert_eq!(c.mode(), Mode::FirstPerson);
    assert_eq!(c.contacts(), 1);
    c.handle_cursor_pos(p(10, 10), none(), 0);
    assert_eq!(c.handle_cursor_pos(p(20, 10), none(), 0), vec![]);
    c.handle_touch(3, p(100, 100), Phase::End);
    assert_eq!(c.handle_cursor_pos(p(30, 10), none(), 0), vec![Command::SeedSlide(Source::At(p(30, 10)))]);
    assert_eq!(
        c.handle_cursor_pos(p(35, 10), none(), 0),
        vec![Command::GrabCursor, Command::Look(Source::At(p(35, 10)))]
    );
}

#[test]
fn first_person_touch_looks_around() {
    let mut c = controller();
    c.handle_key(Key { code: KEY_LSHIFT }, Action::Press);
    let a = c.handle_touch(1, p(10, 10), Phase::Start);
    assert_eq!(a[2], Command::SeedSlide(Source::Aggregate));
    let b = c.handle_touch(1, p(12, 10), Phase::Move);
    assert_eq!(b[1], Command::Look(Source::Aggregate));
}

#[test]
fn cursor_wraps_at_top_edge() {
    let mut c = controller();
    c.handle_key(Key { code: KEY_LSHIFT }, Action::Press);
    c.handle_cursor_pos(p(400, 300), none(), 0);
    c.handle_cursor_pos(p(400, 200), none(), 0);
    let top = c.handle_cursor_pos(p(400, 0), none(), 0);
    assert_eq!(
        top,
        vec![
            Command::GrabCursor,
            Command::Look(Source::At(p(400, 0))),
            Command::Warp(p(400, 598)),
            Command::DiscardSlide,
        ]
    );
    assert_eq!(top.iter().filter(|c| matches!(c, Command::Warp(_))).count(), 1);
    assert!(!c.slide_seeded());
    assert_eq!(c.handle_cursor_pos(p(400, 0), none(), 0), vec![]);
    assert_eq!(c.handle_cursor_pos(p(400, 598), none(), 0), vec![Command::SeedSlide(Source::At(p(400, 598)))]);
}

#[test]
fn cursor_wraps_at_other_edges() {
    let mut c = controller();
    c.handle_key(Key { code: KEY_LSHIFT }, Action::Press);
    c.handle_cursor_pos(p(400, 300), none(), 0);
    let left = c.handle_cursor_pos(p(0, 300), none(), 0);
    assert_eq!(left[left.len() - 2..].to_vec(), vec![Command::Warp(p(798, 300)), Command::DiscardSlide]);
    let right = c.handle_cursor_pos(p(799, 300), none(), 0);
    assert_eq!(right[right.len() - 2..].to_vec(), vec![Command::Warp(p(1, 300)), Command::DiscardSlide]);
    let bottom = c.handle_cursor_pos(p(400, 599), none(), 0);
    assert_eq!(bottom[bottom.len() - 2..].to_vec(), vec![Command::Warp(p(400, 1)), Command::DiscardSlide]);
    let corner = c.handle_cursor_pos(p(0, 0), none(), 0);
    assert_eq!(corner.iter().filter(|c| matches!(c, Command::Warp(_))).count(), 2);
}

#[test]
fn leaving_first_person_restores_cursor() {
    let mut c = controller();
    c.handle_key(Key { code: KEY_LSHIFT }, Action::Press);
    let leave = c.handle_key(Key { code: KEY_LSHIFT }, Action::Release);
    assert_eq!(
        leave,
        vec![
            Command::DiscardSlide,
            Command::LeaveFirstPerson,
            Command::Warp(p(400, 300)),
            Command::FreeCursor,
        ]
    );
    assert_eq!(c.mode(), Mode::Free);
}

#[test]
fn mouse_buttons_ignored_in_first_person() {
    let mut c = controller();
    c.handle_key(Key { code: KEY_LSHIFT }, Action::Press);
    assert_eq!(c.handle_mouse_button(MouseButton::Button1, Action::Press), vec![]);
    assert_eq!(c.handle_key(Key { code: KEY_LSHIFT }, Action::Press), vec![]);
}

#[test]
fn reset_key_restores_frame() {
    let mut c = controller();
    c.handle_touch(1, p(100, 100), Phase::Start);
    c.handle_touch(1, p(150, 120), Phase::Move);
    c.handle_scroll();
    assert_eq!(c.handle_key(Key { code: KEY_RETURN }, Action::Press), vec![Command::Reset]);
    assert_eq!(c.handle_key(Key { code: KEY_RETURN }, Action::Release), vec![]);
}

#[test]
fn ortho_key_toggles_projection() {
    let mut c = controller();
    assert_eq!(c.handle_key(Key { code: KEY_O }, Action::Press), vec![Command::ToggleOrtho]);
    assert_eq!(c.handle_key(Key { code: 999 }, Action::Press), vec![]);
}

#[test]
fn scroll_zooms_at_tracked_cursor() {
    let mut c = controller();
    assert_eq!(c.handle_scroll(), vec![Command::Zoom(p(0, 0))]);
    c.handle_cursor_pos(p(1, 1), none(), 0);
    c.handle_cursor_pos(p(70, 80), none(), 0);
    assert_eq!(c.handle_event(Event::Scroll), vec![Command::Zoom(p(70, 80))]);
}

#[test]
fn resize_changes_centre_and_edges() {
    let mut c = controller();
    assert_eq!(c.handle_framebuffer_size(1024, 768), vec![Command::Resize { w: 1024, h: 768 }]);
    assert_eq!(c.extent(), (1024, 768));
    let enter = c.handle_key(Key { code: KEY_LSHIFT }, Action::Press);
    assert_eq!(enter[1], Command::SetCursor(p(512, 384)));
    assert_eq!(c.pointer(), p(512, 384));
    assert_eq!(c.handle_event(Event::Other), vec![]);
}

#[test]
fn input_defaults_and_rebinding() {
    let mut i = Input::default();
    assert_eq!(i.first_key(), Some(Key { code: KEY_LSHIFT }));
    assert_eq!(i.ortho_key(), Some(Key { code: KEY_O }));
    assert_eq!(i.reset_key(), Some(Key { code: KEY_RETURN }));
    assert_eq!(i.orbit_button(), Some(MouseButton::Button1));
    assert_eq!(i.slide_button(), Some(MouseButton::Button2));
    assert_eq!(i.orbit_modifiers(), None);
    assert_eq!(i.slide_modifiers(), None);
    i.rebind_first_key(Some(Key { code: 1 }));
    i.rebind_ortho_key(None);
    i.rebind_reset_key(Some(Key { code: 2 }));
    i.rebind_orbit_button(Some(MouseButton::Button3));
    i.rebind_slide_button(None);
    i.set_orbit_modifiers(Some(Modifiers::empty()));
    i.set_slide_modifiers(Some(Modifiers { shift: false, control: true, alt: false, logo: false }));
    assert_eq!(i.first_key(), Some(Key { code: 1 }));
    assert_eq!(i.ortho_key(), None);
    assert_eq!(i.reset_key(), Some(Key { code: 2 }));
    assert_eq!(i.orbit_button(), Some(MouseButton::Button3));
    assert_eq!(i.slide_button(), None);
    assert_eq!(i.orbit_modifiers(), Some(Modifiers::empty()));
    assert!(i.slide_modifiers().unwrap().control);
}

#[test]
fn events_dispatch_to_handlers() {
    let mut c = controller();
    let t = c.handle_event(Event::Touch { id: 4, pos: p(3, 4), phase: Phase::Start });
    assert_eq!(t[1], Command::Track { id: ContactId::Finger(4), pos: p(3, 4) });
    let k = c.handle_event(Event::Key { key: Key { code: KEY_O }, action: Action::Press });
    assert_eq!(k, vec![Command::ToggleOrtho]);
    let b = c.handle_event(Event::MouseButton { button: MouseButton::Button2, action: Action::Release });
    assert_eq!(b, vec![Command::DiscardSlide]);
    c.handle_event(Event::CursorPos { pos: p(1, 1), modifiers: none(), held: 0 });
    let m = c.handle_event(Event::CursorPos { pos: p(2, 1), modifiers: none(), held: 0 });
    assert_eq!(m, vec![Command::SetCursor(p(2, 1))]);
    assert_eq!(c.handle_event(Event::FramebufferSize { w: 10, h: 20 }), vec![Command::Resize { w: 10, h: 20 }]);
}

#[test]
fn mode_changes_only_by_first_person_key() {
    let mut c = controller();
    c.handle_key(Key { code: KEY_O }, Action::Press);
    c.handle_touch(1, p(1, 1), Phase::Start);
    c.handle_scroll();
    assert_eq!(c.mode(), Mode::Free);
    c.handle_key(Key { code: KEY_LSHIFT }, Action::Press);
    assert_eq!(c.mode(), Mode::FirstPerson);
    c.handle_touch(1, p(1, 1), Phase::End);
    c.handle_key(Key { code: KEY_RETURN }, Action::Press);
    assert_eq!(c.mode(), Mode::FirstPerson);
    let leave = c.handle_key(Key { code: KEY_LSHIFT }, Action::Release);
    assert_eq!(leave.len(), 4);
    assert_eq!(c.mode(), Mode::Free);
}

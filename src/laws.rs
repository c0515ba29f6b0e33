use vstd::prelude::*;

use crate::controller::{
    cursor_step, eligible, key_step, px, repeats, step, touch_step, Action, Command, Event, Mode,
    Phase, Source, State,
};
use crate::input::{bound_to, Key, Modifiers};
use crate::registry::{
    accepts, after_track, holds, moves, slot, track_report, valid, ContactId, Contacts, Point, Update,
};

verus! {

/// While a single touch contact is down it is the only registered contact and the registry
/// reports a count of one; once it ends or is cancelled it is gone. Together with an empty
/// start this holds over every sequence of events of that contact.
pub proof fn law_single_contact(s: State, id: u64, pos: Point, phase: Phase)
    requires
        s.contacts.entries.len() == 0 || (s.contacts.entries.len() == 1
            && s.contacts.entries[0].0 == ContactId::Finger(id)),
    ensures
        ({
            let t = touch_step(s, id, pos, phase).0;
            if phase == Phase::Start || phase == Phase::Move {
                &&& t.contacts.entries.len() == 1
                &&& t.contacts.entries[0].0 == ContactId::Finger(id)
                &&& track_report(s.contacts, ContactId::Finger(id), pos) matches Some(u) ==> u.count
                    == 1
            } else {
                &&& t.contacts.entries.len() == 0
                &&& !holds(t.contacts.entries, ContactId::Finger(id))
            }
        }),
{
    if s.contacts.entries.len() == 1 {
        assert(s.contacts.entries[0].0 == ContactId::Finger(id));
        assert(holds(s.contacts.entries, ContactId::Finger(id)));
    }
}

/// A second contact joining a first one yields a count of two with no roll or pinch, and so does
/// the first move of either of them; roll and pinch are measured only once both have moved since
/// the pair formed.
pub proof fn law_pair_turns(
    c: Contacts,
    a: u64,
    b: u64,
    pa: Point,
    pb: Point,
    pa2: Point,
    pb2: Point,
)
    requires
        valid(c),
        c.entries == seq![(ContactId::Finger(a), pa)],
        a != b,
        pa2 != pa,
        pb2 != pb,
    ensures
        ({
            let (fa, fb) = (ContactId::Finger(a), ContactId::Finger(b));
            let c1 = after_track(c, fb, pb);
            let c2 = after_track(c1, fa, pa2);
            &&& track_report(c, fb, pb) == Some(Update { count: 2, turned: false })
            &&& track_report(c1, fa, pa2) == Some(Update { count: 2, turned: false })
            &&& track_report(c2, fb, pb2) == Some(Update { count: 2, turned: true })
        }),
{
    let fa = ContactId::Finger(a);
    let fb = ContactId::Finger(b);
    assert(!holds(c.entries, fb));
    let c1 = after_track(c, fb, pb);
    assert(c1.entries[0].0 == fa);
    assert(c1.entries[1].0 == fb);
    assert(holds(c1.entries, fa));
    assert(slot(c1.entries, fa) == 0);
    let c2 = after_track(c1, fa, pa2);
    assert(c2.entries[0].0 == fa);
    assert(c2.entries[1].0 == fb);
    assert(holds(c2.entries, fb));
    assert(slot(c2.entries, fb) == 1);
}

/// Roll and pinch are reported only when an update moves one of exactly two contacts and both
/// have moved since the pair formed.
pub proof fn law_turned_needs_both_moved(c: Contacts, id: ContactId, pos: Point)
    ensures
        track_report(c, id, pos) matches Some(u) && u.turned ==> ({
            let d = after_track(c, id, pos);
            &&& d.entries.len() == 2
            &&& d.first_moved
            &&& d.second_moved
            &&& moves(c, id, pos)
        }),
{
}

/// When the orbit and the slide gesture are both in effect in one cursor event in free mode,
/// both baselines are discarded first and then seeded from this event's position alone: the
/// mouse contact is tracked there and its aggregate seeds the orbit, the position seeds the
/// slide, and nothing moves. The orbit is seeded whenever the registry takes the mouse contact.
pub proof fn law_conflict_reset(s: State, pos: Point, modifiers: Modifiers, held: u8)
    requires
        s.mode == Mode::Free,
        !repeats(s.cursor, pos),
        eligible(s.input.orbit_button, s.input.orbit_modifiers, held, modifiers),
        eligible(s.input.slide_button, s.input.slide_modifiers, held, modifiers),
    ensures
        ({
            let (t, c) = cursor_step(s, pos, modifiers, held);
            &&& c[1] == Command::DiscardOrbit
            &&& c[2] == Command::DiscardSlide
            &&& forall|i: int|
                0 <= i < c.len() ==> c[i] != Command::Orbit && !(c[i] is Slide) && !(c[i] is Look)
            &&& accepts(s.contacts, ContactId::Mouse) ==> {
                &&& c[3] == Command::Track { id: ContactId::Mouse, pos }
                &&& c[4] == Command::SeedOrbit
                &&& t.orbit
            }
            &&& c.last() == Command::SeedSlide(Source::At(pos))
            &&& t.slide
        }),
{
}

/// In first person mode the cursor is ignored while any contact is registered; entering that
/// mode leaves the registered contacts as they are.
pub proof fn law_touch_precedence(s: State, pos: Point, modifiers: Modifiers, held: u8, key: Key)
    requires
        s.mode == Mode::FirstPerson,
        s.contacts.entries.len() > 0,
    ensures
        cursor_step(s, pos, modifiers, held).1 == Seq::<Command>::empty(),
        cursor_step(s, pos, modifiers, held).0.contacts == s.contacts,
        cursor_step(s, pos, modifiers, held).0.slide == s.slide,
        cursor_step(s, pos, modifiers, held).0.orbit == s.orbit,
        key_step(State { mode: Mode::Free, ..s }, key, Action::Press).0.contacts == s.contacts,
{
}

/// In first person mode, a cursor at the top edge is warped once to just above the bottom edge
/// and the slide baseline is discarded; a repeat of that position does nothing, and the event
/// at the warp target only seeds the slide baseline anew.
pub proof fn law_edge_wrap(s: State, x: i64, modifiers: Modifiers, held: u8)
    requires
        s.mode == Mode::FirstPerson,
        s.contacts.entries.len() == 0,
        !repeats(s.cursor, Point { x, y: 0 }),
        0 < x < px(s.width - 1),
        s.height >= 3,
    ensures
        ({
            let pos = Point { x, y: 0 };
            let target = Point { x, y: px(s.height - 2) as i64 };
            let (t, c) = cursor_step(s, pos, modifiers, held);
            let feed = if s.slide {
                seq![Command::GrabCursor, Command::Look(Source::At(pos))]
            } else {
                seq![Command::SeedSlide(Source::At(pos))]
            };
            &&& c == feed + seq![Command::Warp(target), Command::DiscardSlide]
            &&& !t.slide
            &&& cursor_step(t, pos, modifiers, held) == (t, Seq::<Command>::empty())
            &&& cursor_step(t, target, modifiers, held).1 == seq![
                Command::SeedSlide(Source::At(target)),
            ]
        }),
{
    let pos = Point { x, y: 0 };
    let target = Point { x, y: px(s.height - 2) as i64 };
    let (t, c) = cursor_step(s, pos, modifiers, held);
    let feed = if s.slide {
        seq![Command::GrabCursor, Command::Look(Source::At(pos))]
    } else {
        seq![Command::SeedSlide(Source::At(pos))]
    };
    assert(c =~= feed + seq![Command::Warp(target), Command::DiscardSlide]);
    assert(target.y % 256 == 0);
    assert(!repeats(t.cursor, target));
    assert(cursor_step(t, target, modifiers, held).1 =~= seq![
        Command::SeedSlide(Source::At(target)),
    ]);
}

/// Pressing the reset key replaces the frame with the reset frame and nothing else, whatever
/// came before.
pub proof fn law_reset(s: State, key: Key)
    requires
        bound_to(s.input.reset_key, key),
        !bound_to(s.input.first_key, key),
        !bound_to(s.input.ortho_key, key),
    ensures
        key_step(s, key, Action::Press) == (s, seq![Command::Reset]),
{
}

/// Only the first person key changes the mode: its press enters first person view and its
/// release leaves it.
pub proof fn law_mode_changes(s: State, e: Event)
    ensures
        match e {
            Event::Key { key, action } => if bound_to(s.input.first_key, key) {
                step(s, e).0.mode == (if action == Action::Press {
                    Mode::FirstPerson
                } else {
                    Mode::Free
                })
            } else {
                step(s, e).0.mode == s.mode
            },
            _ => step(s, e).0.mode == s.mode,
        },
{
}

/// The state after each event of `es` in turn.
pub open spec fn run(s: State, es: Seq<Event>) -> State
    decreases es.len(),
{
    if es.len() == 0 {
        s
    } else {
        step(run(s, es.drop_last()), es.last()).0
    }
}

/// No contact, or `id` alone.
pub open spec fn at_most(c: Contacts, id: u64) -> bool {
    c.entries.len() == 0 || (c.entries.len() == 1 && c.entries[0].0 == ContactId::Finger(id))
}

proof fn lemma_run_at_most(s: State, id: u64, es: Seq<Event>)
    requires
        at_most(s.contacts, id),
        forall|i: int| 0 <= i < es.len() ==> (es[i] is Touch && es[i]->Touch_id == id),
    ensures
        at_most(run(s, es).contacts, id),
    decreases es.len(),
{
    if es.len() > 0 {
        let init = es.drop_last();
        assert forall|i: int| 0 <= i < init.len() implies (init[i] is Touch && init[i]->Touch_id
            == id) by {
            assert(init[i] == es[i]);
        }
        lemma_run_at_most(s, id, init);
        let e = es.last();
        assert(es[es.len() - 1] == e);
        law_single_contact(run(s, init), id, e->Touch_pos, e->Touch_phase);
    }
}

/// Over any sequence of events of one touch contact from a registry without contacts, the
/// contact is the only registered one after each start or move, with a count of one, and is
/// gone after each end or cancel.
pub proof fn law_single_contact_run(s: State, id: u64, es: Seq<Event>)
    requires
        s.contacts.entries.len() == 0,
        forall|i: int| 0 <= i < es.len() ==> (es[i] is Touch && es[i]->Touch_id == id),
    ensures
        forall|k: int|
            0 < k <= es.len() ==> ({
                let t = run(s, #[trigger] es.take(k));
                let phase = es[k - 1]->Touch_phase;
                if phase == Phase::Start || phase == Phase::Move {
                    t.contacts.entries.len() == 1 && t.contacts.entries[0].0 == ContactId::Finger(id)
                } else {
                    t.contacts.entries.len() == 0 && !holds(t.contacts.entries, ContactId::Finger(id))
                }
            }),
{
    assert forall|k: int| 0 < k <= es.len() implies ({
        let t = run(s, #[trigger] es.take(k));
        let phase = es[k - 1]->Touch_phase;
        if phase == Phase::Start || phase == Phase::Move {
            t.contacts.entries.len() == 1 && t.contacts.entries[0].0 == ContactId::Finger(id)
        } else {
            t.contacts.entries.len() == 0 && !holds(t.contacts.entries, ContactId::Finger(id))
        }
    }) by {
        let pre = es.take(k - 1);
        assert(es.take(k).drop_last() =~= pre);
        assert(es.take(k).last() == es[k - 1]);
        assert forall|i: int| 0 <= i < pre.len() implies (pre[i] is Touch && pre[i]->Touch_id
            == id) by {
            assert(pre[i] == es[i]);
        }
        lemma_run_at_most(s, id, pre);
        let e = es[k - 1];
        law_single_contact(run(s, pre), id, e->Touch_pos, e->Touch_phase);
    }
}

/// Whether `e` is a cursor event in which the orbit and the slide gesture are both in effect.
pub open spec fn conflicting(input: crate::input::Input, e: Event) -> bool {
    &&& e is CursorPos
    &&& eligible(input.orbit_button, input.orbit_modifiers, e->CursorPos_held, e->CursorPos_modifiers)
    &&& eligible(input.slide_button, input.slide_modifiers, e->CursorPos_held, e->CursorPos_modifiers)
}

/// Whether no event of `es` repeats the cursor position before it, starting from `first`.
pub open spec fn fresh_positions(first: Option<Point>, es: Seq<Event>) -> bool {
    &&& es.len() > 0 ==> !repeats(first, es[0]->CursorPos_pos)
    &&& forall|i: int|
        0 < i < es.len() ==> !repeats(Some(es[i - 1]->CursorPos_pos), (#[trigger] es[i])->CursorPos_pos)
}

proof fn lemma_run_conflicts(s: State, es: Seq<Event>)
    requires
        s.mode == Mode::Free,
        forall|i: int| 0 <= i < es.len() ==> conflicting(s.input, es[i]),
    ensures
        run(s, es).mode == Mode::Free,
        run(s, es).input == s.input,
        es.len() > 0 ==> run(s, es).cursor == Some(es.last()->CursorPos_pos),
        es.len() == 0 ==> run(s, es).cursor == s.cursor,
    decreases es.len(),
{
    if es.len() > 0 {
        let init = es.drop_last();
        assert forall|i: int| 0 <= i < init.len() implies conflicting(s.input, init[i]) by {
            assert(init[i] == es[i]);
        }
        lemma_run_conflicts(s, init);
        assert(conflicting(s.input, es[es.len() - 1]));
    }
}

/// Over a run of cursor events in free mode in which the orbit and the slide gesture are both in
/// effect, each event discards both baselines before feeding them, so none of them moves the
/// camera, and each leaves both baselines seeded from its own position alone (the orbit one
/// whenever the registry takes the mouse contact).
pub proof fn law_conflict_reset_run(s: State, es: Seq<Event>)
    requires
        s.mode == Mode::Free,
        forall|i: int| 0 <= i < es.len() ==> conflicting(s.input, es[i]),
        fresh_positions(s.cursor, es),
    ensures
        forall|k: int|
            0 <= k < es.len() ==> ({
                let (t, c) = step(run(s, #[trigger] es.take(k)), es[k]);
                &&& c[1] == Command::DiscardOrbit
                &&& c[2] == Command::DiscardSlide
                &&& forall|i: int|
                    0 <= i < c.len() ==> c[i] != Command::Orbit && !(c[i] is Slide) && !(
                    c[i] is Look)
                &&& accepts(run(s, es.take(k)).contacts, ContactId::Mouse) ==> t.orbit
                &&& c.last() == Command::SeedSlide(Source::At(es[k]->CursorPos_pos))
                &&& t.slide
            }),
{
    assert forall|k: int| 0 <= k < es.len() implies ({
        let (t, c) = step(run(s, #[trigger] es.take(k)), es[k]);
        &&& c[1] == Command::DiscardOrbit
        &&& c[2] == Command::DiscardSlide
        &&& forall|i: int|
            0 <= i < c.len() ==> c[i] != Command::Orbit && !(c[i] is Slide) && !(c[i] is Look)
        &&& accepts(run(s, es.take(k)).contacts, ContactId::Mouse) ==> t.orbit
        &&& c.last() == Command::SeedSlide(Source::At(es[k]->CursorPos_pos))
        &&& t.slide
    }) by {
        let pre = es.take(k);
        assert forall|i: int| 0 <= i < pre.len() implies conflicting(s.input, pre[i]) by {
            assert(pre[i] == es[i]);
        }
        lemma_run_conflicts(s, pre);
        let r = run(s, pre);
        let e = es[k];
        assert(conflicting(s.input, e));
        if k > 0 {
            assert(pre.last() == es[k - 1]);
        }
        law_conflict_reset(r, e->CursorPos_pos, e->CursorPos_modifiers, e->CursorPos_held);
    }
}

} // verus!

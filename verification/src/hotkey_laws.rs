//! Laws of the hotkey state machine over whole runs of key transitions.

use vstd::prelude::*;
use crate::keys::{KeyCode, ShortcutMode, is_modifier};
use crate::shortcut::{ShortcutView, chord_of, distinct, lemma_without_key, without_key};
use crate::hotkey::{
    EventView,
    KeyTransition,
    StateView,
    chord_active,
    extra_modifier,
    step,
    with_key,
};

verus! {

/// A list of zero or one event.
pub open spec fn listed_event(event: Option<EventView>) -> Seq<EventView> {
    match event {
        Some(e) => seq![e],
        None => Seq::empty(),
    }
}

/// The state after a run of key transitions, and the events reported on the
/// way, in order.
pub open spec fn run(state: StateView, shortcut: ShortcutView, events: Seq<KeyTransition>) -> (
    StateView,
    Seq<EventView>,
)
    decreases events.len(),
{
    if events.len() == 0 {
        (state, Seq::empty())
    } else {
        let (mid, reported) = run(state, shortcut, events.drop_last());
        let (next, event) = step(mid, shortcut, events.last());
        (next, reported + listed_event(event))
    }
}

/// Pressing `keys` one after the other.
pub open spec fn presses(keys: Seq<KeyCode>) -> Seq<KeyTransition> {
    Seq::new(keys.len(), |i: int| KeyTransition::Press(keys[i]))
}

/// Releasing `keys` one after the other.
pub open spec fn releases(keys: Seq<KeyCode>) -> Seq<KeyTransition> {
    Seq::new(keys.len(), |i: int| KeyTransition::Release(keys[i]))
}

/// `keys` lists the keys of the chord, each once, in some order.
pub open spec fn spells(keys: Seq<KeyCode>, shortcut: ShortcutView) -> bool {
    &&& distinct(keys)
    &&& forall|k: KeyCode| #[trigger]
        keys.contains(k) <==> (k == shortcut.key || shortcut.modifiers.contains(k))
}

/// A run over two lists in a row is the run over the second from where the
/// run over the first ended.
pub proof fn lemma_run_append(
    state: StateView,
    shortcut: ShortcutView,
    first: Seq<KeyTransition>,
    second: Seq<KeyTransition>,
)
    ensures
        run(state, shortcut, first + second).0 == run(
            run(state, shortcut, first).0,
            shortcut,
            second,
        ).0,
        run(state, shortcut, first + second).1 == run(state, shortcut, first).1 + run(
            run(state, shortcut, first).0,
            shortcut,
            second,
        ).1,
    decreases second.len(),
{
    if second.len() > 0 {
        lemma_run_append(state, shortcut, first, second.drop_last());
        assert((first + second).drop_last() =~= first + second.drop_last());
    }
}

/// Pressing the keys of the chord, each once and in any order, with no
/// other key down: nothing is reported until the last key goes down. The
/// last press engages a chord that was not engaged; in toggle mode it
/// disengages one that was.
pub proof fn lemma_press_chord(
    state: StateView,
    shortcut: ShortcutView,
    keys: Seq<KeyCode>,
    n: int,
)
    requires
        spells(keys, shortcut),
        !state.capturing,
        state.pressed.len() == 0,
        shortcut.mode == ShortcutMode::Hold ==> !state.recording_active,
        0 <= n <= keys.len(),
    ensures
        n < keys.len() ==> run(state, shortcut, presses(keys).take(n)) == (
            StateView { pressed: keys.take(n), ..state },
            Seq::<EventView>::empty(),
        ),
        n == keys.len() ==> run(state, shortcut, presses(keys)) == (
            StateView { pressed: keys, recording_active: !state.recording_active, ..state },
            seq![
                if state.recording_active {
                    EventView::RecordingKeyReleased
                } else {
                    EventView::RecordingKeyPressed
                },
            ],
        ),
    decreases n,
{
    assert(keys.contains(shortcut.key));
    if n == 0 {
        assert(keys.take(0) =~= state.pressed);
    } else {
        lemma_press_chord(state, shortcut, keys, n - 1);
        let events = presses(keys).take(n);
        assert(events.drop_last() =~= presses(keys).take(n - 1));
        let before = keys.take(n - 1);
        let key = keys[n - 1];
        assert(with_key(before, key) =~= keys.take(n));
        if n < keys.len() {
            let missing = keys[n];
            assert(keys.contains(missing));
            assert(!chord_active(keys.take(n), shortcut));
        } else {
            assert(keys.take(n) =~= keys);
            assert(chord_active(keys, shortcut)) by {
                assert forall|i: int| 0 <= i < shortcut.modifiers.len() implies keys.contains(
                    #[trigger] shortcut.modifiers[i],
                ) by {}
                assert forall|i: int| 0 <= i < keys.len() implies !extra_modifier(
                    #[trigger] keys[i],
                    shortcut,
                ) by {
                    assert(keys.contains(keys[i]));
                }
            }
        }
    }
}

/// Releasing keys of the chord, in any order, while exactly the chord's
/// keys are down. In hold mode the first release disengages an engaged
/// chord and the others report nothing; in toggle mode no release reports
/// anything. After the last release no key is down.
pub proof fn lemma_release_chord(
    state: StateView,
    shortcut: ShortcutView,
    keys: Seq<KeyCode>,
    n: int,
)
    requires
        spells(keys, shortcut),
        !state.capturing,
        forall|k: KeyCode| #[trigger] state.pressed.contains(k) ==> keys.contains(k),
        0 <= n <= keys.len(),
    ensures
        ({
            let (after, reported) = run(state, shortcut, releases(keys).take(n));
            let disengages = shortcut.mode == ShortcutMode::Hold && state.recording_active && n
                > 0;
            &&& after.capturing == state.capturing
            &&& after.captured == state.captured
            &&& after.recording_active == (state.recording_active && !disengages)
            &&& reported == if disengages {
                seq![EventView::RecordingKeyReleased]
            } else {
                Seq::<EventView>::empty()
            }
            &&& forall|k: KeyCode| #[trigger]
                after.pressed.contains(k) <==> state.pressed.contains(k) && !keys.take(
                    n,
                ).contains(k)
            &&& n == keys.len() ==> after.pressed == Seq::<KeyCode>::empty()
        }),
    decreases n,
{
    if n == 0 {
        if keys.len() == 0 {
            assert(state.pressed =~= Seq::<KeyCode>::empty()) by {
                if state.pressed.len() > 0 {
                    assert(state.pressed.contains(state.pressed[0]));
                }
            }
        }
    } else {
        lemma_release_chord(state, shortcut, keys, n - 1);
        let events = releases(keys).take(n);
        assert(events.drop_last() =~= releases(keys).take(n - 1));
        let mid = run(state, shortcut, events.drop_last()).0;
        let key = keys[n - 1];
        lemma_without_key(mid.pressed, key);
        let pressed = without_key(mid.pressed, key);
        let after = step(mid, shortcut, events.last()).0;
        assert(keys.contains(key));
        assert(!chord_active(pressed, shortcut));
        assert forall|k: KeyCode| #[trigger]
            after.pressed.contains(k) <==> state.pressed.contains(k) && !keys.take(n).contains(
                k,
            ) by {
            let longer = keys.take(n);
            assert(longer[n - 1] == key);
        }
        if n == keys.len() {
            assert(keys.take(n) =~= keys);
            assert(after.pressed =~= Seq::<KeyCode>::empty()) by {
                if after.pressed.len() > 0 {
                    assert(after.pressed.contains(after.pressed[0]));
                }
            }
        }
    }
}

/// Hold mode: pressing the keys of the chord, in any order, reports exactly
/// one `RecordingKeyPressed`, and releasing them, in any order, exactly one
/// `RecordingKeyReleased`.
pub proof fn lemma_hold_press_then_release(
    shortcut: ShortcutView,
    down: Seq<KeyCode>,
    up: Seq<KeyCode>,
)
    requires
        shortcut.mode == ShortcutMode::Hold,
        spells(down, shortcut),
        spells(up, shortcut),
    ensures
        run(StateView::idle(), shortcut, presses(down)).1 == seq![EventView::RecordingKeyPressed],
        run(StateView::idle(), shortcut, presses(down) + releases(up)) == (
            StateView::idle(),
            seq![EventView::RecordingKeyPressed, EventView::RecordingKeyReleased],
        ),
{
    let idle = StateView::idle();
    lemma_press_chord(idle, shortcut, down, down.len() as int);
    let held = run(idle, shortcut, presses(down)).0;
    lemma_release_chord(held, shortcut, up, up.len() as int);
    assert(releases(up).take(up.len() as int) =~= releases(up));
    lemma_run_append(idle, shortcut, presses(down), releases(up));
}

/// Hold mode: while the chord is engaged, releasing any one of its keys
/// reports `RecordingKeyReleased` and disengages it.
pub proof fn lemma_hold_release_disengages(state: StateView, shortcut: ShortcutView, key: KeyCode)
    requires
        shortcut.mode == ShortcutMode::Hold,
        !state.capturing,
        state.recording_active,
        key == shortcut.key || shortcut.modifiers.contains(key),
    ensures
        step(state, shortcut, KeyTransition::Release(key)).1 == Some(
            EventView::RecordingKeyReleased,
        ),
        !step(state, shortcut, KeyTransition::Release(key)).0.recording_active,
{
    lemma_without_key(state.pressed, key);
}

/// Hold mode: while the chord is engaged, pressing a modifier that is not
/// part of it reports `OtherKeyPressed` and disengages the chord.
pub proof fn lemma_hold_extra_modifier_cancels(
    state: StateView,
    shortcut: ShortcutView,
    key: KeyCode,
)
    requires
        shortcut.mode == ShortcutMode::Hold,
        !state.capturing,
        state.recording_active,
        extra_modifier(key, shortcut),
    ensures
        step(state, shortcut, KeyTransition::Press(key)).1 == Some(EventView::OtherKeyPressed),
        !step(state, shortcut, KeyTransition::Press(key)).0.recording_active,
{
    let pressed = with_key(state.pressed, key);
    assert(pressed.contains(key)) by {
        if !state.pressed.contains(key) {
            assert(pressed.last() == key);
        }
    }
}

/// Hold mode: while the chord is engaged and stays satisfied, a further
/// press reports nothing.
pub proof fn lemma_hold_engages_once(state: StateView, shortcut: ShortcutView, key: KeyCode)
    requires
        shortcut.mode == ShortcutMode::Hold,
        !state.capturing,
        state.recording_active,
        chord_active(with_key(state.pressed, key), shortcut),
    ensures
        step(state, shortcut, KeyTransition::Press(key)).1 is None,
        step(state, shortcut, KeyTransition::Press(key)).0.recording_active,
{
}

/// Toggle mode: two full presses of the chord, with all its keys released
/// in between, report `RecordingKeyPressed` and then
/// `RecordingKeyReleased`.
pub proof fn lemma_toggle_twice(
    shortcut: ShortcutView,
    first: Seq<KeyCode>,
    between: Seq<KeyCode>,
    second: Seq<KeyCode>,
)
    requires
        shortcut.mode == ShortcutMode::Toggle,
        spells(first, shortcut),
        spells(between, shortcut),
        spells(second, shortcut),
    ensures
        run(
            StateView::idle(),
            shortcut,
            presses(first) + releases(between) + presses(second),
        ).1 == seq![EventView::RecordingKeyPressed, EventView::RecordingKeyReleased],
{
    let idle = StateView::idle();
    lemma_press_chord(idle, shortcut, first, first.len() as int);
    let held = run(idle, shortcut, presses(first)).0;
    lemma_release_chord(held, shortcut, between, between.len() as int);
    assert(releases(between).take(between.len() as int) =~= releases(between));
    let released = run(held, shortcut, releases(between)).0;
    lemma_press_chord(released, shortcut, second, second.len() as int);
    lemma_run_append(idle, shortcut, presses(first), releases(between));
    lemma_run_append(idle, shortcut, presses(first) + releases(between), presses(second));
}

/// Capture mode: pressing Escape reports `RecordingCancelled`, ends the
/// capture and forgets the captured keys, whatever the state was.
pub proof fn lemma_escape_cancels_capture(state: StateView, shortcut: ShortcutView)
    requires
        state.capturing,
    ensures
        step(state, shortcut, KeyTransition::Press(KeyCode::Escape)) == (
            StateView {
                pressed: Seq::empty(),
                capturing: false,
                captured: Seq::empty(),
                ..state
            },
            Some(EventView::RecordingCancelled),
        ),
{
}

/// Two lists hold the same keys.
pub open spec fn same_keys(first: Seq<KeyCode>, second: Seq<KeyCode>) -> bool {
    forall|k: KeyCode| #[trigger] first.contains(k) <==> second.contains(k)
}

/// Capture mode: pressing keys, none of them Escape and each once, reports
/// nothing; the keys are down and captured in the order pressed.
pub proof fn lemma_capture_presses(
    state: StateView,
    shortcut: ShortcutView,
    keys: Seq<KeyCode>,
    n: int,
)
    requires
        state.capturing,
        state.pressed.len() == 0,
        state.captured.len() == 0,
        distinct(keys),
        forall|i: int| 0 <= i < keys.len() ==> keys[i] != KeyCode::Escape,
        0 <= n <= keys.len(),
    ensures
        run(state, shortcut, presses(keys).take(n)) == (
            StateView { pressed: keys.take(n), captured: keys.take(n), ..state },
            Seq::<EventView>::empty(),
        ),
    decreases n,
{
    if n == 0 {
        assert(keys.take(0) =~= state.pressed);
        assert(keys.take(0) =~= state.captured);
    } else {
        lemma_capture_presses(state, shortcut, keys, n - 1);
        let events = presses(keys).take(n);
        assert(events.drop_last() =~= presses(keys).take(n - 1));
        let before = keys.take(n - 1);
        assert(with_key(before, keys[n - 1]) =~= keys.take(n));
    }
}

/// Capture mode: releasing the keys that are down, in any order. Nothing is
/// reported while a key is still down.
proof fn lemma_capture_releases(
    state: StateView,
    shortcut: ShortcutView,
    up: Seq<KeyCode>,
    n: int,
)
    requires
        state.capturing,
        state.captured.len() > 0,
        distinct(up),
        same_keys(state.pressed, up),
        0 <= n < up.len(),
    ensures
        ({
            let (after, reported) = run(state, shortcut, releases(up).take(n));
            &&& after == StateView { pressed: after.pressed, ..state }
            &&& reported == Seq::<EventView>::empty()
            &&& forall|k: KeyCode| #[trigger]
                after.pressed.contains(k) <==> up.contains(k) && !up.take(n).contains(k)
        }),
    decreases n,
{
    if n > 0 {
        lemma_capture_releases(state, shortcut, up, n - 1);
        let events = releases(up).take(n);
        assert(events.drop_last() =~= releases(up).take(n - 1));
        let mid = run(state, shortcut, events.drop_last()).0;
        let key = up[n - 1];
        lemma_without_key(mid.pressed, key);
        let pressed = without_key(mid.pressed, key);
        lemma_released_so_far(up, n);
        assert forall|k: KeyCode| #[trigger]
            pressed.contains(k) <==> up.contains(k) && !up.take(n).contains(k) by {}
        let still = up[n];
        assert(pressed.contains(still));
    }
}

/// The first `n` keys of a list are the first `n - 1` and the one after.
proof fn lemma_released_so_far(up: Seq<KeyCode>, n: int)
    requires
        0 < n <= up.len(),
    ensures
        forall|k: KeyCode| #[trigger]
            up.take(n).contains(k) <==> up.take(n - 1).contains(k) || k == up[n - 1],
{
    let shorter = up.take(n - 1);
    let longer = up.take(n);
    assert forall|k: KeyCode| #[trigger]
        longer.contains(k) <==> shorter.contains(k) || k == up[n - 1] by {
        assert(longer[n - 1] == up[n - 1]);
    }
}

/// Capture mode: pressing keys, none of them Escape and each once, and
/// then releasing them all, in any order, reports exactly one event, with
/// the last release: the chord that the keys stand for, in hold mode.
/// Capture mode is over then, and no key is down.
pub proof fn lemma_capture_records_chord(
    state: StateView,
    shortcut: ShortcutView,
    keys: Seq<KeyCode>,
    up: Seq<KeyCode>,
)
    requires
        state.capturing,
        state.pressed.len() == 0,
        state.captured.len() == 0,
        keys.len() > 0,
        distinct(keys),
        forall|i: int| 0 <= i < keys.len() ==> keys[i] != KeyCode::Escape,
        distinct(up),
        same_keys(keys, up),
    ensures
        run(state, shortcut, presses(keys) + releases(up)) == (
            StateView {
                pressed: Seq::empty(),
                capturing: false,
                captured: Seq::empty(),
                ..state
            },
            seq![
                EventView::ShortcutRecorded(
                    ShortcutView {
                        mode: ShortcutMode::Hold,
                        key: chord_of(keys).0->0,
                        modifiers: chord_of(keys).1,
                    },
                ),
            ],
        ),
{
    lemma_capture_presses(state, shortcut, keys, keys.len() as int);
    assert(presses(keys).take(keys.len() as int) =~= presses(keys));
    assert(keys.take(keys.len() as int) =~= keys);
    let held = StateView { pressed: keys, captured: keys, ..state };
    assert(keys.contains(keys[0]));
    let n = up.len() - 1;
    lemma_capture_releases(held, shortcut, up, n);
    let mid = run(held, shortcut, releases(up).take(n)).0;
    lemma_without_key(mid.pressed, up[n]);
    lemma_released_so_far(up, up.len() as int);
    assert(up.take(up.len() as int) =~= up);
    let pressed = without_key(mid.pressed, up[n]);
    assert(pressed =~= Seq::<KeyCode>::empty()) by {
        if pressed.len() > 0 {
            assert(pressed.contains(pressed[0]));
        }
    }
    lemma_run_append(state, shortcut, presses(keys), releases(up));
}

/// No step lists a key twice that was not listed twice before.
pub proof fn lemma_step_keeps_keys_distinct(
    state: StateView,
    shortcut: ShortcutView,
    event: KeyTransition,
)
    requires
        state.well_formed(),
    ensures
        step(state, shortcut, event).0.well_formed(),
{
    match event {
        KeyTransition::Press(key) => {},
        KeyTransition::Release(key) => {
            lemma_without_key(state.pressed, key);
        },
    }
}

} // verus!

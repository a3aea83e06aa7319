//! The shortcut value object: a main key, a set of modifiers and a mode.

use vstd::prelude::*;
use vstd::string::*;
use crate::keys::{KeyCode, Platform, ShortcutMode, format_keycode, is_modifier, is_modifier_key, key_label, modifier_sort_key, normalize_modifier, normalized, sort_rank};

verus! {

/// A recording shortcut: the chord that starts and stops dictation.
#[derive(Debug, PartialEq, Eq, Hash)]
pub struct RecordingShortcut {
    pub mode: ShortcutMode,
    /// The main key of the chord.
    pub key: KeyCode,
    /// The keys that must be held together with the main key.
    pub modifiers: Vec<KeyCode>,
}

/// What a shortcut is, as a mathematical value.
pub struct ShortcutView {
    pub mode: ShortcutMode,
    pub key: KeyCode,
    pub modifiers: Seq<KeyCode>,
}

impl View for RecordingShortcut {
    type V = ShortcutView;

    open spec fn view(&self) -> ShortcutView {
        ShortcutView { mode: self.mode, key: self.key, modifiers: self.modifiers@ }
    }
}

/// No key occurs twice in `keys`.
pub open spec fn distinct(keys: Seq<KeyCode>) -> bool {
    forall|i: int, j: int| 0 <= i < j < keys.len() ==> keys[i] != keys[j]
}

/// Every key of `keys` is its own canonical form.
pub open spec fn canonical(keys: Seq<KeyCode>) -> bool {
    forall|i: int| 0 <= i < keys.len() ==> normalized(#[trigger] keys[i]) == keys[i]
}

impl ShortcutView {
    /// The invariant of a shortcut in use: the main key is not among the
    /// modifiers, and the modifiers are canonical and free of duplicates.
    pub open spec fn well_formed(self) -> bool {
        &&& !self.modifiers.contains(self.key)
        &&& canonical(self.modifiers)
        &&& distinct(self.modifiers)
    }
}

/// The keys of `keys` whose display rank is `rank`, in the order in which
/// `keys` lists them.
pub open spec fn with_rank(keys: Seq<KeyCode>, rank: u8) -> Seq<KeyCode>
    decreases keys.len(),
{
    if keys.len() == 0 {
        Seq::empty()
    } else if sort_rank(keys.last()) == rank {
        with_rank(keys.drop_last(), rank).push(keys.last())
    } else {
        with_rank(keys.drop_last(), rank)
    }
}

/// `keys` ordered by display rank; keys of equal rank keep their order.
pub open spec fn display_order(keys: Seq<KeyCode>) -> Seq<KeyCode> {
    with_rank(keys, 1) + with_rank(keys, 2) + with_rank(keys, 3) + with_rank(keys, 4) + with_rank(
        keys,
        5,
    )
}

/// The labels of `keys`, separated by `" + "`.
pub open spec fn joined_labels(keys: Seq<KeyCode>, platform: Platform) -> Seq<char>
    decreases keys.len(),
{
    if keys.len() == 0 {
        Seq::empty()
    } else if keys.len() == 1 {
        key_label(keys[0], platform)
    } else {
        joined_labels(keys.drop_last(), platform) + " + "@ + key_label(keys.last(), platform)
    }
}

/// The text shown for a shortcut: its modifiers in display order, then its
/// main key.
pub open spec fn display_text(shortcut: ShortcutView, platform: Platform) -> Seq<char> {
    joined_labels(display_order(shortcut.modifiers).push(shortcut.key), platform)
}

/// Whether `key` occurs in `keys`.
pub fn contains_key(keys: &[KeyCode], key: KeyCode) -> (found: bool)
    ensures
        found == keys@.contains(key),
{
    let mut i: usize = 0;
    while i < keys.len()
        invariant
            i <= keys.len(),
            forall|j: int| 0 <= j < i ==> keys@[j] != key,
        decreases keys.len() - i,
    {
        if keys[i] == key {
            return true;
        }
        i += 1;
    }
    false
}

/// A copy of `keys`.
pub fn copy_keys(keys: &[KeyCode]) -> (copy: Vec<KeyCode>)
    ensures
        copy@ == keys@,
{
    let mut copy: Vec<KeyCode> = Vec::new();
    let mut i: usize = 0;
    while i < keys.len()
        invariant
            i <= keys.len(),
            copy@ == keys@.take(i as int),
        decreases keys.len() - i,
    {
        copy.push(keys[i]);
        i += 1;
    }
    copy
}

impl Clone for RecordingShortcut {
    fn clone(&self) -> (copy: Self)
        ensures
            copy@ == self@,
    {
        RecordingShortcut {
            mode: self.mode,
            key: self.key,
            modifiers: copy_keys(self.modifiers.as_slice()),
        }
    }
}

impl Default for RecordingShortcut {
    /// Hold the left control key, with no modifiers.
    fn default() -> (shortcut: Self)
        ensures
            shortcut@ == (ShortcutView {
                mode: ShortcutMode::Hold,
                key: KeyCode::ControlLeft,
                modifiers: Seq::empty(),
            }),
    {
        RecordingShortcut { mode: ShortcutMode::Hold, key: KeyCode::ControlLeft, modifiers: Vec::new() }
    }
}

impl RecordingShortcut {
    /// A shortcut made of the given parts, taken as they are.
    pub fn new(mode: ShortcutMode, key: KeyCode, modifiers: Vec<KeyCode>) -> (shortcut: Self)
        ensures
            shortcut.mode == mode,
            shortcut.key == key,
            shortcut.modifiers == modifiers,
    {
        RecordingShortcut { mode, key, modifiers }
    }

    /// Whether two shortcuts have the same mode, main key and modifier list.
    pub fn same_as(&self, other: &RecordingShortcut) -> (same: bool)
        ensures
            same == (self@ == other@),
    {
        if !(self.mode == other.mode && self.key == other.key && self.modifiers.len()
            == other.modifiers.len()) {
            return false;
        }
        let mut i: usize = 0;
        while i < self.modifiers.len()
            invariant
                i <= self.modifiers.len(),
                self.modifiers.len() == other.modifiers.len(),
                forall|j: int| 0 <= j < i ==> self.modifiers@[j] == other.modifiers@[j],
            decreases self.modifiers.len() - i,
        {
            if self.modifiers[i] != other.modifiers[i] {
                return false;
            }
            i += 1;
        }
        assert(self.modifiers@ =~= other.modifiers@);
        true
    }

    /// The shortcut as text: modifiers ordered control, shift, alt, meta,
    /// then the main key, joined by `" + "`.
    pub fn format_display(&self, platform: Platform) -> (text: String)
        ensures
            text@ == display_text(self@, platform),
    {
        let mut ordered: Vec<KeyCode> = Vec::new();
        let mut rank: u8 = 1;
        while rank <= 5
            invariant
                1 <= rank <= 6,
                ordered@ == ranks_below(self.modifiers@, rank),
            decreases 6 - rank,
        {
            let ghost before = ordered@;
            let mut i: usize = 0;
            while i < self.modifiers.len()
                invariant
                    i <= self.modifiers.len(),
                    ordered@ == before + with_rank(self.modifiers@.take(i as int), rank),
                decreases self.modifiers.len() - i,
            {
                let key = self.modifiers[i];
                assert(self.modifiers@.take(i + 1).drop_last() == self.modifiers@.take(i as int));
                if modifier_sort_key(&key) == rank {
                    ordered.push(key);
                }
                i += 1;
            }
            assert(self.modifiers@.take(self.modifiers@.len() as int) == self.modifiers@);
            rank += 1;
        }
        proof {
            lemma_all_ranks(self.modifiers@);
        }
        ordered.push(self.key);
        let mut text = String::new();
        let mut i: usize = 0;
        while i < ordered.len()
            invariant
                i <= ordered.len(),
                text@ == joined_labels(ordered@.take(i as int), platform),
            decreases ordered.len() - i,
        {
            let label = format_keycode(&ordered[i], platform);
            assert(ordered@.take(i + 1).drop_last() == ordered@.take(i as int));
            if i > 0 {
                text.append(" + ");
            }
            text.append(label.as_str());
            i += 1;
        }
        assert(ordered@.take(ordered@.len() as int) == ordered@);
        text
    }
}

/// The shortcut as text.
pub fn format_shortcut(shortcut: &RecordingShortcut, platform: Platform) -> (text: String)
    ensures
        text@ == display_text(shortcut@, platform),
{
    shortcut.format_display(platform)
}

/// The keys of rank below `rank`, in display order.
pub open spec fn ranks_below(keys: Seq<KeyCode>, rank: u8) -> Seq<KeyCode>
    decreases rank,
{
    if rank <= 1 {
        Seq::empty()
    } else {
        ranks_below(keys, (rank - 1) as u8) + with_rank(keys, (rank - 1) as u8)
    }
}

/// The last key of `keys` that is not a modifier, if there is one.
pub open spec fn last_plain_key(keys: Seq<KeyCode>) -> Option<KeyCode>
    decreases keys.len(),
{
    if keys.len() == 0 {
        None
    } else if !is_modifier(keys.last()) {
        Some(keys.last())
    } else {
        last_plain_key(keys.drop_last())
    }
}

/// The modifier keys of `keys`, in the order in which `keys` lists them.
pub open spec fn modifiers_among(keys: Seq<KeyCode>) -> Seq<KeyCode>
    decreases keys.len(),
{
    if keys.len() == 0 {
        Seq::empty()
    } else if is_modifier(keys.last()) {
        modifiers_among(keys.drop_last()).push(keys.last())
    } else {
        modifiers_among(keys.drop_last())
    }
}

/// The canonical forms of `keys`, each kept where it first occurs.
pub open spec fn canonical_set(keys: Seq<KeyCode>) -> Seq<KeyCode>
    decreases keys.len(),
{
    if keys.len() == 0 {
        Seq::empty()
    } else {
        let before = canonical_set(keys.drop_last());
        if before.contains(normalized(keys.last())) {
            before
        } else {
            before.push(normalized(keys.last()))
        }
    }
}

/// `keys` with every occurrence of `key` taken out.
pub open spec fn without_key(keys: Seq<KeyCode>, key: KeyCode) -> Seq<KeyCode>
    decreases keys.len(),
{
    if keys.len() == 0 {
        Seq::empty()
    } else if keys.last() == key {
        without_key(keys.drop_last(), key)
    } else {
        without_key(keys.drop_last(), key).push(keys.last())
    }
}

/// The chord that a run of captured keys stands for.
///
/// The last key that is not a modifier is the main key, and every captured
/// modifier goes into the modifier set. Where only modifiers were captured,
/// the first of them is the main key and the others form the modifier set,
/// but for the main key itself: a chord never lists its main key among its
/// modifiers. Nothing captured gives no main key.
pub open spec fn chord_of(keys: Seq<KeyCode>) -> (Option<KeyCode>, Seq<KeyCode>) {
    let held = modifiers_among(keys);
    match last_plain_key(keys) {
        Some(key) => (Some(key), canonical_set(held)),
        None => if held.len() > 0 {
            (Some(held[0]), without_key(canonical_set(held.skip(1)), held[0]))
        } else {
            (None, Seq::empty())
        },
    }
}

/// Takes every occurrence of `key` out of `keys`.
pub fn remove_key(keys: &mut Vec<KeyCode>, key: KeyCode)
    ensures
        final(keys)@ == without_key(old(keys)@, key),
{
    let mut kept: Vec<KeyCode> = Vec::new();
    let mut i: usize = 0;
    while i < keys.len()
        invariant
            i <= keys.len(),
            *keys == *old(keys),
            kept@ == without_key(keys@.take(i as int), key),
        decreases keys.len() - i,
    {
        assert(keys@.take(i + 1).drop_last() == keys@.take(i as int));
        if keys[i] != key {
            kept.push(keys[i]);
        }
        i += 1;
    }
    assert(keys@.take(keys@.len() as int) == keys@);
    *keys = kept;
}

/// Splits captured keys into a main key and a modifier set. The main key
/// is never among the modifiers.
pub fn extract_shortcut_from_keys(keys: &[KeyCode]) -> (chord: (Option<KeyCode>, Vec<KeyCode>))
    ensures
        (chord.0, chord.1@) == chord_of(keys@),
        chord.0 matches Some(k) ==> !chord.1@.contains(k),
{
    let mut main_key: Option<KeyCode> = None;
    let mut held: Vec<KeyCode> = Vec::new();
    let mut i: usize = 0;
    while i < keys.len()
        invariant
            i <= keys.len(),
            main_key == last_plain_key(keys@.take(i as int)),
            held@ == modifiers_among(keys@.take(i as int)),
        decreases keys.len() - i,
    {
        assert(keys@.take(i + 1).drop_last() == keys@.take(i as int));
        if is_modifier_key(&keys[i]) {
            held.push(keys[i]);
        } else {
            main_key = Some(keys[i]);
        }
        i += 1;
    }
    assert(keys@.take(keys@.len() as int) == keys@);
    let mut first: usize = 0;
    if main_key.is_none() && held.len() > 0 {
        main_key = Some(held[0]);
        first = 1;
    }
    let mut modifiers: Vec<KeyCode> = Vec::new();
    let mut j: usize = first;
    while j < held.len()
        invariant
            first <= j <= held.len(),
            modifiers@ == canonical_set(held@.skip(first as int).take(j - first)),
        decreases held.len() - j,
    {
        let rest = Ghost(held@.skip(first as int));
        assert(rest@.take(j - first + 1).drop_last() == rest@.take(j - first));
        let key = normalize_modifier(&held[j]);
        if !contains_key(modifiers.as_slice(), key) {
            modifiers.push(key);
        }
        j += 1;
    }
    assert(held@.skip(first as int).take(held@.len() - first) == held@.skip(first as int));
    assert(held@.skip(0) == held@);
    if first == 1 {
        remove_key(&mut modifiers, held[0]);
    }
    proof {
        lemma_chord_modifiers_canonical(keys@);
    }
    (main_key, modifiers)
}

/// Something captured always gives a main key.
pub proof fn lemma_chord_has_main_key(keys: Seq<KeyCode>)
    ensures
        chord_of(keys).0 is None <==> keys.len() == 0,
    decreases keys.len(),
{
    if keys.len() > 0 {
        lemma_plain_or_held(keys);
    }
}

/// A run of keys without a plain key consists of modifiers only.
proof fn lemma_plain_or_held(keys: Seq<KeyCode>)
    ensures
        last_plain_key(keys) is None ==> modifiers_among(keys) == keys,
    decreases keys.len(),
{
    if keys.len() > 0 {
        lemma_plain_or_held(keys.drop_last());
    }
}

/// An extracted chord is well-formed: its modifier set is canonical and
/// free of duplicates and does not hold its main key. The modifier set
/// holds modifier keys only.
pub proof fn lemma_chord_modifiers_canonical(keys: Seq<KeyCode>)
    ensures
        canonical(chord_of(keys).1),
        distinct(chord_of(keys).1),
        forall|i: int|
            0 <= i < chord_of(keys).1.len() ==> is_modifier(#[trigger] chord_of(keys).1[i]),
        chord_of(keys).0 is Some ==> (ShortcutView {
            mode: ShortcutMode::Hold,
            key: chord_of(keys).0->0,
            modifiers: chord_of(keys).1,
        }).well_formed(),
{
    let held = modifiers_among(keys);
    lemma_modifiers_among(keys);
    lemma_canonical_set(held);
    lemma_last_plain_key(keys);
    if last_plain_key(keys) is None && held.len() > 0 {
        let others = canonical_set(held.skip(1));
        lemma_canonical_set(held.skip(1));
        lemma_without_key(others, held[0]);
        let kept = without_key(others, held[0]);
        assert forall|i: int| 0 <= i < kept.len() implies normalized(#[trigger] kept[i])
            == kept[i] && is_modifier(kept[i]) by {
            assert(kept.contains(kept[i]));
            let j = choose|j: int| 0 <= j < others.len() && others[j] == kept[i];
            assert(is_modifier(others[j]));
        }
    }
}

/// What is left of `keys` after taking out `key` is what was there, but for
/// `key`.
pub proof fn lemma_without_key(keys: Seq<KeyCode>, key: KeyCode)
    ensures
        forall|k: KeyCode| #[trigger]
            without_key(keys, key).contains(k) <==> keys.contains(k) && k != key,
        distinct(keys) ==> distinct(without_key(keys, key)),
        without_key(keys, key).len() <= keys.len(),
    decreases keys.len(),
{
    if keys.len() > 0 {
        let front = keys.drop_last();
        lemma_without_key(front, key);
        let kept = without_key(front, key);
        assert forall|k: KeyCode| #[trigger]
            without_key(keys, key).contains(k) <==> keys.contains(k) && k != key by {
            if keys.contains(k) && k != key {
                let i = choose|i: int| 0 <= i < keys.len() && keys[i] == k;
                if i < front.len() {
                    assert(front[i] == k);
                    assert(kept.contains(k));
                    let j = choose|j: int| 0 <= j < kept.len() && kept[j] == k;
                    assert(without_key(keys, key)[j] == k);
                } else {
                    assert(without_key(keys, key).last() == k);
                }
            }
            if without_key(keys, key).contains(k) {
                let j = choose|j: int|
                    0 <= j < without_key(keys, key).len() && without_key(keys, key)[j] == k;
                if j < kept.len() {
                    assert(kept.contains(k));
                }
            }
        }
        if distinct(keys) {
            if keys.last() != key {
                assert forall|i: int, j: int| 0 <= i < j < without_key(keys, key).len() implies
                    without_key(keys, key)[i] != without_key(keys, key)[j] by {
                    if j == kept.len() {
                        assert(kept.contains(kept[i]));
                    }
                }
            }
        }
    }
}

proof fn lemma_modifiers_among(keys: Seq<KeyCode>)
    ensures
        forall|i: int|
            0 <= i < modifiers_among(keys).len() ==> is_modifier(
                #[trigger] modifiers_among(keys)[i],
            ),
    decreases keys.len(),
{
    if keys.len() > 0 {
        lemma_modifiers_among(keys.drop_last());
        let before = modifiers_among(keys.drop_last());
        assert forall|i: int| 0 <= i < modifiers_among(keys).len() implies is_modifier(
            #[trigger] modifiers_among(keys)[i],
        ) by {
            if i < before.len() {
                assert(modifiers_among(keys)[i] == before[i]);
            }
        }
    }
}

proof fn lemma_last_plain_key(keys: Seq<KeyCode>)
    ensures
        last_plain_key(keys) matches Some(key) ==> !is_modifier(key),
    decreases keys.len(),
{
    if keys.len() > 0 {
        lemma_last_plain_key(keys.drop_last());
    }
}

proof fn lemma_canonical_set(keys: Seq<KeyCode>)
    requires
        forall|i: int| 0 <= i < keys.len() ==> is_modifier(#[trigger] keys[i]),
    ensures
        canonical(canonical_set(keys)),
        distinct(canonical_set(keys)),
        forall|i: int|
            0 <= i < canonical_set(keys).len() ==> is_modifier(#[trigger] canonical_set(keys)[i]),
    decreases keys.len(),
{
    if keys.len() > 0 {
        lemma_canonical_set(keys.drop_last());
    }
}

/// Taking the ranks one after the other gives the display order.
proof fn lemma_all_ranks(keys: Seq<KeyCode>)
    ensures
        ranks_below(keys, 6) == display_order(keys),
{
    reveal_with_fuel(ranks_below, 7);
}

} // verus!

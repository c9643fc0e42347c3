//! Sets of pressed keys, and the key events that lead from one to the next.

use vstd::prelude::*;
use crate::keys::{KeyboardKey, KEYBOARD_STATE_BYTES};

verus! {

/// That the bit of key number `index` is set.
pub open spec fn bit_is_set(state: Seq<u8>, index: int) -> bool {
    state[index / 8] & (1u8 << ((index % 8) as u8)) != 0
}

/// That `key` is pressed.
pub open spec fn is_pressed(state: Seq<u8>, key: KeyboardKey) -> bool {
    bit_is_set(state, key.number() as int)
}

fn bit_set(state: &[u8; KEYBOARD_STATE_BYTES], index: usize) -> (yes: bool)
    requires
        index < KeyboardKey::COUNT,
    ensures
        yes == bit_is_set(state@, index as int),
{
    let shift: u8 = (index % 8) as u8;
    state[index / 8] & (1u8 << shift) != 0
}

impl KeyboardKey {
    /// The byte of a set of pressed keys that holds this key, and its bit there.
    pub fn bit(self) -> (out: (usize, u8))
        ensures
            out.0 == self.number() / 8,
            out.1 == 1u8 << ((self.number() % 8) as u8),
            out.0 < KEYBOARD_STATE_BYTES,
    {
        let index: u8 = self.index();
        ((index / 8) as usize, 1u8 << (index % 8))
    }

    pub open spec fn modifies(self) -> bool {
        self == KeyboardKey::LeftShift || self == KeyboardKey::LeftCtrl || self
            == KeyboardKey::LeftAlt || self == KeyboardKey::LeftMeta || self
            == KeyboardKey::RightShift || self == KeyboardKey::RightCtrl || self
            == KeyboardKey::RightAlt || self == KeyboardKey::RightMeta
    }

    /// Whether the key is a modifier.
    pub fn is_modifier(self) -> (yes: bool)
        ensures
            yes == self.modifies(),
    {
        match self {
            KeyboardKey::LeftShift => true,
            KeyboardKey::LeftCtrl => true,
            KeyboardKey::LeftAlt => true,
            KeyboardKey::LeftMeta => true,
            KeyboardKey::RightShift => true,
            KeyboardKey::RightCtrl => true,
            KeyboardKey::RightAlt => true,
            KeyboardKey::RightMeta => true,
            _ => false,
        }
    }
}

/// Whether `key` is pressed.
pub fn keyboard_state_contains(state: &[u8; KEYBOARD_STATE_BYTES], key: KeyboardKey) -> (yes: bool)
    ensures
        yes == is_pressed(state@, key),
{
    let (byte, bit) = key.bit();
    state[byte] & bit != 0
}

/// No key pressed.
pub open spec fn nothing_pressed(state: Seq<u8>) -> bool {
    forall|i: int| 0 <= i < state.len() ==> state[i] == 0
}

/// When an event comes among those of one change: ordinary keys are released before
/// modifiers, and modifiers are pressed before ordinary keys.
pub open spec fn rank(event: (KeyboardKey, bool)) -> int {
    if !event.1 {
        if event.0.modifies() {
            1
        } else {
            0
        }
    } else if event.0.modifies() {
        2
    } else {
        3
    }
}

/// The event of key number `index`.
pub open spec fn event_at(next: Seq<u8>, index: int) -> (KeyboardKey, bool) {
    (KeyboardKey::numbered(index)->0, bit_is_set(next, index))
}

/// The events of rank `phase` among the keys with a number below `n`, by number.
pub open spec fn phase_events(prev: Seq<u8>, next: Seq<u8>, phase: int, n: int) -> Seq<
    (KeyboardKey, bool),
>
    decreases n,
{
    if n <= 0 {
        Seq::empty()
    } else {
        let rest = phase_events(prev, next, phase, n - 1);
        if bit_is_set(prev, n - 1) != bit_is_set(next, n - 1) && rank(event_at(next, n - 1))
            == phase {
            rest.push(event_at(next, n - 1))
        } else {
            rest
        }
    }
}

/// The events of the first `phases` ranks.
pub open spec fn events_before(prev: Seq<u8>, next: Seq<u8>, phases: int) -> Seq<
    (KeyboardKey, bool),
>
    decreases phases,
{
    if phases <= 0 {
        Seq::empty()
    } else {
        events_before(prev, next, phases - 1) + phase_events(
            prev,
            next,
            phases - 1,
            KeyboardKey::COUNT as int,
        )
    }
}

/// The key events that lead from one set of pressed keys to the next.
pub open spec fn key_events(prev: Seq<u8>, next: Seq<u8>) -> Seq<(KeyboardKey, bool)> {
    events_before(prev, next, 4)
}

/// The key events that lead from one set of pressed keys to the next, each with whether
/// the key goes down.
///
/// Ordinary keys are released before modifiers, and modifiers are pressed before ordinary
/// keys, so that a chord keeps its meaning when a snapshot between was lost.
pub fn for_each_keyboard_transition(
    previous: [u8; KEYBOARD_STATE_BYTES],
    next: [u8; KEYBOARD_STATE_BYTES],
) -> (out: Vec<(KeyboardKey, bool)>)
    ensures
        out@ == key_events(previous@, next@),
{
    let mut out: Vec<(KeyboardKey, bool)> = Vec::new();
    let mut phase: u8 = 0;
    while phase < 4
        invariant
            phase <= 4,
            out@ == events_before(previous@, next@, phase as int),
        decreases 4 - phase,
    {
        let ghost before = out@;
        let mut index: usize = 0;
        while index < KeyboardKey::COUNT
            invariant
                phase < 4,
                index <= KeyboardKey::COUNT,
                out@ == before + phase_events(previous@, next@, phase as int, index as int),
            decreases KeyboardKey::COUNT - index,
        {
            let was: bool = bit_set(&previous, index);
            let now: bool = bit_set(&next, index);
            if was != now {
                if let Some(key) = KeyboardKey::from_u8(index as u8) {
                    let modifier: bool = key.is_modifier();
                    let in_phase: bool = match phase {
                        0 => !now && !modifier,
                        1 => !now && modifier,
                        2 => now && modifier,
                        _ => now && !modifier,
                    };
                    if in_phase {
                        let ghost list = out@;
                        out.push((key, now));
                        proof {
                            assert(event_at(next@, index as int) == (key, now));
                            assert(list.push((key, now)) =~= before + phase_events(
                                previous@,
                                next@,
                                phase as int,
                                index + 1,
                            ));
                        }
                    }
                }
            }
            index = index + 1;
        }
        phase = phase + 1;
    }
    out
}

pub proof fn lemma_phase_events(prev: Seq<u8>, next: Seq<u8>, phase: int, n: int)
    requires
        0 <= n <= KeyboardKey::COUNT,
    ensures
        forall|i: int|
            0 <= i < phase_events(prev, next, phase, n).len() ==> {
                let e = #[trigger] phase_events(prev, next, phase, n)[i];
                &&& rank(e) == phase
                &&& e.0.number() < n
                &&& is_pressed(prev, e.0) != is_pressed(next, e.0)
                &&& e.1 == is_pressed(next, e.0)
            },
        forall|key: KeyboardKey|
            #![trigger key.number()]
            key.number() < n && is_pressed(prev, key) != is_pressed(next, key) && rank(
                (key, is_pressed(next, key)),
            ) == phase ==> phase_events(prev, next, phase, n).contains((key, is_pressed(next, key))),
    decreases n,
{
    if n > 0 {
        lemma_phase_events(prev, next, phase, n - 1);
        let rest = phase_events(prev, next, phase, n - 1);
        let all = phase_events(prev, next, phase, n);
        lemma_numbered(n - 1);
        let last = KeyboardKey::numbered(n - 1)->0;
        assert(last.number() == n - 1);
        assert forall|key: KeyboardKey|
            #![trigger key.number()]
            key.number() < n && is_pressed(prev, key) != is_pressed(next, key) && rank(
                (key, is_pressed(next, key)),
            ) == phase implies all.contains((key, is_pressed(next, key))) by {
            if key.number() == n - 1 {
                crate::keys::numbers_tell_keys_apart(key, last);
                assert(all.last() == (key, is_pressed(next, key)));
                assert(all[all.len() - 1] == (key, is_pressed(next, key)));
            } else {
                assert(rest.contains((key, is_pressed(next, key))));
                let i = choose|i: int| 0 <= i < rest.len() && rest[i] == (key, is_pressed(next, key));
                assert(all[i] == rest[i]);
            }
        }
        assert forall|i: int| 0 <= i < all.len() implies {
            let e = #[trigger] all[i];
            &&& rank(e) == phase
            &&& e.0.number() < n
            &&& is_pressed(prev, e.0) != is_pressed(next, e.0)
            &&& e.1 == is_pressed(next, e.0)
        } by {
            if i < rest.len() {
                assert(all[i] == rest[i]);
            }
        }
    }
}

proof fn lemma_numbered(number: int)
    requires
        0 <= number < KeyboardKey::COUNT,
    ensures
        KeyboardKey::numbered(number) matches Some(key) && key.number() == number,
{
    crate::keys::every_number_has_a_key(number);
}

/// The events of a change tell exactly what changed: a key has an event if and only if it
/// is pressed in one set and not in the other, and the event says which it is now.
pub proof fn key_events_are_the_difference(prev: Seq<u8>, next: Seq<u8>, key: KeyboardKey, down: bool)
    ensures
        key_events(prev, next).contains((key, down)) <==> is_pressed(prev, key) != is_pressed(
            next,
            key,
        ) && down == is_pressed(next, key),
{
    reveal_with_fuel(events_before, 5);
    let n = KeyboardKey::COUNT as int;
    let p0 = phase_events(prev, next, 0, n);
    let p1 = phase_events(prev, next, 1, n);
    let p2 = phase_events(prev, next, 2, n);
    let p3 = phase_events(prev, next, 3, n);
    lemma_phase_events(prev, next, 0, n);
    lemma_phase_events(prev, next, 1, n);
    lemma_phase_events(prev, next, 2, n);
    lemma_phase_events(prev, next, 3, n);
    let all = key_events(prev, next);
    assert(all =~= p0 + p1 + p2 + p3);
    crate::keys::numbers_are_small(key);
    if is_pressed(prev, key) != is_pressed(next, key) && down == is_pressed(next, key) {
        let r = rank((key, down));
        let (part, from) = if r == 0 {
            (p0, 0int)
        } else if r == 1 {
            (p1, p0.len() as int)
        } else if r == 2 {
            (p2, (p0.len() + p1.len()) as int)
        } else {
            (p3, (p0.len() + p1.len() + p2.len()) as int)
        };
        assert(key.number() < n);
        assert(part.contains((key, down)));
        let i = choose|i: int| 0 <= i < part.len() && part[i] == (key, down);
        assert(all[from + i] == part[i]);
    }
    if all.contains((key, down)) {
        let i = choose|i: int| 0 <= i < all.len() && all[i] == (key, down);
        if i < p0.len() {
            assert(all[i] == p0[i]);
        } else if i < p0.len() + p1.len() {
            assert(all[i] == p1[i - p0.len()]);
        } else if i < p0.len() + p1.len() + p2.len() {
            assert(all[i] == p2[i - p0.len() - p1.len()]);
        } else {
            assert(all[i] == p3[i - p0.len() - p1.len() - p2.len()]);
        }
    }
}

/// Chords keep their meaning: among the events of a change, releases come before presses,
/// ordinary keys are released before modifiers, and modifiers are pressed before ordinary
/// keys.
pub proof fn chords_keep_their_order(prev: Seq<u8>, next: Seq<u8>, i: int, j: int)
    requires
        0 <= i < j < key_events(prev, next).len(),
    ensures
        rank(key_events(prev, next)[i]) <= rank(key_events(prev, next)[j]),
{
    reveal_with_fuel(events_before, 5);
    let n = KeyboardKey::COUNT as int;
    let p0 = phase_events(prev, next, 0, n);
    let p1 = phase_events(prev, next, 1, n);
    let p2 = phase_events(prev, next, 2, n);
    let p3 = phase_events(prev, next, 3, n);
    lemma_phase_events(prev, next, 0, n);
    lemma_phase_events(prev, next, 1, n);
    lemma_phase_events(prev, next, 2, n);
    lemma_phase_events(prev, next, 3, n);
    let all = key_events(prev, next);
    assert(all =~= p0 + p1 + p2 + p3);
    lemma_rank_at(p0, p1, p2, p3, i);
    lemma_rank_at(p0, p1, p2, p3, j);
}

proof fn lemma_rank_at(
    p0: Seq<(KeyboardKey, bool)>,
    p1: Seq<(KeyboardKey, bool)>,
    p2: Seq<(KeyboardKey, bool)>,
    p3: Seq<(KeyboardKey, bool)>,
    i: int,
)
    requires
        0 <= i < p0.len() + p1.len() + p2.len() + p3.len(),
        forall|k: int| 0 <= k < p0.len() ==> rank(#[trigger] p0[k]) == 0,
        forall|k: int| 0 <= k < p1.len() ==> rank(#[trigger] p1[k]) == 1,
        forall|k: int| 0 <= k < p2.len() ==> rank(#[trigger] p2[k]) == 2,
        forall|k: int| 0 <= k < p3.len() ==> rank(#[trigger] p3[k]) == 3,
    ensures
        rank((p0 + p1 + p2 + p3)[i]) == if i < p0.len() {
            0int
        } else if i < p0.len() + p1.len() {
            1
        } else if i < p0.len() + p1.len() + p2.len() {
            2
        } else {
            3
        },
{
    let all = p0 + p1 + p2 + p3;
    if i < p0.len() {
        assert(all[i] == p0[i]);
    } else if i < p0.len() + p1.len() {
        assert(all[i] == p1[i - p0.len()]);
    } else if i < p0.len() + p1.len() + p2.len() {
        assert(all[i] == p2[i - p0.len() - p1.len()]);
    } else {
        assert(all[i] == p3[i - p0.len() - p1.len() - p2.len()]);
    }
}

/// The modifiers that are pressed, in the order in which they are taken back up again.
pub open spec fn held_modifiers(state: Seq<u8>, keys: Seq<KeyboardKey>) -> Seq<KeyboardKey>
    decreases keys.len(),
{
    if keys.len() == 0 {
        Seq::empty()
    } else {
        let rest = held_modifiers(state, keys.drop_last());
        if is_pressed(state, keys.last()) {
            rest.push(keys.last())
        } else {
            rest
        }
    }
}

/// The modifiers, left ones first.
pub open spec fn modifier_keys() -> Seq<KeyboardKey> {
    seq![
        KeyboardKey::LeftShift,
        KeyboardKey::LeftCtrl,
        KeyboardKey::LeftAlt,
        KeyboardKey::LeftMeta,
        KeyboardKey::RightShift,
        KeyboardKey::RightCtrl,
        KeyboardKey::RightAlt,
        KeyboardKey::RightMeta,
    ]
}

/// The modifiers that are pressed.
pub fn pressed_modifiers(state: &[u8; KEYBOARD_STATE_BYTES]) -> (out: Vec<KeyboardKey>)
    ensures
        out@ == held_modifiers(state@, modifier_keys()),
{
    let keys: [KeyboardKey; 8] = [
        KeyboardKey::LeftShift,
        KeyboardKey::LeftCtrl,
        KeyboardKey::LeftAlt,
        KeyboardKey::LeftMeta,
        KeyboardKey::RightShift,
        KeyboardKey::RightCtrl,
        KeyboardKey::RightAlt,
        KeyboardKey::RightMeta,
    ];
    proof {
        assert(keys@ =~= modifier_keys());
    }
    let mut out: Vec<KeyboardKey> = Vec::new();
    let mut i: usize = 0;
    while i < 8
        invariant
            i <= 8,
            keys@ == modifier_keys(),
            out@ == held_modifiers(state@, modifier_keys().subrange(0, i as int)),
        decreases 8 - i,
    {
        if keyboard_state_contains(state, keys[i]) {
            out.push(keys[i]);
        }
        i = i + 1;
        proof {
            let longer = modifier_keys().subrange(0, i as int);
            assert(longer.drop_last() =~= modifier_keys().subrange(0, i - 1));
            assert(longer.last() == keys@[i - 1]);
        }
    }
    proof {
        assert(modifier_keys().subrange(0, 8) =~= modifier_keys());
    }
    out
}

} // verus!

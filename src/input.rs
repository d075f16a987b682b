use crate::clock::{clock_start, millis_since};
use crate::maps::{CooldownMap, KeyMap};
use crate::mouse::{wrap_i32, Mouse};
use std::time::Instant;
use vstd::prelude::*;

verus! {

/// One raw platform event, reduced to what the input state reads from it.
/// A key is identified by its key code; a transition event whose key could
/// not be resolved carries `None`.
#[derive(Clone, Copy, Debug, PartialEq, Eq)]
pub enum InputEvent {
    Motion { xrel: i32, yrel: i32 },
    KeyDown { key: Option<i32> },
    KeyUp { key: Option<i32> },
    Other,
}

/// The state of a key for a query: its stored state, or `default` if the
/// key was never seen.
pub open spec fn key_lookup(keys: Map<i32, bool>, key: i32, default: bool) -> bool {
    if keys.dom().contains(key) {
        keys[key]
    } else {
        default
    }
}

/// The key states after one event: a transition with a known key records it.
pub open spec fn step_keys(keys: Map<i32, bool>, ev: InputEvent) -> Map<i32, bool> {
    match ev {
        InputEvent::KeyDown { key: Some(k) } => keys.insert(k, true),
        InputEvent::KeyUp { key: Some(k) } => keys.insert(k, false),
        _ => keys,
    }
}

/// The accumulated motion after one event. The vertical axis is inverted.
pub open spec fn step_motion(m: (int, int), ev: InputEvent) -> (int, int) {
    match ev {
        InputEvent::Motion { xrel, yrel } => (wrap_i32(m.0 + xrel), wrap_i32(m.1 - yrel)),
        _ => m,
    }
}

/// The key states after a sequence of events, applied in order.
pub open spec fn keys_after(keys: Map<i32, bool>, evs: Seq<InputEvent>) -> Map<i32, bool>
    decreases evs.len(),
{
    if evs.len() == 0 {
        keys
    } else {
        keys_after(step_keys(keys, evs[0]), evs.drop_first())
    }
}

/// The accumulated motion after a sequence of events, applied in order.
pub open spec fn motion_after(m: (int, int), evs: Seq<InputEvent>) -> (int, int)
    decreases evs.len(),
{
    if evs.len() == 0 {
        m
    } else {
        motion_after(step_motion(m, evs[0]), evs.drop_first())
    }
}

/// Whether an event is a transition of `key`.
pub open spec fn names_key(ev: InputEvent, key: i32) -> bool {
    match ev {
        InputEvent::KeyDown { key: Some(k) } => k == key,
        InputEvent::KeyUp { key: Some(k) } => k == key,
        _ => false,
    }
}

/// The outcome of a cooldown-gated query: whether it triggers, and the
/// cooldown map afterwards. A released key never triggers and changes nothing;
/// a held key with no entry triggers at once and records time zero; otherwise
/// it triggers, recording `now`, only when more than `interval` has passed
/// since its recorded time.
pub open spec fn cooldown_step(
    cooldown: Map<i32, u64>,
    pressed: bool,
    key: i32,
    interval: u64,
    now: u64,
) -> (bool, Map<i32, u64>) {
    if !pressed {
        (false, cooldown)
    } else if !cooldown.dom().contains(key) {
        (true, cooldown.insert(key, 0))
    } else if now - cooldown[key] > interval {
        (true, cooldown.insert(key, now))
    } else {
        (false, cooldown)
    }
}

/// A key that no event of a sequence names, and that had no entry before,
/// still has none afterwards: a query on it gives back the caller's default,
/// whichever default that is.
pub proof fn lemma_unseen_key_default(
    keys: Map<i32, bool>,
    evs: Seq<InputEvent>,
    key: i32,
    default: bool,
)
    requires
        !keys.dom().contains(key),
        forall|i: int| 0 <= i < evs.len() ==> !names_key(#[trigger] evs[i], key),
    ensures
        !keys_after(keys, evs).dom().contains(key),
        key_lookup(keys_after(keys, evs), key, default) == default,
    decreases evs.len(),
{
    if evs.len() > 0 {
        assert(!names_key(evs[0], key));
        assert forall|i: int| 0 <= i < evs.drop_first().len() implies !names_key(
            #[trigger] evs.drop_first()[i],
            key,
        ) by {
            assert(evs.drop_first()[i] == evs[i + 1]);
        }
        lemma_unseen_key_default(step_keys(keys, evs[0]), evs.drop_first(), key, default);
    }
}

/// Sum of the horizontal displacements of the motion events of a sequence.
pub open spec fn sum_x(evs: Seq<InputEvent>) -> int
    decreases evs.len(),
{
    if evs.len() == 0 {
        0
    } else {
        (match evs[0] {
            InputEvent::Motion { xrel, .. } => xrel as int,
            _ => 0,
        }) + sum_x(evs.drop_first())
    }
}

/// Sum of the inverted vertical displacements of the motion events of a sequence.
pub open spec fn sum_y(evs: Seq<InputEvent>) -> int
    decreases evs.len(),
{
    if evs.len() == 0 {
        0
    } else {
        (match evs[0] {
            InputEvent::Motion { yrel, .. } => -(yrel as int),
            _ => 0,
        }) + sum_y(evs.drop_first())
    }
}

proof fn lemma_wrap_range(x: int)
    ensures
        i32::MIN <= wrap_i32(x) <= i32::MAX,
{
}

proof fn lemma_motion_after_sums(m: (int, int), evs: Seq<InputEvent>)
    requires
        i32::MIN <= m.0 <= i32::MAX,
        i32::MIN <= m.1 <= i32::MAX,
    ensures
        motion_after(m, evs) == (wrap_i32(m.0 + sum_x(evs)), wrap_i32(m.1 + sum_y(evs))),
    decreases evs.len(),
{
    if evs.len() == 0 {
        crate::mouse::lemma_wrap_small(m.0);
        crate::mouse::lemma_wrap_small(m.1);
    } else {
        let m1 = step_motion(m, evs[0]);
        let rest = evs.drop_first();
        match evs[0] {
            InputEvent::Motion { xrel, yrel } => {
                lemma_wrap_range(m.0 + xrel);
                lemma_wrap_range(m.1 - yrel);
                lemma_motion_after_sums(m1, rest);
                crate::mouse::lemma_wrap_add_absorbs(m.0 + xrel, sum_x(rest));
                crate::mouse::lemma_wrap_add_absorbs(m.1 - yrel, sum_y(rest));
            },
            _ => {
                lemma_motion_after_sums(m1, rest);
            },
        }
    }
}

proof fn lemma_sums_split(a: Seq<InputEvent>, b: Seq<InputEvent>)
    ensures
        sum_x(a + b) == sum_x(a) + sum_x(b),
        sum_y(a + b) == sum_y(a) + sum_y(b),
    decreases a.len(),
{
    if a.len() == 0 {
        assert(a + b =~= b);
    } else {
        assert((a + b).drop_first() =~= a.drop_first() + b);
        assert((a + b)[0] == a[0]);
        lemma_sums_split(a.drop_first(), b);
    }
}

/// Draining once part way through a sequence of events and once at its end
/// yields, added together, what a single drain at the end would: no motion
/// is lost or counted twice.
pub proof fn lemma_split_drains(evs: Seq<InputEvent>, k: int)
    requires
        0 <= k <= evs.len(),
    ensures
        ({
            let first = motion_after((0, 0), evs.take(k));
            let second = motion_after((0, 0), evs.skip(k));
            (wrap_i32(first.0 + second.0), wrap_i32(first.1 + second.1)) == motion_after(
                (0, 0),
                evs,
            )
        }),
{
    let a = evs.take(k);
    let b = evs.skip(k);
    assert(a + b =~= evs);
    lemma_motion_after_sums((0, 0), a);
    lemma_motion_after_sums((0, 0), b);
    lemma_motion_after_sums((0, 0), evs);
    lemma_sums_split(a, b);
    crate::mouse::lemma_wrap_add_absorbs(sum_x(a), wrap_i32(sum_x(b)));
    crate::mouse::lemma_wrap_add_absorbs(sum_x(b), sum_x(a));
    crate::mouse::lemma_wrap_add_absorbs(sum_y(a), wrap_i32(sum_y(b)));
    crate::mouse::lemma_wrap_add_absorbs(sum_y(b), sum_y(a));
}

/// All input state of one application: key states, accumulated mouse motion,
/// cooldown times, and the reference point of the cooldown clock.
pub struct InputState {
    mouse: Mouse,
    keys: KeyMap,
    cooldown: CooldownMap,
    epoch: Instant,
}

impl InputState {
    /// The stored state of each key seen so far.
    pub closed spec fn pressed(&self) -> Map<i32, bool> {
        self.keys@
    }

    /// The mouse motion accumulated since the last drain.
    pub closed spec fn motion(&self) -> (int, int) {
        self.mouse@
    }

    /// The time, in milliseconds, of each key's last cooldown trigger.
    pub closed spec fn cooldowns(&self) -> Map<i32, u64> {
        self.cooldown@
    }

    /// Empty state: no key seen, no motion, no cooldown entry. Cooldown times
    /// are measured from the moment of this call.
    pub fn new() -> (s: InputState)
        ensures
            s.pressed() =~= Map::empty(),
            s.motion() == (0int, 0int),
            s.cooldowns() =~= Map::empty(),
    {
        InputState {
            mouse: Mouse::new(),
            keys: KeyMap::new(),
            cooldown: CooldownMap::new(),
            epoch: clock_start(),
        }
    }
}

/// Applies one raw event: motion adds `xrel` and `-yrel` to the counters,
/// a key transition with a known key records it, anything else is ignored.
pub fn ingest(state: &mut InputState, event: &InputEvent)
    ensures
        final(state).pressed() == step_keys(old(state).pressed(), *event),
        final(state).motion() == step_motion(old(state).motion(), *event),
        final(state).cooldowns() == old(state).cooldowns(),
{
    match event {
        InputEvent::Motion { xrel, yrel } => {
            let neg = 0i32.wrapping_sub(*yrel);
            state.mouse.store_motion(*xrel, neg);
        },
        InputEvent::KeyDown { key } => {
            if let Some(k) = key {
                state.keys.insert(*k, true);
            }
        },
        InputEvent::KeyUp { key } => {
            if let Some(k) = key {
                state.keys.insert(*k, false);
            }
        },
        InputEvent::Other => {},
    }
}

/// The stored state of `key`, or `default` if no transition of it was seen.
pub fn get_key(state: &InputState, key: i32, default: bool) -> (r: bool)
    ensures
        r == key_lookup(state.pressed(), key, default),
{
    match state.keys.get(key) {
        Some(v) => v,
        None => default,
    }
}

/// Returns the accumulated motion and resets it to zero.
pub fn fetch_motion(state: &mut InputState) -> (r: (i32, i32))
    ensures
        (r.0 as int, r.1 as int) == old(state).motion(),
        final(state).motion() == (0int, 0int),
        final(state).pressed() == old(state).pressed(),
        final(state).cooldowns() == old(state).cooldowns(),
{
    state.mouse.drain()
}

/// The cooldown-gated state of `key` at time `now`, in milliseconds since the
/// state was created: see `cooldown_step`.
pub fn get_key_with_cooldown_at(
    state: &mut InputState,
    key: i32,
    default: bool,
    interval: u64,
    now: u64,
) -> (r: bool)
    ensures
        (r, final(state).cooldowns()) == cooldown_step(
            old(state).cooldowns(),
            key_lookup(old(state).pressed(), key, default),
            key,
            interval,
            now,
        ),
        final(state).pressed() == old(state).pressed(),
        final(state).motion() == old(state).motion(),
{
    if !get_key(state, key, default) {
        return false;
    }
    match state.cooldown.get(key) {
        None => {
            state.cooldown.insert(key, 0);
            true
        },
        Some(last) => {
            if now >= last && now - last > interval {
                state.cooldown.insert(key, now);
                true
            } else {
                false
            }
        },
    }
}

/// The cooldown-gated state of `key`, read against the clock: a released
/// key gives `false` and changes nothing; a held key with no entry gives
/// `true` at once; otherwise `true` only when more than `interval`
/// milliseconds have passed since its last trigger.
pub fn get_key_with_cooldown(state: &mut InputState, key: i32, default: bool, interval: u64) -> (r: bool)
    ensures
        exists|now: u64|
            (r, final(state).cooldowns()) == #[trigger] cooldown_step(
                old(state).cooldowns(),
                key_lookup(old(state).pressed(), key, default),
                key,
                interval,
                now,
            ),
        !key_lookup(old(state).pressed(), key, default) ==> !r && final(state).cooldowns()
            == old(state).cooldowns(),
        key_lookup(old(state).pressed(), key, default) && !old(state).cooldowns().dom().contains(
            key,
        ) ==> r && final(state).cooldowns() == old(state).cooldowns().insert(key, 0),
        final(state).pressed() == old(state).pressed(),
        final(state).motion() == old(state).motion(),
{
    let now = millis_since(&state.epoch);
    get_key_with_cooldown_at(state, key, default, interval, now)
}

} // verus!

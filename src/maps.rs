use dashmap::DashMap;
use vstd::prelude::*;

verus! {

#[verifier::external_type_specification]
#[verifier::external_body]
#[verifier::reject_recursive_types(K)]
#[verifier::reject_recursive_types(V)]
#[verifier::reject_recursive_types(S)]
pub struct ExDashMap<K, V, S>(DashMap<K, V, S>);

/// What a key-state map holds: key code to "is pressed".
pub uninterp spec fn pressed_contents(m: DashMap<i32, bool>) -> Map<i32, bool>;

/// What a cooldown map holds: key code to the time of its last trigger.
pub uninterp spec fn cooldown_contents(m: DashMap<i32, u64>) -> Map<i32, u64>;

/// Relies on `DashMap::new`: the new map holds no entry.
#[verifier::external_body]
fn pressed_new() -> (m: DashMap<i32, bool>)
    ensures
        pressed_contents(m) =~= Map::empty(),
{
    DashMap::new()
}

/// Relies on `DashMap::get`: the value stored under `k`, if any.
#[verifier::external_body]
fn pressed_get(m: &DashMap<i32, bool>, k: i32) -> (r: Option<bool>)
    ensures
        r == (if pressed_contents(*m).dom().contains(k) {
            Some(pressed_contents(*m)[k])
        } else {
            None
        }),
{
    m.get(&k).map(|e| *e)
}

/// Relies on `DashMap::insert`: `k` maps to `v` afterwards, all else unchanged.
#[verifier::external_body]
fn pressed_insert(m: &mut DashMap<i32, bool>, k: i32, v: bool)
    ensures
        pressed_contents(*final(m)) == pressed_contents(*old(m)).insert(k, v),
{
    m.insert(k, v);
}

/// Relies on `DashMap::new`: the new map holds no entry.
#[verifier::external_body]
fn cooldown_new() -> (m: DashMap<i32, u64>)
    ensures
        cooldown_contents(m) =~= Map::empty(),
{
    DashMap::new()
}

/// Relies on `DashMap::get`: the value stored under `k`, if any.
#[verifier::external_body]
fn cooldown_get(m: &DashMap<i32, u64>, k: i32) -> (r: Option<u64>)
    ensures
        r == (if cooldown_contents(*m).dom().contains(k) {
            Some(cooldown_contents(*m)[k])
        } else {
            None
        }),
{
    m.get(&k).map(|e| *e)
}

/// Relies on `DashMap::insert`: `k` maps to `v` afterwards, all else unchanged.
#[verifier::external_body]
fn cooldown_insert(m: &mut DashMap<i32, u64>, k: i32, v: u64)
    ensures
        cooldown_contents(*final(m)) == cooldown_contents(*old(m)).insert(k, v),
{
    m.insert(k, v);
}

/// Which keys are held: the state of each key as of its most recent transition.
/// A key never seen has no entry.
pub struct KeyMap {
    inner: DashMap<i32, bool>,
}

impl KeyMap {
    pub closed spec fn view(&self) -> Map<i32, bool> {
        pressed_contents(self.inner)
    }

    pub fn new() -> (m: KeyMap)
        ensures
            m@ == Map::<i32, bool>::empty(),
    {
        KeyMap { inner: pressed_new() }
    }

    pub fn get(&self, key: i32) -> (r: Option<bool>)
        ensures
            r == (if self@.dom().contains(key) {
                Some(self@[key])
            } else {
                None
            }),
    {
        pressed_get(&self.inner, key)
    }

    pub fn insert(&mut self, key: i32, pressed: bool)
        ensures
            final(self)@ == old(self)@.insert(key, pressed),
    {
        pressed_insert(&mut self.inner, key, pressed);
    }
}

/// The time of each key's last cooldown trigger. Entries are never removed.
pub struct CooldownMap {
    inner: DashMap<i32, u64>,
}

impl CooldownMap {
    pub closed spec fn view(&self) -> Map<i32, u64> {
        cooldown_contents(self.inner)
    }

    pub fn new() -> (m: CooldownMap)
        ensures
            m@ == Map::<i32, u64>::empty(),
    {
        CooldownMap { inner: cooldown_new() }
    }

    pub fn get(&self, key: i32) -> (r: Option<u64>)
        ensures
            r == (if self@.dom().contains(key) {
                Some(self@[key])
            } else {
                None
            }),
    {
        cooldown_get(&self.inner, key)
    }

    pub fn insert(&mut self, key: i32, time: u64)
        ensures
            final(self)@ == old(self)@.insert(key, time),
    {
        cooldown_insert(&mut self.inner, key, time);
    }
}

} // verus!

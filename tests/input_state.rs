use input_state::{
    fetch_motion, get_key, get_key_with_cooldown, get_key_with_cooldown_at, ingest, CooldownMap,
    InputEvent, InputState, KeyMap, Mouse,
};

fn down(key: i32) -> InputEvent {
    InputEvent::KeyDown { key: Some(key) }
}

fn up(key: i32) -> InputEvent {
    InputEvent::KeyUp { key: Some(key) }
}

fn motion(xrel: i32, yrel: i32) -> InputEvent {
    InputEvent::Motion { xrel, yrel }
}

#[test]
fn unseen_key_gives_default() {
    let mut s = InputState::new();
    ingest(&mut s, &down(1));
    ingest(&mut s, &up(2));
    ingest(&mut s, &motion(4, 4));
    for _ in 0..3 {
        assert!(get_key(&s, 99, true));
        assert!(!get_key(&s, 99, false));
    }
}

#[test]
fn last_write_wins() {
    let mut s = InputState::new();
    ingest(&mut s, &down(5));
    ingest(&mut s, &up(5));
    ingest(&mut s, &down(5));
    assert!(get_key(&s, 5, false));
    ingest(&mut s, &up(5));
    assert!(!get_key(&s, 5, true));
}

#[test]
fn motion_accumulates_and_drains() {
    let mut s = InputState::new();
    ingest(&mut s, &motion(3, 4));
    ingest(&mut s, &motion(-1, 2));
    ingest(&mut s, &motion(5, -5));
    assert_eq!(fetch_motion(&mut s), (7, -1));
    assert_eq!(fetch_motion(&mut s), (0, 0));
}

#[test]
fn split_drains_add_up_to_one_drain() {
    let evs = [motion(3, 4), motion(-1, 2), down(1), motion(5, -5), motion(-10, 7)];
    let mut whole = InputState::new();
    for e in evs.iter() {
        ingest(&mut whole, e);
    }
    let total = fetch_motion(&mut whole);
    assert_eq!(total, (-3, -8));
    for k in 0..=evs.len() {
        let mut s = InputState::new();
        for e in evs[..k].iter() {
            ingest(&mut s, e);
        }
        let first = fetch_motion(&mut s);
        for e in evs[k..].iter() {
            ingest(&mut s, e);
        }
        let second = fetch_motion(&mut s);
        assert_eq!((first.0 + second.0, first.1 + second.1), total);
    }
}

#[test]
fn motion_wraps_on_overflow() {
    let mut s = InputState::new();
    ingest(&mut s, &motion(i32::MAX, i32::MIN));
    ingest(&mut s, &motion(1, 0));
    assert_eq!(fetch_motion(&mut s), (i32::MIN, i32::MIN));
}

#[test]
fn unresolved_and_other_events_are_ignored() {
    let mut s = InputState::new();
    ingest(&mut s, &InputEvent::KeyDown { key: None });
    ingest(&mut s, &InputEvent::KeyUp { key: None });
    ingest(&mut s, &InputEvent::Other);
    assert!(get_key(&s, 0, true));
    assert!(!get_key(&s, 0, false));
    assert_eq!(fetch_motion(&mut s), (0, 0));
}

#[test]
fn cooldown_first_trigger() {
    for interval in [0u64, 500, u64::MAX] {
        let mut s = InputState::new();
        ingest(&mut s, &down(3));
        assert!(get_key_with_cooldown_at(&mut s, 3, false, interval, 123));
    }
}

#[test]
fn cooldown_first_trigger_against_clock() {
    let mut s = InputState::new();
    ingest(&mut s, &down(3));
    assert!(get_key_with_cooldown(&mut s, 3, false, 500));
    let mut t = InputState::new();
    assert!(get_key_with_cooldown(&mut t, 8, true, u64::MAX));
}

#[test]
fn cooldown_suppresses_then_rearms() {
    let mut s = InputState::new();
    ingest(&mut s, &down(3));
    assert!(get_key_with_cooldown_at(&mut s, 3, false, 500, 1000));
    assert!(get_key_with_cooldown_at(&mut s, 3, false, 500, 1000));
    assert!(!get_key_with_cooldown_at(&mut s, 3, false, 500, 1200));
    assert!(!get_key_with_cooldown_at(&mut s, 3, false, 500, 1500));
    assert!(get_key_with_cooldown_at(&mut s, 3, false, 500, 1501));
    assert!(!get_key_with_cooldown_at(&mut s, 3, false, 500, 1501));
    assert!(!get_key_with_cooldown_at(&mut s, 3, false, 500, 2001));
    assert!(get_key_with_cooldown_at(&mut s, 3, false, 500, 2002));
}

#[test]
fn cooldown_immediate_repeat_is_suppressed() {
    let mut s = InputState::new();
    ingest(&mut s, &down(3));
    assert!(get_key_with_cooldown_at(&mut s, 3, false, 500, 0));
    assert!(!get_key_with_cooldown_at(&mut s, 3, false, 500, 0));
    assert!(get_key_with_cooldown_at(&mut s, 3, false, 500, 501));
}

#[test]
fn released_key_never_triggers() {
    let mut s = InputState::new();
    for interval in [0u64, 500, u64::MAX] {
        assert!(!get_key_with_cooldown_at(&mut s, 3, false, interval, 10_000));
    }
    ingest(&mut s, &down(3));
    ingest(&mut s, &up(3));
    assert!(!get_key_with_cooldown_at(&mut s, 3, false, 0, 10_000));
    assert!(!get_key_with_cooldown_at(&mut s, 3, true, 0, 10_000));
    ingest(&mut s, &down(3));
    assert!(get_key_with_cooldown_at(&mut s, 3, false, 500, 100));
    assert!(!get_key_with_cooldown_at(&mut s, 3, false, 500, 400));
}

#[test]
fn release_keeps_stale_cooldown() {
    let mut s = InputState::new();
    ingest(&mut s, &down(3));
    assert!(get_key_with_cooldown_at(&mut s, 3, false, 500, 0));
    assert!(get_key_with_cooldown_at(&mut s, 3, false, 500, 600));
    ingest(&mut s, &up(3));
    assert!(!get_key_with_cooldown_at(&mut s, 3, false, 500, 700));
    ingest(&mut s, &down(3));
    assert!(!get_key_with_cooldown_at(&mut s, 3, false, 500, 800));
    assert!(get_key_with_cooldown_at(&mut s, 3, false, 500, 1101));
}

#[test]
fn cooldowns_of_keys_are_independent() {
    let mut s = InputState::new();
    ingest(&mut s, &down(1));
    ingest(&mut s, &down(2));
    assert!(get_key_with_cooldown_at(&mut s, 1, false, 500, 100));
    assert!(get_key_with_cooldown_at(&mut s, 1, false, 500, 600));
    assert!(get_key_with_cooldown_at(&mut s, 2, false, 500, 600));
    assert!(!get_key_with_cooldown_at(&mut s, 1, false, 500, 700));
}

#[test]
fn mouse_store_and_drain() {
    let mut m = Mouse::new();
    assert_eq!((m.dx, m.dy), (0, 0));
    m.store_motion(2, -3);
    m.store_motion(5, 1);
    assert_eq!(m.drain(), (7, -2));
    assert_eq!(m.drain(), (0, 0));
}

#[test]
fn key_map_stores_and_overwrites() {
    let mut k = KeyMap::new();
    assert_eq!(k.get(4), None);
    k.insert(4, true);
    assert_eq!(k.get(4), Some(true));
    k.insert(4, false);
    assert_eq!(k.get(4), Some(false));
    assert_eq!(k.get(5), None);
}

#[test]
fn cooldown_map_stores_and_overwrites() {
    let mut c = CooldownMap::new();
    assert_eq!(c.get(4), None);
    c.insert(4, 250);
    assert_eq!(c.get(4), Some(250));
    c.insert(4, 900);
    assert_eq!(c.get(4), Some(900));
    assert_eq!(c.get(6), None);
}

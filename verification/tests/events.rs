use brickbreaker::events::{CollisionEvent, ContactKind, EventQueue};

fn stopped(a: u64, b: u64) -> CollisionEvent {
    CollisionEvent { kind: ContactKind::Stopped, body_a: Some(a), body_b: Some(b) }
}

fn started(a: u64, b: u64) -> CollisionEvent {
    CollisionEvent { kind: ContactKind::Started, body_a: Some(a), body_b: Some(b) }
}

#[test]
fn one_sound_per_contact_ended() {
    let mut q = EventQueue::new();
    q.push(stopped(1, 2));
    q.push(stopped(3, 4));
    assert_eq!(q.len(), 2);
    let out = q.dispatch();
    assert_eq!(out.sounds.len(), 2);
    assert_eq!(out.sounds[0].body_a, 1);
    assert_eq!(out.sounds[0].body_b, 2);
    assert_eq!(out.sounds[1].body_a, 3);
    assert_eq!(out.sounds[1].body_b, 4);
    assert_eq!(out.malformed, 0);
}

#[test]
fn contact_started_yields_no_sound() {
    let mut q = EventQueue::new();
    q.push(started(1, 2));
    let out = q.dispatch();
    assert_eq!(out.sounds.len(), 0);
    assert_eq!(out.malformed, 0);
}

#[test]
fn any_pair_of_bodies_yields_a_cue() {
    // The dispatcher deliberately does not filter by body identity.
    let mut q = EventQueue::new();
    q.push(stopped(7, 7));
    q.push(stopped(1000, 0));
    let out = q.dispatch();
    assert_eq!(out.sounds.len(), 2);
}

#[test]
fn malformed_events_are_skipped_and_counted() {
    let mut q = EventQueue::new();
    q.push(CollisionEvent { kind: ContactKind::Stopped, body_a: None, body_b: Some(2) });
    q.push(stopped(1, 2));
    q.push(CollisionEvent { kind: ContactKind::Started, body_a: Some(1), body_b: None });
    let out = q.dispatch();
    assert_eq!(out.sounds.len(), 1);
    assert_eq!(out.sounds[0].body_a, 1);
    assert_eq!(out.malformed, 2);
}

#[test]
fn draining_twice_yields_events_only_once() {
    let mut q = EventQueue::new();
    q.push(stopped(1, 2));
    let first = q.dispatch();
    assert_eq!(first.sounds.len(), 1);
    assert_eq!(q.len(), 0);
    let second = q.dispatch();
    assert_eq!(second.sounds.len(), 0);
    assert_eq!(second.malformed, 0);
}

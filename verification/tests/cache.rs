use asteroids::collision::cache::{Cache, Collision};

#[test]
fn collisions_ignore_order() {
    assert_eq!(Collision(1, 2), Collision(2, 1));
    assert_eq!(Collision(1, 2), Collision(1, 2));
    assert_ne!(Collision(1, 2), Collision(1, 3));
}

#[test]
fn a_frame_remembers_its_collisions() {
    let mut cache = Cache::default();
    cache.add(Collision(1, 2));
    cache.add(Collision(3, 4));
    // Not before the frame ends.
    assert!(!cache.contains(Collision(1, 2)));
    cache.update();
    assert!(cache.contains(Collision(1, 2)));
    assert!(cache.contains(Collision(2, 1)));
    assert!(cache.contains(Collision(4, 3)));
    assert!(!cache.contains(Collision(1, 3)));
    assert!(cache.contains_entity(4));
    assert!(!cache.contains_entity(5));
    assert!(cache.new.is_empty());
    // The next frame forgets them.
    cache.add(Collision(5, 6));
    cache.update();
    assert!(!cache.contains(Collision(1, 2)));
    assert!(cache.contains_entity(5));
    assert!(!cache.contains_entity(1));
}

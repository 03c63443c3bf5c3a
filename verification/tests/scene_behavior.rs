use droplet_splash::light_position;
use droplet_splash::splash_velocity;
use droplet_splash::ContactEvent;
use droplet_splash::Scene;
use droplet_splash::Vec3Milli;

const DROPLET: u64 = 7;
const FLOOR: u64 = 99;

fn scene_near_floor() -> Scene {
    let mut s = Scene::new(DROPLET);
    s.sync_droplet(
        Vec3Milli { x: 0, y: 400, z: 0 },
        Vec3Milli { x: 0, y: -3000, z: 0 },
        Vec3Milli { x: 0, y: 0, z: 0 },
    );
    s
}

#[test]
fn new_scene_is_initial() {
    let s = Scene::new(DROPLET);
    assert_eq!(s.droplet.position, Vec3Milli { x: 0, y: 5000, z: 0 });
    assert_eq!(s.droplet.scale, Vec3Milli { x: 1000, y: 1000, z: 1000 });
    assert_eq!(s.droplet.linear_velocity, Vec3Milli { x: 0, y: 0, z: 0 });
    assert_eq!(s.droplet.angular_velocity, Vec3Milli { x: 0, y: 0, z: 0 });
    assert!(!s.droplet.has_splashed);
    assert_eq!(s.particles.len(), 0);
    assert_eq!(s.droplet_id, DROPLET);
}

#[test]
fn wobble_follows_the_waves_exactly() {
    let mut s = Scene::new(DROPLET);
    s.animate_droplet(0, 2000, 1000);
    assert_eq!(s.droplet.scale, Vec3Milli { x: 980, y: 1020, z: 1000 });
    s.animate_droplet(1000, 1000, 1000);
    assert_eq!(s.droplet.scale, Vec3Milli { x: 1000, y: 1000, z: 1000 });
}

#[test]
fn wobble_stays_within_two_hundredths() {
    let mut s = Scene::new(DROPLET);
    for w in 0..=2000u16 {
        s.animate_droplet(w, 2000 - w, w / 2);
        for c in [s.droplet.scale.x, s.droplet.scale.y, s.droplet.scale.z] {
            assert!((980..=1020).contains(&c));
        }
    }
}

#[test]
fn wobble_skips_the_flattened_droplet() {
    let mut s = scene_near_floor();
    s.handle_collisions(&vec![ContactEvent::Started(DROPLET, FLOOR)]);
    let flattened = s.droplet.scale;
    assert_eq!(flattened, Vec3Milli { x: 2000, y: 100, z: 2000 });
    s.animate_droplet(500, 500, 500);
    assert_eq!(s.droplet.scale, flattened);
}

#[test]
fn light_orbit_positions_are_exact() {
    assert_eq!(light_position(1000, 0), Vec3Milli { x: 4000, y: 8000, z: 0 });
    assert_eq!(light_position(-500, 250), Vec3Milli { x: -2000, y: 8000, z: 1000 });
    assert_eq!(light_position(0, -1000), Vec3Milli { x: 0, y: 8000, z: -4000 });
}

#[test]
fn qualifying_collision_splashes() {
    let mut s = scene_near_floor();
    let pos = s.droplet.position;
    s.handle_collisions(&vec![ContactEvent::Started(FLOOR, DROPLET)]);
    assert!(s.droplet.has_splashed);
    assert_eq!(s.droplet.scale, Vec3Milli { x: 2000, y: 100, z: 2000 });
    assert_eq!(s.droplet.position, pos);
    assert_eq!(s.particles.len(), 20);
    for p in &s.particles {
        assert_eq!(p.position, pos);
        assert!((-2000..2000).contains(&p.velocity.x));
        assert!((2000..5000).contains(&p.velocity.y));
        assert!((-2000..2000).contains(&p.velocity.z));
    }
}

#[test]
fn one_batch_splashes_at_most_once() {
    let mut s = scene_near_floor();
    s.handle_collisions(&vec![
        ContactEvent::Started(DROPLET, FLOOR),
        ContactEvent::Started(DROPLET, FLOOR),
        ContactEvent::Started(FLOOR, DROPLET),
    ]);
    assert_eq!(s.particles.len(), 20);
}

#[test]
fn splashed_droplet_ignores_further_collisions() {
    let mut s = scene_near_floor();
    s.handle_collisions(&vec![ContactEvent::Started(DROPLET, FLOOR)]);
    let scale = s.droplet.scale;
    s.handle_collisions(&vec![ContactEvent::Started(DROPLET, FLOOR)]);
    s.handle_collisions(&vec![ContactEvent::Started(FLOOR, DROPLET)]);
    assert_eq!(s.particles.len(), 20);
    assert_eq!(s.droplet.scale, scale);
}

#[test]
fn collision_of_other_bodies_is_ignored() {
    let mut s = scene_near_floor();
    s.handle_collisions(&vec![ContactEvent::Started(FLOOR, 42)]);
    assert!(!s.droplet.has_splashed);
    assert_eq!(s.particles.len(), 0);
    assert_eq!(s.droplet.scale, Vec3Milli { x: 1000, y: 1000, z: 1000 });
}

#[test]
fn stopped_contact_is_ignored() {
    let mut s = scene_near_floor();
    s.handle_collisions(&vec![ContactEvent::Stopped(DROPLET, FLOOR)]);
    assert!(!s.droplet.has_splashed);
    assert_eq!(s.particles.len(), 0);
}

#[test]
fn collision_high_above_the_floor_is_ignored() {
    let mut s = Scene::new(DROPLET);
    // Still at the start height of five units.
    s.handle_collisions(&vec![ContactEvent::Started(DROPLET, FLOOR)]);
    assert!(!s.droplet.has_splashed);
    assert_eq!(s.particles.len(), 0);
}

#[test]
fn collision_at_the_threshold_is_ignored() {
    let mut s = Scene::new(DROPLET);
    s.sync_droplet(
        Vec3Milli { x: 0, y: 1000, z: 0 },
        Vec3Milli { x: 0, y: 0, z: 0 },
        Vec3Milli { x: 0, y: 0, z: 0 },
    );
    s.handle_collisions(&vec![ContactEvent::Started(DROPLET, FLOOR)]);
    assert!(!s.droplet.has_splashed);
    assert_eq!(s.particles.len(), 0);
}

#[test]
fn reset_restores_the_exact_initial_state() {
    let mut s = scene_near_floor();
    s.handle_collisions(&vec![ContactEvent::Started(DROPLET, FLOOR)]);
    s.reset(true);
    assert_eq!(s.droplet.position, Vec3Milli { x: 0, y: 5000, z: 0 });
    assert_eq!(s.droplet.scale, Vec3Milli { x: 1000, y: 1000, z: 1000 });
    assert_eq!(s.droplet.linear_velocity, Vec3Milli { x: 0, y: 0, z: 0 });
    assert_eq!(s.droplet.angular_velocity, Vec3Milli { x: 0, y: 0, z: 0 });
    assert!(!s.droplet.has_splashed);
    assert_eq!(s.particles.len(), 0);
    assert_eq!(s.droplet_id, DROPLET);
}

#[test]
fn unpressed_reset_changes_nothing() {
    let mut s = scene_near_floor();
    s.handle_collisions(&vec![ContactEvent::Started(DROPLET, FLOOR)]);
    let scale = s.droplet.scale;
    s.reset(false);
    assert_eq!(s.droplet.scale, scale);
    assert_eq!(s.particles.len(), 20);
}

#[test]
fn drop_splash_reset_scenario() {
    // The droplet starts at a height of five units, falls, and meets the
    // floor below one unit while unsplashed.
    let mut s = Scene::new(DROPLET);
    assert_eq!(s.droplet.position.y, 5000);
    s.sync_droplet(
        Vec3Milli { x: 0, y: 450, z: 0 },
        Vec3Milli { x: 0, y: -4000, z: 0 },
        Vec3Milli { x: 0, y: 0, z: 0 },
    );
    s.handle_collisions(&vec![ContactEvent::Started(DROPLET, FLOOR)]);
    assert_eq!(s.droplet.scale, Vec3Milli { x: 2000, y: 100, z: 2000 });
    assert!(s.droplet.has_splashed);
    assert_eq!(s.particles.len(), 20);
    // Pressing the reset key afterwards restores the start state.
    s.reset(true);
    assert_eq!(s.droplet.position.y, 5000);
    assert_eq!(s.droplet.scale, Vec3Milli { x: 1000, y: 1000, z: 1000 });
    assert!(!s.droplet.has_splashed);
    assert_eq!(s.particles.len(), 0);
}

#[test]
fn splash_velocities_stay_in_their_ranges() {
    for _ in 0..200 {
        let v = splash_velocity();
        assert!((-2000..2000).contains(&v.x));
        assert!((2000..5000).contains(&v.y));
        assert!((-2000..2000).contains(&v.z));
    }
}

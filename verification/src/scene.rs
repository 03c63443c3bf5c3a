//! The scripted scene: one droplet, its splash particles, and the rules that
//! drive them.
//!
//! The droplet falls under the host's physics. While it has not splashed, a
//! cosmetic wobble animates its scale. The first started contact that
//! involves the droplet while it is unsplashed and close enough to the floor
//! flattens it into a puddle, marks it as splashed, and spawns a burst of
//! twenty particles; the marker makes every later contact a no-op. A reset
//! key returns the scene to its exact start state.

use vstd::prelude::*;

use crate::geom::Vec3Milli;
use crate::sampling::splash_velocity;
use crate::sampling::splash_velocity_ok;

verus! {

/// Height (milli-units) at which the droplet starts and to which it resets.
pub const START_HEIGHT: i64 = 5000;

/// Below this height (milli-units) a started contact counts as hitting the
/// floor and triggers the splash.
pub const SPLASH_HEIGHT: i64 = 1000;

/// Vertical scale (milli-units) at or under which the droplet counts as
/// flattened, so the wobble leaves it alone.
pub const WOBBLE_MIN_SCALE: i64 = 500;

/// Number of particles in one splash burst.
pub const SPLASH_PARTICLES: usize = 20;

/// The one droplet: transform, motion, and whether it has splashed since the
/// last reset.
#[derive(Clone, Copy, PartialEq, Eq, Structural, Debug)]
pub struct Droplet {
    pub position: Vec3Milli,
    pub scale: Vec3Milli,
    pub linear_velocity: Vec3Milli,
    pub angular_velocity: Vec3Milli,
    pub has_splashed: bool,
}

/// A splash particle: spawned at the droplet's position with a random upward
/// velocity, destroyed on reset.
#[derive(Clone, Copy, PartialEq, Eq, Structural, Debug)]
pub struct Particle {
    pub position: Vec3Milli,
    pub velocity: Vec3Milli,
}

/// A physics event handed in by the host: a contact between two bodies began
/// or ended. Bodies are named by the host's entity identifiers.
#[derive(Clone, Copy, PartialEq, Eq, Structural, Debug)]
pub enum ContactEvent {
    Started(u64, u64),
    Stopped(u64, u64),
}

/// The whole scene: the droplet, the live particles, and the host's
/// identifier for the droplet's body.
pub struct Scene {
    pub droplet: Droplet,
    pub particles: Vec<Particle>,
    pub droplet_id: u64,
}

/// The droplet as the scene starts: at (0, 5, 0), unit scale, at rest,
/// unsplashed.
pub open spec fn initial_droplet() -> Droplet {
    Droplet {
        position: Vec3Milli { x: 0, y: START_HEIGHT, z: 0 },
        scale: Vec3Milli { x: 1000, y: 1000, z: 1000 },
        linear_velocity: Vec3Milli::zero_spec(),
        angular_velocity: Vec3Milli::zero_spec(),
        has_splashed: false,
    }
}

/// The puddle pose the droplet takes on impact: wide and flat.
pub open spec fn flattened_scale() -> Vec3Milli {
    Vec3Milli { x: 2000, y: 100, z: 2000 }
}

/// The scene is in its start state: droplet as created and no particles.
pub open spec fn is_initial(s: Scene) -> bool {
    &&& s.droplet == initial_droplet()
    &&& s.particles@.len() == 0
}

/// The event is a started contact that involves the body `id`.
pub open spec fn is_started_contact(e: ContactEvent, id: u64) -> bool {
    match e {
        ContactEvent::Started(a, b) => a == id || b == id,
        ContactEvent::Stopped(_, _) => false,
    }
}

/// Some event of the batch is a started contact involving the body `id`.
pub open spec fn has_splash_trigger(events: Seq<ContactEvent>, id: u64) -> bool {
    exists|i: int| 0 <= i < events.len() && is_started_contact(events[i], id)
}

/// The droplet may splash: it has not splashed yet and is close enough to the
/// floor for a contact to count as hitting it.
pub open spec fn can_splash(d: Droplet) -> bool {
    &&& !d.has_splashed
    &&& d.position.y < SPLASH_HEIGHT
}

/// The droplet after its splash: flattened and marked, everything else kept.
pub open spec fn splashed_droplet(d: Droplet) -> Droplet {
    Droplet {
        position: d.position,
        scale: flattened_scale(),
        linear_velocity: d.linear_velocity,
        angular_velocity: d.angular_velocity,
        has_splashed: true,
    }
}

/// What one splash burst does to the scene: the droplet is flattened and
/// marked, the particles it had are kept unchanged, and exactly
/// `SPLASH_PARTICLES` new ones stand at the droplet's position, each with a
/// velocity the burst allows.
pub open spec fn splash_outcome(pre: Scene, post: Scene) -> bool {
    &&& post.droplet == splashed_droplet(pre.droplet)
    &&& post.particles@.len() == pre.particles@.len() + SPLASH_PARTICLES
    &&& forall|i: int|
        0 <= i < pre.particles@.len() ==> #[trigger] post.particles@[i] == pre.particles@[i]
    &&& forall|i: int|
        pre.particles@.len() <= i < post.particles@.len() ==> {
            &&& (#[trigger] post.particles@[i]).position == pre.droplet.position
            &&& splash_velocity_ok(post.particles@[i].velocity)
        }
    &&& post.droplet_id == pre.droplet_id
}

/// What one batch of contact events does to the scene: a splash when the
/// droplet can splash and some event triggers it, and no change at all
/// otherwise.
pub open spec fn collision_outcome(pre: Scene, events: Seq<ContactEvent>, post: Scene) -> bool {
    &&& (can_splash(pre.droplet) && has_splash_trigger(events, pre.droplet_id)) ==> splash_outcome(
        pre,
        post,
    )
    &&& !(can_splash(pre.droplet) && has_splash_trigger(events, pre.droplet_id)) ==> {
        &&& post.droplet == pre.droplet
        &&& post.particles@ == pre.particles@
    }
    &&& post.droplet_id == pre.droplet_id
}

/// One milli-unit scale component of the wobble, driven by a wave sample in
/// [0, 2000]: the sample is the wave's value plus one, in milli-units, so the
/// component is 0.98 .. 1.02 of unit scale.
pub open spec fn wobble_component(u: int) -> int {
    980 + u / 50
}

/// Law: whatever the wave sample, a wobble scale component stays within two
/// hundredths of unit scale.
pub proof fn lemma_wobble_component_in_bounds(u: int)
    requires
        0 <= u <= 2000,
    ensures
        980 <= wobble_component(u) <= 1020,
{
}

impl Scene {
    /// Creates the scene as the host sets it up: the droplet at its start
    /// position and no particles.
    pub fn new(droplet_id: u64) -> (s: Scene)
        ensures
            is_initial(s),
            s.droplet_id == droplet_id,
    {
        Scene {
            droplet: Droplet {
                position: Vec3Milli { x: 0, y: START_HEIGHT, z: 0 },
                scale: Vec3Milli { x: 1000, y: 1000, z: 1000 },
                linear_velocity: Vec3Milli::zero(),
                angular_velocity: Vec3Milli::zero(),
                has_splashed: false,
            },
            particles: Vec::new(),
            droplet_id,
        }
    }

    /// Adopts the position and velocities that the host's physics produced
    /// for the droplet this frame.
    pub fn sync_droplet(
        &mut self,
        position: Vec3Milli,
        linear_velocity: Vec3Milli,
        angular_velocity: Vec3Milli,
    )
        ensures
            final(self).droplet == (Droplet {
                position,
                scale: old(self).droplet.scale,
                linear_velocity,
                angular_velocity,
                has_splashed: old(self).droplet.has_splashed,
            }),
            final(self).particles@ == old(self).particles@,
            final(self).droplet_id == old(self).droplet_id,
    {
        self.droplet.position = position;
        self.droplet.linear_velocity = linear_velocity;
        self.droplet.angular_velocity = angular_velocity;
    }

    /// Applies one frame of the wobble. While the droplet is not flattened
    /// (vertical scale above the threshold), its scale follows the three wave
    /// samples and stays within two hundredths of unit scale; once flattened
    /// it is left alone so the puddle pose survives.
    pub fn animate_droplet(&mut self, wave_x: u16, wave_y: u16, wave_z: u16)
        requires
            wave_x <= 2000,
            wave_y <= 2000,
            wave_z <= 2000,
        ensures
            old(self).droplet.scale.y > WOBBLE_MIN_SCALE ==> {
                &&& final(self).droplet.scale.x == wobble_component(wave_x as int)
                &&& final(self).droplet.scale.y == wobble_component(wave_y as int)
                &&& final(self).droplet.scale.z == wobble_component(wave_z as int)
                &&& 980 <= final(self).droplet.scale.x <= 1020
                &&& 980 <= final(self).droplet.scale.y <= 1020
                &&& 980 <= final(self).droplet.scale.z <= 1020
            },
            old(self).droplet.scale.y <= WOBBLE_MIN_SCALE ==> final(self).droplet.scale == old(
                self,
            ).droplet.scale,
            final(self).droplet.position == old(self).droplet.position,
            final(self).droplet.linear_velocity == old(self).droplet.linear_velocity,
            final(self).droplet.angular_velocity == old(self).droplet.angular_velocity,
            final(self).droplet.has_splashed == old(self).droplet.has_splashed,
            final(self).particles@ == old(self).particles@,
            final(self).droplet_id == old(self).droplet_id,
    {
        if self.droplet.scale.y > WOBBLE_MIN_SCALE {
            let sx: i64 = 980 + (wave_x / 50) as i64;
            let sy: i64 = 980 + (wave_y / 50) as i64;
            let sz: i64 = 980 + (wave_z / 50) as i64;
            self.droplet.scale = Vec3Milli { x: sx, y: sy, z: sz };
        }
    }

    /// Performs the splash: flattens the droplet into the puddle pose, marks
    /// it as splashed, and spawns the particle burst at its position, each
    /// particle with a fresh random velocity.
    fn apply_splash(&mut self)
        ensures
            splash_outcome(*old(self), *final(self)),
    {
        let ghost orig: Scene = *self;
        self.droplet.scale = Vec3Milli { x: 2000, y: 100, z: 2000 };
        self.droplet.has_splashed = true;
        let mut k: usize = 0;
        while k < SPLASH_PARTICLES
            invariant
                k <= SPLASH_PARTICLES,
                self.droplet == splashed_droplet(orig.droplet),
                self.droplet_id == orig.droplet_id,
                self.particles@.len() == orig.particles@.len() + k,
                forall|i: int|
                    0 <= i < orig.particles@.len() ==> #[trigger] self.particles@[i]
                        == orig.particles@[i],
                forall|i: int|
                    orig.particles@.len() <= i < self.particles@.len() ==> {
                        &&& (#[trigger] self.particles@[i]).position == orig.droplet.position
                        &&& splash_velocity_ok(self.particles@[i].velocity)
                    },
            decreases SPLASH_PARTICLES - k,
        {
            let v = splash_velocity();
            let p = Particle { position: self.droplet.position, velocity: v };
            self.particles.push(p);
            k = k + 1;
        }
    }

    /// Processes one frame's batch of contact events. The first started
    /// contact that involves the droplet, while the droplet is unsplashed and
    /// below the splash height, triggers the splash; the marker then makes
    /// every later event of the batch a no-op, so one batch splashes at most
    /// once.
    pub fn handle_collisions(&mut self, events: &Vec<ContactEvent>)
        ensures
            collision_outcome(*old(self), events@, *final(self)),
    {
        let ghost orig: Scene = *self;
        let mut i: usize = 0;
        while i < events.len()
            invariant
                i <= events@.len(),
                collision_outcome(orig, events@.take(i as int), *self),
            decreases events@.len() - i,
        {
            let e = events[i];
            proof {
                assert(events@.take(i as int + 1) =~= events@.take(i as int).push(
                    events@[i as int],
                ));
            }
            match e {
                ContactEvent::Started(a, b) => {
                    if (a == self.droplet_id || b == self.droplet_id) && !self.droplet.has_splashed
                        && self.droplet.position.y < SPLASH_HEIGHT {
                        self.apply_splash();
                        proof {
                            assert(is_started_contact(
                                events@.take(i as int + 1)[i as int],
                                orig.droplet_id,
                            ));
                        }
                    }
                },
                ContactEvent::Stopped(_, _) => {},
            }
            i = i + 1;
        }
        proof {
            assert(events@.take(events@.len() as int) =~= events@);
        }
    }

    /// Handles the reset key. On a press the droplet returns to its exact
    /// start state — position (0, 5, 0), unit scale, zero velocities, marker
    /// absent — and every particle is removed; otherwise nothing changes.
    pub fn reset(&mut self, pressed: bool)
        ensures
            pressed ==> is_initial(*final(self)),
            !pressed ==> {
                &&& final(self).droplet == old(self).droplet
                &&& final(self).particles@ == old(self).particles@
            },
            final(self).droplet_id == old(self).droplet_id,
    {
        if pressed {
            self.droplet = Droplet {
                position: Vec3Milli { x: 0, y: START_HEIGHT, z: 0 },
                scale: Vec3Milli { x: 1000, y: 1000, z: 1000 },
                linear_velocity: Vec3Milli::zero(),
                angular_velocity: Vec3Milli::zero(),
                has_splashed: false,
            };
            self.particles = Vec::new();
        }
    }
}

/// Law: a splashed droplet never splashes again — any batch of contact
/// events leaves an already-splashed scene's droplet and particles exactly as
/// they were.
pub proof fn lemma_splash_idempotent(pre: Scene, events: Seq<ContactEvent>, post: Scene)
    requires
        pre.droplet.has_splashed,
        collision_outcome(pre, events, post),
    ensures
        post.droplet == pre.droplet,
        post.particles@ == pre.particles@,
{
}

/// Law: a qualifying batch spawns exactly one burst — twenty new particles,
/// each with sideways velocity in [-2, 2) and upward velocity in [2, 5), and
/// the particles that already existed are kept as they were.
pub proof fn lemma_splash_spawn_count(pre: Scene, events: Seq<ContactEvent>, post: Scene)
    requires
        can_splash(pre.droplet),
        has_splash_trigger(events, pre.droplet_id),
        collision_outcome(pre, events, post),
    ensures
        post.particles@.len() == pre.particles@.len() + SPLASH_PARTICLES,
        forall|i: int|
            pre.particles@.len() <= i < post.particles@.len() ==> splash_velocity_ok(
                (#[trigger] post.particles@[i]).velocity,
            ),
        forall|i: int|
            0 <= i < pre.particles@.len() ==> #[trigger] post.particles@[i] == pre.particles@[i],
{
}

} // verus!

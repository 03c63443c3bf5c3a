//! A verified model of a small interactive scene: a water droplet falls onto
//! a checkerboard floor, flattens into a puddle on impact, spawns a burst of
//! splash particles, and can be reset to its starting state.
//!
//! All geometry is held in fixed-point milli-units (a field value of 1000
//! stands for 1.0), since the model works over exact integers. The host that
//! renders the scene and integrates its physics converts to and from its own
//! floating-point types at the boundary and hands the model plain values:
//! wave samples for the animations, contact events, and the reset key.

mod geom;
mod light;
mod sampling;
mod scene;
mod texture;

pub use geom::Vec3Milli;
pub use light::light_position;
pub use sampling::splash_velocity;
pub use sampling::splash_velocity_ok;
pub use scene::ContactEvent;
pub use scene::Droplet;
pub use scene::Particle;
pub use scene::Scene;
pub use scene::SPLASH_HEIGHT;
pub use scene::SPLASH_PARTICLES;
pub use scene::START_HEIGHT;
pub use scene::WOBBLE_MIN_SCALE;
pub use scene::can_splash;
pub use scene::collision_outcome;
pub use scene::flattened_scale;
pub use scene::has_splash_trigger;
pub use scene::initial_droplet;
pub use scene::is_initial;
pub use scene::is_started_contact;
pub use scene::lemma_splash_idempotent;
pub use scene::lemma_splash_spawn_count;
pub use scene::lemma_wobble_component_in_bounds;
pub use scene::splash_outcome;
pub use scene::splashed_droplet;
pub use scene::wobble_component;
pub use texture::TEXTURE_SIZE;
pub use texture::TILE_SIZE;
pub use texture::channel_value;
pub use texture::checkerboard_pixels;
pub use texture::is_white;

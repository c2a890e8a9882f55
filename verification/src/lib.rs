//! A floating character controller core for a 2D physics simulation.
//!
//! The controller keeps a moving body hovering a fixed height above the
//! ground: each fixed simulation step a ray is cast straight down from the
//! body, and a spring-damper control law turns the measured ground distance
//! and the body's vertical velocity into a corrective linear acceleration.
//! The acceleration is independent of the body's mass.
//!
//! This crate holds the per-step decision logic over plain integer
//! quantities; the hosting simulation performs the raycast, hands the hit
//! distances and the body's velocity to [`update_controller`](controller::update_controller),
//! and applies the acceleration it returns.

mod controller;

pub use controller::Controller;
pub use controller::ControllerView;
pub use controller::applied_acceleration;
pub use controller::correction_force;
pub use controller::ray_velocity;
pub use controller::update_controller;
pub use controller::DEFAULT_RAY_PENETRATION;
pub use controller::DEFAULT_SPRING_DAMPING;
pub use controller::DEFAULT_SPRING_STRENGTH;
pub use controller::lemma_empty_hits_no_acceleration;
pub use controller::lemma_skip_acceleration_zero;
pub use controller::lemma_equilibrium;
pub use controller::lemma_pull_toward_ground;
pub use controller::lemma_horizontal_untouched;

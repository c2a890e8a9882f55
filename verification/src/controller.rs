use vstd::prelude::*;
use vstd::arithmetic::mul::lemma_mul_basics;
use vstd::arithmetic::mul::lemma_mul_strictly_positive;

verus! {

/// Default value for [`spring_strength`](Controller::spring_strength).
pub const DEFAULT_SPRING_STRENGTH: i32 = 512;

/// Default value for [`spring_damping`](Controller::spring_damping).
pub const DEFAULT_SPRING_DAMPING: i32 = 32;

/// Default value for [`ray_penetration`](Controller::ray_penetration).
pub const DEFAULT_RAY_PENETRATION: i32 = 32;

/// A floating character controller, which works by floating the body off the
/// ground: each fixed step a ray is cast straight down, and a spring-damper
/// law turns the distance error and the vertical velocity into a corrective
/// acceleration. The acceleration is independent of the body's mass.
///
/// The controller does not handle movement or input; it only keeps the body
/// hovering at [`ride_height`](Controller::ride_height) above the ground.
#[derive(Debug, Clone, Copy, PartialEq, Eq, Structural)]
pub struct Controller {
    /// The strength of the spring force trying to keep the body off the
    /// ground. Default value is 512.
    pub spring_strength: i32,
    /// The strength of the spring damping: the lower the number, the bouncier
    /// the movement feels. Default value is 32.
    pub spring_damping: i32,
    /// How much the ray is allowed to penetrate the ground beyond the ride
    /// height. Increase it if the controller loses grounding when going down
    /// slopes. Default value is 32.
    pub ray_penetration: i32,
    /// The target height off the ground, relative to the body's origin.
    pub ride_height: i32,
    /// Set to true to skip the acceleration for one step, for example while
    /// jumping; the grounded state is still recorded.
    pub skip_acceleration: bool,
    is_grounded: bool,
}

/// The mathematical state of a [`Controller`]: its tuning fields as
/// unbounded integers, together with the grounded state of the most recent
/// step.
pub ghost struct ControllerView {
    /// The proportional spring gain.
    pub spring_strength: int,
    /// The damping gain.
    pub spring_damping: int,
    /// The extra ray length beyond the ride height.
    pub ray_penetration: int,
    /// The target height off the ground.
    pub ride_height: int,
    /// Whether the next step applies no acceleration.
    pub skip_acceleration: bool,
    /// Whether the most recent step's downward ray hit the ground.
    pub grounded: bool,
}

impl View for Controller {
    type V = ControllerView;

    closed spec fn view(&self) -> ControllerView {
        ControllerView {
            spring_strength: self.spring_strength as int,
            spring_damping: self.spring_damping as int,
            ray_penetration: self.ray_penetration as int,
            ride_height: self.ride_height as int,
            skip_acceleration: self.skip_acceleration,
            grounded: self.is_grounded,
        }
    }
}

impl Controller {
    /// Creates a new [`Controller`] with the given
    /// [`ride_height`](Controller::ride_height); every other field takes its
    /// default, the controller starts ungrounded, and the acceleration is not
    /// skipped.
    pub fn new(ride_height: i32) -> (c: Self)
        ensures
            c@ == (ControllerView {
                spring_strength: DEFAULT_SPRING_STRENGTH as int,
                spring_damping: DEFAULT_SPRING_DAMPING as int,
                ray_penetration: DEFAULT_RAY_PENETRATION as int,
                ride_height: ride_height as int,
                skip_acceleration: false,
                grounded: false,
            }),
    {
        Self {
            ride_height,
            spring_strength: DEFAULT_SPRING_STRENGTH,
            spring_damping: DEFAULT_SPRING_DAMPING,
            ray_penetration: DEFAULT_RAY_PENETRATION,
            skip_acceleration: false,
            is_grounded: false,
        }
    }

    /// Is the controller grounded: did the most recent downward ray of length
    /// [`ride_height`](Controller::ride_height) +
    /// [`ray_penetration`](Controller::ray_penetration) hit anything?
    pub fn is_grounded(&self) -> (r: bool)
        ensures
            r == self@.grounded,
    {
        self.is_grounded
    }

    /// The maximum length of the downward ray:
    /// [`ride_height`](Controller::ride_height) +
    /// [`ray_penetration`](Controller::ray_penetration).
    pub fn ray_length(&self) -> (r: i64)
        ensures
            r == self@.ride_height + self@.ray_penetration,
    {
        self.ride_height as i64 + self.ray_penetration as i64
    }

    /// Sets [`spring_strength`](Controller::spring_strength) and returns the
    /// controller; no other field changes.
    pub fn with_spring_strength(self, value: i32) -> (c: Self)
        ensures
            c@ == (ControllerView { spring_strength: value as int, ..self@ }),
    {
        Self { spring_strength: value, ..self }
    }

    /// Sets [`spring_damping`](Controller::spring_damping) and returns the
    /// controller; no other field changes.
    pub fn with_spring_damping(self, value: i32) -> (c: Self)
        ensures
            c@ == (ControllerView { spring_damping: value as int, ..self@ }),
    {
        Self { spring_damping: value, ..self }
    }

    /// Sets [`ray_penetration`](Controller::ray_penetration) and returns the
    /// controller; no other field changes.
    pub fn with_ray_penetration(self, value: i32) -> (c: Self)
        ensures
            c@ == (ControllerView { ray_penetration: value as int, ..self@ }),
    {
        Self { ray_penetration: value, ..self }
    }
}

/// The component of a linear velocity along the probe direction, straight
/// down: the dot product of `velocity` with the unit vector (0, -1).
pub open spec fn ray_velocity(velocity: (i32, i32)) -> int {
    -(velocity.1 as int)
}

/// The spring-damper control law: the distance error scaled by the spring
/// strength, minus the downward velocity scaled by the damping. A positive
/// force is directed along the probe, toward the ground; a negative force
/// pushes the body away from it.
pub open spec fn correction_force(c: ControllerView, distance: int, ray_vel: int) -> int {
    (distance - c.ride_height) * c.spring_strength - ray_vel * c.spring_damping
}

/// The acceleration one step applies to the body, as an (x, y) vector with y
/// pointing up: zero when the hit set is empty or the acceleration is
/// skipped, and otherwise the correction force directed downward along the
/// probe axis.
pub open spec fn applied_acceleration(c: ControllerView, hits: Seq<i32>, velocity: (i32, i32)) -> (
    int,
    int,
) {
    if hits.len() == 0 || c.skip_acceleration {
        (0int, 0int)
    } else {
        (0int, -correction_force(c, hits[0] as int, ray_velocity(velocity)))
    }
}

/// Runs one fixed step of the controller: records whether the downward ray
/// hit anything, and returns the corrective linear acceleration to apply to
/// the body this step.
///
/// `hits` holds the distances of this step's raycast hits, nearest first;
/// only the nearest is read. `velocity` is the body's current linear
/// velocity, with y pointing up. The returned acceleration is a one-shot
/// value for this step alone and is zero whenever the hit set is empty or
/// [`skip_acceleration`](Controller::skip_acceleration) is set.
pub fn update_controller(c: &mut Controller, hits: &Vec<i32>, velocity: (i32, i32)) -> (accel: (
    i128,
    i128,
))
    ensures
        final(c)@ == (ControllerView { grounded: hits@.len() > 0, ..old(c)@ }),
        (accel.0 as int, accel.1 as int) == applied_acceleration(old(c)@, hits@, velocity),
{
    if hits.len() == 0 {
        c.is_grounded = false;
        return (0, 0);
    }
    let distance: i32 = hits[0];
    c.is_grounded = true;

    if c.skip_acceleration {
        return (0, 0);
    }

    let difference: i64 = distance as i64 - c.ride_height as i64;
    let ray_vel: i64 = -(velocity.1 as i64);

    proof {
        lemma_product_bound(
            difference as int,
            c.spring_strength as int,
            0x1_0000_0000,
            0x8000_0000,
        );
        lemma_product_bound(ray_vel as int, c.spring_damping as int, 0x8000_0000, 0x8000_0000);
    }
    let spring: i128 = (difference as i128) * (c.spring_strength as i128);
    let damping: i128 = (ray_vel as i128) * (c.spring_damping as i128);
    let force: i128 = spring - damping;
    (0, -force)
}

/// The magnitude of a product is bounded by the product of the magnitudes.
proof fn lemma_product_bound(a: int, b: int, bound_a: int, bound_b: int) by (nonlinear_arith)
    requires
        -bound_a <= a <= bound_a,
        -bound_b <= b <= bound_b,
        0 <= bound_a,
        0 <= bound_b,
    ensures
        -(bound_a * bound_b) <= a * b <= bound_a * bound_b,
{
}

/// An empty hit set applies no acceleration, whatever the state of
/// `skip_acceleration`; together with the grounding clause of
/// [`update_controller`] the body is then ungrounded.
pub proof fn lemma_empty_hits_no_acceleration(
    c: ControllerView,
    hits: Seq<i32>,
    velocity: (i32, i32),
)
    requires
        hits.len() == 0,
    ensures
        applied_acceleration(c, hits, velocity) == (0int, 0int),
{
}

/// With `skip_acceleration` set the step applies no acceleration at all,
/// while the grounding clause of [`update_controller`] still records the
/// grounded state.
pub proof fn lemma_skip_acceleration_zero(
    c: ControllerView,
    hits: Seq<i32>,
    velocity: (i32, i32),
)
    requires
        c.skip_acceleration,
    ensures
        applied_acceleration(c, hits, velocity) == (0int, 0int),
{
}

/// Equilibrium: with the nearest hit exactly at the ride height and no
/// vertical velocity, the correction force is zero and the step applies no
/// acceleration.
pub proof fn lemma_equilibrium(c: ControllerView, hits: Seq<i32>, velocity: (i32, i32))
    requires
        hits.len() > 0,
        hits[0] == c.ride_height,
        velocity.1 == 0,
    ensures
        correction_force(c, hits[0] as int, ray_velocity(velocity)) == 0,
        applied_acceleration(c, hits, velocity) == (0int, 0int),
{
    lemma_mul_basics(c.spring_strength);
    lemma_mul_basics(c.spring_damping);
}

/// When the body is too far from the ground and has no vertical velocity, the
/// correction force is exactly the distance error scaled by the spring
/// strength; with a positive spring strength it is positive, so the applied
/// acceleration points down the probe axis, pulling the body toward the
/// ground.
pub proof fn lemma_pull_toward_ground(c: ControllerView, hits: Seq<i32>, velocity: (i32, i32))
    requires
        hits.len() > 0,
        hits[0] > c.ride_height,
        velocity.1 == 0,
    ensures
        correction_force(c, hits[0] as int, ray_velocity(velocity)) == (hits[0] as int
            - c.ride_height) * c.spring_strength,
        c.spring_strength > 0 ==> correction_force(c, hits[0] as int, ray_velocity(velocity)) > 0,
        c.spring_strength > 0 && !c.skip_acceleration ==> applied_acceleration(
            c,
            hits,
            velocity,
        ).1 < 0,
{
    lemma_mul_basics(c.spring_damping);
    if c.spring_strength > 0 {
        lemma_mul_strictly_positive(hits[0] as int - c.ride_height, c.spring_strength);
    }
}

/// The corrector never reads the horizontal component of the velocity and
/// never applies a horizontal acceleration.
pub proof fn lemma_horizontal_untouched(
    c: ControllerView,
    hits: Seq<i32>,
    x1: i32,
    x2: i32,
    y: i32,
)
    ensures
        applied_acceleration(c, hits, (x1, y)) == applied_acceleration(c, hits, (x2, y)),
        applied_acceleration(c, hits, (x1, y)).0 == 0,
{
}

} // verus!


use vstd::prelude::*;

verus! {

/// Facts about the variants of a state-vector enum: how many there are and
/// where each one sits in the state vector.
pub trait StateUtils {
    fn len() -> usize;
    fn id(&self) -> usize;
}

/// Assigns the named fields of `args` to the positions of a state vector.
pub trait AssignState<A> {
    fn assign_state(&mut self, args: A);
}

/// Things whose behaviour depends on a time step.
pub trait SetDt<T> {
    fn set_dt(&mut self, dt: &T);
}

/// State vector of the swing-boat pendulum estimator.
#[derive(Debug, Clone, Copy, PartialEq, Eq, Structural)]
pub enum X {
    Theta,
    ThetaD,
    Radius,
    SensorPos,
    RotE,
    RotN,
    RotU,
}

/// Measurement vector of the swing-boat pendulum estimator.
#[derive(Debug, Clone, Copy, PartialEq, Eq, Structural)]
pub enum Z {
    AccelE,
    AccelN,
    AccelU,
    GyroE,
    GyroN,
    GyroU,
}

/// Position of a state variable in the state vector.
pub open spec fn x_index(x: X) -> nat {
    match x {
        X::Theta => 0,
        X::ThetaD => 1,
        X::Radius => 2,
        X::SensorPos => 3,
        X::RotE => 4,
        X::RotN => 5,
        X::RotU => 6,
    }
}

/// Whether a state variable is an angle (and is kept in `[-pi, pi]`).
pub open spec fn x_is_angle(x: X) -> bool {
    match x {
        X::Theta | X::SensorPos | X::RotE | X::RotN | X::RotU => true,
        X::ThetaD | X::Radius => false,
    }
}

/// Position of a measurement in the measurement vector.
pub open spec fn z_index(z: Z) -> nat {
    match z {
        Z::AccelE => 0,
        Z::AccelN => 1,
        Z::AccelU => 2,
        Z::GyroE => 3,
        Z::GyroN => 4,
        Z::GyroU => 5,
    }
}

impl StateUtils for X {
    fn len() -> (r: usize)
        ensures
            r == 7,
    {
        7
    }

    fn id(&self) -> (r: usize)
        ensures
            r == x_index(*self),
    {
        match self {
            X::Theta => 0,
            X::ThetaD => 1,
            X::Radius => 2,
            X::SensorPos => 3,
            X::RotE => 4,
            X::RotN => 5,
            X::RotU => 6,
        }
    }
}

impl X {
    /// Whether the variable is an angle, which the estimator normalizes after
    /// every addition and subtraction.
    pub fn is_angle(&self) -> (r: bool)
        ensures
            r == x_is_angle(*self),
    {
        match self {
            X::Theta | X::SensorPos | X::RotE | X::RotN | X::RotU => true,
            X::ThetaD | X::Radius => false,
        }
    }
}

impl StateUtils for Z {
    fn len() -> (r: usize)
        ensures
            r == 6,
    {
        6
    }

    fn id(&self) -> (r: usize)
        ensures
            r == z_index(*self),
    {
        match self {
            Z::AccelE => 0,
            Z::AccelN => 1,
            Z::AccelU => 2,
            Z::GyroE => 3,
            Z::GyroN => 4,
            Z::GyroU => 5,
        }
    }
}

/// Every state variable has its own position, inside the state vector.
pub proof fn lemma_x_index_injective(a: X, b: X)
    ensures
        x_index(a) < 7,
        x_index(a) == x_index(b) ==> a == b,
{
}

/// Every measurement has its own position, inside the measurement vector.
pub proof fn lemma_z_index_injective(a: Z, b: Z)
    ensures
        z_index(a) < 6,
        z_index(a) == z_index(b) ==> a == b,
{
}

} // verus!

//! The Dynamixel Pro servos, which speak protocol 2.
use vstd::prelude::*;
use crate::protocol2::{Error, ServoID};
use crate::{BaudRate, Interface};
use self::control_table::{GoalPosition, PresentPosition, TorqueEnable};

pub mod control_table;

verus! {

/// How many steps of the goal position make up one step of the angle
/// handed in, as a fraction: 131593 over 1571.
pub const STEPS_NUMERATOR: i32 = 131593;

/// See [`STEPS_NUMERATOR`].
pub const STEPS_DENOMINATOR: i32 = 1571;

/// `a` divided by the positive `b`, rounded towards zero.
pub open spec fn quotient_towards_zero(a: int, b: int) -> int {
    if a >= 0 {
        a / b
    } else {
        -((-a) / b)
    }
}

/// The goal position for an angle given in steps: `steps` times 131593,
/// divided by 1571 and rounded towards zero.
pub open spec fn goal_of_steps(steps: i32) -> int {
    quotient_towards_zero(steps * STEPS_NUMERATOR, STEPS_DENOMINATOR as int)
}

/// Computes the goal position for an angle given in steps. The product
/// with 131593 must fit in an `i32`.
pub fn goal_position(steps: i32) -> (r: i32)
    requires
        i32::MIN <= steps * STEPS_NUMERATOR <= i32::MAX,
    ensures
        r == goal_of_steps(steps),
{
    steps * STEPS_NUMERATOR / STEPS_DENOMINATOR
}

/// A session with one M42-10-S260-R: who it is and how fast it talks. The
/// bus is lent to each operation.
pub struct M4210S260R<I: Interface> {
    id: ServoID,
    baudrate: BaudRate,
    interface: core::marker::PhantomData<I>,
}

impl<I: Interface> M4210S260R<I> {
    /// The model number that an M42-10-S260-R reports.
    pub const MODEL_NUMBER: u16 = 0xA918;

    /// The servo that the session talks to.
    pub closed spec fn id(&self) -> ServoID {
        self.id
    }

    /// The rate that the session talks at.
    pub closed spec fn baud_rate(&self) -> BaudRate {
        self.baudrate
    }

    /// A session with the servo `id` at the rate `baudrate`. Nothing is
    /// sent: whether the servo is there is not known.
    pub fn new(id: ServoID, baudrate: BaudRate) -> (r: Self)
        ensures
            r.id() == id,
            r.baud_rate() == baudrate,
    {
        M4210S260R { id: id, baudrate: baudrate, interface: core::marker::PhantomData }
    }

    /// Pings the servo; `Ok` when it answered as it should.
    pub fn ping(&mut self, interface: &mut I) -> (r: Result<(), Error>)
        ensures
            *final(self) == *old(self),
    {
        match crate::protocol2::ping(interface, self.id, self.baudrate) {
            Ok(_) => Ok(()),
            Err(e) => Err(e),
        }
    }

    /// Writes `register` to the servo.
    pub fn write<W: control_table::WriteRegister>(&mut self, interface: &mut I, register: W) -> (r:
        Result<(), Error>)
        ensures
            *final(self) == *old(self),
    {
        crate::protocol2::write(interface, self.id, self.baudrate, register)
    }

    /// Reads the register `R` of the servo.
    pub fn read<R: control_table::ReadRegister>(&mut self, interface: &mut I) -> (r: Result<
        R,
        Error,
    >)
        ensures
            *final(self) == *old(self),
    {
        crate::protocol2::read::<I, R>(interface, self.id, self.baudrate)
    }

    /// Switches the torque on or off.
    pub fn set_enable_torque(&mut self, interface: &mut I, enable_torque: bool) -> (r: Result<
        (),
        crate::Error,
    >)
        ensures
            *final(self) == *old(self),
    {
        match self.write(interface, TorqueEnable::new(enable_torque)) {
            Ok(_) => Ok(()),
            Err(e) => Err(crate::Error::from(e)),
        }
    }

    /// Sends the servo to the goal position for an angle given in steps;
    /// see [`goal_position`].
    pub fn set_goal_position(&mut self, interface: &mut I, steps: i32) -> (r: Result<
        (),
        crate::Error,
    >)
        requires
            i32::MIN <= steps * STEPS_NUMERATOR <= i32::MAX,
        ensures
            *final(self) == *old(self),
    {
        let goal = goal_position(steps);
        match self.write(interface, GoalPosition::new(goal)) {
            Ok(_) => Ok(()),
            Err(e) => Err(crate::Error::from(e)),
        }
    }

    /// Reads the position the servo is at, in steps.
    pub fn get_present_position(&mut self, interface: &mut I) -> (r: Result<i32, crate::Error>)
        ensures
            *final(self) == *old(self),
    {
        match self.read::<PresentPosition>(interface) {
            Ok(position) => Ok(i32::from(position)),
            Err(e) => Err(crate::Error::from(e)),
        }
    }
}

} // verus!

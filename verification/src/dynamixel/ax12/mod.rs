//! The AX-12 servo.
use vstd::prelude::*;
use crate::protocol1::{Error, ServoID};
use crate::{BaudRate, Interface};
use self::control_table::{GoalPosition, PresentPosition, TorqueEnable};

pub mod control_table;

verus! {

/// A session with one AX-12: who it is and how fast it talks. The bus is
/// lent to each operation.
pub struct AX12<I: Interface> {
    id: ServoID,
    baudrate: BaudRate,
    interface: core::marker::PhantomData<I>,
}

/// `value`, held within `min` and `max`; `min` wins where the two cross.
pub fn constrain(value: u16, min: u16, max: u16) -> (r: u16)
    ensures
        r == if value < min {
            min
        } else if value > max {
            max
        } else {
            value
        },
{
    if value < min {
        min
    } else if value > max {
        max
    } else {
        value
    }
}

/// The goal position for an angle given in steps: the low sixteen bits of
/// `steps`, held at 1023 from above. A negative `steps` therefore gives 1023
/// unless its low bits happen to be small.
pub open spec fn goal_of_steps(steps: i32) -> u16 {
    let low = steps as int % 0x1_0000;
    if low > 1023 {
        1023
    } else {
        low as u16
    }
}

/// Computes the goal position for an angle given in steps.
pub fn goal_position(steps: i32) -> (r: u16)
    ensures
        r == goal_of_steps(steps),
        r <= 1023,
{
    let low: u16 = #[verifier::truncate] (steps as u16);
    assert(low == steps as int % 0x1_0000) by (bit_vector)
        requires
            low == steps as u16,
    ;
    constrain(low, 0, 1023)
}

impl<I: Interface> AX12<I> {
    /// The model number that an AX-12 reports.
    pub const MODEL_NUMBER: u16 = 12;

    /// The servo that the session talks to.
    pub closed spec fn id(&self) -> ServoID {
        self.id
    }

    /// The rate that the session talks at.
    pub closed spec fn baud_rate(&self) -> BaudRate {
        self.baudrate
    }

    /// A session with the servo `id` at the rate `baudrate`. Nothing is
    /// sent: whether the servo is there is not known.
    pub fn new(id: ServoID, baudrate: BaudRate) -> (r: Self)
        ensures
            r.id() == id,
            r.baud_rate() == baudrate,
    {
        AX12 { id: id, baudrate: baudrate, interface: core::marker::PhantomData }
    }

    /// Pings the servo; `Ok` when it answered as it should.
    pub fn ping(&mut self, interface: &mut I) -> (r: Result<(), Error>)
        ensures
            *final(self) == *old(self),
    {
        crate::protocol1::ping(interface, self.id, self.baudrate)
    }

    /// Writes `register` to the servo.
    pub fn write_data<W: control_table::WriteRegister>(
        &mut self,
        interface: &mut I,
        register: W,
    ) -> (r: Result<(), Error>)
        ensures
            *final(self) == *old(self),
    {
        crate::protocol1::write_data(interface, self.id, self.baudrate, register)
    }

    /// Reads the register `R` of the servo.
    pub fn read_data<R: control_table::ReadRegister>(&mut self, interface: &mut I) -> (r: Result<
        R,
        Error,
    >)
        ensures
            *final(self) == *old(self),
    {
        crate::protocol1::read_data::<I, R>(interface, self.id, self.baudrate)
    }

    /// Switches the torque on or off.
    pub fn set_enable_torque(&mut self, interface: &mut I, enable_torque: bool) -> (r: Result<
        (),
        crate::Error,
    >)
        ensures
            *final(self) == *old(self),
    {
        match self.write_data(interface, TorqueEnable::new(enable_torque)) {
            Ok(_) => Ok(()),
            Err(e) => Err(crate::Error::from(e)),
        }
    }

    /// Sends the servo to the goal position for an angle given in steps; see
    /// [`goal_position`].
    pub fn set_goal_position(&mut self, interface: &mut I, steps: i32) -> (r: Result<
        (),
        crate::Error,
    >)
        ensures
            *final(self) == *old(self),
    {
        let goal = goal_position(steps);
        match self.write_data(interface, GoalPosition::new(goal)) {
            Ok(_) => Ok(()),
            Err(e) => Err(crate::Error::from(e)),
        }
    }

    /// Reads the position the servo is at, in steps.
    pub fn get_present_position(&mut self, interface: &mut I) -> (r: Result<u16, crate::Error>)
        ensures
            *final(self) == *old(self),
    {
        match self.read_data::<PresentPosition>(interface) {
            Ok(position) => Ok(u16::from(position)),
            Err(e) => Err(crate::Error::from(e)),
        }
    }
}

} // verus!

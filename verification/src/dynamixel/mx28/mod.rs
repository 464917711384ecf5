//! The MX-28 servo.
use vstd::prelude::*;
use crate::protocol1::{Error, ServoID};
use crate::{BaudRate, Interface};
use self::control_table::{GoalPosition, PresentPosition, TorqueEnable};

pub mod control_table;

verus! {

/// A session with one MX-28: who it is and how fast it talks. The bus is
/// lent to each operation.
pub struct MX28<I: Interface> {
    id: ServoID,
    baudrate: BaudRate,
    interface: core::marker::PhantomData<I>,
}

/// The position at which an MX-28 stands centred, in steps.
pub const CENTER: i32 = 2048;

/// The goal position for an angle given in steps from the centre: the low
/// sixteen bits of the steps counted from zero.
pub open spec fn goal_of_steps(steps: i32) -> u16 {
    ((CENTER + steps) % 0x1_0000) as u16
}

/// Computes the goal position for an angle given in steps from the centre.
/// The steps counted from zero must fit in an `i32`.
pub fn goal_position(steps: i32) -> (r: u16)
    requires
        steps <= i32::MAX - CENTER,
    ensures
        r == goal_of_steps(steps),
{
    let absolute: i32 = CENTER + steps;
    let low: u16 = #[verifier::truncate] (absolute as u16);
    assert(low == absolute as int % 0x1_0000) by (bit_vector)
        requires
            low == absolute as u16,
    ;
    low
}

/// How far the position `raw` lies from the centre, in steps.
pub fn steps_from_center(raw: u16) -> (r: i32)
    ensures
        r == raw - CENTER,
{
    raw as i32 - CENTER
}

impl<I: Interface> MX28<I> {
    /// The model number that an MX-28 reports.
    pub const MODEL_NUMBER: u16 = 0x001D;

    /// The servo that the session talks to.
    pub closed spec fn id(&self) -> ServoID {
        self.id
    }

    /// The rate that the session talks at.
    pub closed spec fn baud_rate(&self) -> BaudRate {
        self.baudrate
    }

    /// A session with the servo `id` at the rate `baudrate`. Nothing is
    /// sent: whether the servo is there is not known.
    pub fn new(id: ServoID, baudrate: BaudRate) -> (r: Self)
        ensures
            r.id() == id,
            r.baud_rate() == baudrate,
    {
        MX28 { id: id, baudrate: baudrate, interface: core::marker::PhantomData }
    }

    /// Pings the servo; `Ok` when it answered as it should.
    pub fn ping(&mut self, interface: &mut I) -> (r: Result<(), Error>)
        ensures
            *final(self) == *old(self),
    {
        crate::protocol1::ping(interface, self.id, self.baudrate)
    }

    /// Writes `register` to the servo.
    pub fn write_data<W: control_table::WriteRegister>(
        &mut self,
        interface: &mut I,
        register: W,
    ) -> (r: Result<(), Error>)
        ensures
            *final(self) == *old(self),
    {
        crate::protocol1::write_data(interface, self.id, self.baudrate, register)
    }

    /// Reads the register `R` of the servo.
    pub fn read_data<R: control_table::ReadRegister>(&mut self, interface: &mut I) -> (r: Result<
        R,
        Error,
    >)
        ensures
            *final(self) == *old(self),
    {
        crate::protocol1::read_data::<I, R>(interface, self.id, self.baudrate)
    }

    /// Switches the torque on or off.
    pub fn set_enable_torque(&mut self, interface: &mut I, enable_torque: bool) -> (r: Result<
        (),
        crate::Error,
    >)
        ensures
            *final(self) == *old(self),
    {
        match self.write_data(interface, TorqueEnable::new(enable_torque)) {
            Ok(_) => Ok(()),
            Err(e) => Err(crate::Error::from(e)),
        }
    }

    /// Sends the servo to the goal position for an angle given in steps from
    /// the centre; see [`goal_position`].
    pub fn set_goal_position(&mut self, interface: &mut I, steps: i32) -> (r: Result<
        (),
        crate::Error,
    >)
        requires
            steps <= i32::MAX - CENTER,
        ensures
            *final(self) == *old(self),
    {
        let goal = goal_position(steps);
        match self.write_data(interface, GoalPosition::new(goal)) {
            Ok(_) => Ok(()),
            Err(e) => Err(crate::Error::from(e)),
        }
    }

    /// Reads how far the servo stands from the centre, in steps.
    pub fn get_present_position(&mut self, interface: &mut I) -> (r: Result<i32, crate::Error>)
        ensures
            *final(self) == *old(self),
            r matches Ok(steps) ==> -CENTER <= steps <= u16::MAX - CENTER,
    {
        match self.read_data::<PresentPosition>(interface) {
            Ok(position) => Ok(steps_from_center(u16::from(position))),
            Err(e) => Err(crate::Error::from(e)),
        }
    }
}

} // verus!

//! Host-side driver for Robotis Dynamixel servos.
//!
//! Servos share a half-duplex serial bus and answer framed instructions with
//! framed statuses. Two wire protocols exist: [`protocol1`] with 8-bit register
//! addresses and an additive checksum, and [`protocol2`] with 16-bit addresses,
//! a CRC-16 and byte stuffing. The bus itself is abstracted by [`Interface`].
use vstd::prelude::*;
use crate::protocol1::ServoInfo;

pub mod bit;
pub mod codec;
pub mod dynamixel;
pub mod pro;
pub mod protocol1;
pub mod protocol2;

verus! {

/// The baud rates a bus can be driven at.
#[derive(Debug, PartialEq, Eq, Clone, Copy, Structural)]
pub enum BaudRate {
    Baud9600,
    Baud19200,
    Baud57600,
    Baud115200,
    Baud200000,
    Baud250000,
    Baud400000,
    Baud500000,
    Baud1000000,
    Baud2000000,
    Baud3000000,
    Baud4000000,
    Baud4500000,
    Baud10500000,
}

impl BaudRate {
    /// The rate in bits per second.
    pub open spec fn bits_per_second(self) -> u32 {
        match self {
            BaudRate::Baud9600 => 9_600,
            BaudRate::Baud19200 => 19_200,
            BaudRate::Baud57600 => 57_600,
            BaudRate::Baud115200 => 115_200,
            BaudRate::Baud200000 => 200_000,
            BaudRate::Baud250000 => 250_000,
            BaudRate::Baud400000 => 400_000,
            BaudRate::Baud500000 => 500_000,
            BaudRate::Baud1000000 => 1_000_000,
            BaudRate::Baud2000000 => 2_000_000,
            BaudRate::Baud3000000 => 3_000_000,
            BaudRate::Baud4000000 => 4_000_000,
            BaudRate::Baud4500000 => 4_500_000,
            BaudRate::Baud10500000 => 10_500_000,
        }
    }
}

impl From<BaudRate> for u32 {
    fn from(b: BaudRate) -> (r: u32) {
        match b {
            BaudRate::Baud9600 => 9_600,
            BaudRate::Baud19200 => 19_200,
            BaudRate::Baud57600 => 57_600,
            BaudRate::Baud115200 => 115_200,
            BaudRate::Baud200000 => 200_000,
            BaudRate::Baud250000 => 250_000,
            BaudRate::Baud400000 => 400_000,
            BaudRate::Baud500000 => 500_000,
            BaudRate::Baud1000000 => 1_000_000,
            BaudRate::Baud2000000 => 2_000_000,
            BaudRate::Baud3000000 => 3_000_000,
            BaudRate::Baud4000000 => 4_000_000,
            BaudRate::Baud4500000 => 4_500_000,
            BaudRate::Baud10500000 => 10_500_000,
        }
    }
}

impl vstd::std_specs::convert::FromSpecImpl<BaudRate> for u32 {
    open spec fn obeys_from_spec() -> bool {
        true
    }

    open spec fn from_spec(b: BaudRate) -> u32 {
        b.bits_per_second()
    }
}

/// What can go wrong on the bus itself.
#[derive(Debug, PartialEq, Eq, Clone, Copy, Structural)]
pub enum CommunicationError {
    /// Nothing arrived within the interface's time limit.
    TimedOut,
    /// The interface cannot be driven at this rate.
    UnsupportedBaud(BaudRate),
    /// Any other failure of the interface.
    Other,
}

impl CommunicationError {
    /// The error that stands for a transfer the interface could not
    /// complete: `TimedOut` where it ran out of time, `Other` for any other
    /// cause.
    pub fn from_transfer(timed_out: bool) -> (r: Self)
        ensures
            r == if timed_out {
                CommunicationError::TimedOut
            } else {
                CommunicationError::Other
            },
    {
        if timed_out {
            CommunicationError::TimedOut
        } else {
            CommunicationError::Other
        }
    }
}

/// The outcome of a failed servo operation, without protocol detail.
#[derive(Debug, PartialEq, Eq, Clone, Copy, Structural)]
pub enum Error {
    /// The bus failed.
    Communication(CommunicationError),
    /// The answer could not be parsed.
    Format,
    /// The servo reported an error.
    Processing,
}

/// A half-duplex byte channel to the bus.
///
/// The driver takes the channel by mutable borrow for one operation at a
/// time; it neither locks nor queues.
pub trait Interface {
    /// Switches the channel to the rate `b`, or fails with
    /// `UnsupportedBaud(b)`.
    fn set_baud_rate(&mut self, b: BaudRate) -> Result<(), CommunicationError>;

    /// Drops whatever input is buffered.
    fn flush(&mut self);

    /// Fills `data` completely, or fails; `TimedOut` when the bus stays
    /// silent. The one clause holds of every implementation: a slice cannot
    /// be resized through a borrow.
    fn read(&mut self, data: &mut [u8]) -> (r: Result<(), CommunicationError>)
        ensures
            final(data)@.len() == old(data)@.len(),
    ;

    /// Sends all of `data`.
    fn write(&mut self, data: &[u8]) -> Result<(), CommunicationError>;
}

/// Finds the servos on the bus: those that speak protocol 1 first, then
/// those that speak protocol 2, each in the order of their answers. All
/// servos returned answer at one million baud, and there are no more of
/// them than two sweeps take pongs.
pub fn enumerate<I: Interface>(interface: &mut I) -> (r: Result<
    Vec<ServoInfo>,
    CommunicationError,
>)
    ensures
        r matches Ok(servos) ==> {
            &&& servos@.len() <= 2 * protocol1::SWEEP_LIMIT
            &&& forall|i: int|
                0 <= i < servos@.len() ==> (#[trigger] servos@[i]).baud_rate
                    == BaudRate::Baud1000000
        },
{
    let mut servos = protocol1::enumerate(interface)?;
    let ghost first = servos@;
    protocol2::sweep(interface, BaudRate::Baud1000000, &mut servos)?;
    assert forall|i: int| 0 <= i < servos@.len() implies (#[trigger] servos@[i]).baud_rate
        == BaudRate::Baud1000000 by {
        if i < first.len() {
            assert(servos@.subrange(0, first.len() as int)[i] == first[i]);
        }
    }
    Ok(servos)
}

/// A session with a servo of a known model.
pub enum Connection<I: Interface> {
    MX28(dynamixel::mx28::MX28<I>),
    AX12(dynamixel::ax12::AX12<I>),
    M4210S260R(pro::M4210S260R<I>),
}

impl<I: Interface> Connection<I> {
    /// The servo that the session talks to.
    pub open spec fn id(&self) -> protocol1::ServoID {
        match self {
            Connection::MX28(servo) => servo.id(),
            Connection::AX12(servo) => servo.id(),
            Connection::M4210S260R(servo) => servo.id(),
        }
    }

    /// The rate that the session talks at.
    pub open spec fn baud_rate(&self) -> BaudRate {
        match self {
            Connection::MX28(servo) => servo.baud_rate(),
            Connection::AX12(servo) => servo.baud_rate(),
            Connection::M4210S260R(servo) => servo.baud_rate(),
        }
    }
}

/// Whether `model_number` is that of a servo that [`connect`] knows: 12
/// for the AX-12, 29 for the MX-28, `A918` for the M42-10-S260-R.
pub open spec fn is_known_model(model_number: u16) -> bool {
    protocol1::is_known_model(model_number) || protocol2::is_known_model(model_number)
}

/// Tells whether [`connect`] knows the model.
pub fn knows_model(model_number: u16) -> (r: bool)
    ensures
        r == is_known_model(model_number),
{
    protocol1::knows_model(model_number) || protocol2::knows_model(model_number)
}

/// Opens a session with the servo that `info` describes, which must be of
/// a known model. Nothing is sent.
pub fn connect<I: Interface>(interface: &mut I, info: ServoInfo) -> (r: Result<
    Connection<I>,
    CommunicationError,
>)
    requires
        is_known_model(info.model_number),
    ensures
        *final(interface) == *old(interface),
        r matches Ok(connection) && connection.id() == info.id && connection.baud_rate()
            == info.baud_rate && match connection {
            Connection::MX28(_) => info.model_number == 0x001D,
            Connection::AX12(_) => info.model_number == 12,
            Connection::M4210S260R(_) => info.model_number == 0xA918,
        },
{
    if protocol2::knows_model(info.model_number) {
        match protocol2::connect(interface, info) {
            Ok(servo) => Ok(Connection::M4210S260R(servo)),
            Err(e) => Err(e),
        }
    } else {
        match protocol1::connect(interface, info) {
            Ok(protocol1::Connection::MX28(servo)) => Ok(Connection::MX28(servo)),
            Ok(protocol1::Connection::AX12(servo)) => Ok(Connection::AX12(servo)),
            Err(e) => Err(e),
        }
    }
}

} // verus!

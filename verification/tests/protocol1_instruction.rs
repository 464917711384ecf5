use dynamixel::dynamixel::ax12::control_table::{GoalPosition, PresentPosition};
use dynamixel::protocol1::instruction::{Ping, Pong, ReadData, WriteData};
use dynamixel::protocol1::{Error, FormatError, Instruction, PacketID, ServoID, Status};

#[test]
fn test_ping() {
    assert_eq!(
        Ping::new(PacketID::unicast(1)).serialize(),
        [0xff, 0xff, 0x01, 0x02, 0x01, 0xfb]
    );
}

#[test]
fn test_pong() {
    // the checksum of this frame is wrong: fc is owed
    assert_eq!(
        Pong::deserialize(&[0xff, 0xff, 0x01, 0x02, 0x00, 0x00]),
        Err(Error::Format(FormatError::CRC))
    );
    assert_eq!(
        Pong::deserialize(&[0xff, 0xff, 0x01, 0x02, 0x00, 0xfc]),
        Ok(Pong { id: ServoID::new(1) })
    );
}

#[test]
fn test_write() {
    assert_eq!(
        WriteData::new(PacketID::unicast(1), GoalPosition::new(0x123)).serialize(),
        [0xff, 0xff, 0x01, 0x05, 0x03, 30, 0x23, 0x01, 180, 0x00, 0x00]
    );
    assert_eq!(
        WriteData::new(PacketID::broadcast(), GoalPosition::new(0x123)).serialize(),
        [0xff, 0xff, 0xfe, 0x05, 0x03, 30, 0x23, 0x01, 183, 0x00, 0x00]
    );
}

#[test]
fn test_read() {
    assert_eq!(
        ReadData::<PresentPosition>::new(PacketID::unicast(1)).serialize(),
        [0xff, 0xff, 0x01, 0x04, 0x02, 36, 0x2, 210]
    );
    assert_eq!(
        ReadData::<PresentPosition>::new(PacketID::broadcast()).serialize(),
        [0xff, 0xff, 0xfe, 0x04, 0x02, 36, 0x2, 213]
    );
}

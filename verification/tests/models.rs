use dynamixel::dynamixel::ax12::{self, AX12};
use dynamixel::dynamixel::mx28::{self, MX28};
use dynamixel::pro::{self, M4210S260R};
use dynamixel::protocol1::{ServoID, ServoInfo};
use dynamixel::{protocol1, protocol2};
use dynamixel::{BaudRate, CommunicationError, Connection, Interface};

/// A bus that hands out one scripted answer for each write.
struct ScriptedBus {
    written: Vec<Vec<u8>>,
    rates: Vec<BaudRate>,
    answers: Vec<Vec<u8>>,
    pending: Vec<u8>,
}

impl ScriptedBus {
    fn new(answers: Vec<Vec<u8>>) -> Self {
        ScriptedBus { written: Vec::new(), rates: Vec::new(), answers, pending: Vec::new() }
    }
}

impl Interface for ScriptedBus {
    fn set_baud_rate(&mut self, b: BaudRate) -> Result<(), CommunicationError> {
        if b == BaudRate::Baud9600 {
            return Err(CommunicationError::UnsupportedBaud(b));
        }
        self.rates.push(b);
        Ok(())
    }

    fn flush(&mut self) {
        self.pending.clear();
    }

    fn read(&mut self, data: &mut [u8]) -> Result<(), CommunicationError> {
        if self.pending.len() < data.len() {
            return Err(CommunicationError::TimedOut);
        }
        let rest = self.pending.split_off(data.len());
        data.copy_from_slice(&self.pending);
        self.pending = rest;
        Ok(())
    }

    fn write(&mut self, data: &[u8]) -> Result<(), CommunicationError> {
        self.written.push(data.to_vec());
        if !self.answers.is_empty() {
            self.pending = self.answers.remove(0);
        }
        Ok(())
    }
}

#[test]
fn constrain_holds_a_value_within_its_bounds() {
    assert_eq!(ax12::constrain(5, 0, 1023), 5);
    assert_eq!(ax12::constrain(0, 0, 1023), 0);
    assert_eq!(ax12::constrain(1023, 0, 1023), 1023);
    assert_eq!(ax12::constrain(1024, 0, 1023), 1023);
    assert_eq!(ax12::constrain(3, 10, 20), 10);
    assert_eq!(ax12::constrain(30, 10, 20), 20);
    // crossed bounds: the lower one wins
    assert_eq!(ax12::constrain(15, 20, 10), 20);
}

#[test]
fn ax12_goal_is_clamped_to_ten_bits() {
    assert_eq!(ax12::goal_position(0), 0);
    assert_eq!(ax12::goal_position(511), 511);
    assert_eq!(ax12::goal_position(1023), 1023);
    assert_eq!(ax12::goal_position(1024), 1023);
    assert_eq!(ax12::goal_position(65535), 1023);
    // only the low sixteen bits count
    assert_eq!(ax12::goal_position(65536 + 7), 7);
    assert_eq!(ax12::goal_position(-1), 1023);
    assert_eq!(ax12::goal_position(-65536), 0);
    assert_eq!(ax12::goal_position(i32::MIN), 0);
}

#[test]
fn mx28_goal_is_counted_from_the_centre() {
    assert_eq!(mx28::CENTER, 2048);
    assert_eq!(mx28::goal_position(0), 2048);
    assert_eq!(mx28::goal_position(1000), 3048);
    assert_eq!(mx28::goal_position(-2048), 0);
    assert_eq!(mx28::goal_position(-2049), 65535);
    assert_eq!(mx28::goal_position(65536), 2048);
    assert_eq!(mx28::goal_position(i32::MAX - 2048), 0xffff);
    assert_eq!(mx28::steps_from_center(2048), 0);
    assert_eq!(mx28::steps_from_center(0), -2048);
    assert_eq!(mx28::steps_from_center(65535), 63487);
}

#[test]
fn pro_goal_is_scaled_and_rounded_towards_zero() {
    assert_eq!(pro::goal_position(0), 0);
    assert_eq!(pro::goal_position(1), 83);
    assert_eq!(pro::goal_position(-1), -83);
    assert_eq!(pro::goal_position(1000), 83763);
    assert_eq!(pro::goal_position(-1000), -83763);
    assert_eq!(pro::goal_position(16318), 16318 * 131593 / 1571);
    assert_eq!(pro::goal_position(-16318), -(16318 * 131593 / 1571));
}

#[test]
fn models_are_known_by_their_numbers() {
    assert_eq!(AX12::<ScriptedBus>::MODEL_NUMBER, 12);
    assert_eq!(MX28::<ScriptedBus>::MODEL_NUMBER, 0x001d);
    assert_eq!(M4210S260R::<ScriptedBus>::MODEL_NUMBER, 0xa918);
    assert!(protocol1::knows_model(12));
    assert!(protocol1::knows_model(29));
    assert!(!protocol1::knows_model(0xa918));
    assert!(protocol2::knows_model(0xa918));
    assert!(!protocol2::knows_model(12));
    assert!(dynamixel::knows_model(12));
    assert!(dynamixel::knows_model(29));
    assert!(dynamixel::knows_model(0xa918));
    assert!(!dynamixel::knows_model(0));
    assert!(!dynamixel::knows_model(13));
}

#[test]
fn connect_picks_the_session_by_model() {
    let mut bus = ScriptedBus::new(vec![]);
    let info = |model_number| ServoInfo {
        baud_rate: BaudRate::Baud1000000,
        model_number,
        id: ServoID::new(4),
    };
    assert!(matches!(dynamixel::connect(&mut bus, info(12)), Ok(Connection::AX12(_))));
    assert!(matches!(dynamixel::connect(&mut bus, info(29)), Ok(Connection::MX28(_))));
    assert!(matches!(
        dynamixel::connect(&mut bus, info(0xa918)),
        Ok(Connection::M4210S260R(_))
    ));
    assert!(matches!(
        protocol1::connect(&mut bus, info(12)),
        Ok(protocol1::Connection::AX12(_))
    ));
    assert!(matches!(
        protocol1::connect(&mut bus, info(29)),
        Ok(protocol1::Connection::MX28(_))
    ));
    assert!(protocol2::connect(&mut bus, info(0xa918)).is_ok());
    assert!(bus.written.is_empty());
}

#[test]
fn baud_rates_are_what_their_names_say() {
    assert_eq!(u32::from(BaudRate::Baud9600), 9_600);
    assert_eq!(u32::from(BaudRate::Baud19200), 19_200);
    assert_eq!(u32::from(BaudRate::Baud57600), 57_600);
    assert_eq!(u32::from(BaudRate::Baud115200), 115_200);
    assert_eq!(u32::from(BaudRate::Baud200000), 200_000);
    assert_eq!(u32::from(BaudRate::Baud250000), 250_000);
    assert_eq!(u32::from(BaudRate::Baud400000), 400_000);
    assert_eq!(u32::from(BaudRate::Baud500000), 500_000);
    assert_eq!(u32::from(BaudRate::Baud1000000), 1_000_000);
    assert_eq!(u32::from(BaudRate::Baud2000000), 2_000_000);
    assert_eq!(u32::from(BaudRate::Baud3000000), 3_000_000);
    assert_eq!(u32::from(BaudRate::Baud4000000), 4_000_000);
    assert_eq!(u32::from(BaudRate::Baud4500000), 4_500_000);
    assert_eq!(u32::from(BaudRate::Baud10500000), 10_500_000);
}

#[test]
fn ax12_session_pings_writes_and_reads() {
    let mut bus = ScriptedBus::new(vec![
        vec![0xff, 0xff, 0x01, 0x02, 0x00, 0xfc],
        vec![0xff, 0xff, 0x01, 0x02, 0x00, 0xfc],
        vec![0xff, 0xff, 0x01, 0x02, 0x00, 0xfc],
        vec![0xff, 0xff, 0x01, 0x04, 0x00, 0x20, 0x01, 0xd9],
    ]);
    let mut servo = AX12::new(ServoID::new(1), BaudRate::Baud1000000);
    assert_eq!(servo.ping(&mut bus), Ok(()));
    assert_eq!(servo.set_enable_torque(&mut bus, true), Ok(()));
    assert_eq!(servo.set_goal_position(&mut bus, 0x123), Ok(()));
    assert_eq!(servo.get_present_position(&mut bus), Ok(0x0120));
    assert_eq!(
        bus.written,
        vec![
            vec![0xff, 0xff, 0x01, 0x02, 0x01, 0xfb],
            vec![0xff, 0xff, 0x01, 0x04, 0x03, 24, 0x01, 0xde],
            vec![0xff, 0xff, 0x01, 0x05, 0x03, 30, 0x23, 0x01, 180],
            vec![0xff, 0xff, 0x01, 0x04, 0x02, 36, 0x02, 210],
        ]
    );
    assert_eq!(bus.rates, vec![BaudRate::Baud1000000; 4]);
}

#[test]
fn a_session_reports_what_went_wrong() {
    let mut servo = MX28::new(ServoID::new(1), BaudRate::Baud1000000);
    // silence
    let mut bus = ScriptedBus::new(vec![]);
    assert_eq!(
        servo.ping(&mut bus),
        Err(protocol1::Error::Communication(CommunicationError::TimedOut))
    );
    // an answer from another servo
    let mut bus = ScriptedBus::new(vec![vec![0xff, 0xff, 0x02, 0x02, 0x00, 0xfb]]);
    assert_eq!(
        servo.ping(&mut bus),
        Err(protocol1::Error::Format(protocol1::FormatError::ID))
    );
    // a wrong checksum
    let mut bus = ScriptedBus::new(vec![vec![0xff, 0xff, 0x01, 0x02, 0x00, 0x00]]);
    assert_eq!(
        servo.ping(&mut bus),
        Err(protocol1::Error::Format(protocol1::FormatError::CRC))
    );
    // no marker: nothing more is read
    let mut bus = ScriptedBus::new(vec![vec![0x00, 0xff, 0x01, 0x02, 0x00, 0xfc]]);
    assert_eq!(
        servo.ping(&mut bus),
        Err(protocol1::Error::Format(protocol1::FormatError::Header))
    );
    assert_eq!(bus.pending, vec![0x00, 0xfc]);
    // an error reported by the servo
    let mut bus = ScriptedBus::new(vec![vec![0xff, 0xff, 0x01, 0x02, 0x24, 0xd8]]);
    assert_eq!(servo.set_enable_torque(&mut bus, false), Err(dynamixel::Error::Processing));
    // a rate that the bus cannot do
    let mut slow = MX28::new(ServoID::new(1), BaudRate::Baud9600);
    let mut bus = ScriptedBus::new(vec![]);
    assert_eq!(
        slow.ping(&mut bus),
        Err(protocol1::Error::Communication(CommunicationError::UnsupportedBaud(
            BaudRate::Baud9600
        )))
    );
    assert!(bus.written.is_empty());
}

#[test]
fn mx28_session_moves_about_the_centre() {
    let mut bus = ScriptedBus::new(vec![
        vec![0xff, 0xff, 0x01, 0x02, 0x00, 0xfc],
        vec![0xff, 0xff, 0x01, 0x04, 0x00, 0x00, 0x04, 0xf6],
    ]);
    let mut servo = MX28::new(ServoID::new(1), BaudRate::Baud1000000);
    assert_eq!(servo.set_goal_position(&mut bus, -48), Ok(()));
    assert_eq!(servo.get_present_position(&mut bus), Ok(-1024));
    assert_eq!(bus.written[0], vec![0xff, 0xff, 0x01, 0x05, 0x03, 30, 0xd0, 0x07, 0x01]);
}

#[test]
fn pro_session_pings_writes_and_reads() {
    let mut bus = ScriptedBus::new(vec![
        vec![0xff, 0xff, 0xfd, 0x00, 0x01, 0x07, 0x00, 0x55, 0x00, 0x06, 0x04, 0x26, 0x65, 0x5d],
        vec![0xff, 0xff, 0xfd, 0x00, 0x01, 0x04, 0x00, 0x55, 0x00, 0xa1, 0x0c],
        vec![0xff, 0xff, 0xfd, 0x00, 0x01, 0x04, 0x00, 0x55, 0x00, 0xa1, 0x0c],
        vec![
            0xff, 0xff, 0xfd, 0x00, 0x01, 0x08, 0x00, 0x55, 0x00, 0xfb, 0xff, 0xff, 0xff, 0x95,
            0xe8,
        ],
    ]);
    let mut servo = M4210S260R::new(ServoID::new(1), BaudRate::Baud1000000);
    assert_eq!(servo.ping(&mut bus), Ok(()));
    assert_eq!(servo.set_enable_torque(&mut bus, true), Ok(()));
    assert_eq!(servo.set_goal_position(&mut bus, 1000), Ok(()));
    assert_eq!(servo.get_present_position(&mut bus), Ok(-5));
    assert_eq!(
        bus.written,
        vec![
            vec![0xff, 0xff, 0xfd, 0x00, 0x01, 0x03, 0x00, 0x01, 0x19, 0x4e],
            vec![0xff, 0xff, 0xfd, 0x00, 0x01, 0x06, 0x00, 0x03, 0x32, 0x02, 0x01, 0x30, 0xec],
            vec![
                0xff, 0xff, 0xfd, 0x00, 0x01, 0x09, 0x00, 0x03, 0x54, 0x02, 0x33, 0x47, 0x01, 0x00,
                0x56, 0x76
            ],
            vec![0xff, 0xff, 0xfd, 0x00, 0x01, 0x07, 0x00, 0x02, 0x63, 0x02, 0x04, 0x00, 0x1b, 0xf9],
        ]
    );
}

#[test]
fn a_pro_session_reports_what_went_wrong() {
    let mut servo = M4210S260R::new(ServoID::new(1), BaudRate::Baud1000000);
    let mut bus = ScriptedBus::new(vec![]);
    assert_eq!(
        servo.ping(&mut bus),
        Err(protocol2::Error::Communication(CommunicationError::TimedOut))
    );
    // an answer from another servo
    let mut bus = ScriptedBus::new(vec![vec![
        0xff, 0xff, 0xfd, 0x00, 0x07, 0x04, 0x00, 0x55, 0x00, 0xb1, 0x0d,
    ]]);
    assert_eq!(
        servo.set_enable_torque(&mut bus, true),
        Err(dynamixel::Error::Format)
    );
    let mut bus = ScriptedBus::new(vec![vec![
        0xff, 0xff, 0xfd, 0x00, 0x07, 0x04, 0x00, 0x55, 0x00, 0xb1, 0x0d,
    ]]);
    assert_eq!(
        servo.write(&mut bus, dynamixel::pro::control_table::TorqueEnable::new(true)),
        Err(protocol2::Error::Format(protocol2::FormatError::ID))
    );
    // an error reported by the servo: the body is left unread
    let mut bus = ScriptedBus::new(vec![vec![
        0xff, 0xff, 0xfd, 0x00, 0x01, 0x04, 0x00, 0x55, 0x24, 0x79, 0x0c,
    ]]);
    assert_eq!(servo.ping(&mut bus), Err(protocol2::Error::Processing(
        protocol2::ProcessingError::decode(0x24).unwrap().unwrap()
    )));
    assert_eq!(bus.pending, vec![0x79, 0x0c]);
}

#[test]
fn protocol2_ping_tells_what_the_servo_is() {
    let mut bus = ScriptedBus::new(vec![vec![
        0xff, 0xff, 0xfd, 0x00, 0x01, 0x07, 0x00, 0x55, 0x00, 0x06, 0x04, 0x26, 0x65, 0x5d,
    ]]);
    let pong = protocol2::ping(&mut bus, ServoID::new(1), BaudRate::Baud1000000).unwrap();
    assert_eq!(pong.model_number, 0x0406);
    assert_eq!(pong.fw_version, 0x26);
    assert_eq!(pong.id, ServoID::new(1));
}

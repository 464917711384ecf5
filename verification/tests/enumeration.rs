use dynamixel::protocol1::{enumerate, ServoID, ServoInfo};
use dynamixel::{BaudRate, CommunicationError, Interface};

/// A bus that answers from a script: each write moves on to the answers
/// scripted for it, and a read past them times out.
struct ScriptedBus {
    written: Vec<Vec<u8>>,
    pending: Vec<u8>,
    servos: Vec<(u8, u16)>,
}

fn status(id: u8, parameters: &[u8]) -> Vec<u8> {
    let mut frame = vec![0xff, 0xff, id, parameters.len() as u8 + 2, 0x00];
    frame.extend_from_slice(parameters);
    let sum: u32 = frame[2..].iter().map(|b| *b as u32).sum();
    frame.push(!(sum as u8));
    frame
}

impl Interface for ScriptedBus {
    fn set_baud_rate(&mut self, _b: BaudRate) -> Result<(), CommunicationError> {
        Ok(())
    }

    fn flush(&mut self) {}

    fn read(&mut self, data: &mut [u8]) -> Result<(), CommunicationError> {
        if self.pending.len() < data.len() {
            return Err(CommunicationError::TimedOut);
        }
        let rest = self.pending.split_off(data.len());
        data.copy_from_slice(&self.pending);
        self.pending = rest;
        Ok(())
    }

    fn write(&mut self, data: &[u8]) -> Result<(), CommunicationError> {
        self.written.push(data.to_vec());
        if data.len() == 6 && data[2] == 0xfe && data[4] == 0x01 {
            // a broadcast ping: everyone answers, but the driver reads one
            // pong at a time, so only the first waits in the buffer
            let first = self.servos.first().map(|s| s.0);
            if let Some(id) = first {
                self.pending = status(id, &[]);
            }
        } else if data.len() == 8 && data[4] == 0x02 {
            let id = data[2];
            let position = self.servos.iter().position(|s| s.0 == id).unwrap();
            let model = self.servos[position].1;
            self.pending = status(id, &[model as u8, (model >> 8) as u8]);
            if let Some(next) = self.servos.get(position + 1) {
                self.pending.extend(status(next.0, &[]));
            }
        }
        Ok(())
    }
}

#[test]
fn enumerate_finds_two_servos_in_answer_order() {
    let mut bus = ScriptedBus {
        written: Vec::new(),
        pending: Vec::new(),
        servos: vec![(3, 12), (7, 0x001D)],
    };
    let found = enumerate(&mut bus).unwrap();
    assert_eq!(
        found,
        vec![
            ServoInfo { baud_rate: BaudRate::Baud1000000, model_number: 12, id: ServoID::new(3) },
            ServoInfo {
                baud_rate: BaudRate::Baud1000000,
                model_number: 0x001D,
                id: ServoID::new(7)
            },
        ]
    );
    assert_eq!(bus.written[0], vec![0xff, 0xff, 0xfe, 0x02, 0x01, 0xfe]);
    assert_eq!(bus.written[1], vec![0xff, 0xff, 0x03, 0x04, 0x02, 0x00, 0x02, 0xf4]);
    assert_eq!(bus.written.len(), 3);
}

/// A bus that hands out one scripted answer for each write, and fails the
/// write or the read where it is told to.
struct AnswerBus {
    written: Vec<Vec<u8>>,
    answers: Vec<Vec<u8>>,
    pending: Vec<u8>,
    fail_write: Option<usize>,
    fail_read: Option<usize>,
    write_failure: CommunicationError,
    reads: usize,
    endless: bool,
}

impl AnswerBus {
    fn new(answers: Vec<Vec<u8>>) -> Self {
        AnswerBus {
            written: Vec::new(),
            answers,
            pending: Vec::new(),
            fail_write: None,
            fail_read: None,
            write_failure: CommunicationError::Other,
            reads: 0,
            endless: false,
        }
    }
}

impl Interface for AnswerBus {
    fn set_baud_rate(&mut self, b: BaudRate) -> Result<(), CommunicationError> {
        Err(CommunicationError::UnsupportedBaud(b))
    }

    fn flush(&mut self) {
        self.pending.clear();
    }

    fn read(&mut self, data: &mut [u8]) -> Result<(), CommunicationError> {
        self.reads += 1;
        if self.fail_read == Some(self.reads) {
            return Err(CommunicationError::Other);
        }
        if self.endless {
            let answer = if data.len() == 6 { status(1, &[]) } else { status(1, &[12, 0]) };
            data.copy_from_slice(&answer);
            return Ok(());
        }
        if self.pending.len() < data.len() {
            return Err(CommunicationError::TimedOut);
        }
        let rest = self.pending.split_off(data.len());
        data.copy_from_slice(&self.pending);
        self.pending = rest;
        Ok(())
    }

    fn write(&mut self, data: &[u8]) -> Result<(), CommunicationError> {
        if self.fail_write == Some(self.written.len()) {
            return Err(self.write_failure);
        }
        self.written.push(data.to_vec());
        if !self.answers.is_empty() {
            self.pending = self.answers.remove(0);
        }
        Ok(())
    }
}

fn info(id: u8, model_number: u16) -> ServoInfo {
    ServoInfo { baud_rate: BaudRate::Baud1000000, model_number, id: ServoID::new(id) }
}

#[test]
fn a_silent_bus_holds_no_servos() {
    let mut bus = AnswerBus::new(vec![]);
    assert_eq!(enumerate(&mut bus), Ok(vec![]));
    assert_eq!(bus.written, vec![vec![0xff, 0xff, 0xfe, 0x02, 0x01, 0xfe]]);
    let mut bus = AnswerBus::new(vec![]);
    assert_eq!(dynamixel::protocol2::enumerate(&mut bus), Ok(vec![]));
    assert_eq!(
        bus.written,
        vec![vec![0xff, 0xff, 0xfd, 0x00, 0xfe, 0x03, 0x00, 0x01, 0x31, 0x42]]
    );
}

#[test]
fn a_status_that_is_no_pong_is_passed_over() {
    let mut answers = vec![0xff, 0xff, 0x03, 0x02, 0x00, 0x00]; // wrong checksum
    answers.extend(status(7, &[]));
    let mut bus = AnswerBus::new(vec![answers, status(7, &[0x1d, 0x00])]);
    assert_eq!(enumerate(&mut bus), Ok(vec![info(7, 0x001d)]));
}

#[test]
fn a_servo_that_does_not_tell_its_model_is_passed_over() {
    // the answer to the model number comes from another servo
    let mut second = status(4, &[12, 0]);
    second.extend(status(7, &[]));
    let mut bus = AnswerBus::new(vec![status(3, &[]), second, status(7, &[0x1d, 0x00])]);
    assert_eq!(enumerate(&mut bus), Ok(vec![info(7, 0x001d)]));
}

#[test]
fn a_failing_bus_ends_the_enumeration() {
    let mut bus = AnswerBus::new(vec![]);
    bus.fail_write = Some(0);
    assert_eq!(enumerate(&mut bus), Err(CommunicationError::Other));
    let mut bus = AnswerBus::new(vec![status(3, &[])]);
    bus.fail_read = Some(1);
    assert_eq!(enumerate(&mut bus), Err(CommunicationError::Other));
    // the question for the model number cannot be sent
    let mut bus = AnswerBus::new(vec![status(3, &[])]);
    bus.fail_write = Some(1);
    assert_eq!(enumerate(&mut bus), Err(CommunicationError::Other));
    // the model number cannot be read
    let mut bus = AnswerBus::new(vec![status(3, &[])]);
    bus.fail_read = Some(2);
    assert_eq!(enumerate(&mut bus), Err(CommunicationError::Other));
}

#[test]
fn a_write_that_fails_is_the_result_whatever_the_failure() {
    // silence is a sign only where the sweep reads
    let mut bus = AnswerBus::new(vec![]);
    bus.fail_write = Some(0);
    bus.write_failure = CommunicationError::TimedOut;
    assert_eq!(enumerate(&mut bus), Err(CommunicationError::TimedOut));
    let mut bus = AnswerBus::new(vec![status(3, &[])]);
    bus.fail_write = Some(1);
    bus.write_failure = CommunicationError::TimedOut;
    assert_eq!(enumerate(&mut bus), Err(CommunicationError::TimedOut));
}

#[test]
fn silence_after_a_pong_ends_the_sweep_without_a_record() {
    // servo 3 answers the ping, and then nothing more is heard
    let mut bus = AnswerBus::new(vec![vec![0xff, 0xff, 0x03, 0x02, 0x00, 0xfa]]);
    assert_eq!(enumerate(&mut bus), Ok(vec![]));
    assert_eq!(bus.written.len(), 2);
    // the same after a servo that was put on record
    let mut second = status(3, &[12, 0]);
    second.extend(status(7, &[]));
    let mut bus = AnswerBus::new(vec![status(3, &[]), second]);
    assert_eq!(enumerate(&mut bus), Ok(vec![info(3, 12)]));
    // and in protocol 2
    let pong3 = vec![
        0xff, 0xff, 0xfd, 0x00, 0x03, 0x07, 0x00, 0x55, 0x00, 0x18, 0xa9, 0x19, 0x7a, 0x12,
    ];
    let mut bus = AnswerBus::new(vec![pong3]);
    assert_eq!(dynamixel::protocol2::enumerate(&mut bus), Ok(vec![]));
}

#[test]
fn a_sweep_takes_254_pongs_at_most() {
    // a bus on which servo 1 never stops answering
    let mut bus = AnswerBus::new(vec![]);
    bus.endless = true;
    let found = enumerate(&mut bus).unwrap();
    assert_eq!(found, vec![info(1, 12); 254]);
    assert_eq!(bus.reads, 2 * 254);
    assert_eq!(dynamixel::protocol1::SWEEP_LIMIT, 254);
    assert_eq!(dynamixel::protocol2::SWEEP_LIMIT, 254);
}

#[test]
fn statuses_that_are_passed_over_do_not_count() {
    // 300 statuses with a wrong checksum, then two servos
    let mut first = Vec::new();
    for _ in 0..300 {
        first.extend_from_slice(&[0xff, 0xff, 0x03, 0x02, 0x00, 0x00]);
    }
    first.extend(status(3, &[]));
    let mut second = status(3, &[12, 0]);
    second.extend(status(7, &[]));
    let mut bus = AnswerBus::new(vec![first, second, status(7, &[0x1d, 0x00])]);
    assert_eq!(enumerate(&mut bus), Ok(vec![info(3, 12), info(7, 0x001d)]));
}

#[test]
fn a_sweep_appends_to_what_was_found() {
    let mut second = status(3, &[12, 0]);
    second.extend(status(7, &[]));
    let mut bus = AnswerBus::new(vec![status(3, &[]), second, status(7, &[0x1d, 0x00])]);
    let mut servos = vec![info(1, 99)];
    assert_eq!(
        dynamixel::protocol1::sweep(&mut bus, BaudRate::Baud57600, &mut servos),
        Ok(())
    );
    assert_eq!(
        servos,
        vec![
            info(1, 99),
            ServoInfo { baud_rate: BaudRate::Baud57600, model_number: 12, id: ServoID::new(3) },
            ServoInfo { baud_rate: BaudRate::Baud57600, model_number: 29, id: ServoID::new(7) },
        ]
    );
}

#[test]
fn protocol2_servos_are_found_in_answer_order() {
    let pong3 = vec![
        0xff, 0xff, 0xfd, 0x00, 0x03, 0x07, 0x00, 0x55, 0x00, 0x18, 0xa9, 0x19, 0x7a, 0x12,
    ];
    let pong7 = vec![
        0xff, 0xff, 0xfd, 0x00, 0x07, 0x07, 0x00, 0x55, 0x00, 0x18, 0xa9, 0x19, 0x62, 0x52,
    ];
    let model3 =
        vec![0xff, 0xff, 0xfd, 0x00, 0x03, 0x06, 0x00, 0x55, 0x00, 0x18, 0xa9, 0x13, 0x0a];
    let model7 =
        vec![0xff, 0xff, 0xfd, 0x00, 0x07, 0x06, 0x00, 0x55, 0x00, 0x18, 0xa9, 0x50, 0x8e];
    let mut second = model3.clone();
    second.extend(pong7.clone());
    let mut bus = AnswerBus::new(vec![pong3.clone(), second.clone(), model7.clone()]);
    assert_eq!(
        dynamixel::protocol2::enumerate(&mut bus),
        Ok(vec![info(3, 0xa918), info(7, 0xa918)])
    );
    assert_eq!(
        bus.written,
        vec![
            vec![0xff, 0xff, 0xfd, 0x00, 0xfe, 0x03, 0x00, 0x01, 0x31, 0x42],
            vec![0xff, 0xff, 0xfd, 0x00, 0x03, 0x07, 0x00, 0x02, 0x00, 0x00, 0x02, 0x00, 0x2d, 0x71],
            vec![0xff, 0xff, 0xfd, 0x00, 0x07, 0x07, 0x00, 0x02, 0x00, 0x00, 0x02, 0x00, 0x35, 0x31],
        ]
    );

    // both protocols, one after the other
    let mut p1_second = status(5, &[12, 0]);
    p1_second.extend(Vec::<u8>::new());
    let mut bus = AnswerBus::new(vec![status(5, &[]), p1_second, pong3, second, model7]);
    assert_eq!(
        dynamixel::enumerate(&mut bus),
        Ok(vec![info(5, 12), info(3, 0xa918), info(7, 0xa918)])
    );
}

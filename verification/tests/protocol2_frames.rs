use dynamixel::pro::control_table::{GoalPosition, PresentPosition, TorqueEnable};
use dynamixel::protocol2::bit_stuffer::{destuff_bytes, stuff_bytes, BitStuffer};
use dynamixel::protocol2::crc::CRC;
use dynamixel::protocol2::instruction::{Ping, Pong, Read, ReadResponse, Write, WriteResponse};
use dynamixel::protocol2::{
    accept, receive, to_bytes, DeserializationStatus, Deserializer, Error, FormatError,
    Instruction, PacketID, ProcessingError, ServoID,
};

#[test]
fn crc_is_that_of_the_known_frames() {
    assert_eq!(CRC::calc(&[]), 0);
    assert_eq!(CRC::calc(&[0x00]), 0);
    assert_eq!(CRC::calc(&[0x01]), 0x8005);
    assert_eq!(CRC::calc(b"123456789"), 0xfee8);
    assert_eq!(CRC::calc(&[0xff, 0xff, 0xfd, 0x00, 0x01, 0x03, 0x00, 0x01]), 0x4e19);
}

#[test]
fn crc_can_be_fed_in_pieces() {
    let mut crc = CRC::new();
    assert_eq!(crc.value(), 0);
    crc.add(0xff);
    crc.add(0xff);
    crc.add_all(&[0xfd, 0x00, 0x01]);
    crc.add_all(&[]);
    crc.add_all(&[0x03, 0x00, 0x01]);
    assert_eq!(crc.value(), 0x4e19);
    assert_eq!(u16::from(crc), 0x4e19);
}

#[test]
fn every_frame_ends_in_its_crc() {
    let frames = [
        to_bytes(&Ping::new(PacketID::unicast(1))),
        to_bytes(&Ping::new(PacketID::broadcast())),
        to_bytes(&Read::<PresentPosition>::new(PacketID::unicast(200))),
        to_bytes(&Write::new(PacketID::unicast(1), GoalPosition::new(0xfdffff))),
        to_bytes(&Write::new(PacketID::unicast(253), TorqueEnable::new(true))),
    ];
    for frame in frames.iter() {
        let n = frame.len();
        let crc = CRC::calc(&frame[..n - 2]);
        assert_eq!(frame[n - 2], crc as u8);
        assert_eq!(frame[n - 1], (crc >> 8) as u8);
        assert_eq!(frame[5] as usize + 256 * frame[6] as usize + 7, n);
    }
}

#[test]
fn a_marker_gets_a_stuffing_byte() {
    assert_eq!(stuff_bytes(&[]), Vec::<u8>::new());
    assert_eq!(stuff_bytes(&[0xff, 0xff, 0xfd]), vec![0xff, 0xff, 0xfd, 0xfd]);
    assert_eq!(stuff_bytes(&[0xff, 0xff, 0xff, 0xfd]), vec![0xff, 0xff, 0xff, 0xfd, 0xfd]);
    assert_eq!(stuff_bytes(&[0xff, 0xfd, 0xff, 0xff]), vec![0xff, 0xfd, 0xff, 0xff]);
    assert_eq!(
        stuff_bytes(&[0xff, 0xff, 0xfd, 0xfd]),
        vec![0xff, 0xff, 0xfd, 0xfd, 0xfd]
    );
    assert_eq!(
        stuff_bytes(&[0xff, 0xff, 0xfd, 0xff, 0xff, 0xfd]),
        vec![0xff, 0xff, 0xfd, 0xfd, 0xff, 0xff, 0xfd, 0xfd]
    );
    assert_eq!(stuff_bytes(&[1, 2, 3]), vec![1, 2, 3]);
}

#[test]
fn stuffing_bytes_are_taken_out_again() {
    assert_eq!(destuff_bytes(&[0xff, 0xff, 0xfd, 0xfd]), vec![0xff, 0xff, 0xfd]);
    assert_eq!(destuff_bytes(&[0xff, 0xff, 0xfd, 0xfd, 0xfd]), vec![0xff, 0xff, 0xfd, 0xfd]);
    assert_eq!(destuff_bytes(&[0xff, 0xff, 0xfd, 0x00]), vec![0xff, 0xff, 0xfd, 0x00]);
    assert_eq!(destuff_bytes(&[0xfd, 0xfd]), vec![0xfd, 0xfd]);
}

#[test]
fn destuffing_undoes_stuffing() {
    // every sequence of up to six bytes over an alphabet that holds the marker
    let alphabet = [0xffu8, 0xfd, 0x00];
    for len in 0..7usize {
        let count = alphabet.len().pow(len as u32);
        for mut n in 0..count {
            let mut bytes = Vec::new();
            for _ in 0..len {
                bytes.push(alphabet[n % alphabet.len()]);
                n /= alphabet.len();
            }
            let stuffed = stuff_bytes(&bytes);
            assert_eq!(destuff_bytes(&stuffed), bytes);
            for w in stuffed.windows(4) {
                if w[0] == 0xff && w[1] == 0xff && w[2] == 0xfd {
                    assert_eq!(w[3], 0xfd);
                }
            }
            assert!(!stuffed.ends_with(&[0xff, 0xff, 0xfd]));
        }
    }
}

#[test]
fn the_stuffer_follows_the_marker() {
    let s = BitStuffer::new();
    assert!(!s.stuffing_required());
    let s = s.add_byte(0xff).add_byte(0xff);
    assert!(!s.stuffing_required());
    let s = s.add_byte(0xfd);
    assert!(s.stuffing_required());
    let s = s.add_byte(0xfd);
    assert!(!s.stuffing_required());
    let s = BitStuffer::new().add_byte(0xff).add_byte(0xff).add_byte(0xff).add_byte(0xfd);
    assert!(s.stuffing_required());
    let s = BitStuffer::new().add_byte(0xff).add_byte(0x00).add_byte(0xff).add_byte(0xfd);
    assert!(!s.stuffing_required());
}

#[test]
fn the_serializer_stops_at_the_end_of_the_frame() {
    let ping = Ping::new(PacketID::unicast(1));
    let mut serializer = ping.serialize();
    let mut bytes = Vec::new();
    while let Some(b) = serializer.next() {
        bytes.push(b);
    }
    assert_eq!(bytes, vec![0xff, 0xff, 0xfd, 0x00, 0x01, 0x03, 0x00, 0x01, 0x19, 0x4e]);
    assert_eq!(serializer.next(), None);
    assert_eq!(serializer.next(), None);
    assert_eq!(to_bytes(&ping), bytes);
}

#[test]
fn a_stuffed_write_is_17_bytes_long() {
    let write = Write::new(PacketID::unicast(1), GoalPosition::new(0xfdffff));
    let frame = to_bytes(&write);
    assert_eq!(frame.len(), 17);
    assert_eq!(frame[13], 0xfd);
    assert_eq!(frame[15] as u16 | (frame[16] as u16) << 8, 0x3521);
}

#[test]
fn instructions_tell_their_parameters() {
    let read = Read::<PresentPosition>::new(PacketID::unicast(1));
    assert_eq!(read.id(), PacketID::unicast(1));
    assert_eq!(
        [read.parameter(0), read.parameter(1), read.parameter(2), read.parameter(3)],
        [0x63, 0x02, 0x04, 0x00]
    );
    let write = Write::new(PacketID::broadcast(), GoalPosition::new(-2));
    assert_eq!(write.id(), PacketID::broadcast());
    let parameters: Vec<u8> = (0..6).map(|i| write.parameter(i)).collect();
    assert_eq!(parameters, vec![0x54, 0x02, 0xfe, 0xff, 0xff, 0xff]);
    assert_eq!(<Write<TorqueEnable> as Instruction>::PARAMETERS, 3);
    assert_eq!(<Ping as Instruction>::PARAMETERS, 0);
}

#[test]
fn a_whole_frame_is_read_at_once() {
    let frame =
        [0xff, 0xff, 0xfd, 0x00, 0x01, 0x07, 0x00, 0x55, 0x00, 0x06, 0x04, 0x26, 0x65, 0x5d];
    assert_eq!(
        receive::<Pong>(&frame),
        Ok(Pong { id: ServoID::new(1), model_number: 0x0406, fw_version: 0x26 })
    );
    assert_eq!(
        accept::<Pong>(ServoID::new(1), &frame),
        Ok(Pong { id: ServoID::new(1), model_number: 0x0406, fw_version: 0x26 })
    );
    assert_eq!(accept::<Pong>(ServoID::new(2), &frame), Err(Error::Format(FormatError::ID)));
    assert_eq!(receive::<Pong>(&frame[..13]), Err(Error::Format(FormatError::Length)));
    assert_eq!(receive::<Pong>(&frame[..8]), Err(Error::Format(FormatError::Length)));
    let mut longer = frame.to_vec();
    longer.push(0);
    assert_eq!(receive::<Pong>(&longer), Err(Error::Format(FormatError::Length)));
}

#[test]
fn stuffing_is_taken_out_of_a_status() {
    let frame = [
        0xff, 0xff, 0xfd, 0x00, 0x01, 0x09, 0x00, 0x55, 0x00, 0xff, 0xff, 0xfd, 0xfd, 0x00, 0xd8,
        0x9c,
    ];
    assert_eq!(
        receive::<ReadResponse<GoalPosition>>(&frame),
        Ok(ReadResponse { id: ServoID::new(1), value: GoalPosition::new(0x00fdffff) })
    );
    // byte by byte, the same
    let mut deserializer = Deserializer::<ReadResponse<GoalPosition>>::new()
        .deserialize_header([0xff, 0xff, 0xfd, 0x00, 0x01, 0x09, 0x00, 0x55, 0x00])
        .unwrap();
    assert_eq!(deserializer.remaining_bytes(), 7);
    for b in frame[9..].iter() {
        deserializer.deserialize(&[*b]).unwrap();
    }
    assert_eq!(
        deserializer.build(),
        Ok(ReadResponse { id: ServoID::new(1), value: GoalPosition::new(0x00fdffff) })
    );
}

#[test]
fn a_negative_value_is_read_back() {
    let frame =
        [0xff, 0xff, 0xfd, 0x00, 0x01, 0x08, 0x00, 0x55, 0x00, 0xfb, 0xff, 0xff, 0xff, 0x95, 0xe8];
    let r = receive::<ReadResponse<PresentPosition>>(&frame).unwrap();
    assert_eq!(i32::from(r.value), -5);
}

#[test]
fn a_header_is_judged_marker_first() {
    let new = || Deserializer::<WriteResponse>::new();
    assert_eq!(
        new().deserialize_header([0xff, 0xff, 0xfd, 0x01, 0x01, 0x04, 0x00, 0x55, 0x00]).err(),
        Some(Error::Format(FormatError::Header))
    );
    assert_eq!(
        new().deserialize_header([0xff, 0xfe, 0xfd, 0x00, 0x01, 0x04, 0x00, 0x55, 0x80]).err(),
        Some(Error::Format(FormatError::Header))
    );
    assert_eq!(
        new().deserialize_header([0xff, 0xff, 0xfd, 0x00, 0x01, 0x04, 0x00, 0x55, 0x80]).err(),
        Some(Error::Format(FormatError::InvalidError))
    );
    assert_eq!(
        new().deserialize_header([0xff, 0xff, 0xfd, 0x00, 0x01, 0x04, 0x00, 0x55, 0x24]).err(),
        Some(Error::Processing(ProcessingError::decode(0x24).unwrap().unwrap()))
    );
    assert_eq!(
        new().deserialize_header([0xff, 0xff, 0xfd, 0x00, 0xfe, 0x04, 0x00, 0x55, 0x00]).err(),
        Some(Error::Format(FormatError::ID))
    );
    assert_eq!(
        new().deserialize_header([0xff, 0xff, 0xfd, 0x00, 0x01, 0x03, 0x00, 0x55, 0x00]).err(),
        Some(Error::Format(FormatError::Length))
    );
    let taken =
        new().deserialize_header([0xff, 0xff, 0xfd, 0x00, 0x01, 0x04, 0x00, 0x55, 0x00]).unwrap();
    assert_eq!(taken.remaining_bytes(), 2);
    assert!(!taken.is_finished());
    // a second header is no header
    assert_eq!(
        taken.deserialize_header([0xff, 0xff, 0xfd, 0x00, 0x01, 0x04, 0x00, 0x55, 0x00]).err(),
        Some(Error::Format(FormatError::Header))
    );
}

#[test]
fn a_new_deserializer_awaits_the_header() {
    let mut deserializer = Deserializer::<WriteResponse>::new();
    assert_eq!(deserializer.remaining_bytes(), 0);
    assert!(!deserializer.is_finished());
    assert_eq!(deserializer.deserialize(&[0x00]), Err(Error::Format(FormatError::Header)));
    assert_eq!(deserializer.deserialize(&[]), Err(Error::Format(FormatError::Length)));
    assert_eq!(deserializer.build(), Err(Error::Format(FormatError::Length)));
}

#[test]
fn a_chunk_that_is_too_long_is_turned_down() {
    let mut deserializer = Deserializer::<WriteResponse>::new()
        .deserialize_header([0xff, 0xff, 0xfd, 0x00, 0x01, 0x04, 0x00, 0x55, 0x00])
        .unwrap();
    assert_eq!(
        deserializer.deserialize(&[0xa1, 0x0c, 0x00]),
        Err(Error::Format(FormatError::Length))
    );
    assert!(!deserializer.is_finished());
    assert_eq!(deserializer.deserialize(&[0xa1]), Err(Error::Format(FormatError::Length)));
    assert_eq!(deserializer.build(), Err(Error::Format(FormatError::Length)));
}

#[test]
fn an_empty_chunk_changes_nothing() {
    let mut deserializer = Deserializer::<WriteResponse>::new()
        .deserialize_header([0xff, 0xff, 0xfd, 0x00, 0x01, 0x04, 0x00, 0x55, 0x00])
        .unwrap();
    assert_eq!(deserializer.deserialize(&[]), Ok(DeserializationStatus::Unfinished));
    assert_eq!(deserializer.deserialize(&[0xa1, 0x0c]), Ok(DeserializationStatus::Finished));
    assert_eq!(deserializer.deserialize(&[]), Ok(DeserializationStatus::Finished));
    assert_eq!(deserializer.remaining_bytes(), 0);
    assert_eq!(deserializer.build(), Ok(WriteResponse { id: ServoID::new(1) }));
}

#[test]
fn an_unfinished_frame_cannot_be_built() {
    let mut deserializer = Deserializer::<WriteResponse>::new()
        .deserialize_header([0xff, 0xff, 0xfd, 0x00, 0x01, 0x04, 0x00, 0x55, 0x00])
        .unwrap();
    deserializer.deserialize(&[0xa1]).unwrap();
    assert_eq!(deserializer.build(), Err(Error::Format(FormatError::Length)));
}

#[test]
fn a_wrong_crc_is_found_when_building() {
    let mut deserializer = Deserializer::<WriteResponse>::new()
        .deserialize_header([0xff, 0xff, 0xfd, 0x00, 0x01, 0x04, 0x00, 0x55, 0x00])
        .unwrap();
    assert_eq!(deserializer.deserialize(&[0xa1, 0x0d]), Ok(DeserializationStatus::Finished));
    assert_eq!(deserializer.build(), Err(Error::Format(FormatError::CRC)));
}

#[test]
fn a_status_with_other_parameters_than_expected_is_refused() {
    // a pong, read as the answer to a write
    let frame =
        [0xff, 0xff, 0xfd, 0x00, 0x01, 0x07, 0x00, 0x55, 0x00, 0x06, 0x04, 0x26, 0x65, 0x5d];
    assert_eq!(receive::<WriteResponse>(&frame), Err(Error::Format(FormatError::Length)));
    // the CRC is judged before the parameters
    let mut broken = frame;
    broken[13] = 0;
    assert_eq!(receive::<WriteResponse>(&broken), Err(Error::Format(FormatError::CRC)));
}

#[test]
fn a_pong_fed_byte_by_byte_is_the_same_pong() {
    let header = [0xff, 0xff, 0xfd, 0x00, 0x01, 0x07, 0x00, 0x55, 0x00];
    let body = [0x06, 0x04, 0x26, 0x65, 0x5d];
    let expected = Pong { id: ServoID::new(1), model_number: 0x0406, fw_version: 0x26 };

    let mut whole = Deserializer::<Pong>::new().deserialize_header(header).unwrap();
    assert_eq!(whole.deserialize(&body), Ok(DeserializationStatus::Finished));
    assert_eq!(whole.build(), Ok(expected));

    let mut single = Deserializer::<Pong>::new().deserialize_header(header).unwrap();
    for (i, b) in body.iter().enumerate() {
        assert_eq!(single.remaining_bytes(), body.len() - i);
        let status = single.deserialize(&[*b]).unwrap();
        assert_eq!(status == DeserializationStatus::Finished, i + 1 == body.len());
    }
    assert_eq!(single.build(), Ok(expected));

    // and in every split into two chunks
    for cut in 0..=body.len() {
        let mut d = Deserializer::<Pong>::new().deserialize_header(header).unwrap();
        d.deserialize(&body[..cut]).unwrap();
        d.deserialize(&body[cut..]).unwrap();
        assert!(d.is_finished());
        assert_eq!(d.build(), Ok(expected));
    }
}

#[test]
fn a_status_framed_by_the_rules_is_read_back() {
    // a status is a frame with instruction byte 55 whose first parameter is
    // the error byte; the register value here holds a marker
    for value in [0i32, -1, 0x00fdffff, 0x7fffffff, -0x0002_0001] {
        let mut frame = vec![0xff, 0xff, 0xfd, 0x00, 0x09];
        let stuffed = stuff_bytes(&value.to_le_bytes());
        let length = stuffed.len() as u16 + 4;
        frame.extend_from_slice(&[length as u8, (length >> 8) as u8, 0x55, 0x00]);
        frame.extend_from_slice(&stuffed);
        let crc = CRC::calc(&frame);
        frame.extend_from_slice(&[crc as u8, (crc >> 8) as u8]);
        assert_eq!(
            accept::<ReadResponse<GoalPosition>>(ServoID::new(9), &frame),
            Ok(ReadResponse { id: ServoID::new(9), value: GoalPosition::new(value) })
        );
    }
}

#[test]
fn chunks_of_any_number_and_size_give_the_same_status() {
    let header = [0xff, 0xff, 0xfd, 0x00, 0x01, 0x09, 0x00, 0x55, 0x00];
    let body = [0xff, 0xff, 0xfd, 0xfd, 0x00, 0xd8, 0x9c];
    let expected = ReadResponse { id: ServoID::new(1), value: GoalPosition::new(0x00fdffff) };
    // every way to cut the body: one bit of the mask for each place to cut
    for mask in 0u32..(1 << (body.len() - 1)) {
        let mut chunks: Vec<&[u8]> = Vec::new();
        let mut start = 0;
        for end in 1..=body.len() {
            if end == body.len() || mask & (1 << (end - 1)) != 0 {
                chunks.push(&body[start..end]);
                start = end;
            }
        }
        assert_eq!(
            dynamixel::protocol2::receive_chunks::<ReadResponse<GoalPosition>>(header, &chunks),
            Ok(ReadResponse { id: expected.id, value: GoalPosition::new(0x00fdffff) })
        );
        let mut deserializer =
            Deserializer::<ReadResponse<GoalPosition>>::new().deserialize_header(header).unwrap();
        assert_eq!(deserializer.deserialize_all(&chunks), Ok(DeserializationStatus::Finished));
        assert_eq!(
            deserializer.build(),
            Ok(ReadResponse { id: expected.id, value: GoalPosition::new(0x00fdffff) })
        );
    }
    // empty chunks do not count
    let chunks: [&[u8]; 4] = [&[], &body[..3], &[], &body[3..]];
    assert_eq!(
        dynamixel::protocol2::receive_chunks::<ReadResponse<GoalPosition>>(header, &chunks),
        Ok(expected)
    );
}

#[test]
fn chunks_that_do_not_make_the_body_are_turned_down() {
    let header = [0xff, 0xff, 0xfd, 0x00, 0x01, 0x04, 0x00, 0x55, 0x00];
    let none: [&[u8]; 0] = [];
    assert_eq!(
        dynamixel::protocol2::receive_chunks::<WriteResponse>(header, &none),
        Err(Error::Format(FormatError::Length))
    );
    assert_eq!(
        dynamixel::protocol2::receive_chunks::<WriteResponse>(header, &[&[0xa1]]),
        Err(Error::Format(FormatError::Length))
    );
    assert_eq!(
        dynamixel::protocol2::receive_chunks::<WriteResponse>(header, &[&[0xa1], &[0x0c, 0x00]]),
        Err(Error::Format(FormatError::Length))
    );
    assert_eq!(
        dynamixel::protocol2::receive_chunks::<WriteResponse>(header, &[&[0xa1], &[0x0d]]),
        Err(Error::Format(FormatError::CRC))
    );
    assert_eq!(
        dynamixel::protocol2::receive_chunks::<WriteResponse>(header, &[&[0xa1], &[0x0c]]),
        Ok(WriteResponse { id: ServoID::new(1) })
    );
    let mut bad = header;
    bad[2] = 0;
    assert_eq!(
        dynamixel::protocol2::receive_chunks::<WriteResponse>(bad, &[&[0xa1], &[0x0c]]),
        Err(Error::Format(FormatError::Header))
    );
    // a deserializer that awaits its header takes no chunks
    let mut fresh = Deserializer::<WriteResponse>::new();
    assert_eq!(fresh.deserialize_all(&none), Err(Error::Format(FormatError::Header)));
    // one chunk too many fails the deserializer for good
    let mut deserializer = Deserializer::<WriteResponse>::new().deserialize_header(header).unwrap();
    assert_eq!(
        deserializer.deserialize_all(&[&[0xa1], &[0x0c], &[0x00]]),
        Err(Error::Format(FormatError::Length))
    );
    assert_eq!(deserializer.build(), Err(Error::Format(FormatError::Length)));
}

#[test]
fn two_values_are_written_in_two_frames() {
    let values = [0i32, 1, -1, 0x00fdffff, 0x00fdfffe, 0x7fffffff, i32::MIN];
    for a in values.iter() {
        for b in values.iter() {
            let fa = to_bytes(&Write::new(PacketID::unicast(1), GoalPosition::new(*a)));
            let fb = to_bytes(&Write::new(PacketID::unicast(1), GoalPosition::new(*b)));
            assert_eq!(fa == fb, a == b);
        }
        let frame = to_bytes(&Write::new(PacketID::unicast(1), GoalPosition::new(*a)));
        let n = frame.len();
        for w in frame[4..n - 2].windows(3).enumerate() {
            if w.1 == [0xff, 0xff, 0xfd] {
                assert_eq!(frame[4 + w.0 + 3], 0xfd);
                assert!(4 + w.0 + 3 < n - 2);
            }
        }
        let mut parameters = vec![0x54, 0x02];
        parameters.extend_from_slice(&a.to_le_bytes());
        assert_eq!(destuff_bytes(&frame[8..n - 2]), parameters);
    }
}

use byteorder::Error as ByteorderError;
use kafka_errors::error::{map_status_code, read_status_code, Error, IoCause, KafkaCode};
use std::io;

#[test]
fn maps_each_documented_wire_value() {
    assert_eq!(map_status_code(-1), KafkaCode::Unknown);
    assert_eq!(map_status_code(1), KafkaCode::OffsetOutOfRange);
    assert_eq!(map_status_code(2), KafkaCode::InvalidMessage);
    assert_eq!(map_status_code(3), KafkaCode::UnknownTopicOrPartition);
    assert_eq!(map_status_code(4), KafkaCode::InvalidMessageSize);
    assert_eq!(map_status_code(5), KafkaCode::LeaderNotAvailable);
    assert_eq!(map_status_code(6), KafkaCode::NotLeaderForPartition);
    assert_eq!(map_status_code(7), KafkaCode::RequestTimedOut);
    assert_eq!(map_status_code(8), KafkaCode::BrokerNotAvailable);
    assert_eq!(map_status_code(9), KafkaCode::ReplicaNotAvailable);
    assert_eq!(map_status_code(10), KafkaCode::MessageSizeTooLarge);
    assert_eq!(map_status_code(11), KafkaCode::StaleControllerEpochCode);
    assert_eq!(map_status_code(12), KafkaCode::OffsetMetadataTooLargeCode);
    assert_eq!(map_status_code(14), KafkaCode::OffsetsLoadInProgressCode);
    assert_eq!(map_status_code(15), KafkaCode::ConsumerCoordinatorNotAvailableCode);
    assert_eq!(map_status_code(16), KafkaCode::NotCoordinatorForConsumerCode);
    assert_eq!(map_status_code(17), KafkaCode::InvalidTopicCode);
    assert_eq!(map_status_code(18), KafkaCode::RecordListTooLargeCode);
    assert_eq!(map_status_code(19), KafkaCode::NotEnoughReplicasCode);
    assert_eq!(map_status_code(20), KafkaCode::NotEnoughReplicasAfterAppendCode);
    assert_eq!(map_status_code(21), KafkaCode::InvalidRequiredAcksCode);
    assert_eq!(map_status_code(22), KafkaCode::IllegalGenerationCode);
    assert_eq!(map_status_code(23), KafkaCode::InconsistentGroupProtocolCode);
    assert_eq!(map_status_code(24), KafkaCode::InvalidGroupIdCode);
    assert_eq!(map_status_code(25), KafkaCode::UnknownMemberIdCode);
    assert_eq!(map_status_code(26), KafkaCode::InvalidSessionTimeoutCode);
    assert_eq!(map_status_code(27), KafkaCode::RebalanceInProgressCode);
    assert_eq!(map_status_code(28), KafkaCode::InvalidCommitOffsetSizeCode);
    assert_eq!(map_status_code(29), KafkaCode::TopicAuthorizationFailedCode);
    assert_eq!(map_status_code(30), KafkaCode::GroupAuthorizationFailedCode);
    assert_eq!(map_status_code(31), KafkaCode::ClusterAuthorizationFailedCode);
}

#[test]
fn undocumented_wire_values_map_to_unknown() {
    assert_eq!(map_status_code(0), KafkaCode::Unknown);
    assert_eq!(map_status_code(13), KafkaCode::Unknown);
    assert_eq!(map_status_code(32), KafkaCode::Unknown);
    assert_eq!(map_status_code(9999), KafkaCode::Unknown);
    assert_eq!(map_status_code(-2), KafkaCode::Unknown);
    assert_eq!(map_status_code(i16::MIN), KafkaCode::Unknown);
    assert_eq!(map_status_code(i16::MAX), KafkaCode::Unknown);
}

#[test]
fn from_i16_follows_the_table() {
    assert_eq!(Error::from_i16(-1), Some(Error::Kafka(KafkaCode::Unknown)));
    assert_eq!(Error::from_i16(1), Some(Error::Kafka(KafkaCode::OffsetOutOfRange)));
    assert_eq!(Error::from_i16(6), Some(Error::Kafka(KafkaCode::NotLeaderForPartition)));
    assert_eq!(
        Error::from_i16(31),
        Some(Error::Kafka(KafkaCode::ClusterAuthorizationFailedCode))
    );
    assert_eq!(Error::from_i16(0), None);
    assert_eq!(Error::from_i16(13), None);
    assert_eq!(Error::from_i16(32), None);
    assert_eq!(Error::from_i16(-2), None);
}

#[test]
fn wide_status_fields_are_unknown_errors() {
    assert_eq!(Error::from_i64(-37), Some(Error::Kafka(KafkaCode::Unknown)));
    assert_eq!(Error::from_i64(5), Some(Error::Kafka(KafkaCode::Unknown)));
    assert_eq!(Error::from_u64(5), Some(Error::Kafka(KafkaCode::Unknown)));
}

#[test]
fn duplicate_keeps_non_transport_variants() {
    let remote = Error::Kafka(KafkaCode::RequestTimedOut);
    assert_eq!(remote.duplicate(), remote);
    assert_eq!(
        Error::InvalidInputSnappy.duplicate(),
        Error::InvalidInputSnappy
    );
    assert_eq!(Error::UnexpectedEOF.duplicate(), Error::UnexpectedEOF);
    assert_eq!(Error::CodecError.duplicate(), Error::CodecError);
    assert_eq!(Error::StringDecodeError.duplicate(), Error::StringDecodeError);
    assert_eq!(Error::NoHostReachable.duplicate(), Error::NoHostReachable);
}

#[test]
fn duplicate_transport_keeps_kind_and_fixes_message() {
    let original = Error::Io(IoCause {
        kind: io::ErrorKind::TimedOut,
        message: String::from("socket timed out after 30s"),
    });
    match original.duplicate() {
        Error::Io(copy) => {
            assert_eq!(copy.kind, io::ErrorKind::TimedOut);
            assert_eq!(copy.message, "Io Error");
        }
        other => panic!("duplicate changed the variant: {:?}", other),
    }
}

#[test]
fn clone_matches_duplicate() {
    let remote = Error::Kafka(KafkaCode::LeaderNotAvailable);
    assert_eq!(remote.clone(), remote.duplicate());
    let transport = Error::Io(IoCause {
        kind: io::ErrorKind::BrokenPipe,
        message: String::from("pipe closed"),
    });
    assert_eq!(transport.clone(), transport.duplicate());
}

#[test]
fn description_is_fixed_per_variant() {
    assert_eq!(
        Error::Kafka(KafkaCode::RequestTimedOut).description(),
        "Kafka Error"
    );
    assert_eq!(Error::InvalidInputSnappy.description(), "Snappy decode error");
    assert_eq!(Error::UnexpectedEOF.description(), "Unexpected EOF");
    assert_eq!(Error::CodecError.description(), "Encoding/Decoding error");
    assert_eq!(Error::StringDecodeError.description(), "String decoding error");
    assert_eq!(Error::NoHostReachable.description(), "No host reachable");
    let transport = Error::Io(IoCause {
        kind: io::ErrorKind::ConnectionReset,
        message: String::from("connection reset by peer"),
    });
    assert_eq!(transport.description(), "connection reset by peer");
}

#[test]
fn display_names_the_remote_status() {
    let shown = Error::Kafka(KafkaCode::RequestTimedOut).display();
    assert_eq!(shown, "Kafka Error (RequestTimedOut)");
    assert!(shown.contains("RequestTimedOut"));
    assert_eq!(
        Error::Kafka(KafkaCode::Unknown).display(),
        "Kafka Error (Unknown)"
    );
}

#[test]
fn display_is_fixed_for_local_variants() {
    assert_eq!(Error::InvalidInputSnappy.display(), "Snappy decoding error");
    assert_eq!(Error::UnexpectedEOF.display(), "Unexpected EOF");
    assert_eq!(Error::CodecError.display(), "Encoding/Decoding Error");
    assert_eq!(Error::StringDecodeError.display(), "String decoding error");
    assert_eq!(Error::NoHostReachable.display(), "No Host Reachable");
    let transport = Error::Io(IoCause {
        kind: io::ErrorKind::NotFound,
        message: String::from("host lookup failed"),
    });
    assert_eq!(transport.display(), "host lookup failed");
}

#[test]
fn transport_failure_records_kind_and_message() {
    let failure = io::Error::new(io::ErrorKind::ConnectionRefused, "connection refused");
    match Error::from_transport_failure(failure) {
        Error::Io(cause) => {
            assert_eq!(cause.kind, io::ErrorKind::ConnectionRefused);
            assert_eq!(cause.message, "connection refused");
        }
        other => panic!("transport failure misclassified: {:?}", other),
    }
}

#[test]
fn frame_read_failure_is_classified() {
    assert_eq!(
        Error::from_frame_read_failure(ByteorderError::UnexpectedEOF),
        Error::UnexpectedEOF
    );
    let failure = ByteorderError::Io(io::Error::new(io::ErrorKind::WouldBlock, "busy"));
    match Error::from_frame_read_failure(failure) {
        Error::Io(cause) => {
            assert_eq!(cause.kind, io::ErrorKind::WouldBlock);
            assert_eq!(cause.message, "busy");
        }
        other => panic!("frame failure misclassified: {:?}", other),
    }
}

#[test]
fn status_field_round_trip() {
    let frame: Vec<u8> = vec![0, 5, 42, 42];
    let code = read_status_code(&frame).unwrap();
    let remote = Error::Kafka(code);
    assert_eq!(remote, Error::Kafka(KafkaCode::LeaderNotAvailable));
    let first = remote.display();
    let second = remote.display();
    assert_eq!(first, second);
    assert_eq!(first, "Kafka Error (LeaderNotAvailable)");
}

#[test]
fn status_field_reads_are_big_endian() {
    assert_eq!(read_status_code(&[0, 6]), Ok(KafkaCode::NotLeaderForPartition));
    assert_eq!(read_status_code(&[0, 31]), Ok(KafkaCode::ClusterAuthorizationFailedCode));
    assert_eq!(read_status_code(&[255, 255]), Ok(KafkaCode::Unknown));
    assert_eq!(read_status_code(&[0x27, 0x0f]), Ok(KafkaCode::Unknown));
    assert_eq!(read_status_code(&[6, 0]), Ok(KafkaCode::Unknown));
}

#[test]
fn truncated_status_field_is_reported() {
    assert_eq!(read_status_code(&[]), Err(Error::UnexpectedEOF));
    assert_eq!(read_status_code(&[0]), Err(Error::UnexpectedEOF));
}

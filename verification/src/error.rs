//! The failure taxonomy and the mapping from remote status codes.

use vstd::prelude::*;
use vstd::string::StringExecFns;
use byteorder::Error as ByteorderError;

verus! {

/// A status reported by a remote Kafka broker inside a response frame.
///
/// One variant per defined wire value, plus [`KafkaCode::Unknown`] for
/// the explicit wire value `-1` and for every value the protocol gives
/// no meaning. Variants carry no payload: what to do about a status
/// (retry, rebalance, give up) is the caller's policy, not recorded here.
#[derive(Clone, Copy, Debug, PartialEq, Eq, Structural)]
pub enum KafkaCode {
    /// An unexpected server error, or a wire value with no defined meaning.
    Unknown,
    /// The requested offset is outside the range the broker maintains
    /// for the topic and partition.
    OffsetOutOfRange,
    /// A message's contents do not match its checksum.
    InvalidMessage,
    /// The request names a topic or partition this broker does not have.
    UnknownTopicOrPartition,
    /// A message declared a negative size.
    InvalidMessageSize,
    /// A leadership election is in progress and the partition has no
    /// leader to write to.
    LeaderNotAvailable,
    /// The request went to a replica that is not the leader for the
    /// partition; the client's metadata is out of date.
    NotLeaderForPartition,
    /// The request exceeded its user-specified time limit.
    RequestTimedOut,
    /// A broker named in the request is not alive.
    BrokerNotAvailable,
    /// A replica was expected on a broker but was not found there.
    ReplicaNotAvailable,
    /// A produced message exceeded the broker's maximum message size.
    MessageSizeTooLarge,
    /// Internal broker-to-broker code: a stale controller epoch.
    StaleControllerEpochCode,
    /// Offset metadata larger than the broker's configured maximum.
    OffsetMetadataTooLargeCode,
    /// The broker is still loading offsets or group metadata.
    OffsetsLoadInProgressCode,
    /// The offsets topic is not yet created, or the group coordinator
    /// is not active.
    ConsumerCoordinatorNotAvailableCode,
    /// The broker is not the coordinator for the group in the request.
    NotCoordinatorForConsumerCode,
    /// The request names an invalid or internal topic.
    InvalidTopicCode,
    /// A produced message batch exceeded the maximum segment size.
    RecordListTooLargeCode,
    /// Fewer in-sync replicas than the configured minimum.
    NotEnoughReplicasCode,
    /// The message was written, but with fewer in-sync replicas than
    /// required.
    NotEnoughReplicasAfterAppendCode,
    /// The requested required-acks value is invalid.
    InvalidRequiredAcksCode,
    /// The generation id in the request is not the current generation.
    IllegalGenerationCode,
    /// The member's protocols are incompatible with the current group.
    InconsistentGroupProtocolCode,
    /// The group id in the request is empty or null.
    InvalidGroupIdCode,
    /// The member id is not in the current generation.
    UnknownMemberIdCode,
    /// The requested session timeout is outside the allowed range.
    InvalidSessionTimeoutCode,
    /// The coordinator has begun rebalancing the group; the client
    /// should rejoin.
    RebalanceInProgressCode,
    /// An offset commit was rejected because of oversize metadata.
    InvalidCommitOffsetSizeCode,
    /// The client is not authorized to access the topic.
    TopicAuthorizationFailedCode,
    /// The client is not authorized to access the group.
    GroupAuthorizationFailedCode,
    /// The client is not authorized to use an inter-broker or
    /// administrative API.
    ClusterAuthorizationFailedCode,
}

/// The meaning of a status-field wire value: the defined values in the
/// table below, and [`KafkaCode::Unknown`] for `-1` and for everything
/// the table leaves out. Total over all integers.
pub open spec fn status_of(n: int) -> KafkaCode {
    if n == 1 {
        KafkaCode::OffsetOutOfRange
    } else if n == 2 {
        KafkaCode::InvalidMessage
    } else if n == 3 {
        KafkaCode::UnknownTopicOrPartition
    } else if n == 4 {
        KafkaCode::InvalidMessageSize
    } else if n == 5 {
        KafkaCode::LeaderNotAvailable
    } else if n == 6 {
        KafkaCode::NotLeaderForPartition
    } else if n == 7 {
        KafkaCode::RequestTimedOut
    } else if n == 8 {
        KafkaCode::BrokerNotAvailable
    } else if n == 9 {
        KafkaCode::ReplicaNotAvailable
    } else if n == 10 {
        KafkaCode::MessageSizeTooLarge
    } else if n == 11 {
        KafkaCode::StaleControllerEpochCode
    } else if n == 12 {
        KafkaCode::OffsetMetadataTooLargeCode
    } else if n == 14 {
        KafkaCode::OffsetsLoadInProgressCode
    } else if n == 15 {
        KafkaCode::ConsumerCoordinatorNotAvailableCode
    } else if n == 16 {
        KafkaCode::NotCoordinatorForConsumerCode
    } else if n == 17 {
        KafkaCode::InvalidTopicCode
    } else if n == 18 {
        KafkaCode::RecordListTooLargeCode
    } else if n == 19 {
        KafkaCode::NotEnoughReplicasCode
    } else if n == 20 {
        KafkaCode::NotEnoughReplicasAfterAppendCode
    } else if n == 21 {
        KafkaCode::InvalidRequiredAcksCode
    } else if n == 22 {
        KafkaCode::IllegalGenerationCode
    } else if n == 23 {
        KafkaCode::InconsistentGroupProtocolCode
    } else if n == 24 {
        KafkaCode::InvalidGroupIdCode
    } else if n == 25 {
        KafkaCode::UnknownMemberIdCode
    } else if n == 26 {
        KafkaCode::InvalidSessionTimeoutCode
    } else if n == 27 {
        KafkaCode::RebalanceInProgressCode
    } else if n == 28 {
        KafkaCode::InvalidCommitOffsetSizeCode
    } else if n == 29 {
        KafkaCode::TopicAuthorizationFailedCode
    } else if n == 30 {
        KafkaCode::GroupAuthorizationFailedCode
    } else if n == 31 {
        KafkaCode::ClusterAuthorizationFailedCode
    } else {
        KafkaCode::Unknown
    }
}

/// Whether `n` is a wire value the protocol defines: `-1` (the explicit
/// unknown-error code) or one of the tabulated values. `0` and `13` are
/// absent from the table and so not defined here.
pub open spec fn is_defined_status(n: int) -> bool {
    n == -1 || (1 <= n && n <= 31 && n != 13)
}

/// Maps a status-field value from a response frame to its code.
///
/// Total over the whole signed 16-bit domain: every input yields exactly
/// the one code `status_of` gives it, and any value with no defined
/// meaning yields `KafkaCode::Unknown`.
pub fn map_status_code(n: i16) -> (c: KafkaCode)
    ensures
        c == status_of(n as int),
{
    match n {
        1 => KafkaCode::OffsetOutOfRange,
        2 => KafkaCode::InvalidMessage,
        3 => KafkaCode::UnknownTopicOrPartition,
        4 => KafkaCode::InvalidMessageSize,
        5 => KafkaCode::LeaderNotAvailable,
        6 => KafkaCode::NotLeaderForPartition,
        7 => KafkaCode::RequestTimedOut,
        8 => KafkaCode::BrokerNotAvailable,
        9 => KafkaCode::ReplicaNotAvailable,
        10 => KafkaCode::MessageSizeTooLarge,
        11 => KafkaCode::StaleControllerEpochCode,
        12 => KafkaCode::OffsetMetadataTooLargeCode,
        14 => KafkaCode::OffsetsLoadInProgressCode,
        15 => KafkaCode::ConsumerCoordinatorNotAvailableCode,
        16 => KafkaCode::NotCoordinatorForConsumerCode,
        17 => KafkaCode::InvalidTopicCode,
        18 => KafkaCode::RecordListTooLargeCode,
        19 => KafkaCode::NotEnoughReplicasCode,
        20 => KafkaCode::NotEnoughReplicasAfterAppendCode,
        21 => KafkaCode::InvalidRequiredAcksCode,
        22 => KafkaCode::IllegalGenerationCode,
        23 => KafkaCode::InconsistentGroupProtocolCode,
        24 => KafkaCode::InvalidGroupIdCode,
        25 => KafkaCode::UnknownMemberIdCode,
        26 => KafkaCode::InvalidSessionTimeoutCode,
        27 => KafkaCode::RebalanceInProgressCode,
        28 => KafkaCode::InvalidCommitOffsetSizeCode,
        29 => KafkaCode::TopicAuthorizationFailedCode,
        30 => KafkaCode::GroupAuthorizationFailedCode,
        31 => KafkaCode::ClusterAuthorizationFailedCode,
        _ => KafkaCode::Unknown,
    }
}

/// Among all integers, exactly `-1` and the values the table leaves out
/// map to `Unknown`; every defined value other than `-1` maps to a code
/// of its own.
pub proof fn lemma_unknown_exactly(n: int)
    ensures
        status_of(n) == KafkaCode::Unknown <==> (n == -1 || !is_defined_status(n)),
{
}

/// Relies on `std::io::ErrorKind`: the plain `Copy` classification tag
/// of a `std::io::Error`, carried here so a recorded transport failure
/// keeps the kind of the failure it came from.
#[verifier::external_type_specification]
#[verifier::external_body]
pub struct ExIoErrorKind(std::io::ErrorKind);

/// What this library records of a transport-layer I/O failure: its kind
/// and its message, as plain values. The live `std::io::Error` itself is
/// not kept, so the record can be duplicated freely.
#[derive(Debug, PartialEq)]
pub struct IoCause {
    /// The classification the failing I/O operation reported.
    pub kind: std::io::ErrorKind,
    /// The failure's message.
    pub message: String,
}

/// The failures this client library can produce.
#[derive(Debug, PartialEq)]
pub enum Error {
    /// Input/output failure while communicating with a broker.
    Io(IoCause),
    /// A status reported by a remote Kafka broker.
    Kafka(KafkaCode),
    /// A snappy-compressed response payload could not be decoded.
    InvalidInputSnappy,
    /// A decode needed more bytes than the frame had left.
    UnexpectedEOF,
    /// A request or response violated the protocol's encoding rules.
    CodecError,
    /// A byte span that should have been text failed UTF-8 decoding.
    StringDecodeError,
    /// No host of the configured bootstrap list could be reached.
    NoHostReachable,
}

/// How a copy made by `duplicate` relates to its original: any variant
/// but `Io` is carried over unchanged, while an `Io` copy keeps only the
/// recorded kind and gets the fixed message in place of the original's.
pub open spec fn is_duplicate_of(orig: Error, dup: Error) -> bool {
    match orig {
        Error::Io(c) => dup matches Error::Io(d) && d.kind == c.kind && d.message@ == "Io Error"@,
        _ => dup == orig,
    }
}

impl Error {
    /// The mapping table over signed 16-bit status fields as an option:
    /// a remote error for each defined wire value (`-1` included) and
    /// `None` for every other value.
    pub fn from_i16(n: i16) -> (r: Option<Error>)
        ensures
            is_defined_status(n as int) ==> r == Some(Error::Kafka(status_of(n as int))),
            !is_defined_status(n as int) ==> r is None,
    {
        if n == -1 || (1 <= n && n <= 31 && n != 13) {
            Some(Error::Kafka(map_status_code(n)))
        } else {
            None
        }
    }

    /// A 64-bit status field has no defined table: every value is an
    /// unknown remote error.
    pub fn from_i64(_n: i64) -> (r: Option<Error>)
        ensures
            r == Some(Error::Kafka(KafkaCode::Unknown)),
    {
        Some(Error::Kafka(KafkaCode::Unknown))
    }

    /// An unsigned 64-bit status field likewise maps to an unknown
    /// remote error.
    pub fn from_u64(_n: u64) -> (r: Option<Error>)
        ensures
            r == Some(Error::Kafka(KafkaCode::Unknown)),
    {
        Some(Error::Kafka(KafkaCode::Unknown))
    }

    /// An independent copy for fan-out reporting. Every variant but `Io`
    /// is copied exactly; an `Io` failure's record keeps its kind but
    /// trades the original message for a fixed one, so callers that need
    /// the finer detail must read it before duplicating.
    pub fn duplicate(&self) -> (r: Error)
        ensures
            is_duplicate_of(*self, r),
    {
        match self {
            Error::Io(c) => Error::Io(
                IoCause { kind: c.kind, message: String::from_str("Io Error") },
            ),
            Error::Kafka(c) => Error::Kafka(*c),
            Error::InvalidInputSnappy => Error::InvalidInputSnappy,
            Error::UnexpectedEOF => Error::UnexpectedEOF,
            Error::CodecError => Error::CodecError,
            Error::StringDecodeError => Error::StringDecodeError,
            Error::NoHostReachable => Error::NoHostReachable,
        }
    }
}

/// The name of each status code, as it appears in display output.
pub open spec fn code_name(c: KafkaCode) -> Seq<char> {
    match c {
        KafkaCode::Unknown => "Unknown"@,
        KafkaCode::OffsetOutOfRange => "OffsetOutOfRange"@,
        KafkaCode::InvalidMessage => "InvalidMessage"@,
        KafkaCode::UnknownTopicOrPartition => "UnknownTopicOrPartition"@,
        KafkaCode::InvalidMessageSize => "InvalidMessageSize"@,
        KafkaCode::LeaderNotAvailable => "LeaderNotAvailable"@,
        KafkaCode::NotLeaderForPartition => "NotLeaderForPartition"@,
        KafkaCode::RequestTimedOut => "RequestTimedOut"@,
        KafkaCode::BrokerNotAvailable => "BrokerNotAvailable"@,
        KafkaCode::ReplicaNotAvailable => "ReplicaNotAvailable"@,
        KafkaCode::MessageSizeTooLarge => "MessageSizeTooLarge"@,
        KafkaCode::StaleControllerEpochCode => "StaleControllerEpochCode"@,
        KafkaCode::OffsetMetadataTooLargeCode => "OffsetMetadataTooLargeCode"@,
        KafkaCode::OffsetsLoadInProgressCode => "OffsetsLoadInProgressCode"@,
        KafkaCode::ConsumerCoordinatorNotAvailableCode => "ConsumerCoordinatorNotAvailableCode"@,
        KafkaCode::NotCoordinatorForConsumerCode => "NotCoordinatorForConsumerCode"@,
        KafkaCode::InvalidTopicCode => "InvalidTopicCode"@,
        KafkaCode::RecordListTooLargeCode => "RecordListTooLargeCode"@,
        KafkaCode::NotEnoughReplicasCode => "NotEnoughReplicasCode"@,
        KafkaCode::NotEnoughReplicasAfterAppendCode => "NotEnoughReplicasAfterAppendCode"@,
        KafkaCode::InvalidRequiredAcksCode => "InvalidRequiredAcksCode"@,
        KafkaCode::IllegalGenerationCode => "IllegalGenerationCode"@,
        KafkaCode::InconsistentGroupProtocolCode => "InconsistentGroupProtocolCode"@,
        KafkaCode::InvalidGroupIdCode => "InvalidGroupIdCode"@,
        KafkaCode::UnknownMemberIdCode => "UnknownMemberIdCode"@,
        KafkaCode::InvalidSessionTimeoutCode => "InvalidSessionTimeoutCode"@,
        KafkaCode::RebalanceInProgressCode => "RebalanceInProgressCode"@,
        KafkaCode::InvalidCommitOffsetSizeCode => "InvalidCommitOffsetSizeCode"@,
        KafkaCode::TopicAuthorizationFailedCode => "TopicAuthorizationFailedCode"@,
        KafkaCode::GroupAuthorizationFailedCode => "GroupAuthorizationFailedCode"@,
        KafkaCode::ClusterAuthorizationFailedCode => "ClusterAuthorizationFailedCode"@,
    }
}

impl KafkaCode {
    /// The code's name, for diagnostics and display output.
    pub fn name(&self) -> (r: &'static str)
        ensures
            r@ == code_name(*self),
    {
        match self {
            KafkaCode::Unknown => "Unknown",
            KafkaCode::OffsetOutOfRange => "OffsetOutOfRange",
            KafkaCode::InvalidMessage => "InvalidMessage",
            KafkaCode::UnknownTopicOrPartition => "UnknownTopicOrPartition",
            KafkaCode::InvalidMessageSize => "InvalidMessageSize",
            KafkaCode::LeaderNotAvailable => "LeaderNotAvailable",
            KafkaCode::NotLeaderForPartition => "NotLeaderForPartition",
            KafkaCode::RequestTimedOut => "RequestTimedOut",
            KafkaCode::BrokerNotAvailable => "BrokerNotAvailable",
            KafkaCode::ReplicaNotAvailable => "ReplicaNotAvailable",
            KafkaCode::MessageSizeTooLarge => "MessageSizeTooLarge",
            KafkaCode::StaleControllerEpochCode => "StaleControllerEpochCode",
            KafkaCode::OffsetMetadataTooLargeCode => "OffsetMetadataTooLargeCode",
            KafkaCode::OffsetsLoadInProgressCode => "OffsetsLoadInProgressCode",
            KafkaCode::ConsumerCoordinatorNotAvailableCode => "ConsumerCoordinatorNotAvailableCode",
            KafkaCode::NotCoordinatorForConsumerCode => "NotCoordinatorForConsumerCode",
            KafkaCode::InvalidTopicCode => "InvalidTopicCode",
            KafkaCode::RecordListTooLargeCode => "RecordListTooLargeCode",
            KafkaCode::NotEnoughReplicasCode => "NotEnoughReplicasCode",
            KafkaCode::NotEnoughReplicasAfterAppendCode => "NotEnoughReplicasAfterAppendCode",
            KafkaCode::InvalidRequiredAcksCode => "InvalidRequiredAcksCode",
            KafkaCode::IllegalGenerationCode => "IllegalGenerationCode",
            KafkaCode::InconsistentGroupProtocolCode => "InconsistentGroupProtocolCode",
            KafkaCode::InvalidGroupIdCode => "InvalidGroupIdCode",
            KafkaCode::UnknownMemberIdCode => "UnknownMemberIdCode",
            KafkaCode::InvalidSessionTimeoutCode => "InvalidSessionTimeoutCode",
            KafkaCode::RebalanceInProgressCode => "RebalanceInProgressCode",
            KafkaCode::InvalidCommitOffsetSizeCode => "InvalidCommitOffsetSizeCode",
            KafkaCode::TopicAuthorizationFailedCode => "TopicAuthorizationFailedCode",
            KafkaCode::GroupAuthorizationFailedCode => "GroupAuthorizationFailedCode",
            KafkaCode::ClusterAuthorizationFailedCode => "ClusterAuthorizationFailedCode",
        }
    }
}

/// The short, stable summary `description` returns for each variant.
pub open spec fn description_view(e: Error) -> Seq<char> {
    match e {
        Error::Io(c) => c.message@,
        Error::Kafka(_) => "Kafka Error"@,
        Error::InvalidInputSnappy => "Snappy decode error"@,
        Error::UnexpectedEOF => "Unexpected EOF"@,
        Error::CodecError => "Encoding/Decoding error"@,
        Error::StringDecodeError => "String decoding error"@,
        Error::NoHostReachable => "No host reachable"@,
    }
}

/// The user-facing message `display` returns for each variant: the
/// recorded message of an `Io` failure, the fixed prefix and the code's
/// name for a remote error, and a fixed string for the rest.
pub open spec fn display_view(e: Error) -> Seq<char> {
    match e {
        Error::Io(c) => c.message@,
        Error::Kafka(c) => "Kafka Error ("@ + code_name(c) + ")"@,
        Error::InvalidInputSnappy => "Snappy decoding error"@,
        Error::UnexpectedEOF => "Unexpected EOF"@,
        Error::CodecError => "Encoding/Decoding Error"@,
        Error::StringDecodeError => "String decoding error"@,
        Error::NoHostReachable => "No Host Reachable"@,
    }
}

impl Error {
    /// A short, stable, human-readable summary of the failure, for
    /// logs and diagnostics rather than programmatic branching. For an
    /// `Io` failure it is the recorded message.
    pub fn description(&self) -> (r: &str)
        ensures
            r@ == description_view(*self),
    {
        match self {
            Error::Io(c) => c.message.as_str(),
            Error::Kafka(_) => "Kafka Error",
            Error::InvalidInputSnappy => "Snappy decode error",
            Error::UnexpectedEOF => "Unexpected EOF",
            Error::CodecError => "Encoding/Decoding error",
            Error::StringDecodeError => "String decoding error",
            Error::NoHostReachable => "No host reachable",
        }
    }

    /// The user-facing message, usable directly in logs or output: an
    /// `Io` failure shows its recorded message, a remote error names its
    /// status code, every other variant has a fixed message. A pure
    /// function of the value: repeated calls return the same text.
    pub fn display(&self) -> (r: String)
        ensures
            r@ == display_view(*self),
    {
        match self {
            Error::Io(c) => c.message.clone(),
            Error::Kafka(c) => {
                let mut s = String::from_str("Kafka Error (");
                s.append(c.name());
                s.append(")");
                s
            },
            Error::InvalidInputSnappy => String::from_str("Snappy decoding error"),
            Error::UnexpectedEOF => String::from_str("Unexpected EOF"),
            Error::CodecError => String::from_str("Encoding/Decoding Error"),
            Error::StringDecodeError => String::from_str("String decoding error"),
            Error::NoHostReachable => String::from_str("No Host Reachable"),
        }
    }
}

impl Clone for Error {
    /// Cloning is duplication: see `duplicate` for what an `Io` copy
    /// loses.
    fn clone(&self) -> (r: Error)
        ensures
            is_duplicate_of(*self, r),
    {
        self.duplicate()
    }
}

/// The display form of a remote error names its status code: after the
/// thirteen characters of the fixed prefix, the code's name stands
/// verbatim, followed by the closing parenthesis.
pub proof fn lemma_display_names_code(c: KafkaCode)
    ensures
        display_view(Error::Kafka(c)).len() == 14 + code_name(c).len(),
        display_view(Error::Kafka(c)).subrange(13, 13 + code_name(c).len() as int)
            == code_name(c),
{
    reveal_strlit("Kafka Error (");
    reveal_strlit(")");
    assert(display_view(Error::Kafka(c)).subrange(13, 13 + code_name(c).len() as int)
        =~= code_name(c));
}

/// Relies on `std::io::Error`: the transport layer's failure type,
/// accepted here only to be classified.
#[verifier::external_type_specification]
#[verifier::external_body]
pub struct ExIoError(std::io::Error);

/// Relies on `byteorder::Error`: the failure a frame read reports,
/// either an early end of input or an underlying I/O failure.
#[verifier::external_type_specification]
#[verifier::external_body]
pub struct ExByteorderError(ByteorderError);

/// The classification tag a `std::io::Error` value carries: what its
/// `kind` method returns, a function of the value alone.
pub uninterp spec fn io_kind_of(e: std::io::Error) -> std::io::ErrorKind;

/// Whether a `byteorder::Error` value is the early-end-of-input
/// variant, as opposed to wrapping an underlying I/O failure.
pub uninterp spec fn is_frame_eof(e: ByteorderError) -> bool;

/// The I/O failure a `byteorder::Error` value wraps, when it is not
/// the early-end-of-input variant.
pub uninterp spec fn frame_io_of(e: ByteorderError) -> std::io::Error;

/// Relies on `std::io::Error::kind`: returns the failure's
/// classification tag, a pure function of the error value.
#[verifier::external_body]
fn io_error_kind(e: &std::io::Error) -> (r: std::io::ErrorKind)
    ensures
        r == io_kind_of(*e),
{
    e.kind()
}

/// Relies on `ToString::to_string` over `std::io::Error`'s `Display`:
/// returns the failure's message. Nothing is promised of the text: for
/// an OS-level failure it comes from the system and can differ between
/// machines and locales.
#[verifier::external_body]
fn io_error_message(e: &std::io::Error) -> String {
    e.to_string()
}

/// Relies on `byteorder::Error` having exactly the variants
/// `UnexpectedEOF` and `Io`: hands out the wrapped I/O failure, or
/// `None` for an early end of input.
#[verifier::external_body]
fn frame_error_io_cause(e: ByteorderError) -> (r: Option<std::io::Error>)
    ensures
        r is None <==> is_frame_eof(e),
        r matches Some(c) ==> c == frame_io_of(e),
{
    match e {
        byteorder::Error::UnexpectedEOF => None,
        byteorder::Error::Io(cause) => Some(cause),
    }
}

/// The integer two big-endian bytes spell when read as a signed 16-bit
/// value in two's complement.
pub open spec fn signed16(hi: int, lo: int) -> int {
    let unsigned = hi * 256 + lo;
    if unsigned < 32768 {
        unsigned
    } else {
        unsigned - 65536
    }
}

/// Reads the first two bytes of `buf` as a big-endian signed 16-bit
/// integer in two's complement.
fn read_i16_be(buf: &[u8]) -> (r: i16)
    requires
        buf@.len() >= 2,
    ensures
        r as int == signed16(buf@[0] as int, buf@[1] as int),
{
    let hi = buf[0];
    let lo = buf[1];
    let unsigned: u32 = (hi as u32) * 256 + (lo as u32);
    if unsigned < 32768 {
        unsigned as i16
    } else {
        ((unsigned as i32) - 65536) as i16
    }
}

impl Error {
    /// Wraps a transport-layer I/O failure as `Io`, recording the
    /// cause's own kind and its message; the live failure value itself
    /// is not kept. The recorded message is the cause's display text,
    /// carried but not constrained here: for an OS-level failure that
    /// text depends on the system.
    pub fn from_transport_failure(cause: std::io::Error) -> (r: Error)
        ensures
            r matches Error::Io(c) && c.kind == io_kind_of(cause),
    {
        let kind = io_error_kind(&cause);
        let message = io_error_message(&cause);
        Error::Io(IoCause { kind, message })
    }

    /// Classifies a frame-read failure: an early end of input becomes
    /// `UnexpectedEOF`, and a wrapped I/O failure is recorded as `Io`,
    /// keeping that failure's kind. No failure is swallowed.
    pub fn from_frame_read_failure(cause: ByteorderError) -> (r: Error)
        ensures
            is_frame_eof(cause) ==> r == Error::UnexpectedEOF,
            !is_frame_eof(cause) ==> (r matches Error::Io(c)
                && c.kind == io_kind_of(frame_io_of(cause))),
    {
        match frame_error_io_cause(cause) {
            None => Error::UnexpectedEOF,
            Some(io_cause) => Error::from_transport_failure(io_cause),
        }
    }
}

/// Extracts the status field from the head of a response frame: the
/// first two bytes read big-endian and mapped through the table. A
/// frame with fewer than the two bytes the field needs is truncated.
pub fn read_status_code(frame: &[u8]) -> (r: Result<KafkaCode, Error>)
    ensures
        frame@.len() >= 2 ==> r == Ok::<KafkaCode, Error>(
            status_of(signed16(frame@[0] as int, frame@[1] as int)),
        ),
        frame@.len() < 2 ==> r == Err::<KafkaCode, Error>(Error::UnexpectedEOF),
{
    if frame.len() < 2 {
        Err(Error::UnexpectedEOF)
    } else {
        Ok(map_status_code(read_i16_be(frame)))
    }
}

} // verus!

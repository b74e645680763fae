//! Control-point frames of the fitness-machine control protocol.

use crate::telemetry::{FTMSData, TelemetryLayout};
use vstd::prelude::*;

verus! {

/// Largest level whose tenfold still fits the two payload bytes.
pub const MAX_PACKABLE_LEVEL: i16 = 6553;

/// Operation codes understood by the control characteristic.
#[derive(Clone, Copy, Debug, PartialEq, Eq, Structural)]
pub enum FTMSControlOpCode {
    RequestControl,
    TargetPower,
    Start,
    Stop,
    SpinDownControl,
    TargetCadence,
    Success,
}

impl FTMSControlOpCode {
    /// The byte that stands for this operation on the wire.
    pub open spec fn spec_code(self) -> u8 {
        match self {
            FTMSControlOpCode::RequestControl => 0x00,
            FTMSControlOpCode::TargetPower => 0x05,
            FTMSControlOpCode::Start => 0x07,
            FTMSControlOpCode::Stop => 0x08,
            FTMSControlOpCode::SpinDownControl => 0x13,
            FTMSControlOpCode::TargetCadence => 0x14,
            FTMSControlOpCode::Success => 0x80,
        }
    }

    /// The byte that stands for this operation on the wire.
    #[verifier::when_used_as_spec(spec_code)]
    pub fn code(self) -> (c: u8)
        ensures
            c == self.spec_code(),
    {
        match self {
            FTMSControlOpCode::RequestControl => 0x00,
            FTMSControlOpCode::TargetPower => 0x05,
            FTMSControlOpCode::Start => 0x07,
            FTMSControlOpCode::Stop => 0x08,
            FTMSControlOpCode::SpinDownControl => 0x13,
            FTMSControlOpCode::TargetCadence => 0x14,
            FTMSControlOpCode::Success => 0x80,
        }
    }
}

/// Reason sent along with a stop request.
#[derive(Clone, Copy, Debug, PartialEq, Eq, Structural)]
pub enum StopCode {
    Stop,
    Pause,
}

impl StopCode {
    /// The byte that stands for this reason on the wire.
    pub open spec fn spec_code(self) -> u8 {
        match self {
            StopCode::Stop => 0x01,
            StopCode::Pause => 0x02,
        }
    }

    /// The byte that stands for this reason on the wire.
    #[verifier::when_used_as_spec(spec_code)]
    pub fn code(self) -> (c: u8)
        ensures
            c == self.spec_code(),
    {
        match self {
            StopCode::Stop => 0x01,
            StopCode::Pause => 0x02,
        }
    }
}

/// A level that lies outside the range a device accepts.
#[derive(Clone, Copy, Debug, PartialEq, Eq, Structural)]
pub struct LevelOutOfRange {
    pub level: i16,
    pub max_level: i16,
}

/// Whether `level` is one a device with the given maximum accepts.
pub open spec fn level_in_range(level: i16, max_level: i16) -> bool {
    1 <= level <= max_level
}

/// The two payload bytes of a level: its tenfold, low byte first, cut to
/// sixteen bits.
pub open spec fn level_payload(level: int) -> Seq<u8> {
    seq![((level * 10) % 256) as u8, ((level * 10 / 256) % 256) as u8]
}

/// The number that a two-byte little-endian payload stands for.
pub open spec fn payload_value(payload: Seq<u8>) -> int {
    payload[0] as int + 256 * (payload[1] as int)
}

/// One command for the control characteristic: an operation code and up to
/// four payload bytes. Its view is the byte string that goes on the wire.
#[derive(Debug, PartialEq, Eq)]
pub struct ControlFrame {
    opcode: FTMSControlOpCode,
    payload: Vec<u8>,
}

impl View for ControlFrame {
    type V = Seq<u8>;

    closed spec fn view(&self) -> Seq<u8> {
        seq![self.opcode.spec_code()] + self.payload@
    }
}

impl ControlFrame {
    #[verifier::type_invariant]
    spec fn payload_fits(&self) -> bool {
        self.payload@.len() <= 4
    }

    /// The operation that the frame asks for.
    pub closed spec fn spec_opcode(&self) -> FTMSControlOpCode {
        self.opcode
    }

    /// The bytes that follow the operation code.
    pub closed spec fn spec_payload(&self) -> Seq<u8> {
        self.payload@
    }

    /// On the wire a frame is its operation code followed by its payload.
    pub proof fn lemma_wire_image(&self)
        ensures
            self@ == seq![self.spec_opcode().spec_code()] + self.spec_payload(),
            self@.len() == 1 + self.spec_payload().len(),
    {
    }

    /// The operation that the frame asks for.
    #[verifier::when_used_as_spec(spec_opcode)]
    pub fn opcode(&self) -> (op: FTMSControlOpCode)
        ensures
            op == self.spec_opcode(),
    {
        self.opcode
    }

    /// The bytes that follow the operation code, four at most.
    pub fn payload(&self) -> (p: &Vec<u8>)
        ensures
            p@ == self.spec_payload(),
            p@.len() <= 4,
    {
        proof {
            use_type_invariant(self);
        }
        &self.payload
    }

    /// The bytes to write to the control characteristic.
    pub fn to_bytes(&self) -> (bytes: Vec<u8>)
        ensures
            bytes@ == self@,
            bytes@ == seq![self.spec_opcode().spec_code()] + self.spec_payload(),
            1 <= bytes@.len() <= 5,
    {
        proof {
            use_type_invariant(self);
        }
        let mut bytes: Vec<u8> = Vec::new();
        bytes.push(self.opcode.code());
        let mut i: usize = 0;
        while i < self.payload.len()
            invariant
                i <= self.payload@.len(),
                bytes@ == seq![self.opcode.spec_code()] + self.payload@.subrange(0, i as int),
            decreases self.payload@.len() - i,
        {
            bytes.push(self.payload[i]);
            i += 1;
        }
        assert(self.payload@.subrange(0, i as int) == self.payload@);
        bytes
    }
}

/// The codec of one device profile: it frames control commands within the
/// profile's level range and decodes telemetry by the profile's layout.
#[derive(Clone, Copy, Debug, PartialEq, Eq, Structural)]
pub struct ProtocolCodec {
    pub layout: TelemetryLayout,
    pub max_level: i16,
}

impl ProtocolCodec {
    /// The codec for the given layout and highest level.
    pub fn new(layout: TelemetryLayout, max_level: i16) -> (codec: ProtocolCodec)
        ensures
            codec.layout == layout,
            codec.max_level == max_level,
    {
        ProtocolCodec { layout, max_level }
    }

    /// What a request to `opcode` with `level` is framed as.
    pub open spec fn level_frame(self, opcode: FTMSControlOpCode, level: i16) -> Result<
        Seq<u8>,
        LevelOutOfRange,
    > {
        if level_in_range(level, self.max_level) {
            Ok(seq![opcode.spec_code()] + level_payload(level as int))
        } else {
            Err(LevelOutOfRange { level, max_level: self.max_level })
        }
    }

    fn encode_level(&self, opcode: FTMSControlOpCode, level: i16) -> (r: Result<
        ControlFrame,
        LevelOutOfRange,
    >)
        ensures
            frame_result(r) == self.level_frame(opcode, level),
            r matches Ok(frame) ==> frame.spec_opcode() == opcode && frame.spec_payload()
                == level_payload(level as int),
    {
        if level < 1 || level > self.max_level {
            return Err(LevelOutOfRange { level, max_level: self.max_level });
        }
        let tenfold: u32 = (level as u32) * 10;
        let mut payload: Vec<u8> = Vec::new();
        payload.push((tenfold % 256) as u8);
        payload.push(((tenfold / 256) % 256) as u8);
        assert(payload@ == level_payload(level as int));
        Ok(ControlFrame { opcode, payload })
    }

    /// The frame that sets the target power to `level`: the operation code
    /// and the tenfold of the level in two bytes, low byte first. A level
    /// outside `1..=max_level` is refused.
    pub fn encode_set_power(&self, level: i16) -> (r: Result<ControlFrame, LevelOutOfRange>)
        ensures
            frame_result(r) == self.level_frame(FTMSControlOpCode::TargetPower, level),
            r matches Ok(frame) ==> frame.spec_opcode() == FTMSControlOpCode::TargetPower
                && frame.spec_payload() == level_payload(level as int),
    {
        self.encode_level(FTMSControlOpCode::TargetPower, level)
    }

    /// The frame that sets the target cadence to `level`, built like the
    /// one for power.
    pub fn encode_set_cadence(&self, level: i16) -> (r: Result<ControlFrame, LevelOutOfRange>)
        ensures
            frame_result(r) == self.level_frame(FTMSControlOpCode::TargetCadence, level),
            r matches Ok(frame) ==> frame.spec_opcode() == FTMSControlOpCode::TargetCadence
                && frame.spec_payload() == level_payload(level as int),
    {
        self.encode_level(FTMSControlOpCode::TargetCadence, level)
    }

    /// The frame that asks the device for control: the operation code
    /// alone.
    pub fn encode_request_control(&self) -> (frame: ControlFrame)
        ensures
            frame@ == request_control_frame(),
            frame.spec_opcode() == FTMSControlOpCode::RequestControl,
            frame.spec_payload() == Seq::<u8>::empty(),
    {
        let frame = ControlFrame { opcode: FTMSControlOpCode::RequestControl, payload: Vec::new() };
        assert(frame@ =~= request_control_frame());
        frame
    }

    /// The frame that stops the workout: the operation code and the stop
    /// reason.
    pub fn encode_stop(&self) -> (frame: ControlFrame)
        ensures
            frame@ == stop_frame(),
            frame.spec_opcode() == FTMSControlOpCode::Stop,
            frame.spec_payload() == seq![StopCode::Stop.spec_code()],
    {
        let mut payload: Vec<u8> = Vec::new();
        payload.push(StopCode::Stop.code());
        let frame = ControlFrame { opcode: FTMSControlOpCode::Stop, payload };
        assert(frame@ =~= stop_frame());
        frame
    }

    /// Decodes one notification frame by the profile's layout. A frame that
    /// is too short is no observation.
    pub fn decode_telemetry(&self, bytes: &[u8]) -> (data: Option<FTMSData>)
        ensures
            data == self.layout.decoded(bytes@),
            bytes@.len() < self.layout.min_len ==> data is None,
            self.layout.well_formed() ==> (data is None <==> bytes@.len() < self.layout.min_len),
    {
        self.layout.decode_telemetry(bytes)
    }
}

/// The wire image of an encoding result.
pub open spec fn frame_result(r: Result<ControlFrame, LevelOutOfRange>) -> Result<
    Seq<u8>,
    LevelOutOfRange,
> {
    match r {
        Ok(frame) => Ok(frame@),
        Err(e) => Err(e),
    }
}

/// The wire image of the request for control.
pub open spec fn request_control_frame() -> Seq<u8> {
    seq![FTMSControlOpCode::RequestControl.spec_code()]
}

/// The wire image of the stop command.
pub open spec fn stop_frame() -> Seq<u8> {
    seq![FTMSControlOpCode::Stop.spec_code(), StopCode::Stop.spec_code()]
}

/// Reading the level back from a level frame's payload gives the level
/// that was framed, as long as its tenfold fits two bytes.
pub proof fn lemma_level_round_trip(level: int)
    requires
        1 <= level <= MAX_PACKABLE_LEVEL,
    ensures
        level_payload(level).len() == 2,
        payload_value(level_payload(level)) == level * 10,
        payload_value(level_payload(level)) / 10 == level,
{
}

/// The level read back from a frame that `encode_set_power` or
/// `encode_set_cadence` built is the level that was passed in.
pub proof fn lemma_encoded_level_recovered(
    codec: ProtocolCodec,
    opcode: FTMSControlOpCode,
    level: i16,
)
    requires
        level_in_range(level, codec.max_level),
        level <= MAX_PACKABLE_LEVEL,
    ensures
        codec.level_frame(opcode, level) matches Ok(wire) && wire.len() == 3 && wire[0]
            == opcode.spec_code() && payload_value(wire.subrange(1, 3)) / 10 == level,
{
    lemma_level_round_trip(level as int);
    let wire = seq![opcode.spec_code()] + level_payload(level as int);
    assert(wire.subrange(1, 3) =~= level_payload(level as int));
}

} // verus!

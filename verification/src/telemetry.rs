//! Telemetry notifications: where each profile keeps each reading, and the
//! decoder that follows such a table.
//!
//! Readings are kept as the integers found in the frame. Their units are
//! chosen so that no reading needs a fraction: speed in hundredths of a
//! km/h, cadence in half revolutions per minute, distance in metres.

use vstd::prelude::*;

verus! {

/// Where a reading is found in a notification frame.
#[derive(Clone, Copy, Debug, PartialEq, Eq, Structural)]
pub enum FieldSource {
    /// The profile does not carry this reading.
    Absent,
    /// One byte at the given offset.
    Byte(usize),
    /// Two bytes starting at the given offset, low byte first.
    WordLe(usize),
}

impl FieldSource {
    /// Whether a frame of `len` bytes holds every byte this source reads.
    pub open spec fn fits(self, len: int) -> bool {
        match self {
            FieldSource::Absent => true,
            FieldSource::Byte(offset) => offset < len,
            FieldSource::WordLe(offset) => offset + 1 < len,
        }
    }

    /// The reading found in `bytes`; zero where the profile has none.
    pub open spec fn value(self, bytes: Seq<u8>) -> int {
        match self {
            FieldSource::Absent => 0,
            FieldSource::Byte(offset) => bytes[offset as int] as int,
            FieldSource::WordLe(offset) => bytes[offset as int] as int + 256 * (bytes[offset
                + 1] as int),
        }
    }

    fn check_fits(self, len: usize) -> (ok: bool)
        ensures
            ok == self.fits(len as int),
    {
        match self {
            FieldSource::Absent => true,
            FieldSource::Byte(offset) => offset < len,
            FieldSource::WordLe(offset) => len >= 2 && offset < len - 1,
        }
    }

    fn read(self, bytes: &[u8]) -> (v: u32)
        requires
            self.fits(bytes@.len() as int),
        ensures
            v == self.value(bytes@),
            v <= 0xFFFF,
    {
        match self {
            FieldSource::Absent => 0,
            FieldSource::Byte(offset) => bytes[offset] as u32,
            FieldSource::WordLe(offset) => bytes[offset] as u32 + 256 * (bytes[offset + 1] as u32),
        }
    }
}

/// The frame layout of one device profile.
#[derive(Clone, Copy, Debug, PartialEq, Eq, Structural)]
pub struct TelemetryLayout {
    /// Frames shorter than this carry no observation.
    pub min_len: usize,
    pub speed: FieldSource,
    pub cadence: FieldSource,
    /// The device counts whole revolutions: its half-revolution reading is
    /// rounded to the nearest whole one, halves upwards.
    pub cadence_rounded: bool,
    pub distance: FieldSource,
    pub resistance: FieldSource,
    pub power: FieldSource,
    pub calories: FieldSource,
    pub heart_rate: FieldSource,
    pub time: FieldSource,
}

/// One decoded observation. A reading that the profile does not carry is
/// zero.
#[derive(Clone, Copy, Debug, PartialEq, Eq, Structural)]
pub struct FTMSData {
    /// Hundredths of a km/h.
    pub speed: u32,
    /// Half revolutions per minute.
    pub cadence: u32,
    /// Metres.
    pub distance: u32,
    pub resistance: u32,
    /// Watts.
    pub power: u32,
    pub calories: u32,
    /// Beats per minute.
    pub heart_rate: u32,
    /// Seconds since the workout began.
    pub time: u32,
}

/// A half-revolution count rounded to whole revolutions, halves upwards,
/// still counted in halves.
pub open spec fn round_to_whole(halves: int) -> int {
    2 * ((halves + 1) / 2)
}

impl TelemetryLayout {
    /// Whether a frame of `len` bytes is long enough to be decoded: it has
    /// the profile's minimum length and holds every reading.
    pub open spec fn accepts(self, len: int) -> bool {
        &&& self.min_len <= len
        &&& self.speed.fits(len)
        &&& self.cadence.fits(len)
        &&& self.distance.fits(len)
        &&& self.resistance.fits(len)
        &&& self.power.fits(len)
        &&& self.calories.fits(len)
        &&& self.heart_rate.fits(len)
        &&& self.time.fits(len)
    }

    /// Whether every frame of the minimum length holds every reading.
    pub open spec fn well_formed(self) -> bool {
        self.accepts(self.min_len as int)
    }

    /// The cadence that `bytes` stand for, in half revolutions per minute.
    pub open spec fn cadence_of(self, bytes: Seq<u8>) -> int {
        if self.cadence_rounded {
            round_to_whole(self.cadence.value(bytes))
        } else {
            self.cadence.value(bytes)
        }
    }

    /// What a frame decodes to.
    pub open spec fn decoded(self, bytes: Seq<u8>) -> Option<FTMSData> {
        if self.accepts(bytes.len() as int) {
            Some(
                FTMSData {
                    speed: self.speed.value(bytes) as u32,
                    cadence: self.cadence_of(bytes) as u32,
                    distance: self.distance.value(bytes) as u32,
                    resistance: self.resistance.value(bytes) as u32,
                    power: self.power.value(bytes) as u32,
                    calories: self.calories.value(bytes) as u32,
                    heart_rate: self.heart_rate.value(bytes) as u32,
                    time: self.time.value(bytes) as u32,
                },
            )
        } else {
            None
        }
    }

    /// A layout that carries no reading and accepts every frame.
    pub open spec fn spec_blank() -> TelemetryLayout {
        TelemetryLayout {
            min_len: 0,
            speed: FieldSource::Absent,
            cadence: FieldSource::Absent,
            cadence_rounded: false,
            distance: FieldSource::Absent,
            resistance: FieldSource::Absent,
            power: FieldSource::Absent,
            calories: FieldSource::Absent,
            heart_rate: FieldSource::Absent,
            time: FieldSource::Absent,
        }
    }

    /// A layout that carries no reading and accepts every frame.
    pub fn blank() -> (layout: TelemetryLayout)
        ensures
            layout == Self::spec_blank(),
            layout.well_formed(),
            forall|bytes: Seq<u8>| #[trigger] layout.decoded(bytes) == Some(FTMSData::spec_zero()),
    {
        TelemetryLayout {
            min_len: 0,
            speed: FieldSource::Absent,
            cadence: FieldSource::Absent,
            cadence_rounded: false,
            distance: FieldSource::Absent,
            resistance: FieldSource::Absent,
            power: FieldSource::Absent,
            calories: FieldSource::Absent,
            heart_rate: FieldSource::Absent,
            time: FieldSource::Absent,
        }
    }

    /// The twenty-byte layout of plain fitness-machine bikes.
    pub fn indoor_bike() -> (layout: TelemetryLayout)
        ensures
            layout == Self::spec_indoor_bike(),
            layout.well_formed(),
    {
        TelemetryLayout {
            min_len: 20,
            speed: FieldSource::WordLe(2),
            cadence: FieldSource::Byte(4),
            cadence_rounded: false,
            distance: FieldSource::Byte(6),
            resistance: FieldSource::Byte(9),
            power: FieldSource::Byte(11),
            calories: FieldSource::Byte(13),
            heart_rate: FieldSource::Byte(18),
            time: FieldSource::Byte(19),
        }
    }

    /// The twenty-byte layout of plain fitness-machine bikes.
    pub open spec fn spec_indoor_bike() -> TelemetryLayout {
        TelemetryLayout {
            min_len: 20,
            speed: FieldSource::WordLe(2),
            cadence: FieldSource::Byte(4),
            cadence_rounded: false,
            distance: FieldSource::Byte(6),
            resistance: FieldSource::Byte(9),
            power: FieldSource::Byte(11),
            calories: FieldSource::Byte(13),
            heart_rate: FieldSource::Byte(18),
            time: FieldSource::Byte(19),
        }
    }

    /// The twenty-nine-byte layout of the iConsole+0028 bike.
    pub fn iconsole_0028() -> (layout: TelemetryLayout)
        ensures
            layout == Self::spec_iconsole_0028(),
            layout.well_formed(),
    {
        TelemetryLayout {
            min_len: 29,
            speed: FieldSource::WordLe(2),
            cadence: FieldSource::Byte(6),
            cadence_rounded: true,
            distance: FieldSource::Byte(10),
            resistance: FieldSource::Absent,
            power: FieldSource::Byte(15),
            calories: FieldSource::Absent,
            heart_rate: FieldSource::Absent,
            time: FieldSource::WordLe(26),
        }
    }

    /// The twenty-nine-byte layout of the iConsole+0028 bike.
    pub open spec fn spec_iconsole_0028() -> TelemetryLayout {
        TelemetryLayout {
            min_len: 29,
            speed: FieldSource::WordLe(2),
            cadence: FieldSource::Byte(6),
            cadence_rounded: true,
            distance: FieldSource::Byte(10),
            resistance: FieldSource::Absent,
            power: FieldSource::Byte(15),
            calories: FieldSource::Absent,
            heart_rate: FieldSource::Absent,
            time: FieldSource::WordLe(26),
        }
    }

    /// Whether a frame of `len` bytes can be decoded.
    pub fn check_accepts(&self, len: usize) -> (ok: bool)
        ensures
            ok == self.accepts(len as int),
    {
        self.min_len <= len && self.speed.check_fits(len) && self.cadence.check_fits(len)
            && self.distance.check_fits(len) && self.resistance.check_fits(len)
            && self.power.check_fits(len) && self.calories.check_fits(len)
            && self.heart_rate.check_fits(len) && self.time.check_fits(len)
    }

    /// Decodes one notification frame. A frame that is too short is no
    /// observation; it is never a fault.
    pub fn decode_telemetry(&self, bytes: &[u8]) -> (data: Option<FTMSData>)
        ensures
            data == self.decoded(bytes@),
            bytes@.len() < self.min_len ==> data is None,
            self.well_formed() ==> (data is None <==> bytes@.len() < self.min_len),
    {
        if !self.check_accepts(bytes.len()) {
            return None;
        }
        let halves: u32 = self.cadence.read(bytes);
        let cadence: u32 = if self.cadence_rounded {
            2 * ((halves + 1) / 2)
        } else {
            halves
        };
        Some(
            FTMSData {
                speed: self.speed.read(bytes),
                cadence,
                distance: self.distance.read(bytes),
                resistance: self.resistance.read(bytes),
                power: self.power.read(bytes),
                calories: self.calories.read(bytes),
                heart_rate: self.heart_rate.read(bytes),
                time: self.time.read(bytes),
            },
        )
    }
}

impl FTMSData {
    /// The observation with every reading at zero.
    pub open spec fn spec_zero() -> FTMSData {
        FTMSData {
            speed: 0,
            cadence: 0,
            distance: 0,
            resistance: 0,
            power: 0,
            calories: 0,
            heart_rate: 0,
            time: 0,
        }
    }
}

impl Default for FTMSData {
    /// The observation with every reading at zero.
    fn default() -> (data: FTMSData)
        ensures
            data == FTMSData::spec_zero(),
    {
        FTMSData {
            speed: 0,
            cadence: 0,
            distance: 0,
            resistance: 0,
            power: 0,
            calories: 0,
            heart_rate: 0,
            time: 0,
        }
    }
}

} // verus!

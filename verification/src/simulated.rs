//! A stand-in for equipment that is no wireless device: it takes every
//! level in range and reports nothing but the time.

use crate::protocol::{level_in_range, LevelOutOfRange};
use crate::telemetry::FTMSData;
use vstd::prelude::*;

verus! {

/// Equipment that exists in name only.
#[derive(Debug)]
pub struct NonBluetoothDevice {
    pub name: String,
    /// The highest level the device takes.
    pub max_level: i16,
}

impl NonBluetoothDevice {
    /// A device that takes levels up to `max_level`.
    pub fn new(max_level: i16) -> (device: NonBluetoothDevice)
        ensures
            device.max_level == max_level,
            device.name@ == "some hypothetical non-bluetooth device"@,
    {
        NonBluetoothDevice { name: "some hypothetical non-bluetooth device".to_owned(), max_level }
    }

    /// Connecting always succeeds.
    pub fn connect(&mut self) -> (connected: bool)
        ensures
            connected,
            *final(self) == *old(self),
    {
        true
    }

    /// Disconnecting has nothing to undo.
    pub fn disconnect(&self) {
    }

    /// Takes a level, if it lies in `1..=max_level`.
    pub fn set_level(&self, level: i16) -> (r: Result<(), LevelOutOfRange>)
        ensures
            level_in_range(level, self.max_level) ==> r is Ok,
            !level_in_range(level, self.max_level) ==> r == Err::<(), LevelOutOfRange>(
                LevelOutOfRange { level, max_level: self.max_level },
            ),
    {
        if level < 1 || level > self.max_level {
            return Err(LevelOutOfRange { level, max_level: self.max_level });
        }
        Ok(())
    }

    /// The observation after `elapsed_secs` seconds: every reading is zero
    /// but the time, which is the seconds counted in sixteen bits.
    pub fn read(&self, elapsed_secs: u64) -> (data: Option<FTMSData>)
        ensures
            data == Some(
                FTMSData { time: (elapsed_secs % 0x1_0000) as u32, ..FTMSData::spec_zero() },
            ),
    {
        let mut data = FTMSData::default();
        data.time = (elapsed_secs % 0x1_0000) as u32;
        Some(data)
    }
}

/// A bike that exists in name only. It reports nothing at all.
#[derive(Debug)]
pub struct NonBluetoothBike {
    pub name: String,
    /// The highest level the bike takes.
    pub max_level: i16,
}

impl NonBluetoothBike {
    /// A bike that takes levels up to `max_level`.
    pub fn new(max_level: i16) -> (bike: NonBluetoothBike)
        ensures
            bike.max_level == max_level,
            bike.name@ == "some hypothetical non-bluetooth bike"@,
    {
        NonBluetoothBike { name: "some hypothetical non-bluetooth bike".to_owned(), max_level }
    }

    /// Connecting always succeeds.
    pub fn connect(&self) -> (connected: bool)
        ensures
            connected,
    {
        true
    }

    /// Disconnecting has nothing to undo.
    pub fn disconnect(&self) {
    }

    /// Takes a level, if it lies in `1..=max_level`.
    pub fn set_level(&self, level: i16) -> (r: Result<(), LevelOutOfRange>)
        ensures
            level_in_range(level, self.max_level) ==> r is Ok,
            !level_in_range(level, self.max_level) ==> r == Err::<(), LevelOutOfRange>(
                LevelOutOfRange { level, max_level: self.max_level },
            ),
    {
        if level < 1 || level > self.max_level {
            return Err(LevelOutOfRange { level, max_level: self.max_level });
        }
        Ok(())
    }

    /// The observation with every reading at zero.
    pub fn read(&self) -> (data: Option<FTMSData>)
        ensures
            data == Some(FTMSData::spec_zero()),
    {
        Some(FTMSData::default())
    }
}

} // verus!

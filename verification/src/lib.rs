//! Music-driven resistance for fitness equipment: the louder the music,
//! the harder the ride.
//!
//! This library holds the decisions of that control loop, stated over
//! integers and bytes and proved against their contracts:
//!
//! - [`score`] and [`analysis`]: scores in fixed point, and how the reading
//!   of a loudness or spectrum scorer becomes one;
//! - [`level`]: from scores to resistance levels, and the hysteresis that
//!   keeps level noise from the device;
//! - [`protocol`] and [`telemetry`]: the control frames and the telemetry
//!   layouts of the device profiles;
//! - [`profile`] and [`gatt`]: what is fixed for each kind of equipment,
//!   and the roles that the characteristics of a peripheral play;
//! - [`discovery`] and [`session`]: the scan for a peripheral and the
//!   session with it, as state machines that answer events with commands;
//! - [`audio`] and [`orchestrator`]: the decisions of the producer that
//!   plays the album and of the run that feeds the equipment;
//! - [`simulated`], [`cadence`], [`tags`], [`text`]: a stand-in device and
//!   small helpers.
//!
//! Waiting, reading and writing are left to the caller: it carries out
//! what the state machines ask for and reports back what happened.

pub mod analysis;
pub mod audio;
pub mod cadence;
pub mod discovery;
pub mod gatt;
pub mod level;
pub mod orchestrator;
pub mod profile;
pub mod protocol;
pub mod score;
pub mod session;
pub mod simulated;
pub mod tags;
pub mod telemetry;
pub mod text;

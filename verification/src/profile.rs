//! The kinds of equipment and what is fixed for each: the name it
//! advertises, its telemetry layout, the roles it needs.

use crate::gatt::Role;
use crate::telemetry::TelemetryLayout;
use crate::text::text_equal;
use vstd::prelude::*;

verus! {

/// A kind of equipment.
#[derive(Clone, Copy, Debug, PartialEq, Eq, Structural)]
pub enum EquipmentType {
    /// The iConsole+0028 exercise bike.
    Iconsole0028Bike,
    /// Any peripheral, listened to without control: every notifying
    /// characteristic is subscribed to and nothing is written.
    DebugBike,
    /// A stand-in that is no wireless device at all.
    NonBluetoothDevice,
    /// A plain fitness-machine bike with the twenty-byte telemetry frame.
    IndoorBike,
}

impl EquipmentType {
    /// The text that the advertised name of such a device holds.
    pub open spec fn spec_name_predicate(self) -> Seq<char> {
        match self {
            EquipmentType::Iconsole0028Bike => "iConsole+0028"@,
            EquipmentType::DebugBike => "Console"@,
            _ => "bike"@,
        }
    }

    /// The text that the advertised name of such a device holds.
    pub fn name_predicate(self) -> (predicate: &'static str)
        ensures
            predicate@ == self.spec_name_predicate(),
    {
        match self {
            EquipmentType::Iconsole0028Bike => "iConsole+0028",
            EquipmentType::DebugBike => "Console",
            _ => "bike",
        }
    }

    /// The kind that a name on the command line stands for.
    pub open spec fn spec_from_name(name: Seq<char>) -> Option<EquipmentType> {
        if name == "28"@ {
            Some(EquipmentType::Iconsole0028Bike)
        } else if name == "debug"@ {
            Some(EquipmentType::DebugBike)
        } else if name == "device"@ {
            Some(EquipmentType::NonBluetoothDevice)
        } else if name == "bike"@ {
            Some(EquipmentType::IndoorBike)
        } else {
            None
        }
    }

    /// The kind that a name on the command line stands for; none for a
    /// name that stands for no kind.
    pub fn from_name(name: &str) -> (kind: Option<EquipmentType>)
        ensures
            kind == Self::spec_from_name(name@),
    {
        if text_equal(name, "28") {
            Some(EquipmentType::Iconsole0028Bike)
        } else if text_equal(name, "debug") {
            Some(EquipmentType::DebugBike)
        } else if text_equal(name, "device") {
            Some(EquipmentType::NonBluetoothDevice)
        } else if text_equal(name, "bike") {
            Some(EquipmentType::IndoorBike)
        } else {
            None
        }
    }

    /// Whether such a device is reached over the air.
    pub open spec fn spec_is_wireless(self) -> bool {
        !(self is NonBluetoothDevice)
    }

    /// Whether such a device is reached over the air.
    #[verifier::when_used_as_spec(spec_is_wireless)]
    pub fn is_wireless(self) -> (yes: bool)
        ensures
            yes == self.spec_is_wireless(),
    {
        match self {
            EquipmentType::NonBluetoothDevice => false,
            _ => true,
        }
    }

    /// Whether a session with such a device writes control frames.
    pub open spec fn spec_writes_control(self) -> bool {
        self is Iconsole0028Bike || self is IndoorBike
    }

    /// Whether a session with such a device writes control frames.
    #[verifier::when_used_as_spec(spec_writes_control)]
    pub fn writes_control(self) -> (yes: bool)
        ensures
            yes == self.spec_writes_control(),
    {
        match self {
            EquipmentType::Iconsole0028Bike => true,
            EquipmentType::IndoorBike => true,
            _ => false,
        }
    }

    /// Whether a session with such a device subscribes to the
    /// characteristic that plays `role`, where there is one. A session that
    /// goes by roles subscribes to notifications and to telemetry.
    pub open spec fn spec_subscribes_to(self, role: Role) -> bool {
        self.spec_writes_control() && (role is Notify || role is Stats)
    }

    /// Whether a session with such a device subscribes to the
    /// characteristic that plays `role`, where there is one.
    #[verifier::when_used_as_spec(spec_subscribes_to)]
    pub fn subscribes_to(self, role: Role) -> (yes: bool)
        ensures
            yes == self.spec_subscribes_to(role),
    {
        let listened_to = match role {
            Role::Notify => true,
            Role::Stats => true,
            Role::Control => false,
        };
        self.writes_control() && listened_to
    }

    /// Whether a session with such a device cannot do without the
    /// characteristic that plays `role`. The plain bike needs all three
    /// roles; the iConsole bike needs telemetry and control.
    pub open spec fn spec_needs(self, role: Role) -> bool {
        match (self, role) {
            (EquipmentType::IndoorBike, _) => true,
            (EquipmentType::Iconsole0028Bike, Role::Stats) => true,
            (EquipmentType::Iconsole0028Bike, Role::Control) => true,
            _ => false,
        }
    }

    /// Whether a session with such a device cannot do without the
    /// characteristic that plays `role`.
    #[verifier::when_used_as_spec(spec_needs)]
    pub fn needs(self, role: Role) -> (yes: bool)
        ensures
            yes == self.spec_needs(role),
    {
        match (self, role) {
            (EquipmentType::IndoorBike, _) => true,
            (EquipmentType::Iconsole0028Bike, Role::Stats) => true,
            (EquipmentType::Iconsole0028Bike, Role::Control) => true,
            _ => false,
        }
    }

    /// Whether a session with such a device subscribes to every
    /// characteristic that sends notifications.
    pub open spec fn spec_subscribes_to_all(self) -> bool {
        self is DebugBike
    }

    /// Whether a session with such a device subscribes to every
    /// characteristic that sends notifications.
    #[verifier::when_used_as_spec(spec_subscribes_to_all)]
    pub fn subscribes_to_all(self) -> (yes: bool)
        ensures
            yes == self.spec_subscribes_to_all(),
    {
        match self {
            EquipmentType::DebugBike => true,
            _ => false,
        }
    }

    /// The telemetry layout of such a device.
    pub open spec fn spec_layout(self) -> TelemetryLayout {
        match self {
            EquipmentType::Iconsole0028Bike => TelemetryLayout::spec_iconsole_0028(),
            EquipmentType::IndoorBike => TelemetryLayout::spec_indoor_bike(),
            _ => TelemetryLayout::spec_blank(),
        }
    }

    /// The telemetry layout of such a device.
    pub fn layout(self) -> (layout: TelemetryLayout)
        ensures
            layout == self.spec_layout(),
            layout.well_formed(),
    {
        match self {
            EquipmentType::Iconsole0028Bike => TelemetryLayout::iconsole_0028(),
            EquipmentType::IndoorBike => TelemetryLayout::indoor_bike(),
            _ => TelemetryLayout::blank(),
        }
    }
}

} // verus!

//! The session with one piece of equipment, as a state machine.
//!
//! The session decides; the caller acts. Each method stands for something
//! that happened (the link came up, the characteristics are known, a
//! subscription stands) and answers with the commands to carry out next.
//! The caller carries a command out, waits for it to finish and reports
//! back. A write is handed out only while no other is under way: the
//! next one follows the acknowledgement of the one before.

use crate::gatt::{classify, notifying, notifying_places, CharacteristicInfo, Role, Roles};
use crate::profile::EquipmentType;
use crate::protocol::{
    level_in_range, level_payload, request_control_frame, stop_frame, ControlFrame,
    FTMSControlOpCode, LevelOutOfRange, ProtocolCodec,
};
use crate::telemetry::FTMSData;
use vstd::prelude::*;

verus! {

/// Where a session stands.
#[derive(Clone, Copy, Debug, PartialEq, Eq, Structural)]
pub enum SessionState {
    Disconnected,
    Connecting,
    EnumeratingCharacteristics,
    Subscribing,
    RequestingControl,
    Ready,
    /// Torn down; a closed session stays closed.
    Closed,
}

/// How far the writes that set a level have come.
#[derive(Clone, Copy, Debug, PartialEq, Eq, Structural)]
pub enum WriteStage {
    /// No write is under way.
    Idle,
    /// The cadence frame for this level is under way; the power frame
    /// follows.
    Cadence(i16),
    /// The power frame is under way.
    Power,
}

/// Something for the caller to carry out on the peripheral.
/// Characteristics are named by their place in the discovered list.
#[derive(Debug, PartialEq, Eq)]
pub enum Command {
    /// Open the link.
    OpenLink,
    /// Discover the services and report the characteristics.
    DiscoverServices,
    /// Subscribe to the notifications of a characteristic.
    Subscribe(usize),
    /// Write a frame to a characteristic and wait for the acknowledgement.
    Write(usize, ControlFrame),
    /// End the subscription to a characteristic.
    Unsubscribe(usize),
    /// Close the link.
    CloseLink,
}

/// A command with its frame as the bytes on the wire.
pub enum CommandView {
    OpenLink,
    DiscoverServices,
    Subscribe(usize),
    Write(usize, Seq<u8>),
    Unsubscribe(usize),
    CloseLink,
}

impl View for Command {
    type V = CommandView;

    open spec fn view(&self) -> CommandView {
        match self {
            Command::OpenLink => CommandView::OpenLink,
            Command::DiscoverServices => CommandView::DiscoverServices,
            Command::Subscribe(place) => CommandView::Subscribe(*place),
            Command::Write(place, frame) => CommandView::Write(*place, frame@),
            Command::Unsubscribe(place) => CommandView::Unsubscribe(*place),
            Command::CloseLink => CommandView::CloseLink,
        }
    }
}

/// The views of a list of commands, in order.
pub open spec fn plan_view(plan: Seq<Command>) -> Seq<CommandView> {
    plan.map_values(|command: Command| command@)
}

/// The view of a command that may be absent.
pub open spec fn command_view(command: Option<Command>) -> Option<CommandView> {
    match command {
        Some(command) => Some(command@),
        None => None,
    }
}

/// Why a session refused.
#[derive(Clone, Copy, Debug, PartialEq, Eq, Structural)]
pub enum SessionError {
    /// The level is not one the device accepts. Nothing was written.
    LevelOutOfRange(LevelOutOfRange),
    /// The peripheral has no characteristic for a role the session cannot
    /// do without.
    MissingRole(Role),
    /// The session is not in a state in which this can happen.
    WrongState(SessionState),
    /// A level is still being written.
    WriteInFlight,
    /// No write of a level is under way that could have been acknowledged.
    NoWriteInFlight,
}

/// The first role that the kind cannot do without and that was not found.
pub open spec fn missing_role(kind: EquipmentType, roles: Roles) -> Option<Role> {
    if kind.spec_needs(Role::Notify) && roles.notify is None {
        Some(Role::Notify)
    } else if kind.spec_needs(Role::Stats) && roles.stats is None {
        Some(Role::Stats)
    } else if kind.spec_needs(Role::Control) && roles.control is None {
        Some(Role::Control)
    } else {
        None
    }
}

/// The characteristics that a session of the kind subscribes to, in the
/// order in which it does.
pub open spec fn subscriptions(
    kind: EquipmentType,
    characteristics: Seq<CharacteristicInfo>,
) -> Seq<usize> {
    let roles = Roles::of(characteristics);
    if kind.spec_subscribes_to_all() {
        notifying_places(characteristics)
    } else {
        let notify = if kind.spec_subscribes_to(Role::Notify) && roles.notify is Some {
            seq![roles.notify->Some_0]
        } else {
            Seq::empty()
        };
        let stats = if kind.spec_subscribes_to(Role::Stats) && roles.stats is Some {
            seq![roles.stats->Some_0]
        } else {
            Seq::empty()
        };
        notify + stats
    }
}

/// What a session knows.
pub struct SessionView {
    pub kind: EquipmentType,
    pub max_level: i16,
    pub state: SessionState,
    /// The roles found when the characteristics were discovered.
    pub roles: Roles,
    /// The subscriptions that the session asks for, in order.
    pub wanted: Seq<usize>,
    /// How many of them stand: the first `active` of `wanted`.
    pub active: int,
    /// How far the writes that set a level have come.
    pub stage: WriteStage,
}

impl SessionView {
    /// What holds of every session: the subscriptions that stand are among
    /// those asked for, and all of them stand once control is requested;
    /// from the moment it subscribes a session that writes control frames
    /// knows its control characteristic; and a level is written by a ready
    /// session only, and only a level in range.
    pub open spec fn well_formed(self) -> bool {
        &&& 0 <= self.active <= self.wanted.len()
        &&& (self.state is RequestingControl || self.state is Ready) ==> self.active
            == self.wanted.len()
        &&& (self.state is Subscribing || self.state is RequestingControl || self.state is Ready)
            && self.kind.spec_writes_control() ==> self.roles.control is Some
        &&& !(self.stage is Idle) ==> self.state is Ready && self.kind.spec_writes_control()
        &&& self.stage matches WriteStage::Cadence(level) ==> level_in_range(level, self.max_level)
    }

    /// Whether a write is under way that the device has yet to
    /// acknowledge: the request for control, or a frame that sets a level.
    pub open spec fn write_in_flight(self) -> bool {
        self.state is RequestingControl || !(self.stage is Idle)
    }

    /// The state that follows once the characteristics are known and
    /// `active` subscriptions stand: the next subscription, then the
    /// request for control where the kind writes control frames, then
    /// ready.
    pub open spec fn next_state(self) -> SessionState {
        if self.active < self.wanted.len() {
            SessionState::Subscribing
        } else if self.kind.spec_writes_control() {
            SessionState::RequestingControl
        } else {
            SessionState::Ready
        }
    }

    /// The command that goes with `next_state`.
    pub open spec fn next_command(self) -> Option<CommandView> {
        if self.active < self.wanted.len() {
            Some(CommandView::Subscribe(self.wanted[self.active]))
        } else if self.kind.spec_writes_control() {
            Some(CommandView::Write(self.roles.control->Some_0, request_control_frame()))
        } else {
            None
        }
    }

    /// The commands that tear the session down: end every subscription
    /// that stands, tell the device to stop where a control characteristic
    /// is known, close the link. A closed session has nothing left to do.
    pub open spec fn teardown(self) -> Seq<CommandView> {
        if self.state is Closed {
            Seq::empty()
        } else {
            let unsubscribe = Seq::new(
                self.active as nat,
                |i: int| CommandView::Unsubscribe(self.wanted[i]),
            );
            let stop = if self.kind.spec_writes_control() && self.roles.control is Some {
                seq![CommandView::Write(self.roles.control->Some_0, stop_frame())]
            } else {
                Seq::empty()
            };
            let close = if self.kind.spec_is_wireless() {
                seq![CommandView::CloseLink]
            } else {
                Seq::empty()
            };
            unsubscribe + stop + close
        }
    }

    /// The write of the cadence frame for `level` to the control
    /// characteristic.
    pub open spec fn cadence_write(self, level: i16) -> CommandView {
        CommandView::Write(
            self.roles.control->Some_0,
            seq![FTMSControlOpCode::TargetCadence.spec_code()] + level_payload(level as int),
        )
    }

    /// The write of the power frame for `level` to the control
    /// characteristic.
    pub open spec fn power_write(self, level: i16) -> CommandView {
        CommandView::Write(
            self.roles.control->Some_0,
            seq![FTMSControlOpCode::TargetPower.spec_code()] + level_payload(level as int),
        )
    }
}

/// The session with one piece of equipment.
#[derive(Debug)]
pub struct EquipmentSession {
    kind: EquipmentType,
    codec: ProtocolCodec,
    state: SessionState,
    roles: Roles,
    wanted: Vec<usize>,
    active: usize,
    stage: WriteStage,
}

impl View for EquipmentSession {
    type V = SessionView;

    closed spec fn view(&self) -> SessionView {
        SessionView {
            kind: self.kind,
            max_level: self.codec.max_level,
            state: self.state,
            roles: self.roles,
            wanted: self.wanted@,
            active: self.active as int,
            stage: self.stage,
        }
    }
}

impl EquipmentSession {
    #[verifier::type_invariant]
    spec fn inv(&self) -> bool {
        &&& self@.well_formed()
        &&& self.codec.layout == self.kind.spec_layout()
    }

    /// A session with equipment of the given kind that takes levels up to
    /// `max_level`. Nothing is connected yet.
    pub fn new(kind: EquipmentType, max_level: i16) -> (session: EquipmentSession)
        ensures
            session@ == (SessionView {
                kind,
                max_level,
                state: SessionState::Disconnected,
                roles: Roles::spec_none(),
                wanted: Seq::empty(),
                active: 0,
                stage: WriteStage::Idle,
            }),
            session@.well_formed(),
    {
        EquipmentSession {
            kind,
            codec: ProtocolCodec::new(kind.layout(), max_level),
            state: SessionState::Disconnected,
            roles: Roles::none(),
            wanted: Vec::new(),
            active: 0,
            stage: WriteStage::Idle,
        }
    }

    /// Where the session stands.
    pub fn state(&self) -> (state: SessionState)
        ensures
            state == self@.state,
    {
        self.state
    }

    /// The kind of equipment.
    pub fn kind(&self) -> (kind: EquipmentType)
        ensures
            kind == self@.kind,
    {
        self.kind
    }

    /// The highest level the equipment takes.
    pub fn max_level(&self) -> (max_level: i16)
        ensures
            max_level == self@.max_level,
    {
        self.codec.max_level
    }

    /// The roles found when the characteristics were discovered.
    pub fn roles(&self) -> (roles: Roles)
        ensures
            roles == self@.roles,
    {
        self.roles
    }

    /// How far the writes that set a level have come.
    pub fn stage(&self) -> (stage: WriteStage)
        ensures
            stage == self@.stage,
    {
        self.stage
    }

    fn advance(&mut self) -> (command: Option<Command>)
        requires
            old(self).state is EnumeratingCharacteristics || old(self).state is Subscribing,
            old(self).kind.spec_writes_control() ==> old(self).roles.control is Some,
        ensures
            final(self)@ == (SessionView { state: old(self)@.next_state(), ..old(self)@ }),
            command_view(command) == old(self)@.next_command(),
    {
        proof {
            use_type_invariant(&*self);
        }
        if self.active < self.wanted.len() {
            self.state = SessionState::Subscribing;
            return Some(Command::Subscribe(self.wanted[self.active]));
        }
        match self.roles.control {
            Some(control) => {
                if self.kind.writes_control() {
                    self.state = SessionState::RequestingControl;
                    return Some(Command::Write(control, self.codec.encode_request_control()));
                }
            },
            None => {},
        }
        self.state = SessionState::Ready;
        None
    }

    /// Begins to connect. `link_up` says whether the link to the
    /// peripheral stands already.
    ///
    /// A ready session is connected: nothing is to be done. A fresh one
    /// opens the link, unless it stands, and goes on to discover the
    /// services; equipment that is not wireless is ready at once. In any
    /// other state the call is refused and changes nothing.
    pub fn connect(&mut self, link_up: bool) -> (r: Result<Option<Command>, SessionError>)
        ensures
            final(self)@.well_formed(),
            match old(self)@.state {
                SessionState::Ready => {
                    &&& r == Ok::<Option<Command>, SessionError>(None)
                    &&& final(self)@ == old(self)@
                },
                SessionState::Disconnected => if !old(self)@.kind.spec_is_wireless() {
                    &&& r == Ok::<Option<Command>, SessionError>(None)
                    &&& final(self)@ == (SessionView {
                        state: SessionState::Ready,
                        wanted: Seq::empty(),
                        active: 0,
                        ..old(self)@
                    })
                } else if link_up {
                    &&& r == Ok::<Option<Command>, SessionError>(Some(Command::DiscoverServices))
                    &&& final(self)@ == (SessionView {
                        state: SessionState::EnumeratingCharacteristics,
                        ..old(self)@
                    })
                } else {
                    &&& r == Ok::<Option<Command>, SessionError>(Some(Command::OpenLink))
                    &&& final(self)@ == (SessionView {
                        state: SessionState::Connecting,
                        ..old(self)@
                    })
                },
                other => {
                    &&& r == Err::<Option<Command>, SessionError>(SessionError::WrongState(other))
                    &&& final(self)@ == old(self)@
                },
            },
    {
        proof {
            use_type_invariant(&*self);
        }
        match self.state {
            SessionState::Ready => Ok(None),
            SessionState::Disconnected => {
                if !self.kind.is_wireless() {
                    self.active = 0;
                    self.wanted = Vec::new();
                    self.state = SessionState::Ready;
                    Ok(None)
                } else if link_up {
                    self.state = SessionState::EnumeratingCharacteristics;
                    Ok(Some(Command::DiscoverServices))
                } else {
                    self.state = SessionState::Connecting;
                    Ok(Some(Command::OpenLink))
                }
            },
            other => Err(SessionError::WrongState(other)),
        }
    }

    /// The link has come up: the services are discovered next.
    pub fn link_opened(&mut self) -> (r: Result<Command, SessionError>)
        ensures
            final(self)@.well_formed(),
            old(self)@.state is Connecting ==> r == Ok::<Command, SessionError>(
                Command::DiscoverServices,
            ) && final(self)@ == (SessionView {
                state: SessionState::EnumeratingCharacteristics,
                ..old(self)@
            }),
            !(old(self)@.state is Connecting) ==> r == Err::<Command, SessionError>(
                SessionError::WrongState(old(self)@.state),
            ) && final(self)@ == old(self)@,
    {
        proof {
            use_type_invariant(&*self);
        }
        match self.state {
            SessionState::Connecting => {
                self.state = SessionState::EnumeratingCharacteristics;
                Ok(Command::DiscoverServices)
            },
            other => Err(SessionError::WrongState(other)),
        }
    }

    /// The characteristics of the peripheral are known. They are sorted
    /// into roles; a role that the kind cannot do without and that no
    /// characteristic plays ends the attempt. Otherwise the session
    /// subscribes, one characteristic at a time, then asks for control.
    pub fn characteristics_discovered(&mut self, characteristics: &Vec<CharacteristicInfo>) -> (r:
        Result<Option<Command>, SessionError>)
        ensures
            final(self)@.well_formed(),
            !(old(self)@.state is EnumeratingCharacteristics) ==> r == Err::<
                Option<Command>,
                SessionError,
            >(SessionError::WrongState(old(self)@.state)) && final(self)@ == old(self)@,
            old(self)@.state is EnumeratingCharacteristics ==> match missing_role(
                old(self)@.kind,
                Roles::of(characteristics@),
            ) {
                Some(role) => r == Err::<Option<Command>, SessionError>(
                    SessionError::MissingRole(role),
                ) && final(self)@ == old(self)@,
                None => {
                    let found = SessionView {
                        roles: Roles::of(characteristics@),
                        wanted: subscriptions(old(self)@.kind, characteristics@),
                        active: 0,
                        ..old(self)@
                    };
                    &&& r is Ok
                    &&& command_view(r->Ok_0) == found.next_command()
                    &&& final(self)@ == (SessionView { state: found.next_state(), ..found })
                    &&& forall|k: int|
                        0 <= k < found.wanted.len() ==> (#[trigger] found.wanted[k])
                            < characteristics@.len()
                    &&& found.roles.control matches Some(place) ==> place < characteristics@.len()
                },
            },
    {
        proof {
            use_type_invariant(&*self);
        }
        match self.state {
            SessionState::EnumeratingCharacteristics => {},
            other => {
                return Err(SessionError::WrongState(other));
            },
        }
        let roles = classify(characteristics);
        if self.kind.needs(Role::Notify) && roles.notify.is_none() {
            return Err(SessionError::MissingRole(Role::Notify));
        }
        if self.kind.needs(Role::Stats) && roles.stats.is_none() {
            return Err(SessionError::MissingRole(Role::Stats));
        }
        if self.kind.needs(Role::Control) && roles.control.is_none() {
            return Err(SessionError::MissingRole(Role::Control));
        }
        let mut wanted: Vec<usize> = Vec::new();
        if self.kind.subscribes_to_all() {
            wanted = notifying(characteristics);
        } else {
            if self.kind.subscribes_to(Role::Notify) {
                match roles.notify {
                    Some(place) => {
                        wanted.push(place);
                    },
                    None => {},
                }
            }
            if self.kind.subscribes_to(Role::Stats) {
                match roles.stats {
                    Some(place) => {
                        wanted.push(place);
                    },
                    None => {},
                }
            }
        }
        assert(wanted@ =~= subscriptions(self.kind, characteristics@));
        self.active = 0;
        self.wanted = wanted;
        self.roles = roles;
        let command = self.advance();
        Ok(command)
    }

    /// The subscription asked for last stands. The next one follows, or,
    /// after the last, the request for control.
    pub fn subscribed(&mut self) -> (r: Result<Option<Command>, SessionError>)
        ensures
            final(self)@.well_formed(),
            !(old(self)@.state is Subscribing) ==> r == Err::<Option<Command>, SessionError>(
                SessionError::WrongState(old(self)@.state),
            ) && final(self)@ == old(self)@,
            old(self)@.state is Subscribing ==> {
                let counted = SessionView {
                    active: if old(self)@.active < old(self)@.wanted.len() {
                        old(self)@.active + 1
                    } else {
                        old(self)@.active
                    },
                    ..old(self)@
                };
                &&& r is Ok
                &&& command_view(r->Ok_0) == counted.next_command()
                &&& final(self)@ == (SessionView { state: counted.next_state(), ..counted })
            },
    {
        proof {
            use_type_invariant(&*self);
        }
        match self.state {
            SessionState::Subscribing => {},
            other => {
                return Err(SessionError::WrongState(other));
            },
        }
        if self.active < self.wanted.len() {
            self.active = self.active + 1;
        }
        let command = self.advance();
        Ok(command)
    }

    /// The device has acknowledged the request for control: the session
    /// is ready.
    pub fn control_granted(&mut self) -> (r: Result<(), SessionError>)
        ensures
            final(self)@.well_formed(),
            r is Ok ==> !final(self)@.write_in_flight(),
            old(self)@.state is RequestingControl ==> r is Ok && final(self)@ == (SessionView {
                state: SessionState::Ready,
                ..old(self)@
            }),
            !(old(self)@.state is RequestingControl) ==> r == Err::<(), SessionError>(
                SessionError::WrongState(old(self)@.state),
            ) && final(self)@ == old(self)@,
    {
        proof {
            use_type_invariant(&*self);
        }
        match self.state {
            SessionState::RequestingControl => {
                self.state = SessionState::Ready;
                Ok(())
            },
            other => Err(SessionError::WrongState(other)),
        }
    }

    /// Begins to set the resistance to `level`.
    ///
    /// A level outside `1..=max_level` is refused before anything else is
    /// looked at, and no write comes of it. A session that is not ready is
    /// refused, and so is one that is still writing a level. Otherwise the
    /// answer is the write of the cadence frame to the control
    /// characteristic; equipment that takes no control frames has nothing
    /// to write.
    pub fn set_level(&mut self, level: i16) -> (r: Result<Option<Command>, SessionError>)
        ensures
            final(self)@.well_formed(),
            old(self)@.write_in_flight() ==> r is Err,
            r matches Ok(Some(_)) ==> final(self)@.write_in_flight(),
            r is Err ==> final(self)@ == old(self)@,
            if !level_in_range(level, old(self)@.max_level) {
                r == Err::<Option<Command>, SessionError>(
                    SessionError::LevelOutOfRange(
                        LevelOutOfRange { level, max_level: old(self)@.max_level },
                    ),
                )
            } else if !(old(self)@.state is Ready) {
                r == Err::<Option<Command>, SessionError>(
                    SessionError::WrongState(old(self)@.state),
                )
            } else if !(old(self)@.stage is Idle) {
                r == Err::<Option<Command>, SessionError>(SessionError::WriteInFlight)
            } else if old(self)@.kind.spec_writes_control() {
                &&& r is Ok
                &&& command_view(r->Ok_0) == Some(old(self)@.cadence_write(level))
                &&& old(self)@.roles.control is Some
                &&& final(self)@ == (SessionView {
                    stage: WriteStage::Cadence(level),
                    ..old(self)@
                })
            } else {
                &&& r == Ok::<Option<Command>, SessionError>(None)
                &&& final(self)@ == old(self)@
            },
    {
        proof {
            use_type_invariant(&*self);
        }
        if level < 1 || level > self.codec.max_level {
            return Err(
                SessionError::LevelOutOfRange(
                    LevelOutOfRange { level, max_level: self.codec.max_level },
                ),
            );
        }
        match self.state {
            SessionState::Ready => {},
            other => {
                return Err(SessionError::WrongState(other));
            },
        }
        match self.stage {
            WriteStage::Idle => {},
            _ => {
                return Err(SessionError::WriteInFlight);
            },
        }
        if self.kind.writes_control() {
            match (self.roles.control, self.codec.encode_set_cadence(level)) {
                (Some(control), Ok(cadence)) => {
                    self.stage = WriteStage::Cadence(level);
                    return Ok(Some(Command::Write(control, cadence)));
                },
                _ => {},
            }
        }
        Ok(None)
    }

    /// The device has acknowledged the frame written last for a level.
    /// After the cadence frame the power frame follows, for the same
    /// level; after the power frame the level is set and nothing is under
    /// way. With no such write under way the call is refused.
    pub fn level_written(&mut self) -> (r: Result<Option<Command>, SessionError>)
        ensures
            final(self)@.well_formed(),
            r matches Ok(Some(_)) ==> final(self)@.write_in_flight(),
            r matches Ok(None) ==> !final(self)@.write_in_flight(),
            match old(self)@.stage {
                WriteStage::Idle => {
                    &&& r == Err::<Option<Command>, SessionError>(SessionError::NoWriteInFlight)
                    &&& final(self)@ == old(self)@
                },
                WriteStage::Cadence(level) => {
                    &&& r is Ok
                    &&& command_view(r->Ok_0) == Some(old(self)@.power_write(level))
                    &&& final(self)@ == (SessionView { stage: WriteStage::Power, ..old(self)@ })
                },
                WriteStage::Power => {
                    &&& r == Ok::<Option<Command>, SessionError>(None)
                    &&& final(self)@ == (SessionView { stage: WriteStage::Idle, ..old(self)@ })
                },
            },
    {
        proof {
            use_type_invariant(&*self);
        }
        match self.stage {
            WriteStage::Idle => Err(SessionError::NoWriteInFlight),
            WriteStage::Cadence(level) => {
                match (self.roles.control, self.codec.encode_set_power(level)) {
                    (Some(control), Ok(power)) => {
                        self.stage = WriteStage::Power;
                        Ok(Some(Command::Write(control, power)))
                    },
                    _ => {
                        self.stage = WriteStage::Idle;
                        Ok(None)
                    },
                }
            },
            WriteStage::Power => {
                self.stage = WriteStage::Idle;
                Ok(None)
            },
        }
    }

    /// Decodes one notification by the layout of the equipment. A frame
    /// that is too short is no observation.
    pub fn read(&self, notification: &[u8]) -> (data: Option<FTMSData>)
        ensures
            data == self@.kind.spec_layout().decoded(notification@),
            notification@.len() < self@.kind.spec_layout().min_len ==> data is None,
    {
        proof {
            use_type_invariant(self);
        }
        self.codec.decode_telemetry(notification)
    }

    /// Tears the session down, whatever its state, and closes it. The
    /// answer lists what to carry out, in order; a command that fails is
    /// passed over and the rest is still carried out.
    pub fn disconnect(&mut self) -> (plan: Vec<Command>)
        ensures
            plan_view(plan@) == old(self)@.teardown(),
            final(self)@ == (SessionView {
                state: SessionState::Closed,
                active: 0,
                stage: WriteStage::Idle,
                ..old(self)@
            }),
            final(self)@.well_formed(),
    {
        proof {
            use_type_invariant(&*self);
        }
        let mut plan: Vec<Command> = Vec::new();
        match self.state {
            SessionState::Closed => {
                self.active = 0;
                assert(plan_view(plan@) =~= old(self)@.teardown());
                return plan;
            },
            _ => {},
        }
        let mut at: usize = 0;
        while at < self.active
            invariant
                at <= self.active <= self.wanted@.len(),
                plan_view(plan@) =~= Seq::new(
                    at as nat,
                    |i: int| CommandView::Unsubscribe(self.wanted@[i]),
                ),
            decreases self.active - at,
        {
            let ghost before = plan@;
            plan.push(Command::Unsubscribe(self.wanted[at]));
            assert(plan_view(plan@) =~= plan_view(before).push(
                CommandView::Unsubscribe(self.wanted@[at as int]),
            ));
            at += 1;
        }
        if self.kind.writes_control() {
            match self.roles.control {
                Some(control) => {
                    plan.push(Command::Write(control, self.codec.encode_stop()));
                },
                None => {},
            }
        }
        if self.kind.is_wireless() {
            plan.push(Command::CloseLink);
        }
        assert(plan_view(plan@) =~= old(self)@.teardown());
        self.stage = WriteStage::Idle;
        self.state = SessionState::Closed;
        self.active = 0;
        plan
    }
}

} // verus!

//! Characteristics of a connected peripheral and the roles they play for a
//! session.

use crate::text::{starts_with, text_starts_with};
use vstd::prelude::*;
use vstd::utf8::{encode_utf8, is_ascii_chars, is_ascii_chars_encode_utf8};

verus! {

/// Property bit: the characteristic can be read.
pub const PROP_READ: u8 = 0x02;

/// Property bit: the characteristic takes acknowledged writes.
pub const PROP_WRITE: u8 = 0x08;

/// Property bit: the characteristic sends notifications.
pub const PROP_NOTIFY: u8 = 0x10;

/// Property bit: the characteristic sends indications.
pub const PROP_INDICATE: u8 = 0x20;

/// What the text of the UUID of the fitness-machine service begins with.
pub const FTMS_SERVICE_UUID: &'static str = "00001826";

/// What the text of the UUID of the statistics characteristic begins with.
pub const FTMS_STATS_UUID: &'static str = "00002ad2";

/// What a session needs to know of one characteristic. UUIDs are held as
/// their 128-bit value, first byte highest.
#[derive(Clone, Copy, Debug, PartialEq, Eq, Structural)]
pub struct CharacteristicInfo {
    pub uuid: u128,
    pub service_uuid: u128,
    /// The declared property bits.
    pub properties: u8,
}

/// The part a characteristic plays for a session.
#[derive(Clone, Copy, Debug, PartialEq, Eq, Structural)]
pub enum Role {
    /// Carries the machine's notifications.
    Notify,
    /// Takes control frames.
    Control,
    /// Carries telemetry.
    Stats,
}

/// The lower-case hexadecimal digit for a number below sixteen.
pub open spec fn hex_digit(nibble: u128) -> char {
    if nibble < 10 {
        ((0x30 + nibble) as u8) as char
    } else {
        ((0x57 + nibble) as u8) as char
    }
}

/// The digit at `place` among the 32 hexadecimal digits of a UUID, the
/// highest first.
pub open spec fn uuid_digit(uuid: u128, place: int) -> char {
    hex_digit((uuid >> (((31 - place) * 4) as u128)) & 0xf)
}

/// The text of a UUID: its 32 hexadecimal digits in lower case, highest
/// first, in groups of 8, 4, 4, 4 and 12 with hyphens between.
pub open spec fn uuid_text(uuid: u128) -> Seq<char> {
    Seq::new(
        36,
        |i: int|
            if i == 8 || i == 13 || i == 18 || i == 23 {
                '-'
            } else if i < 8 {
                uuid_digit(uuid, i)
            } else if i < 13 {
                uuid_digit(uuid, i - 1)
            } else if i < 18 {
                uuid_digit(uuid, i - 2)
            } else if i < 23 {
                uuid_digit(uuid, i - 3)
            } else {
                uuid_digit(uuid, i - 4)
            },
    )
}

/// Writes a UUID out as text, by `uuid::Uuid::from_u128` and the `Display`
/// of `uuid::Uuid`. Trusted: that the text is the hyphenated lower-case
/// form that `uuid_text` spells out.
#[verifier::external_body]
fn uuid_to_string(uuid: u128) -> (text: String)
    ensures
        text@ == uuid_text(uuid),
{
    uuid::Uuid::from_u128(uuid).to_string()
}

/// A UUID's text begins with eight given characters exactly when its
/// first eight digits are these characters.
proof fn lemma_text_head(uuid: u128, prefix: Seq<char>)
    requires
        prefix.len() == 8,
        is_ascii_chars(prefix),
    ensures
        text_starts_with(uuid_text(uuid), prefix) <==> forall|i: int|
            0 <= i < 8 ==> uuid_digit(uuid, i) == #[trigger] prefix[i],
{
    let text = uuid_text(uuid);
    assert forall|i: int| 0 <= i < text.len() implies '\0' <= #[trigger] text[i] <= '\u{7f}' by {
        let place = if i < 8 {
            i
        } else if i < 13 {
            i - 1
        } else if i < 18 {
            i - 2
        } else if i < 23 {
            i - 3
        } else {
            i - 4
        };
        let shifted: u128 = uuid >> (((31 - place) * 4) as u128);
        assert(shifted & 0xf < 16) by (bit_vector);
    }
    is_ascii_chars_encode_utf8(text);
    is_ascii_chars_encode_utf8(prefix);
    let bytes = encode_utf8(text);
    let head = encode_utf8(prefix);
    if text_starts_with(text, prefix) {
        assert forall|i: int| 0 <= i < 8 implies uuid_digit(uuid, i) == #[trigger] prefix[i] by {
            assert(bytes.subrange(0, 8)[i] == head[i]);
            assert(text[i] as u8 == prefix[i] as u8);
        }
    }
    if forall|i: int| 0 <= i < 8 ==> uuid_digit(uuid, i) == #[trigger] prefix[i] {
        assert forall|i: int| 0 <= i < 8 implies bytes.subrange(0, 8)[i] == head[i] by {
            assert(text[i] == prefix[i]);
        }
        assert(bytes.subrange(0, 8) =~= head);
    }
}

/// The text of a UUID begins with the digits of the fitness-machine
/// service exactly when the first 32 bits of the UUID are `0x00001826`.
pub proof fn lemma_service_prefix(uuid: u128)
    ensures
        text_starts_with(uuid_text(uuid), FTMS_SERVICE_UUID@) <==> uuid >> 96 == 0x0000_1826,
{
    reveal_strlit("00001826");
    let prefix = FTMS_SERVICE_UUID@;
    lemma_text_head(uuid, prefix);
    lemma_digits(uuid);
    assert(prefix[0] == '0' && prefix[1] == '0' && prefix[2] == '0' && prefix[3] == '0');
    assert(prefix[4] == '1' && prefix[5] == '8' && prefix[6] == '2' && prefix[7] == '6');
    assert(hex_digit(0) == '0' && hex_digit(1) == '1' && hex_digit(8) == '8' && hex_digit(2) == '2'
        && hex_digit(6) == '6');
    assert((uuid >> 124) & 0xf == 0 && (uuid >> 120) & 0xf == 0 && (uuid >> 116) & 0xf == 0 && (uuid
        >> 112) & 0xf == 0 && (uuid >> 108) & 0xf == 1 && (uuid >> 104) & 0xf == 8 && (uuid >> 100)
        & 0xf == 2 && (uuid >> 96) & 0xf == 6 <==> uuid >> 96 == 0x0000_1826) by (bit_vector);
    if uuid >> 96 == 0x0000_1826 {
        assert forall|i: int| 0 <= i < 8 implies uuid_digit(uuid, i) == #[trigger] prefix[i] by {}
    }
}

/// The text of a UUID begins with the digits of the statistics
/// characteristic exactly when the first 32 bits of the UUID are
/// `0x00002ad2`.
pub proof fn lemma_stats_prefix(uuid: u128)
    ensures
        text_starts_with(uuid_text(uuid), FTMS_STATS_UUID@) <==> uuid >> 96 == 0x0000_2ad2,
{
    reveal_strlit("00002ad2");
    let prefix = FTMS_STATS_UUID@;
    lemma_text_head(uuid, prefix);
    lemma_digits(uuid);
    assert(prefix[0] == '0' && prefix[1] == '0' && prefix[2] == '0' && prefix[3] == '0');
    assert(prefix[4] == '2' && prefix[5] == 'a' && prefix[6] == 'd' && prefix[7] == '2');
    assert(hex_digit(0) == '0' && hex_digit(2) == '2' && hex_digit(10) == 'a' && hex_digit(13)
        == 'd');
    assert((uuid >> 124) & 0xf == 0 && (uuid >> 120) & 0xf == 0 && (uuid >> 116) & 0xf == 0 && (uuid
        >> 112) & 0xf == 0 && (uuid >> 108) & 0xf == 2 && (uuid >> 104) & 0xf == 10 && (uuid >> 100)
        & 0xf == 13 && (uuid >> 96) & 0xf == 2 <==> uuid >> 96 == 0x0000_2ad2) by (bit_vector);
    if uuid >> 96 == 0x0000_2ad2 {
        assert forall|i: int| 0 <= i < 8 implies uuid_digit(uuid, i) == #[trigger] prefix[i] by {}
    }
}

/// The first eight digits of a UUID, written out: each is the digit of
/// four of its first 32 bits.
proof fn lemma_digits(uuid: u128)
    ensures
        uuid_digit(uuid, 0) == hex_digit((uuid >> 124) & 0xf),
        uuid_digit(uuid, 1) == hex_digit((uuid >> 120) & 0xf),
        uuid_digit(uuid, 2) == hex_digit((uuid >> 116) & 0xf),
        uuid_digit(uuid, 3) == hex_digit((uuid >> 112) & 0xf),
        uuid_digit(uuid, 4) == hex_digit((uuid >> 108) & 0xf),
        uuid_digit(uuid, 5) == hex_digit((uuid >> 104) & 0xf),
        uuid_digit(uuid, 6) == hex_digit((uuid >> 100) & 0xf),
        uuid_digit(uuid, 7) == hex_digit((uuid >> 96) & 0xf),
        forall|nibble: u128, other: u128|
            nibble < 16 && other < 16 && #[trigger] hex_digit(nibble) == #[trigger] hex_digit(
                other,
            ) ==> nibble == other,
        (uuid >> 124) & 0xf < 16 && (uuid >> 120) & 0xf < 16 && (uuid >> 116) & 0xf < 16 && (uuid
            >> 112) & 0xf < 16 && (uuid >> 108) & 0xf < 16 && (uuid >> 104) & 0xf < 16 && (uuid
            >> 100) & 0xf < 16 && (uuid >> 96) & 0xf < 16,
{
    assert((uuid >> 124) & 0xf < 16 && (uuid >> 120) & 0xf < 16 && (uuid >> 116) & 0xf < 16 && (uuid
        >> 112) & 0xf < 16 && (uuid >> 108) & 0xf < 16 && (uuid >> 104) & 0xf < 16 && (uuid >> 100)
        & 0xf < 16 && (uuid >> 96) & 0xf < 16) by (bit_vector);
}

/// Whether `properties` holds every bit of `flag`.
pub open spec fn has_flag(properties: u8, flag: u8) -> bool {
    properties & flag == flag
}

impl CharacteristicInfo {
    /// Whether this characteristic plays `role`. Notifications come from
    /// a characteristic of the fitness-machine service that notifies and
    /// can be read, control frames go to one of that service that takes
    /// writes and indicates, and telemetry comes from the statistics
    /// characteristic.
    pub open spec fn plays(self, role: Role) -> bool {
        match role {
            Role::Notify => text_starts_with(uuid_text(self.service_uuid), FTMS_SERVICE_UUID@)
                && has_flag(self.properties, PROP_NOTIFY) && has_flag(self.properties, PROP_READ),
            Role::Control => text_starts_with(uuid_text(self.service_uuid), FTMS_SERVICE_UUID@)
                && has_flag(self.properties, PROP_WRITE) && has_flag(
                self.properties,
                PROP_INDICATE,
            ),
            Role::Stats => text_starts_with(uuid_text(self.uuid), FTMS_STATS_UUID@),
        }
    }

    /// The roles in numbers: the service is the fitness-machine service
    /// when the first 32 bits of its UUID are `0x00001826`, and the
    /// characteristic is the statistics characteristic when the first 32
    /// bits of its UUID are `0x00002ad2`.
    pub proof fn lemma_plays_by_bits(self, role: Role)
        ensures
            self.plays(role) <==> match role {
                Role::Notify => self.service_uuid >> 96 == 0x0000_1826 && has_flag(
                    self.properties,
                    PROP_NOTIFY,
                ) && has_flag(self.properties, PROP_READ),
                Role::Control => self.service_uuid >> 96 == 0x0000_1826 && has_flag(
                    self.properties,
                    PROP_WRITE,
                ) && has_flag(self.properties, PROP_INDICATE),
                Role::Stats => self.uuid >> 96 == 0x0000_2ad2,
            },
    {
        lemma_service_prefix(self.service_uuid);
        lemma_stats_prefix(self.uuid);
    }

    /// Whether this characteristic sends notifications at all.
    pub open spec fn notifies(self) -> bool {
        has_flag(self.properties, PROP_NOTIFY)
    }

    /// Whether this characteristic plays `role`.
    pub fn check_plays(&self, role: Role) -> (yes: bool)
        ensures
            yes == self.plays(role),
    {
        match role {
            Role::Notify => starts_with(
                uuid_to_string(self.service_uuid).as_str(),
                FTMS_SERVICE_UUID,
            ) && (self.properties & PROP_NOTIFY) == PROP_NOTIFY && (self.properties & PROP_READ)
                == PROP_READ,
            Role::Control => starts_with(
                uuid_to_string(self.service_uuid).as_str(),
                FTMS_SERVICE_UUID,
            ) && (self.properties & PROP_WRITE) == PROP_WRITE && (self.properties & PROP_INDICATE)
                == PROP_INDICATE,
            Role::Stats => starts_with(uuid_to_string(self.uuid).as_str(), FTMS_STATS_UUID),
        }
    }

    /// Whether this characteristic sends notifications at all.
    pub fn check_notifies(&self) -> (yes: bool)
        ensures
            yes == self.notifies(),
    {
        (self.properties & PROP_NOTIFY) == PROP_NOTIFY
    }
}

/// The place of the last characteristic that plays `role`; none where no
/// characteristic plays it.
pub open spec fn last_playing(characteristics: Seq<CharacteristicInfo>, role: Role) -> Option<
    usize,
>
    decreases characteristics.len(),
{
    if characteristics.len() == 0 {
        None
    } else if characteristics.last().plays(role) {
        Some((characteristics.len() - 1) as usize)
    } else {
        last_playing(characteristics.drop_last(), role)
    }
}

/// What `last_playing` finds plays the role and nothing after it does;
/// where it finds nothing, nothing plays the role.
pub proof fn lemma_last_playing(characteristics: Seq<CharacteristicInfo>, role: Role)
    requires
        characteristics.len() <= usize::MAX,
    ensures
        match last_playing(characteristics, role) {
            Some(at) => {
                &&& at < characteristics.len()
                &&& characteristics[at as int].plays(role)
                &&& forall|later: int|
                    at < later < characteristics.len() ==> !(
                    #[trigger] characteristics[later]).plays(role)
            },
            None => forall|at: int|
                0 <= at < characteristics.len() ==> !(#[trigger] characteristics[at]).plays(role),
        },
    decreases characteristics.len(),
{
    if characteristics.len() > 0 && !characteristics.last().plays(role) {
        let before = characteristics.drop_last();
        lemma_last_playing(before, role);
        assert forall|at: int| 0 <= at < before.len() implies before[at]
            == characteristics[at] by {}
    }
}

/// The places of the characteristics that send notifications, in rising
/// order.
pub open spec fn notifying_places(characteristics: Seq<CharacteristicInfo>) -> Seq<usize>
    decreases characteristics.len(),
{
    if characteristics.len() == 0 {
        Seq::empty()
    } else {
        let before = notifying_places(characteristics.drop_last());
        if characteristics.last().notifies() {
            before.push((characteristics.len() - 1) as usize)
        } else {
            before
        }
    }
}

/// `notifying_places` lists places within the sequence, and exactly those
/// of the characteristics that send notifications.
pub proof fn lemma_notifying_places(characteristics: Seq<CharacteristicInfo>)
    requires
        characteristics.len() <= usize::MAX,
    ensures
        notifying_places(characteristics).len() <= characteristics.len(),
        forall|k: int|
            0 <= k < notifying_places(characteristics).len() ==> (#[trigger] notifying_places(
                characteristics,
            )[k]) < characteristics.len() && characteristics[notifying_places(
                characteristics,
            )[k] as int].notifies(),
        forall|at: int|
            0 <= at < characteristics.len() && (#[trigger] characteristics[at]).notifies()
                ==> notifying_places(characteristics).contains(at as usize),
    decreases characteristics.len(),
{
    if characteristics.len() > 0 {
        let before = characteristics.drop_last();
        let places = notifying_places(characteristics);
        lemma_notifying_places(before);
        assert forall|at: int|
            0 <= at < characteristics.len() && (
            #[trigger] characteristics[at]).notifies() implies places.contains(at as usize) by {
            if at < before.len() {
                assert(before[at] == characteristics[at]);
                let k = choose|k: int|
                    0 <= k < notifying_places(before).len() && notifying_places(before)[k]
                        == at as usize;
                assert(places[k] == at as usize);
            } else {
                assert(places[places.len() - 1] == at as usize);
            }
        }
    }
}

/// The characteristics that were found to play each role.
#[derive(Clone, Copy, Debug, PartialEq, Eq, Structural)]
pub struct Roles {
    pub notify: Option<usize>,
    pub control: Option<usize>,
    pub stats: Option<usize>,
}

impl Roles {
    /// The roles found among `characteristics`.
    pub open spec fn of(characteristics: Seq<CharacteristicInfo>) -> Roles {
        Roles {
            notify: last_playing(characteristics, Role::Notify),
            control: last_playing(characteristics, Role::Control),
            stats: last_playing(characteristics, Role::Stats),
        }
    }

    /// No role found.
    pub open spec fn spec_none() -> Roles {
        Roles { notify: None, control: None, stats: None }
    }

    /// The characteristic that plays `role`.
    pub open spec fn spec_get(&self, role: Role) -> Option<usize> {
        match role {
            Role::Notify => self.notify,
            Role::Control => self.control,
            Role::Stats => self.stats,
        }
    }

    /// The characteristic that plays `role`.
    #[verifier::when_used_as_spec(spec_get)]
    pub fn get(&self, role: Role) -> (place: Option<usize>)
        ensures
            place == self.spec_get(role),
    {
        match role {
            Role::Notify => self.notify,
            Role::Control => self.control,
            Role::Stats => self.stats,
        }
    }

    /// No role found.
    pub fn none() -> (roles: Roles)
        ensures
            roles == Roles::spec_none(),
    {
        Roles { notify: None, control: None, stats: None }
    }
}

/// Sorts the characteristics of a peripheral into roles. Where several
/// play one role, the last one has it.
pub fn classify(characteristics: &Vec<CharacteristicInfo>) -> (roles: Roles)
    ensures
        roles == Roles::of(characteristics@),
        roles.notify matches Some(at) ==> at < characteristics@.len(),
        roles.control matches Some(at) ==> at < characteristics@.len(),
        roles.stats matches Some(at) ==> at < characteristics@.len(),
{
    let mut roles = Roles::none();
    let mut at: usize = 0;
    while at < characteristics.len()
        invariant
            at <= characteristics@.len(),
            roles == Roles::of(characteristics@.subrange(0, at as int)),
        decreases characteristics@.len() - at,
    {
        let ghost seen = characteristics@.subrange(0, at as int);
        let ghost next = characteristics@.subrange(0, at + 1);
        let characteristic = &characteristics[at];
        assert(next.drop_last() == seen);
        assert(next.last() == *characteristic);
        if characteristic.check_plays(Role::Notify) {
            roles.notify = Some(at);
        }
        if characteristic.check_plays(Role::Control) {
            roles.control = Some(at);
        }
        if characteristic.check_plays(Role::Stats) {
            roles.stats = Some(at);
        }
        at += 1;
    }
    assert(characteristics@.subrange(0, at as int) == characteristics@);
    proof {
        lemma_last_playing(characteristics@, Role::Notify);
        lemma_last_playing(characteristics@, Role::Control);
        lemma_last_playing(characteristics@, Role::Stats);
    }
    roles
}

/// Lists the characteristics that send notifications, in the order in
/// which the peripheral has them.
pub fn notifying(characteristics: &Vec<CharacteristicInfo>) -> (places: Vec<usize>)
    ensures
        places@ == notifying_places(characteristics@),
        forall|k: int| 0 <= k < places@.len() ==> (#[trigger] places@[k]) < characteristics@.len(),
{
    let mut places: Vec<usize> = Vec::new();
    let mut at: usize = 0;
    while at < characteristics.len()
        invariant
            at <= characteristics@.len(),
            places@ == notifying_places(characteristics@.subrange(0, at as int)),
        decreases characteristics@.len() - at,
    {
        let ghost seen = characteristics@.subrange(0, at as int);
        let ghost next = characteristics@.subrange(0, at + 1);
        assert(next.drop_last() == seen);
        assert(next.last() == characteristics@[at as int]);
        if characteristics[at].check_notifies() {
            places.push(at);
        }
        at += 1;
    }
    assert(characteristics@.subrange(0, at as int) == characteristics@);
    proof {
        lemma_notifying_places(characteristics@);
    }
    places
}

} // verus!

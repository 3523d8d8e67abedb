//! Settings updates: a sparse patch, the JSON object it is sent as, and what
//! the miner's answer means.

use vstd::prelude::*;
use vstd::string::*;
use crate::error::{outcome_view, ClientError, ClientErrorView, Outcome, OutcomeView};
use crate::http::{
    endpoint_url, is_success, spec_endpoint_url, spec_is_success, spec_user_agent_header,
    user_agent_header, Header, HttpRequest, HttpRequestView, Method, Reply, SETTINGS_TIMEOUT_SECS,
};
use crate::json::{
    encode_object, encoded_object, insert_member, new_object, object_is_flat, object_members,
    Scalar, ScalarView,
};

verus! {

/// Number of settings a patch can carry.
pub const SETTING_COUNT: usize = 7;

/// The endpoint that takes settings updates.
pub const SETTINGS_PATH: &'static str = "/api/system";

/// What the caller is told when the miner accepted an update.
pub const SETTINGS_CONFIRMATION: &'static str = "Settings updated";

/// The settings a patch can carry, in the order they are looked at.
#[derive(Clone, Copy, Debug, PartialEq, Eq, Structural)]
pub enum Setting {
    StratumUrl,
    StratumPort,
    StratumUser,
    StratumPassword,
    FanSpeed,
    Frequency,
    CoreVoltage,
}

impl Setting {
    /// The place of the setting in the order.
    pub open spec fn rank(self) -> int {
        match self {
            Setting::StratumUrl => 0,
            Setting::StratumPort => 1,
            Setting::StratumUser => 2,
            Setting::StratumPassword => 3,
            Setting::FanSpeed => 4,
            Setting::Frequency => 5,
            Setting::CoreVoltage => 6,
        }
    }

    /// The key under which the firmware expects the setting.
    pub open spec fn spec_wire_key(self) -> Seq<char> {
        match self {
            Setting::StratumUrl => "stratumURL"@,
            Setting::StratumPort => "stratumPort"@,
            Setting::StratumUser => "stratumUser"@,
            Setting::StratumPassword => "stratumPassword"@,
            Setting::FanSpeed => "fanspeed"@,
            Setting::Frequency => "frequency"@,
            Setting::CoreVoltage => "coreVoltage"@,
        }
    }

    /// The setting that the firmware expects under `key`, where there is one.
    pub open spec fn named(key: Seq<char>) -> Setting {
        choose|setting: Setting| setting.spec_wire_key() == key
    }

    /// The setting at place `index` of the order, or `None` past the last.
    pub fn at(index: usize) -> (setting: Option<Setting>)
        ensures
            setting is Some <==> index < SETTING_COUNT,
            setting matches Some(found) ==> found.rank() == index,
    {
        if index == 0 {
            Some(Setting::StratumUrl)
        } else if index == 1 {
            Some(Setting::StratumPort)
        } else if index == 2 {
            Some(Setting::StratumUser)
        } else if index == 3 {
            Some(Setting::StratumPassword)
        } else if index == 4 {
            Some(Setting::FanSpeed)
        } else if index == 5 {
            Some(Setting::Frequency)
        } else if index == 6 {
            Some(Setting::CoreVoltage)
        } else {
            None
        }
    }

    /// The key under which the firmware expects the setting.
    pub fn wire_key(self) -> (key: &'static str)
        ensures
            key@ == self.spec_wire_key(),
    {
        match self {
            Setting::StratumUrl => "stratumURL",
            Setting::StratumPort => "stratumPort",
            Setting::StratumUser => "stratumUser",
            Setting::StratumPassword => "stratumPassword",
            Setting::FanSpeed => "fanspeed",
            Setting::Frequency => "frequency",
            Setting::CoreVoltage => "coreVoltage",
        }
    }
}

/// No two settings share a key.
pub proof fn lemma_wire_keys_distinct(a: Setting, b: Setting)
    requires
        a.spec_wire_key() == b.spec_wire_key(),
    ensures
        a == b,
{
    reveal_strlit("stratumURL");
    reveal_strlit("stratumPort");
    reveal_strlit("stratumUser");
    reveal_strlit("stratumPassword");
    reveal_strlit("fanspeed");
    reveal_strlit("frequency");
    reveal_strlit("coreVoltage");
    assert("stratumURL"@.len() == 10);
    assert("stratumPort"@.len() == 11);
    assert("stratumUser"@.len() == 11);
    assert("stratumPassword"@.len() == 15);
    assert("fanspeed"@.len() == 8);
    assert("frequency"@.len() == 9);
    assert("coreVoltage"@.len() == 11);
    assert("stratumPort"@[7] != "stratumUser"@[7]);
    assert("coreVoltage"@[0] != "stratumPort"@[0]);
    assert("coreVoltage"@[0] != "stratumUser"@[0]);
}

/// A sparse update of a miner's settings. A field that is `None` is left as
/// it is on the miner and is not sent.
#[derive(Clone, Debug, PartialEq, Eq)]
pub struct SettingsPatch {
    pub stratum_url: Option<String>,
    pub stratum_port: Option<u16>,
    pub stratum_user: Option<String>,
    pub stratum_password: Option<String>,
    /// Percent of full speed, 0 to 100.
    pub fan_speed: Option<u8>,
    /// Megahertz.
    pub frequency: Option<u32>,
    /// Millivolts.
    pub core_voltage: Option<u32>,
}

/// What a text field of a patch carries.
pub open spec fn spec_text_value(field: Option<String>) -> Option<ScalarView> {
    match field {
        Some(text) => Some(ScalarView::Text(text@)),
        None => None,
    }
}

impl SettingsPatch {
    /// What the patch carries for `setting`, if anything.
    pub open spec fn spec_value_of(&self, setting: Setting) -> Option<ScalarView> {
        match setting {
            Setting::StratumUrl => spec_text_value(self.stratum_url),
            Setting::StratumPort => match self.stratum_port {
                Some(n) => Some(ScalarView::Number(n as nat)),
                None => None,
            },
            Setting::StratumUser => spec_text_value(self.stratum_user),
            Setting::StratumPassword => spec_text_value(self.stratum_password),
            Setting::FanSpeed => match self.fan_speed {
                Some(n) => Some(ScalarView::Number(n as nat)),
                None => None,
            },
            Setting::Frequency => match self.frequency {
                Some(n) => Some(ScalarView::Number(n as nat)),
                None => None,
            },
            Setting::CoreVoltage => match self.core_voltage {
                Some(n) => Some(ScalarView::Number(n as nat)),
                None => None,
            },
        }
    }

    /// The settings the patch carries.
    pub open spec fn populated(&self) -> Set<Setting> {
        Set::new(|setting: Setting| self.spec_value_of(setting) is Some)
    }

    /// The members of the object the patch is sent as, taken from the first
    /// `count` settings of the order alone.
    spec fn payload_upto(&self, count: int) -> Map<Seq<char>, ScalarView> {
        Map::new(
            |key: Seq<char>|
                exists|setting: Setting|
                    #[trigger] setting.spec_wire_key() == key && setting.rank() < count
                        && self.spec_value_of(setting) is Some,
            |key: Seq<char>| self.spec_value_of(Setting::named(key))->Some_0,
        )
    }

    /// The members of the object the patch is sent as: for each setting the
    /// patch carries, its value under the firmware's key, and nothing else.
    pub open spec fn payload(&self) -> Map<Seq<char>, ScalarView> {
        Map::new(
            |key: Seq<char>|
                exists|setting: Setting|
                    #[trigger] setting.spec_wire_key() == key && self.spec_value_of(setting) is Some,
            |key: Seq<char>| self.spec_value_of(Setting::named(key))->Some_0,
        )
    }

    /// A patch that carries nothing.
    pub fn new() -> (patch: Self)
        ensures
            patch.populated() == Set::<Setting>::empty(),
    {
        let patch = SettingsPatch {
            stratum_url: None,
            stratum_port: None,
            stratum_user: None,
            stratum_password: None,
            fan_speed: None,
            frequency: None,
            core_voltage: None,
        };
        assert(patch.populated() =~= Set::<Setting>::empty());
        patch
    }

    /// What the patch carries for `setting`, if anything.
    pub fn value_of(&self, setting: Setting) -> (value: Option<Scalar>)
        ensures
            value is Some <==> self.spec_value_of(setting) is Some,
            value matches Some(carried) ==> self.spec_value_of(setting) == Some(carried@),
    {
        match setting {
            Setting::StratumUrl => text_value(&self.stratum_url),
            Setting::StratumPort => match self.stratum_port {
                Some(n) => Some(Scalar::Number(n as u64)),
                None => None,
            },
            Setting::StratumUser => text_value(&self.stratum_user),
            Setting::StratumPassword => text_value(&self.stratum_password),
            Setting::FanSpeed => match self.fan_speed {
                Some(n) => Some(Scalar::Number(n as u64)),
                None => None,
            },
            Setting::Frequency => match self.frequency {
                Some(n) => Some(Scalar::Number(n as u64)),
                None => None,
            },
            Setting::CoreVoltage => match self.core_voltage {
                Some(n) => Some(Scalar::Number(n as u64)),
                None => None,
            },
        }
    }
}

fn text_value(field: &Option<String>) -> (value: Option<Scalar>)
    ensures
        value is Some <==> field is Some,
        value matches Some(carried) ==> spec_text_value(*field) == Some(carried@),
{
    match field {
        Some(text) => Some(Scalar::Text(text.clone())),
        None => None,
    }
}

proof fn lemma_named_is_inverse(setting: Setting)
    ensures
        Setting::named(setting.spec_wire_key()) == setting,
{
    lemma_wire_keys_distinct(Setting::named(setting.spec_wire_key()), setting);
}

proof fn lemma_payload_step(patch: &SettingsPatch, setting: Setting)
    ensures
        patch.payload_upto(setting.rank() + 1) == match patch.spec_value_of(setting) {
            Some(value) => patch.payload_upto(setting.rank()).insert(setting.spec_wire_key(), value),
            None => patch.payload_upto(setting.rank()),
        },
{
    let before = patch.payload_upto(setting.rank());
    let after = patch.payload_upto(setting.rank() + 1);
    lemma_named_is_inverse(setting);
    assert forall|other: Setting| other.rank() == setting.rank() implies other == setting by {}
    match patch.spec_value_of(setting) {
        Some(value) => {
            assert(after =~= before.insert(setting.spec_wire_key(), value));
        },
        None => {
            assert(after =~= before);
        },
    }
}

proof fn lemma_payload_bounds(patch: &SettingsPatch)
    ensures
        patch.payload_upto(0) == Map::<Seq<char>, ScalarView>::empty(),
        patch.payload_upto(SETTING_COUNT as int) == patch.payload(),
{
    assert(patch.payload_upto(0) =~= Map::<Seq<char>, ScalarView>::empty());
    assert forall|setting: Setting| setting.rank() < SETTING_COUNT by {}
    assert(patch.payload_upto(SETTING_COUNT as int) =~= patch.payload());
}

/// Sparseness: the keys of the object a patch is sent as are the firmware's
/// keys of the settings the patch carries, no more and no fewer, and each
/// holds the carried value.
pub proof fn lemma_payload_holds_what_is_set(patch: &SettingsPatch)
    ensures
        patch.payload().dom() == patch.populated().map(|setting: Setting| setting.spec_wire_key()),
        forall|setting: Setting|
            patch.payload().contains_key(#[trigger] setting.spec_wire_key())
                <==> patch.populated().contains(setting),
        forall|setting: Setting|
            patch.populated().contains(setting) ==> patch.payload()[#[trigger] setting.spec_wire_key()]
                == patch.spec_value_of(setting)->Some_0,
{
    let keys = patch.populated().map(|setting: Setting| setting.spec_wire_key());
    assert forall|key: Seq<char>| patch.payload().dom().contains(key) implies keys.contains(key) by {
        let setting = choose|setting: Setting|
            #[trigger] setting.spec_wire_key() == key && patch.spec_value_of(setting) is Some;
        assert(patch.populated().contains(setting));
    }
    assert forall|key: Seq<char>| keys.contains(key) implies patch.payload().dom().contains(key) by {
        let setting = choose|setting: Setting|
            patch.populated().contains(setting) && key == setting.spec_wire_key();
        assert(setting.spec_wire_key() == key);
    }
    assert(patch.payload().dom() =~= keys);
    assert forall|setting: Setting|
        patch.payload().contains_key(#[trigger] setting.spec_wire_key()) implies patch.populated().contains(
        setting,
    ) by {
        let witness = choose|other: Setting|
            #[trigger] other.spec_wire_key() == setting.spec_wire_key() && patch.spec_value_of(
                other,
            ) is Some;
        lemma_wire_keys_distinct(witness, setting);
    }
    assert forall|setting: Setting| patch.populated().contains(setting) implies patch.payload()[
        #[trigger] setting.spec_wire_key()
    ] == patch.spec_value_of(setting)->Some_0 by {
        lemma_named_is_inverse(setting);
    }
}

/// Builds the object a patch is sent as: one insertion for each setting the
/// patch carries, none for the others.
pub fn build_payload(patch: &SettingsPatch) -> (object: serde_json::Map<String, serde_json::Value>)
    ensures
        object_is_flat(object),
        object_members(object) == patch.payload(),
{
    let mut object = new_object();
    let mut index: usize = 0;
    proof {
        lemma_payload_bounds(patch);
        assert(object_members(object) =~= patch.payload_upto(0));
    }
    while index < SETTING_COUNT
        invariant
            index <= SETTING_COUNT,
            object_is_flat(object),
            object_members(object) == patch.payload_upto(index as int),
        decreases SETTING_COUNT - index,
    {
        let setting = Setting::at(index).unwrap();
        proof {
            lemma_payload_step(patch, setting);
        }
        match patch.value_of(setting) {
            Some(value) => {
                insert_member(&mut object, setting.wire_key(), value);
            },
            None => {},
        }
        index += 1;
    }
    proof {
        lemma_payload_bounds(patch);
    }
    object
}

/// The update that carries `body` to the miner at `address`: a PATCH of the
/// system endpoint that declares a JSON body, names the client, sends no
/// other header, follows no redirect and is given up after ten seconds.
pub open spec fn spec_patch_request(address: Seq<char>, body: Seq<char>) -> HttpRequestView {
    HttpRequestView {
        method: Method::Patch,
        url: spec_endpoint_url(address, SETTINGS_PATH@),
        headers: seq![("Content-Type"@, "application/json"@), spec_user_agent_header()],
        timeout_secs: SETTINGS_TIMEOUT_SECS as nat,
        follow_redirects: false,
        body: Some(body),
    }
}

/// Builds the update that carries `body` to the miner at `address`.
pub fn patch_request(address: &str, body: String) -> (request: HttpRequest)
    ensures
        request@ == spec_patch_request(address@, body@),
{
    let mut headers: Vec<Header> = Vec::new();
    headers.push(
        Header {
            name: String::from_str("Content-Type"),
            value: String::from_str("application/json"),
        },
    );
    headers.push(user_agent_header());
    let request = HttpRequest {
        method: Method::Patch,
        url: endpoint_url(address, SETTINGS_PATH),
        headers,
        timeout_secs: SETTINGS_TIMEOUT_SECS,
        follow_redirects: false,
        body: Some(body),
    };
    assert(request@.headers =~= spec_patch_request(address@, body@).headers);
    request
}

/// Builds the update that applies `patch` to the miner at `address`. Its body
/// is the JSON text of the patch's object; a patch that carries nothing is
/// sent all the same, as an object without members.
pub fn settings_request(address: &str, patch: &SettingsPatch) -> (request: HttpRequest)
    ensures
        request@ == spec_patch_request(address@, encoded_object(patch.payload())),
{
    let object = build_payload(patch);
    let body = encode_object(&object).unwrap();
    patch_request(address, body)
}

/// What the reply to an update means for the caller.
pub open spec fn spec_settings_outcome(address: Seq<char>, reply: Reply<String>) -> OutcomeView {
    match reply {
        Reply::Failed => Err(ClientErrorView::MinerUnreachable { address }),
        Reply::Received { status, body } => if spec_is_success(status) {
            Ok(SETTINGS_CONFIRMATION@)
        } else {
            Err(ClientErrorView::SettingsRejected { status, body: body@ })
        },
    }
}

/// Says what the reply to an update means: a success status confirms it, any
/// other status rejects it, with that status and the response body as they
/// arrived, and a transport failure leaves the miner unreachable.
pub fn settings_outcome(address: &str, reply: Reply<String>) -> (outcome: Outcome)
    ensures
        outcome_view(outcome) == spec_settings_outcome(address@, reply),
{
    match reply {
        Reply::Failed => Err(ClientError::MinerUnreachable { address: String::from_str(address) }),
        Reply::Received { status, body } => if is_success(status) {
            Ok(String::from_str(SETTINGS_CONFIRMATION))
        } else {
            Err(ClientError::SettingsRejected { status, body })
        },
    }
}

} // verus!

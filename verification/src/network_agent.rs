//! NetworkManager secret agent: the password prompt registry, the keyring
//! schema, and the rules for which secrets are looked up, saved and prompted for.
use vstd::prelude::*;

use crate::text::{
    chars_of, concat_chars, eq_str, from_utf8_lossy, owned, string_of, strip_both, strip_both_chars,
    utf8_lossy,
};

verus! {

/// Identifies one password prompt.
#[derive(Debug, Clone, Copy, PartialEq, Eq, Structural)]
pub struct NetworkPromptId(pub u64);

/// A request for the Wi-Fi password of a network.
#[derive(Debug, Clone, PartialEq, Eq)]
pub struct NetworkPrompt {
    pub id: NetworkPromptId,
    pub ssid: String,
}

/// What the user answered to a password prompt.
#[derive(Debug, Clone, PartialEq, Eq)]
pub enum NetworkPromptReply {
    Password(String),
    Cancel,
}

pub const WIFI_SECURITY_SETTING: &'static str = "802-11-wireless-security";

pub const WIFI_PSK_KEY: &'static str = "psk";

pub const SECRET_CONTENT_TYPE: &'static str = "text/plain";

pub const NM_SECRET_AGENT_GET_SECRETS_FLAG_NONE: u32 = 0x0;

pub const NM_SECRET_AGENT_GET_SECRETS_FLAG_ALLOW_INTERACTION: u32 = 0x1;

pub const NM_SECRET_AGENT_GET_SECRETS_FLAG_REQUEST_NEW: u32 = 0x2;

// ---------------------------------------------------------------------------
// Prompt registry
// ---------------------------------------------------------------------------

/// The registry of password prompts: at most one at a time.
#[derive(Debug, Clone)]
pub struct PromptRegistry {
    pub next_prompt_id: u64,
    pub current: Option<NetworkPrompt>,
}

/// Every id issued so far is below `next_prompt_id`, and ids start at 1.
pub open spec fn wf(r: PromptRegistry) -> bool {
    &&& r.next_prompt_id >= 1
    &&& r.current matches Some(p) ==> p.id.0 < r.next_prompt_id
}

/// The outcome of a request: refused while a prompt is shown, otherwise shown
/// under the next id.
pub open spec fn request_step(r: PromptRegistry, ssid: String) -> (PromptRegistry, Option<NetworkPromptId>) {
    if r.current is Some {
        (r, None)
    } else {
        let id = NetworkPromptId(r.next_prompt_id);
        (
            PromptRegistry {
                next_prompt_id: (r.next_prompt_id + 1) as u64,
                current: Some(NetworkPrompt { id, ssid }),
            },
            Some(id),
        )
    }
}

/// A reply to hand to the request that waits on prompt `id`.
#[derive(Debug, Clone, PartialEq, Eq)]
pub struct PromptDelivery {
    pub id: NetworkPromptId,
    pub reply: NetworkPromptReply,
}

/// The outcome of completing `id` with `reply`: when `id` names the shown
/// prompt, it is cleared and `reply` goes to the request waiting on it;
/// otherwise nothing changes and nothing is delivered.
pub open spec fn complete_step(r: PromptRegistry, id: NetworkPromptId, reply: NetworkPromptReply) -> (
    PromptRegistry,
    Option<PromptDelivery>,
) {
    if r.current matches Some(p) && p.id == id {
        (PromptRegistry { next_prompt_id: r.next_prompt_id, current: None }, Some(PromptDelivery { id, reply }))
    } else {
        (r, None)
    }
}

/// The outcome of cancelling: the shown prompt, if any, is cleared and its
/// waiting request gets `Cancel`.
pub open spec fn cancel_step(r: PromptRegistry) -> (PromptRegistry, Option<PromptDelivery>) {
    match r.current {
        Some(p) => (
            PromptRegistry { next_prompt_id: r.next_prompt_id, current: None },
            Some(PromptDelivery { id: p.id, reply: NetworkPromptReply::Cancel }),
        ),
        None => (r, None),
    }
}

impl PromptRegistry {
    /// An empty registry.
    pub fn new() -> (r: Self)
        ensures
            r.next_prompt_id == 1,
            r.current is None,
            wf(r),
    {
        PromptRegistry { next_prompt_id: 1, current: None }
    }

    /// Shows a password prompt for `ssid`; refused (`None`) while another is shown.
    pub fn request_prompt(&mut self, ssid: String) -> (out: Option<NetworkPromptId>)
        requires
            wf(*old(self)),
            old(self).next_prompt_id < u64::MAX,
        ensures
            (*final(self), out) == request_step(*old(self), ssid),
            wf(*final(self)),
    {
        if self.current.is_some() {
            return None;
        }
        let id = self.allocate_prompt_id();
        self.current = Some(NetworkPrompt { id, ssid });
        Some(id)
    }

    /// Completes the prompt with this id with the user's reply, and says what
    /// to hand to the request waiting on it; `None`, and nothing changes, when
    /// `id` is not the prompt shown.
    pub fn complete(&mut self, id: NetworkPromptId, reply: NetworkPromptReply) -> (out: Option<PromptDelivery>)
        requires
            wf(*old(self)),
        ensures
            (*final(self), out) == complete_step(*old(self), id, reply),
            wf(*final(self)),
    {
        let matches = match &self.current {
            Some(current) => current.id == id,
            None => false,
        };
        if !matches {
            return None;
        }
        self.current = None;
        Some(PromptDelivery { id, reply })
    }

    /// Cancels the prompt shown, and says what to hand to the request waiting
    /// on it (`Cancel`); `None` when no prompt is shown.
    pub fn cancel_current(&mut self) -> (out: Option<PromptDelivery>)
        requires
            wf(*old(self)),
        ensures
            (*final(self), out) == cancel_step(*old(self)),
            wf(*final(self)),
    {
        let id = match &self.current {
            Some(current) => current.id,
            None => return None,
        };
        self.current = None;
        Some(PromptDelivery { id, reply: NetworkPromptReply::Cancel })
    }

    /// The prompt shown, if any.
    pub fn current_prompt(&self) -> (out: Option<&NetworkPrompt>)
        ensures
            out == match self.current {
                Some(p) => Some(&p),
                None => None::<&NetworkPrompt>,
            },
    {
        self.current.as_ref()
    }

    /// Issues the next prompt id.
    pub fn allocate_prompt_id(&mut self) -> (id: NetworkPromptId)
        requires
            old(self).next_prompt_id < u64::MAX,
        ensures
            id.0 == old(self).next_prompt_id,
            final(self).next_prompt_id == old(self).next_prompt_id + 1,
            final(self).current == old(self).current,
    {
        let id = NetworkPromptId(self.next_prompt_id);
        self.next_prompt_id = self.next_prompt_id + 1;
        id
    }
}

/// The name of a reply, for logs.
pub fn prompt_reply_name(reply: &NetworkPromptReply) -> (out: &'static str)
    ensures
        out@ == (match *reply {
            NetworkPromptReply::Password(_) => "password"@,
            NetworkPromptReply::Cancel => "cancel"@,
        }),
{
    match reply {
        NetworkPromptReply::Password(_) => "password",
        NetworkPromptReply::Cancel => "cancel",
    }
}

/// While a prompt is shown, a second request is refused and changes nothing.
pub proof fn law_concurrent_request_refused(r: PromptRegistry, ssid: String)
    requires
        r.current is Some,
    ensures
        request_step(r, ssid) == (r, None::<NetworkPromptId>),
{
}

/// A request granted on an idle registry is completed by its own id, once:
/// the user's reply reaches the request, afterwards the registry is idle, and
/// the same id is refused.
pub proof fn law_request_then_complete(r: PromptRegistry, ssid: String, reply: NetworkPromptReply, again: NetworkPromptReply)
    requires
        wf(r),
        r.current is None,
        r.next_prompt_id < u64::MAX,
    ensures
        ({
            let (r1, out) = request_step(r, ssid);
            let id = NetworkPromptId(r.next_prompt_id);
            let (r2, delivered) = complete_step(r1, id, reply);
            &&& out == Some(id)
            &&& delivered == Some(PromptDelivery { id, reply })
            &&& r2.current is None
            &&& r2.next_prompt_id == r.next_prompt_id + 1
            &&& complete_step(r2, id, again) == (r2, None::<PromptDelivery>)
        }),
{
}

/// Cancelling hands `Cancel` to the request waiting on the shown prompt.
pub proof fn law_cancel_answers_request(r: PromptRegistry, ssid: String)
    requires
        wf(r),
        r.current is None,
        r.next_prompt_id < u64::MAX,
    ensures
        ({
            let (r1, out) = request_step(r, ssid);
            let (r2, delivered) = cancel_step(r1);
            &&& delivered == Some(PromptDelivery { id: NetworkPromptId(r.next_prompt_id), reply: NetworkPromptReply::Cancel })
            &&& r2.current is None
        }),
{
}

/// One call on the registry.
#[derive(Debug, Clone)]
pub enum RegistryCall {
    Request { ssid: String },
    Complete { id: NetworkPromptId, reply: NetworkPromptReply },
    Cancel,
}

/// The registry after one call, and the id the call issued, if any.
pub open spec fn call_step(r: PromptRegistry, call: RegistryCall) -> (PromptRegistry, Option<u64>) {
    match call {
        RegistryCall::Request { ssid } => {
            let (r1, out) = request_step(r, ssid);
            (r1, match out {
                Some(id) => Some(id.0),
                None => None,
            })
        },
        RegistryCall::Complete { id, reply } => (complete_step(r, id, reply).0, None),
        RegistryCall::Cancel => (cancel_step(r).0, None),
    }
}

/// The registry after a run of calls, and the ids issued, in order.
pub open spec fn run_calls(r: PromptRegistry, calls: Seq<RegistryCall>) -> (PromptRegistry, Seq<u64>)
    decreases calls.len(),
{
    if calls.len() == 0 {
        (r, Seq::empty())
    } else {
        let (r1, issued) = run_calls(r, calls.drop_last());
        let (r2, new_id) = call_step(r1, calls.last());
        (r2, match new_id {
            Some(id) => issued.push(id),
            None => issued,
        })
    }
}

/// Prompt ids are fresh over any run of calls: the ids issued are
/// `next_prompt_id`, `next_prompt_id + 1`, ... in order (from a new registry,
/// 1, 2, ...), so none is issued twice; a prompt shown after the run is the
/// last one issued, so a reply for an earlier prompt never completes it.
pub proof fn law_ids_fresh_over_runs(r: PromptRegistry, calls: Seq<RegistryCall>)
    requires
        wf(r),
        r.next_prompt_id + calls.len() < u64::MAX,
    ensures
        ({
            let (r2, issued) = run_calls(r, calls);
            &&& wf(r2)
            &&& issued.len() <= calls.len()
            &&& r2.next_prompt_id == r.next_prompt_id + issued.len()
            &&& forall|i: int| 0 <= i < issued.len() ==> #[trigger] issued[i] == r.next_prompt_id + i
            &&& (issued.len() > 0 && r2.current is Some) ==> r2.current->0.id.0 == issued.last()
            &&& forall|i: int, reply: NetworkPromptReply|
                0 <= i < issued.len() - 1 ==> #[trigger] complete_step(r2, NetworkPromptId(issued[i]), reply) == (r2, None::<PromptDelivery>)
        }),
    decreases calls.len(),
{
    let (r2, issued) = run_calls(r, calls);
    if calls.len() > 0 {
        law_ids_fresh_over_runs(r, calls.drop_last());
        let (r1, earlier) = run_calls(r, calls.drop_last());
        assert(r1.next_prompt_id < u64::MAX);
        assert forall|i: int| 0 <= i < issued.len() implies #[trigger] issued[i] == r.next_prompt_id + i by {
            if i < earlier.len() {
                assert(issued[i] == earlier[i]);
            }
        }
    }
    assert forall|i: int, reply: NetworkPromptReply|
        0 <= i < issued.len() - 1 implies #[trigger] complete_step(r2, NetworkPromptId(issued[i]), reply) == (r2, None::<PromptDelivery>) by {
        assert(issued[i] == r.next_prompt_id + i);
        assert(issued[issued.len() - 1] == r.next_prompt_id + issued.len() - 1);
    }
}

// ---------------------------------------------------------------------------
// Secret requests
// ---------------------------------------------------------------------------

/// Whether a GetSecrets request lets the agent ask the user: it allows
/// interaction, or asks for new secrets.
pub fn secrets_request_allows_interaction(flags: u32) -> (out: bool)
    ensures
        out == (flags & 3u32 != 0),
{
    let mask = NM_SECRET_AGENT_GET_SECRETS_FLAG_ALLOW_INTERACTION
        | NM_SECRET_AGENT_GET_SECRETS_FLAG_REQUEST_NEW;
    assert(mask == 3u32) by (bit_vector)
        requires
            mask == 1u32 | 2u32,
    ;
    flags & mask != NM_SECRET_AGENT_GET_SECRETS_FLAG_NONE
}

/// Attributes of a keyring item, in the order they are given.
#[derive(Debug, Clone)]
pub struct SecretAttributes {
    pub entries: Vec<(String, String)>,
}

/// The value of the first attribute named `key`.
pub open spec fn attribute_value(entries: Seq<(String, String)>, key: Seq<char>) -> Option<Seq<char>>
    decreases entries.len(),
{
    if entries.len() == 0 {
        None
    } else if entries[0].0@ == key {
        Some(entries[0].1@)
    } else {
        attribute_value(entries.drop_first(), key)
    }
}

impl SecretAttributes {
    /// The value of the attribute named `key`.
    pub fn get(&self, key: &str) -> (out: Option<&str>)
        ensures
            match attribute_value(self.entries@, key@) {
                Some(v) => out matches Some(s) && s@ == v,
                None => out is None,
            },
    {
        let mut i: usize = 0;
        assert(self.entries@.skip(0) =~= self.entries@);
        while i < self.entries.len()
            invariant
                i <= self.entries.len(),
                attribute_value(self.entries@.skip(i as int), key@) == attribute_value(
                    self.entries@,
                    key@,
                ),
            decreases self.entries.len() - i,
        {
            assert(self.entries@.skip(i as int).drop_first() =~= self.entries@.skip(i + 1));
            assert(self.entries@.skip(i as int)[0] == self.entries@[i as int]);
            if eq_str(self.entries[i].0.as_str(), key) {
                return Some(self.entries[i].1.as_str());
            }
            i += 1;
        }
        None
    }

    /// The number of attributes.
    pub fn len(&self) -> (out: usize)
        ensures
            out == self.entries@.len(),
    {
        self.entries.len()
    }
}

/// The attributes that find the secrets NetworkManager stored for a setting of
/// a connection.
pub fn secret_lookup_attributes(uuid: &str, setting_name: &str) -> (out: SecretAttributes)
    ensures
        out.entries@.len() == 2,
        out.entries@[0].0@ == "connection-uuid"@,
        out.entries@[0].1@ == uuid@,
        out.entries@[1].0@ == "setting-name"@,
        out.entries@[1].1@ == setting_name@,
{
    let mut entries: Vec<(String, String)> = Vec::new();
    entries.push((owned("connection-uuid"), owned(uuid)));
    entries.push((owned("setting-name"), owned(setting_name)));
    SecretAttributes { entries }
}

/// The attributes stored with one secret: the lookup attributes plus the key.
pub fn secret_item_attributes(uuid: &str, setting_name: &str, setting_key: &str) -> (out:
    SecretAttributes)
    ensures
        out.entries@.len() == 3,
        out.entries@[0].0@ == "connection-uuid"@,
        out.entries@[0].1@ == uuid@,
        out.entries@[1].0@ == "setting-name"@,
        out.entries@[1].1@ == setting_name@,
        out.entries@[2].0@ == "setting-key"@,
        out.entries@[2].1@ == setting_key@,
{
    let mut entries: Vec<(String, String)> = Vec::new();
    entries.push((owned("connection-uuid"), owned(uuid)));
    entries.push((owned("setting-name"), owned(setting_name)));
    entries.push((owned("setting-key"), owned(setting_key)));
    SecretAttributes { entries }
}

// ---------------------------------------------------------------------------
// Connection settings
// ---------------------------------------------------------------------------

/// A value of a connection setting, as far as the agent reads it.
#[derive(Debug, Clone, PartialEq, Eq)]
pub enum SettingValue {
    Text(String),
    Bytes(Vec<u8>),
    Other,
}

/// One key of a setting.
#[derive(Debug, Clone, PartialEq, Eq)]
pub struct SettingEntry {
    pub key: String,
    pub value: SettingValue,
}

/// One setting (such as `connection` or `802-11-wireless`) of a connection.
#[derive(Debug, Clone, PartialEq, Eq)]
pub struct Setting {
    pub name: String,
    pub entries: Vec<SettingEntry>,
}

/// The settings of a connection (NetworkManager's `a{sa{sv}}`); names are
/// looked up in order, the first match wins.
#[derive(Debug, Clone, PartialEq, Eq)]
pub struct ConnectionSettings {
    pub settings: Vec<Setting>,
}

/// Secrets returned to NetworkManager have the same shape as settings.
pub type SecretMap = ConnectionSettings;

/// The first setting named `name`.
pub open spec fn find_setting(s: Seq<Setting>, name: Seq<char>) -> Option<Setting>
    decreases s.len(),
{
    if s.len() == 0 {
        None
    } else if s[0].name@ == name {
        Some(s[0])
    } else {
        find_setting(s.drop_first(), name)
    }
}

/// A connection's settings as NetworkManager hands them over, a map of maps:
/// no two settings share a name, and no setting holds a key twice.
pub open spec fn valid_settings(c: ConnectionSettings) -> bool {
    &&& forall|i: int, j: int|
        0 <= i < j < c.settings@.len() ==> (#[trigger] c.settings@[i]).name@ != (#[trigger] c.settings@[j]).name@
    &&& forall|i: int, k: int, l: int|
        0 <= i < c.settings@.len() && 0 <= k < l < c.settings@[i].entries@.len()
            ==> (#[trigger] c.settings@[i].entries@[k]).key@ != (#[trigger] c.settings@[i].entries@[l]).key@
}

/// The first entry keyed `key`.
pub open spec fn find_entry(s: Seq<SettingEntry>, key: Seq<char>) -> Option<SettingEntry>
    decreases s.len(),
{
    if s.len() == 0 {
        None
    } else if s[0].key@ == key {
        Some(s[0])
    } else {
        find_entry(s.drop_first(), key)
    }
}

/// The value at `setting_name.key`, if present.
pub open spec fn setting_value(c: ConnectionSettings, setting_name: Seq<char>, key: Seq<char>) -> Option<SettingValue> {
    match find_setting(c.settings@, setting_name) {
        Some(setting) => match find_entry(setting.entries@, key) {
            Some(entry) => Some(entry.value),
            None => None,
        },
        None => None,
    }
}

/// The text at `setting_name.key`, if present and a string.
pub open spec fn string_value(c: ConnectionSettings, setting_name: Seq<char>, key: Seq<char>) -> Option<Seq<char>> {
    match setting_value(c, setting_name, key) {
        Some(SettingValue::Text(t)) => Some(t@),
        _ => None,
    }
}

/// The SSID at `setting_name.key`: the bytes decoded leniently, NUL padding
/// stripped from both ends.
pub open spec fn ssid_value(c: ConnectionSettings, setting_name: Seq<char>, key: Seq<char>) -> Option<Seq<char>> {
    match setting_value(c, setting_name, key) {
        Some(SettingValue::Bytes(b)) => Some(strip_both(utf8_lossy(b@), seq!['\0'])),
        _ => None,
    }
}

/// The name shown for a connection: its SSID, else its id, else `fallback`
/// (empty values count as absent).
pub open spec fn connection_label_text(c: ConnectionSettings, fallback: Seq<char>) -> Seq<char> {
    match ssid_value(c, "802-11-wireless"@, "ssid"@) {
        Some(ssid) if ssid.len() > 0 => ssid,
        _ => match string_value(c, "connection"@, "id"@) {
            Some(id) if id.len() > 0 => id,
            _ => fallback,
        },
    }
}

fn setting_value_of<'a>(connection: &'a ConnectionSettings, setting_name: &str, key: &str) -> (out: Option<&'a SettingValue>)
    ensures
        match setting_value(*connection, setting_name@, key@) {
            Some(v) => out matches Some(w) && *w == v,
            None => out is None,
        },
{
    let settings = &connection.settings;
    let mut i: usize = 0;
    assert(settings@.skip(0) =~= settings@);
    while i < settings.len()
        invariant
            i <= settings.len(),
            settings == connection.settings,
            find_setting(settings@.skip(i as int), setting_name@) == find_setting(settings@, setting_name@),
        decreases settings.len() - i,
    {
        assert(settings@.skip(i as int).drop_first() =~= settings@.skip(i + 1));
        assert(settings@.skip(i as int)[0] == settings@[i as int]);
        if eq_str(settings[i].name.as_str(), setting_name) {
            let entries = &settings[i].entries;
            let mut j: usize = 0;
            assert(entries@.skip(0) =~= entries@);
            while j < entries.len()
                invariant
                    j <= entries.len(),
                    settings == connection.settings,
                    i < settings.len(),
                    *entries == settings@[i as int].entries,
                    find_setting(settings@, setting_name@) == Some(settings@[i as int]),
                    find_entry(entries@.skip(j as int), key@) == find_entry(entries@, key@),
                decreases entries.len() - j,
            {
                assert(entries@.skip(j as int).drop_first() =~= entries@.skip(j + 1));
                assert(entries@.skip(j as int)[0] == entries@[j as int]);
                if eq_str(entries[j].key.as_str(), key) {
                    return Some(&entries[j].value);
                }
                j += 1;
            }
            return None;
        }
        i += 1;
    }
    None
}

/// The text at `setting_name.key`, if present and a string.
pub fn string_setting(connection: &ConnectionSettings, setting_name: &str, key: &str) -> (out: Option<String>)
    requires
        valid_settings(*connection),
    ensures
        match string_value(*connection, setting_name@, key@) {
            Some(t) => out matches Some(s) && s@ == t,
            None => out is None,
        },
{
    match setting_value_of(connection, setting_name, key) {
        Some(SettingValue::Text(text)) => Some(text.clone()),
        _ => None,
    }
}

/// The SSID at `setting_name.key`, decoded leniently with NUL padding removed.
pub fn ssid_setting(connection: &ConnectionSettings, setting_name: &str, key: &str) -> (out: Option<String>)
    requires
        valid_settings(*connection),
    ensures
        match ssid_value(*connection, setting_name@, key@) {
            Some(t) => out matches Some(s) && s@ == t,
            None => out is None,
        },
{
    match setting_value_of(connection, setting_name, key) {
        Some(SettingValue::Bytes(bytes)) => {
            let text = from_utf8_lossy(bytes.as_slice());
            let nul = ['\0'];
            assert(nul@ =~= seq!['\0']);
            Some(string_of(&strip_both_chars(&chars_of(text.as_str()), &nul)))
        },
        _ => None,
    }
}

/// The name shown for a connection: its SSID, else its id, else `fallback`.
pub fn connection_label(connection: &ConnectionSettings, fallback: &str) -> (out: String)
    requires
        valid_settings(*connection),
    ensures
        out@ == connection_label_text(*connection, fallback@),
{
    if let Some(ssid) = ssid_setting(connection, "802-11-wireless", "ssid") {
        if !ssid.as_str().is_empty() {
            return ssid;
        }
    }
    if let Some(id) = string_setting(connection, "connection", "id") {
        if !id.as_str().is_empty() {
            return id;
        }
    }
    owned(fallback)
}

/// One secret to store in the keyring.
#[derive(Debug, Clone, PartialEq, Eq)]
pub struct KeyringSecretEntry {
    pub uuid: String,
    pub connection_label: String,
    pub setting_name: &'static str,
    pub setting_key: &'static str,
    pub secret: String,
}

/// The secrets of a connection that the agent stores: the Wi-Fi PSK, when the
/// connection has a UUID and a non-empty PSK.
pub fn keyring_secret_entries(connection: &ConnectionSettings) -> (out: Vec<KeyringSecretEntry>)
    requires
        valid_settings(*connection),
    ensures
        match (string_value(*connection, "connection"@, "uuid"@), string_value(
            *connection,
            WIFI_SECURITY_SETTING@,
            WIFI_PSK_KEY@,
        )) {
            (Some(uuid), Some(psk)) if uuid.len() > 0 && psk.len() > 0 => {
                &&& out@.len() == 1
                &&& out@[0].uuid@ == uuid
                &&& out@[0].connection_label@ == connection_label_text(*connection, uuid)
                &&& out@[0].setting_name@ == WIFI_SECURITY_SETTING@
                &&& out@[0].setting_key@ == WIFI_PSK_KEY@
                &&& out@[0].secret@ == psk
            },
            _ => out@.len() == 0,
        },
{
    let uuid = match string_setting(connection, "connection", "uuid") {
        Some(uuid) => uuid,
        None => return Vec::new(),
    };
    if uuid.as_str().is_empty() {
        return Vec::new();
    }
    let label = connection_label(connection, uuid.as_str());
    let mut entries: Vec<KeyringSecretEntry> = Vec::new();
    if let Some(secret) = string_setting(connection, WIFI_SECURITY_SETTING, WIFI_PSK_KEY) {
        if !secret.as_str().is_empty() {
            entries.push(
                KeyringSecretEntry {
                    uuid,
                    connection_label: label,
                    setting_name: WIFI_SECURITY_SETTING,
                    setting_key: WIFI_PSK_KEY,
                    secret,
                },
            );
        }
    }
    entries
}

/// The keyring label of a stored secret.
pub fn keyring_secret_label(entry: &KeyringSecretEntry) -> (out: String)
    ensures
        out@ == "Network secret for "@ + entry.connection_label@ + ": "@ + entry.setting_name@ + "."@
            + entry.setting_key@,
{
    let out = concat_chars(
        &concat_chars(
            &concat_chars(
                &concat_chars(
                    &concat_chars(&chars_of("Network secret for "), &chars_of(entry.connection_label.as_str())),
                    &chars_of(": "),
                ),
                &chars_of(entry.setting_name),
            ),
            &chars_of("."),
        ),
        &chars_of(entry.setting_key),
    );
    string_of(&out)
}

/// The secrets answering a Wi-Fi password prompt: the PSK of the wireless
/// security setting.
pub fn wifi_password_secret_map(password: &str) -> (out: SecretMap)
    ensures
        out.settings@.len() == 1,
        out.settings@[0].name@ == WIFI_SECURITY_SETTING@,
        out.settings@[0].entries@.len() == 1,
        out.settings@[0].entries@[0].key@ == WIFI_PSK_KEY@,
        out.settings@[0].entries@[0].value matches SettingValue::Text(t) && t@ == password@,
        valid_settings(out),
{
    let mut entries: Vec<SettingEntry> = Vec::new();
    entries.push(SettingEntry { key: owned(WIFI_PSK_KEY), value: SettingValue::Text(owned(password)) });
    let mut settings: Vec<Setting> = Vec::new();
    settings.push(Setting { name: owned(WIFI_SECURITY_SETTING), entries });
    ConnectionSettings { settings }
}

/// What to answer a GetSecrets request that the keyring could not serve:
/// `None` for an empty answer (a setting other than Wi-Fi security, or no
/// interaction allowed), otherwise the label to show in a password prompt.
pub fn secrets_fallback(
    connection: &ConnectionSettings,
    connection_path: &str,
    setting_name: &str,
    flags: u32,
) -> (out: Option<String>)
    requires
        valid_settings(*connection),
    ensures
        (setting_name@ != WIFI_SECURITY_SETTING@ || (flags & 3u32) == 0) ==> out is None,
        (setting_name@ == WIFI_SECURITY_SETTING@ && (flags & 3u32) != 0) ==> (out matches Some(
            label,
        ) && label@ == connection_label_text(*connection, connection_path@)),
{
    if !eq_str(setting_name, WIFI_SECURITY_SETTING) {
        return None;
    }
    if !secrets_request_allows_interaction(flags) {
        return None;
    }
    Some(connection_label(connection, connection_path))
}

/// The connection's UUID for a keyring lookup, when it has a non-empty one.
pub fn keyring_lookup_uuid(connection: &ConnectionSettings) -> (out: Option<String>)
    requires
        valid_settings(*connection),
    ensures
        match string_value(*connection, "connection"@, "uuid"@) {
            Some(u) if u.len() > 0 => out matches Some(s) && s@ == u,
            _ => out is None,
        },
{
    match string_setting(connection, "connection", "uuid") {
        Some(uuid) => if uuid.as_str().is_empty() { None } else { Some(uuid) },
        None => None,
    }
}

// ---------------------------------------------------------------------------
// Answering GetSecrets
// ---------------------------------------------------------------------------

/// Where a GetSecrets request stands, and what the caller does next.
#[derive(Debug, Clone, PartialEq, Eq)]
pub enum SecretsStep {
    /// Look the connection's secrets up in the keyring under this UUID.
    LookupKeyring { uuid: String },
    /// Ask the user for the password of the network shown under this label.
    PromptPassword { label: String },
    /// Answer with these secrets (none, when the map is empty).
    Answer { secrets: SecretMap },
    /// Fail the request with this message.
    Fail { message: String },
}

/// What the keyring lookup gave: the secrets found (possibly none), or a
/// failure.
#[derive(Debug, Clone, PartialEq, Eq)]
pub enum KeyringOutcome {
    Found(SecretMap),
    Failed,
}

/// What the password prompt gave: refused because another prompt is shown,
/// the user's reply, or the reply channel closed without one.
#[derive(Debug, Clone, PartialEq, Eq)]
pub enum PasswordOutcome {
    Busy,
    Reply(NetworkPromptReply),
    Closed,
}

/// The step once the keyring could not serve the request: an empty answer
/// for a setting other than Wi-Fi security or when no interaction is allowed,
/// otherwise a password prompt under the connection's label.
pub open spec fn fallback_step_ok(
    out: SecretsStep,
    connection: ConnectionSettings,
    connection_path: Seq<char>,
    setting_name: Seq<char>,
    flags: u32,
) -> bool {
    if setting_name != WIFI_SECURITY_SETTING@ || (flags & 3u32) == 0 {
        out matches SecretsStep::Answer { secrets } && secrets.settings@.len() == 0
    } else {
        out matches SecretsStep::PromptPassword { label } && label@ == connection_label_text(connection, connection_path)
    }
}

fn fallback_step(connection: &ConnectionSettings, connection_path: &str, setting_name: &str, flags: u32) -> (out:
    SecretsStep)
    requires
        valid_settings(*connection),
    ensures
        fallback_step_ok(out, *connection, connection_path@, setting_name@, flags),
{
    match secrets_fallback(connection, connection_path, setting_name, flags) {
        Some(label) => SecretsStep::PromptPassword { label },
        None => SecretsStep::Answer { secrets: ConnectionSettings { settings: Vec::new() } },
    }
}

/// The first step of a GetSecrets request: a keyring lookup when the
/// connection has a UUID, otherwise the fallback.
pub fn get_secrets_start(connection: &ConnectionSettings, connection_path: &str, setting_name: &str, flags: u32) -> (out:
    SecretsStep)
    requires
        valid_settings(*connection),
    ensures
        match string_value(*connection, "connection"@, "uuid"@) {
            Some(u) if u.len() > 0 => out matches SecretsStep::LookupKeyring { uuid } && uuid@ == u,
            _ => fallback_step_ok(out, *connection, connection_path@, setting_name@, flags),
        },
{
    match keyring_lookup_uuid(connection) {
        Some(uuid) => SecretsStep::LookupKeyring { uuid },
        None => fallback_step(connection, connection_path, setting_name, flags),
    }
}

/// The step after the keyring lookup: secrets found answer the request; no
/// secrets, or a failed lookup, lead to the fallback.
pub fn get_secrets_after_keyring(
    connection: &ConnectionSettings,
    connection_path: &str,
    setting_name: &str,
    flags: u32,
    outcome: KeyringOutcome,
) -> (out: SecretsStep)
    requires
        valid_settings(*connection),
    ensures
        match outcome {
            KeyringOutcome::Found(secrets) if secrets.settings@.len() > 0 => out == (SecretsStep::Answer { secrets }),
            _ => fallback_step_ok(out, *connection, connection_path@, setting_name@, flags),
        },
{
    match outcome {
        KeyringOutcome::Found(secrets) => {
            if secrets.settings.len() > 0 {
                SecretsStep::Answer { secrets }
            } else {
                fallback_step(connection, connection_path, setting_name, flags)
            }
        },
        KeyringOutcome::Failed => fallback_step(connection, connection_path, setting_name, flags),
    }
}

/// The last step, after the password prompt: a password answers with the
/// Wi-Fi PSK; a busy prompt, a cancel or a closed channel fail the request.
pub fn get_secrets_after_prompt(outcome: PasswordOutcome) -> (out: SecretsStep)
    ensures
        match outcome {
            PasswordOutcome::Busy => out matches SecretsStep::Fail { message } && message@
                == "a network prompt is already active"@,
            PasswordOutcome::Reply(NetworkPromptReply::Password(password)) => out matches SecretsStep::Answer {
                secrets,
            } && secrets.settings@.len() == 1 && secrets.settings@[0].name@ == WIFI_SECURITY_SETTING@
                && secrets.settings@[0].entries@.len() == 1 && secrets.settings@[0].entries@[0].key@
                == WIFI_PSK_KEY@ && (secrets.settings@[0].entries@[0].value matches SettingValue::Text(t)
                && t@ == password@),
            PasswordOutcome::Reply(NetworkPromptReply::Cancel) => out matches SecretsStep::Fail { message }
                && message@ == "cancelled by user"@,
            PasswordOutcome::Closed => out matches SecretsStep::Fail { message } && message@
                == "network prompt reply channel closed"@,
        },
{
    match outcome {
        PasswordOutcome::Busy => SecretsStep::Fail { message: owned("a network prompt is already active") },
        PasswordOutcome::Reply(NetworkPromptReply::Password(password)) => SecretsStep::Answer {
            secrets: wifi_password_secret_map(password.as_str()),
        },
        PasswordOutcome::Reply(NetworkPromptReply::Cancel) => SecretsStep::Fail { message: owned("cancelled by user") },
        PasswordOutcome::Closed => SecretsStep::Fail { message: owned("network prompt reply channel closed") },
    }
}

} // verus!

//! BlueZ pairing agent: the registry of pairing prompts shown to the user, and
//! the policy for authorizing services of known devices.
//!
//! The registry holds at most one prompt. An interactive prompt (one BlueZ waits
//! on for an answer) blocks every other request until it is completed or
//! cancelled; a display-only prompt (a PIN or passkey to show) is replaced by
//! newer ones, and updated in place when it is for the same device and kind.
use vstd::prelude::*;

use crate::text::owned;

verus! {

/// Identifies one prompt.
#[derive(Debug, Clone, Copy, PartialEq, Eq, Structural)]
pub struct BluetoothPromptId(pub u64);

/// What a pairing prompt asks or shows.
#[derive(Debug, Clone, PartialEq, Eq)]
pub enum BluetoothPromptKind {
    Confirm { passkey: u32 },
    AuthorizePairing,
    AuthorizeService { uuid: String },
    RequestPin,
    RequestPasskey,
    DisplayPin { pincode: String },
    DisplayPasskey { passkey: u32, entered: u16 },
}

/// A prompt for one device.
#[derive(Debug, Clone, PartialEq, Eq)]
pub struct BluetoothPrompt {
    pub id: BluetoothPromptId,
    pub device_path: String,
    pub device_label: String,
    pub kind: BluetoothPromptKind,
}

/// The user's answer to a prompt.
#[derive(Debug, Clone, PartialEq, Eq)]
pub enum BluetoothPromptReply {
    Confirm,
    Pin(String),
    Passkey(u32),
    Cancel,
}

/// Whether registering the agent also made it BlueZ's default agent.
#[derive(Debug, Clone, Copy, PartialEq, Eq, Structural)]
pub enum AgentDefaultStatus {
    Default,
    RegisteredOnly,
}

/// How to answer a request to authorize a service of a device.
#[derive(Debug, Clone, Copy, PartialEq, Eq, Structural)]
pub enum ServiceAuthorizationPolicy {
    Prompt,
    Accept,
    TrustAndAccept,
}

/// Why a prompt could not be registered.
#[derive(Debug, Clone, Copy, PartialEq, Eq, Structural)]
pub enum PromptRegistryError {
    Busy,
}

impl PromptRegistryError {
    /// The error message.
    pub fn message(&self) -> (out: String)
        ensures
            out@ == "a bluetooth prompt is already active"@,
    {
        owned("a bluetooth prompt is already active")
    }
}

/// The prompt currently shown, and whether BlueZ waits for its answer.
#[derive(Debug, Clone)]
pub struct PendingPrompt {
    pub prompt: BluetoothPrompt,
    pub interactive: bool,
}

/// The registry of pairing prompts.
#[derive(Debug, Clone)]
pub struct PromptRegistry {
    pub next_prompt_id: u64,
    pub current: Option<PendingPrompt>,
}

/// Every id issued so far is below `next_prompt_id`, and ids start at 1.
pub open spec fn wf(r: PromptRegistry) -> bool {
    &&& r.next_prompt_id >= 1
    &&& r.current matches Some(p) ==> p.prompt.id.0 < r.next_prompt_id
}

/// Both kinds show the same sort of code: both PINs or both passkeys.
pub open spec fn same_display_kind(left: BluetoothPromptKind, right: BluetoothPromptKind) -> bool {
    ||| (left is DisplayPin && right is DisplayPin)
    ||| (left is DisplayPasskey && right is DisplayPasskey)
}

/// The registry after `publish_prompt`.
pub open spec fn published(r: PromptRegistry, prompt: BluetoothPrompt, interactive: bool) -> PromptRegistry {
    PromptRegistry {
        next_prompt_id: r.next_prompt_id,
        current: Some(PendingPrompt { prompt, interactive }),
    }
}

/// The registry after issuing the next id.
pub open spec fn advanced(r: PromptRegistry) -> PromptRegistry {
    PromptRegistry { next_prompt_id: (r.next_prompt_id + 1) as u64, current: r.current }
}

/// The outcome of an interactive request: rejected while any prompt is shown,
/// otherwise shown under the next id.
pub open spec fn request_step(
    r: PromptRegistry,
    device_path: String,
    device_label: String,
    kind: BluetoothPromptKind,
) -> (PromptRegistry, Result<BluetoothPromptId, PromptRegistryError>) {
    if r.current is Some {
        (r, Err(PromptRegistryError::Busy))
    } else {
        let id = BluetoothPromptId(r.next_prompt_id);
        (
            published(advanced(r), BluetoothPrompt { id, device_path, device_label, kind }, true),
            Ok(id),
        )
    }
}

/// The outcome of a display-only prompt: rejected while an interactive prompt
/// is shown; an update, under the same id, of a shown display prompt for the
/// same device and kind; otherwise shown under the next id.
pub open spec fn display_step(
    r: PromptRegistry,
    device_path: String,
    device_label: String,
    kind: BluetoothPromptKind,
) -> (PromptRegistry, Result<BluetoothPromptId, PromptRegistryError>) {
    match r.current {
        Some(current) => if current.interactive {
            (r, Err(PromptRegistryError::Busy))
        } else if current.prompt.device_path@ == device_path@ && same_display_kind(
            current.prompt.kind,
            kind,
        ) {
            let id = current.prompt.id;
            (published(r, BluetoothPrompt { id, device_path, device_label, kind }, false), Ok(id))
        } else {
            let id = BluetoothPromptId(r.next_prompt_id);
            (
                published(
                    advanced(r),
                    BluetoothPrompt { id, device_path, device_label, kind },
                    false,
                ),
                Ok(id),
            )
        },
        None => {
            let id = BluetoothPromptId(r.next_prompt_id);
            (
                published(advanced(r), BluetoothPrompt { id, device_path, device_label, kind }, false),
                Ok(id),
            )
        },
    }
}

/// Whether `id` names the prompt currently shown.
pub open spec fn is_current(r: PromptRegistry, id: BluetoothPromptId) -> bool {
    r.current matches Some(p) && p.prompt.id == id
}

/// The registry with no prompt shown.
pub open spec fn cleared(r: PromptRegistry) -> PromptRegistry {
    PromptRegistry { next_prompt_id: r.next_prompt_id, current: None }
}

/// A reply to hand to the request that waits on prompt `id`.
#[derive(Debug, Clone, PartialEq, Eq)]
pub struct PromptDelivery {
    pub id: BluetoothPromptId,
    pub reply: BluetoothPromptReply,
}

/// What completing or cancelling did: whether a prompt was cleared, and the
/// reply to hand to the request waiting on it (only an interactive prompt
/// has one).
#[derive(Debug, Clone, PartialEq, Eq)]
pub struct PromptOutcome {
    pub done: bool,
    pub delivery: Option<PromptDelivery>,
}

/// Nothing was cleared and nothing is delivered.
pub open spec fn untouched() -> PromptOutcome {
    PromptOutcome { done: false, delivery: None }
}

/// The prompt `p` was cleared; its waiting request, if it has one, gets `reply`.
pub open spec fn cleared_with(p: PendingPrompt, reply: BluetoothPromptReply) -> PromptOutcome {
    PromptOutcome {
        done: true,
        delivery: if p.interactive {
            Some(PromptDelivery { id: p.prompt.id, reply })
        } else {
            None
        },
    }
}

/// The outcome of completing `id` with `reply`: when `id` names the shown
/// prompt it is cleared and, when interactive, its waiting request gets
/// `reply`; otherwise nothing changes.
pub open spec fn complete_step(r: PromptRegistry, id: BluetoothPromptId, reply: BluetoothPromptReply) -> (
    PromptRegistry,
    PromptOutcome,
) {
    if is_current(r, id) {
        (cleared(r), cleared_with(r.current->0, reply))
    } else {
        (r, untouched())
    }
}

/// The outcome of cancelling: the shown prompt, if any, is cleared and, when
/// interactive, its waiting request gets `Cancel`.
pub open spec fn cancel_step(r: PromptRegistry) -> (PromptRegistry, PromptOutcome) {
    match r.current {
        Some(p) => (cleared(r), cleared_with(p, BluetoothPromptReply::Cancel)),
        None => (r, untouched()),
    }
}

/// A registry with no prompt and the first id next.
pub open spec fn initial() -> PromptRegistry {
    PromptRegistry { next_prompt_id: 1, current: None }
}

impl PromptRegistry {
    /// An empty registry.
    pub fn new() -> (r: Self)
        ensures
            r == initial(),
            wf(r),
    {
        PromptRegistry { next_prompt_id: 1, current: None }
    }

    /// The prompt currently shown, if any.
    pub fn current_prompt(&self) -> (out: Option<&BluetoothPrompt>)
        ensures
            self.current matches Some(p) ==> out matches Some(q) && *q == p.prompt,
            self.current is None ==> out is None,
    {
        match &self.current {
            Some(current) => Some(&current.prompt),
            None => None,
        }
    }

    /// Registers a prompt BlueZ waits on; refused while any prompt is shown.
    pub fn request_prompt(
        &mut self,
        device_path: String,
        device_label: String,
        kind: BluetoothPromptKind,
    ) -> (out: Result<BluetoothPromptId, PromptRegistryError>)
        requires
            wf(*old(self)),
            old(self).next_prompt_id < u64::MAX,
        ensures
            (*final(self), out) == request_step(*old(self), device_path, device_label, kind),
            wf(*final(self)),
    {
        if self.current.is_some() {
            return Err(PromptRegistryError::Busy);
        }
        let id = self.allocate_prompt_id();
        self.publish_prompt(BluetoothPrompt { id, device_path, device_label, kind }, true);
        Ok(id)
    }

    /// Shows a PIN or passkey; refused while an interactive prompt is shown.
    pub fn publish_display_prompt(
        &mut self,
        device_path: String,
        device_label: String,
        kind: BluetoothPromptKind,
    ) -> (out: Result<BluetoothPromptId, PromptRegistryError>)
        requires
            wf(*old(self)),
            old(self).next_prompt_id < u64::MAX,
        ensures
            (*final(self), out) == display_step(*old(self), device_path, device_label, kind),
            wf(*final(self)),
    {
        if let Some(current) = &self.current {
            if current.interactive {
                return Err(PromptRegistryError::Busy);
            }
            if current.prompt.device_path == device_path && display_prompt_kind_matches(
                &current.prompt.kind,
                &kind,
            ) {
                let id = current.prompt.id;
                self.publish_prompt(BluetoothPrompt { id, device_path, device_label, kind }, false);
                return Ok(id);
            }
        }
        let id = self.allocate_prompt_id();
        self.publish_prompt(BluetoothPrompt { id, device_path, device_label, kind }, false);
        Ok(id)
    }

    /// Completes the prompt with this id with the user's reply, and says what
    /// to hand to the request waiting on it; nothing changes when `id` is not
    /// the prompt shown.
    pub fn complete(&mut self, id: BluetoothPromptId, reply: BluetoothPromptReply) -> (out: PromptOutcome)
        requires
            wf(*old(self)),
        ensures
            (*final(self), out) == complete_step(*old(self), id, reply),
            wf(*final(self)),
    {
        let interactive = match &self.current {
            Some(current) => {
                if current.prompt.id != id {
                    return PromptOutcome { done: false, delivery: None };
                }
                current.interactive
            },
            None => return PromptOutcome { done: false, delivery: None },
        };
        self.current = None;
        PromptOutcome {
            done: true,
            delivery: if interactive {
                Some(PromptDelivery { id, reply })
            } else {
                None
            },
        }
    }

    /// Cancels the prompt shown, and says what to hand to the request waiting
    /// on it (`Cancel`, when it is interactive).
    pub fn cancel_current(&mut self) -> (out: PromptOutcome)
        requires
            wf(*old(self)),
        ensures
            (*final(self), out) == cancel_step(*old(self)),
            wf(*final(self)),
    {
        let (id, interactive) = match &self.current {
            Some(current) => (current.prompt.id, current.interactive),
            None => return PromptOutcome { done: false, delivery: None },
        };
        self.current = None;
        PromptOutcome {
            done: true,
            delivery: if interactive {
                Some(PromptDelivery { id, reply: BluetoothPromptReply::Cancel })
            } else {
                None
            },
        }
    }

    /// Issues the next prompt id.
    pub fn allocate_prompt_id(&mut self) -> (id: BluetoothPromptId)
        requires
            old(self).next_prompt_id < u64::MAX,
        ensures
            id.0 == old(self).next_prompt_id,
            *final(self) == advanced(*old(self)),
    {
        let id = BluetoothPromptId(self.next_prompt_id);
        self.next_prompt_id = self.next_prompt_id + 1;
        id
    }

    /// Makes `prompt` the prompt shown.
    pub fn publish_prompt(&mut self, prompt: BluetoothPrompt, interactive: bool)
        ensures
            *final(self) == published(*old(self), prompt, interactive),
    {
        self.current = Some(PendingPrompt { prompt, interactive });
    }
}

/// Whether two kinds show the same sort of code.
pub fn display_prompt_kind_matches(left: &BluetoothPromptKind, right: &BluetoothPromptKind) -> (out:
    bool)
    ensures
        out == same_display_kind(*left, *right),
{
    match (left, right) {
        (BluetoothPromptKind::DisplayPin { .. }, BluetoothPromptKind::DisplayPin { .. }) => true,
        (
            BluetoothPromptKind::DisplayPasskey { .. },
            BluetoothPromptKind::DisplayPasskey { .. },
        ) => true,
        _ => false,
    }
}

/// The name of a prompt kind, for logs.
pub fn prompt_kind_name(kind: &BluetoothPromptKind) -> (out: &'static str)
    ensures
        out@ == (match *kind {
            BluetoothPromptKind::Confirm { .. } => "confirm"@,
            BluetoothPromptKind::AuthorizePairing => "authorize-pairing"@,
            BluetoothPromptKind::AuthorizeService { .. } => "authorize-service"@,
            BluetoothPromptKind::RequestPin => "request-pin"@,
            BluetoothPromptKind::RequestPasskey => "request-passkey"@,
            BluetoothPromptKind::DisplayPin { .. } => "display-pin"@,
            BluetoothPromptKind::DisplayPasskey { .. } => "display-passkey"@,
        }),
{
    match kind {
        BluetoothPromptKind::Confirm { .. } => "confirm",
        BluetoothPromptKind::AuthorizePairing => "authorize-pairing",
        BluetoothPromptKind::AuthorizeService { .. } => "authorize-service",
        BluetoothPromptKind::RequestPin => "request-pin",
        BluetoothPromptKind::RequestPasskey => "request-passkey",
        BluetoothPromptKind::DisplayPin { .. } => "display-pin",
        BluetoothPromptKind::DisplayPasskey { .. } => "display-passkey",
    }
}

/// The name of a reply, for logs.
pub fn prompt_reply_name(reply: &BluetoothPromptReply) -> (out: &'static str)
    ensures
        out@ == (match *reply {
            BluetoothPromptReply::Confirm => "confirm"@,
            BluetoothPromptReply::Pin(_) => "pin"@,
            BluetoothPromptReply::Passkey(_) => "passkey"@,
            BluetoothPromptReply::Cancel => "cancel"@,
        }),
{
    match reply {
        BluetoothPromptReply::Confirm => "confirm",
        BluetoothPromptReply::Pin(_) => "pin",
        BluetoothPromptReply::Passkey(_) => "passkey",
        BluetoothPromptReply::Cancel => "cancel",
    }
}

/// How to answer a service authorization, as GNOME does: accept for paired
/// and trusted devices, trust then accept for paired untrusted ones, and ask
/// the user otherwise.
pub fn service_authorization_policy(paired: bool, trusted: bool) -> (out: ServiceAuthorizationPolicy)
    ensures
        out == (if !paired {
            ServiceAuthorizationPolicy::Prompt
        } else if trusted {
            ServiceAuthorizationPolicy::Accept
        } else {
            ServiceAuthorizationPolicy::TrustAndAccept
        }),
{
    match (paired, trusted) {
        (true, true) => ServiceAuthorizationPolicy::Accept,
        (true, false) => ServiceAuthorizationPolicy::TrustAndAccept,
        (false, _) => ServiceAuthorizationPolicy::Prompt,
    }
}

// ---------------------------------------------------------------------------
// Laws of the registry
// ---------------------------------------------------------------------------

/// While a prompt is shown, an interactive request is refused and changes nothing.
pub proof fn law_request_refused_while_busy(
    r: PromptRegistry,
    device_path: String,
    device_label: String,
    kind: BluetoothPromptKind,
)
    requires
        r.current is Some,
    ensures
        request_step(r, device_path, device_label, kind) == (r, Err::<BluetoothPromptId, PromptRegistryError>(PromptRegistryError::Busy)),
{
}

/// A request granted on an idle registry can be completed with the id it
/// returned: the user's reply reaches the request, and the registry is idle
/// again.
pub proof fn law_request_then_complete(
    r: PromptRegistry,
    device_path: String,
    device_label: String,
    kind: BluetoothPromptKind,
    reply: BluetoothPromptReply,
)
    requires
        wf(r),
        r.current is None,
        r.next_prompt_id < u64::MAX,
    ensures
        ({
            let (r1, out) = request_step(r, device_path, device_label, kind);
            &&& out == Ok::<BluetoothPromptId, PromptRegistryError>(BluetoothPromptId(r.next_prompt_id))
            &&& is_current(r1, BluetoothPromptId(r.next_prompt_id))
            &&& complete_step(r1, BluetoothPromptId(r.next_prompt_id), reply) == (
                PromptRegistry { next_prompt_id: (r.next_prompt_id + 1) as u64, current: None },
                PromptOutcome {
                    done: true,
                    delivery: Some(PromptDelivery { id: BluetoothPromptId(r.next_prompt_id), reply }),
                },
            )
            &&& cancel_step(r1).1 == PromptOutcome {
                done: true,
                delivery: Some(
                    PromptDelivery {
                        id: BluetoothPromptId(r.next_prompt_id),
                        reply: BluetoothPromptReply::Cancel,
                    },
                ),
            }
        }),
{
}

/// Completing with an id that is not the shown prompt's (say, one already
/// completed or cancelled) is refused and changes nothing.
pub proof fn law_stale_completion_ignored(r: PromptRegistry, id: BluetoothPromptId, reply: BluetoothPromptReply)
    requires
        !is_current(r, id),
    ensures
        complete_step(r, id, reply) == (r, untouched()),
{
}

/// A prompt once completed cannot be completed again.
pub proof fn law_complete_once(
    r: PromptRegistry,
    id: BluetoothPromptId,
    reply: BluetoothPromptReply,
    again: BluetoothPromptReply,
)
    requires
        is_current(r, id),
    ensures
        complete_step(r, id, reply).1.done,
        complete_step(complete_step(r, id, reply).0, id, again) == (complete_step(r, id, reply).0, untouched()),
{
}

/// A new prompt always gets an id that no earlier prompt had: ids issued are
/// strictly increasing.
pub proof fn law_fresh_ids(
    r: PromptRegistry,
    device_path: String,
    device_label: String,
    kind: BluetoothPromptKind,
)
    requires
        wf(r),
        r.next_prompt_id < u64::MAX,
    ensures
        ({
            let (r1, out) = request_step(r, device_path, device_label, kind);
            out matches Ok(id) ==> id.0 == r.next_prompt_id && r1.next_prompt_id == id.0 + 1
                && (r.current matches Some(p) ==> p.prompt.id.0 < id.0)
        }),
        ({
            let (r1, out) = display_step(r, device_path, device_label, kind);
            out matches Ok(id) ==> (id.0 == r.next_prompt_id && r1.next_prompt_id == id.0 + 1) || (
            r.current matches Some(p) && p.prompt.id == id && r1.next_prompt_id == r.next_prompt_id)
        }),
{
}

/// A display prompt repeated for the same device and kind keeps its id.
pub proof fn law_display_update_keeps_id(
    r: PromptRegistry,
    device_path: String,
    label1: String,
    kind1: BluetoothPromptKind,
    label2: String,
    kind2: BluetoothPromptKind,
)
    requires
        wf(r),
        r.next_prompt_id < u64::MAX - 1,
        r.current is None || !r.current->Some_0.interactive,
        same_display_kind(kind1, kind2),
    ensures
        ({
            let (r1, out1) = display_step(r, device_path, label1, kind1);
            let (r2, out2) = display_step(r1, device_path, label2, kind2);
            &&& out1 is Ok
            &&& out2 == out1
            &&& r2.current matches Some(p) && p.prompt.kind == kind2 && !p.interactive
        }),
{
}

/// One call on the registry.
#[derive(Debug, Clone)]
pub enum RegistryCall {
    Request { device_path: String, device_label: String, kind: BluetoothPromptKind },
    Display { device_path: String, device_label: String, kind: BluetoothPromptKind },
    Complete { id: BluetoothPromptId, reply: BluetoothPromptReply },
    Cancel,
}

/// The registry after one call, and the id the call issued, if it issued one.
pub open spec fn call_step(r: PromptRegistry, call: RegistryCall) -> (PromptRegistry, Option<u64>) {
    match call {
        RegistryCall::Request { device_path, device_label, kind } => {
            let (r1, out) = request_step(r, device_path, device_label, kind);
            (r1, if r1.next_prompt_id != r.next_prompt_id {
                Some(r.next_prompt_id)
            } else {
                None
            })
        },
        RegistryCall::Display { device_path, device_label, kind } => {
            let (r1, out) = display_step(r, device_path, device_label, kind);
            (r1, if r1.next_prompt_id != r.next_prompt_id {
                Some(r.next_prompt_id)
            } else {
                None
            })
        },
        RegistryCall::Complete { id, reply } => (complete_step(r, id, reply).0, None),
        RegistryCall::Cancel => (cancel_step(r).0, None),
    }
}

/// The registry after a run of calls, and the ids issued, in order.
pub open spec fn run_calls(r: PromptRegistry, calls: Seq<RegistryCall>) -> (PromptRegistry, Seq<u64>)
    decreases calls.len(),
{
    if calls.len() == 0 {
        (r, Seq::empty())
    } else {
        let (r1, issued) = run_calls(r, calls.drop_last());
        let (r2, new_id) = call_step(r1, calls.last());
        (r2, match new_id {
            Some(id) => issued.push(id),
            None => issued,
        })
    }
}

/// Prompt ids are fresh over any run of calls: the ids issued are
/// `next_prompt_id`, `next_prompt_id + 1`, ... in order (from a new registry,
/// 1, 2, ...), so none is issued twice; a prompt shown after the run is the
/// last one issued, so a reply for an earlier prompt never completes it.
pub proof fn law_ids_fresh_over_runs(r: PromptRegistry, calls: Seq<RegistryCall>)
    requires
        wf(r),
        r.next_prompt_id + calls.len() < u64::MAX,
    ensures
        ({
            let (r2, issued) = run_calls(r, calls);
            &&& wf(r2)
            &&& issued.len() <= calls.len()
            &&& r2.next_prompt_id == r.next_prompt_id + issued.len()
            &&& forall|i: int| 0 <= i < issued.len() ==> #[trigger] issued[i] == r.next_prompt_id + i
            &&& (issued.len() > 0 && r2.current is Some) ==> r2.current->0.prompt.id.0 == issued.last()
            &&& forall|i: int, reply: BluetoothPromptReply|
                0 <= i < issued.len() - 1 ==> #[trigger] complete_step(r2, BluetoothPromptId(issued[i]), reply) == (r2, untouched())
        }),
    decreases calls.len(),
{
    let (r2, issued) = run_calls(r, calls);
    if calls.len() > 0 {
        law_ids_fresh_over_runs(r, calls.drop_last());
        let (r1, earlier) = run_calls(r, calls.drop_last());
        assert(r1.next_prompt_id < u64::MAX);
        assert forall|i: int| 0 <= i < issued.len() implies #[trigger] issued[i] == r.next_prompt_id + i by {
            if i < earlier.len() {
                assert(issued[i] == earlier[i]);
            }
        }
    }
    assert forall|i: int, reply: BluetoothPromptReply|
        0 <= i < issued.len() - 1 implies #[trigger] complete_step(r2, BluetoothPromptId(issued[i]), reply) == (r2, untouched()) by {
        assert(issued[i] == r.next_prompt_id + i);
        assert(issued[issued.len() - 1] == r.next_prompt_id + issued.len() - 1);
    }
}

} // verus!

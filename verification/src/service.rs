//! The daemon's lifecycle and its one registered object.
//!
//! The daemon is a synchronous pull-based loop: connect to a bus, register a
//! well-known name and one object, then block on the next inbound message
//! until the bus ends.  The decisions of that loop — which state follows
//! which event, which bus and directory each run mode uses, which messages
//! are calls of the one exposed method, and what a call returns — are
//! verified here; the surrounding process performs the bus and filesystem
//! calls and feeds their outcomes back in as events.

use crate::motd::{spec_target_path, target_path, WriteError};
use vstd::prelude::*;
use vstd::string::StringSliceAdditionalSpecFns;

verus! {

/// The well-known name the daemon registers on the bus.
pub open spec fn spec_service_name() -> Seq<char> {
    "org.coreos.FcosDeadEnd"@
}

/// The well-known name the daemon registers on the bus.
pub fn service_name() -> (r: &'static str)
    ensures
        r@ == spec_service_name(),
{
    "org.coreos.FcosDeadEnd"
}

/// The fixed path the one object is bound under.
pub open spec fn spec_object_path() -> Seq<char> {
    "/org/coreos/FcosDeadEnd"@
}

/// The fixed path the one object is bound under.
pub fn object_path() -> (r: &'static str)
    ensures
        r@ == spec_object_path(),
{
    "/org/coreos/FcosDeadEnd"
}

/// The one interface the object exposes.
pub open spec fn spec_interface_name() -> Seq<char> {
    "org.coreos.FcosDeadEnd1"@
}

/// The one interface the object exposes.
pub fn interface_name() -> (r: &'static str)
    ensures
        r@ == spec_interface_name(),
{
    "org.coreos.FcosDeadEnd1"
}

/// The one method the interface exposes.
pub open spec fn spec_method_name() -> Seq<char> {
    "WriteDeadendReason"@
}

/// The one method the interface exposes.
pub fn method_name() -> (r: &'static str)
    ensures
        r@ == spec_method_name(),
{
    "WriteDeadendReason"
}

/// Exact equality of two strings, compared through their UTF-8 bytes.
pub fn str_eq(a: &str, b: &str) -> (r: bool)
    ensures
        r == (a@ == b@),
{
    proof {
        vstd::utf8::encode_utf8_decode_utf8(a@);
        vstd::utf8::encode_utf8_decode_utf8(b@);
    }
    let ab = a.as_bytes();
    let bb = b.as_bytes();
    if ab.len() != bb.len() {
        return false;
    }
    let mut i: usize = 0;
    while i < ab.len()
        invariant
            0 <= i <= ab@.len(),
            ab@ == a.spec_bytes(),
            bb@ == b.spec_bytes(),
            ab@.len() == bb@.len(),
            forall|j: int| 0 <= j < i ==> ab@[j] == bb@[j],
        decreases ab@.len() - i,
    {
        if ab[i] != bb[i] {
            return false;
        }
        i = i + 1;
    }
    proof {
        assert(a.spec_bytes() =~= b.spec_bytes());
    }
    true
}

/// Whether an inbound message, by the path, interface and member of its
/// header, is a call of the one exposed method on the one bound object.
pub open spec fn is_deadend_call(
    path: Option<&str>,
    interface: Option<&str>,
    member: Option<&str>,
) -> bool {
    &&& path matches Some(p) && p@ == spec_object_path()
    &&& interface matches Some(i) && i@ == spec_interface_name()
    &&& member matches Some(m) && m@ == spec_method_name()
}

/// Dispatch one inbound message by method identity: a call of the exposed
/// method is served; every other message is a stray that is merely noted.
pub fn classify_message(
    path: Option<&str>,
    interface: Option<&str>,
    member: Option<&str>,
) -> (r: ServiceEvent)
    ensures
        r == ServiceEvent::MethodCall || r == ServiceEvent::OtherMessage,
        r == ServiceEvent::MethodCall <==> is_deadend_call(path, interface, member),
{
    match (path, interface, member) {
        (Some(p), Some(i), Some(m)) => {
            if str_eq(p, object_path()) && str_eq(i, interface_name()) && str_eq(
                m,
                method_name(),
            ) {
                ServiceEvent::MethodCall
            } else {
                ServiceEvent::OtherMessage
            }
        },
        _ => ServiceEvent::OtherMessage,
    }
}

/// Which bus the daemon connects to.
#[derive(Clone, Copy, Debug, PartialEq, Eq, Structural)]
pub enum BusKind {
    /// The system-wide bus, used in default mode.
    System,
    /// The per-user session bus, used in alternate/testing mode.
    Session,
}

/// The bus for a run mode: the session bus under the testing flag, the
/// system bus otherwise.
pub open spec fn spec_bus_kind(user: bool) -> BusKind {
    if user {
        BusKind::Session
    } else {
        BusKind::System
    }
}

/// The bus for a run mode: the session bus under the testing flag, the
/// system bus otherwise.
pub fn bus_kind(user: bool) -> (r: BusKind)
    ensures
        r == spec_bus_kind(user),
{
    if user {
        BusKind::Session
    } else {
        BusKind::System
    }
}

/// The target directory for a run mode: a temporary directory under the
/// testing flag, the system runtime directory otherwise.
pub open spec fn spec_base_dir(user: bool) -> Seq<char> {
    if user {
        "/tmp"@
    } else {
        "/run/motd.d"@
    }
}

/// The target directory for a run mode: a temporary directory under the
/// testing flag, the system runtime directory otherwise.
pub fn base_dir(user: bool) -> (r: &'static str)
    ensures
        r@ == spec_base_dir(user),
{
    if user {
        "/tmp"
    } else {
        "/run/motd.d"
    }
}

/// The daemon's lifecycle states.
#[derive(Clone, Copy, Debug, PartialEq, Eq, Structural)]
pub enum ServiceState {
    /// Establishing the bus connection.
    Connecting,
    /// Requesting the well-known name and binding the object.
    Registering,
    /// Blocking on the next inbound bus message.
    Serving,
    /// The bus closed cleanly: the normal shutdown path, process exits zero.
    Terminated,
    /// An unrecoverable error: process exits non-zero.
    Failed,
}

/// Everything the outside world can do to the daemon.
#[derive(Clone, Copy, Debug, PartialEq, Eq, Structural)]
pub enum ServiceEvent {
    /// The bus connection was established.
    Connected,
    /// The bus connection could not be established.
    ConnectFailed,
    /// The well-known name was granted and the object bound.
    Registered,
    /// The name request or the object binding failed.
    RegisterFailed,
    /// A call of the one exposed method arrived and was answered.
    MethodCall,
    /// Some other inbound message arrived; it is logged and ignored.
    OtherMessage,
    /// The bus closed cleanly with no further messages.
    StreamEnd,
    /// A bus-level I/O or protocol error.
    BusError,
}

/// The daemon's transition function.  A write failure is not here: it never
/// leaves the `Serving` state, being reported only through the method's
/// boolean result.  An event that cannot occur in a state changes nothing.
pub open spec fn spec_next_state(s: ServiceState, e: ServiceEvent) -> ServiceState {
    match (s, e) {
        (ServiceState::Connecting, ServiceEvent::Connected) => ServiceState::Registering,
        (ServiceState::Connecting, ServiceEvent::ConnectFailed) => ServiceState::Failed,
        (ServiceState::Registering, ServiceEvent::Registered) => ServiceState::Serving,
        (ServiceState::Registering, ServiceEvent::RegisterFailed) => ServiceState::Failed,
        (ServiceState::Serving, ServiceEvent::MethodCall) => ServiceState::Serving,
        (ServiceState::Serving, ServiceEvent::OtherMessage) => ServiceState::Serving,
        (ServiceState::Serving, ServiceEvent::StreamEnd) => ServiceState::Terminated,
        (ServiceState::Serving, ServiceEvent::BusError) => ServiceState::Failed,
        (_, _) => s,
    }
}

/// The daemon's transition function.
pub fn next_state(s: ServiceState, e: ServiceEvent) -> (r: ServiceState)
    ensures
        r == spec_next_state(s, e),
{
    match (s, e) {
        (ServiceState::Connecting, ServiceEvent::Connected) => ServiceState::Registering,
        (ServiceState::Connecting, ServiceEvent::ConnectFailed) => ServiceState::Failed,
        (ServiceState::Registering, ServiceEvent::Registered) => ServiceState::Serving,
        (ServiceState::Registering, ServiceEvent::RegisterFailed) => ServiceState::Failed,
        (ServiceState::Serving, ServiceEvent::MethodCall) => ServiceState::Serving,
        (ServiceState::Serving, ServiceEvent::OtherMessage) => ServiceState::Serving,
        (ServiceState::Serving, ServiceEvent::StreamEnd) => ServiceState::Terminated,
        (ServiceState::Serving, ServiceEvent::BusError) => ServiceState::Failed,
        (_, _) => s,
    }
}

/// A state in which the process has stopped.
pub open spec fn is_terminal(s: ServiceState) -> bool {
    s == ServiceState::Terminated || s == ServiceState::Failed
}

/// Terminal states absorb every further event: once stopped, the daemon
/// neither serves nor fails again.
pub proof fn lemma_terminal_stable(s: ServiceState, e: ServiceEvent)
    requires
        is_terminal(s),
    ensures
        spec_next_state(s, e) == s,
{
}

/// Inbound messages never end the service: however many calls and strays
/// arrive, the daemon keeps serving, and only a clean close or a bus error
/// leaves `Serving` — the former into the clean exit, the latter into the
/// failed one.
pub proof fn lemma_serving_transitions(e: ServiceEvent)
    ensures
        (e == ServiceEvent::MethodCall || e == ServiceEvent::OtherMessage) ==> spec_next_state(
            ServiceState::Serving,
            e,
        ) == ServiceState::Serving,
        e == ServiceEvent::StreamEnd ==> spec_next_state(ServiceState::Serving, e)
            == ServiceState::Terminated,
        e == ServiceEvent::BusError ==> spec_next_state(ServiceState::Serving, e)
            == ServiceState::Failed,
{
}

/// Whether a run that ended in state `s` exits with status zero: only the
/// clean shutdown does.
pub fn exit_is_clean(s: &ServiceState) -> (r: bool)
    requires
        is_terminal(*s),
    ensures
        r == (*s == ServiceState::Terminated),
{
    match s {
        ServiceState::Terminated => true,
        _ => false,
    }
}

/// Mode isolation: the testing mode uses the session bus and writes only
/// under the temporary directory; the default mode uses the system bus and
/// the runtime directory.  Either way the published path lies directly inside
/// the chosen base directory.
pub proof fn lemma_mode_isolation(user: bool)
    ensures
        user ==> spec_bus_kind(user) == BusKind::Session && spec_base_dir(user) == "/tmp"@,
        !user ==> spec_bus_kind(user) == BusKind::System && spec_base_dir(user) == "/run/motd.d"@,
        spec_target_path(spec_base_dir(user)).take(spec_base_dir(user).len() as int)
            == spec_base_dir(user),
{
    assert(spec_target_path(spec_base_dir(user)).take(spec_base_dir(user).len() as int)
        =~= spec_base_dir(user));
}

/// The registered service object: the one exposed method and the directory
/// it writes into, fixed once at startup for the life of the process.
pub struct FcosDeadEnd {
    /// The target directory chosen by the run mode.
    pub motd_path: String,
}

impl FcosDeadEnd {
    /// Set up the object for the directory of the given run mode.
    pub fn new(user: bool) -> (r: FcosDeadEnd)
        ensures
            r.motd_path@ == spec_base_dir(user),
    {
        FcosDeadEnd { motd_path: base_dir(user).to_owned() }
    }

    /// The full path the object publishes the announcement under.
    pub fn motd_target(&self) -> (r: String)
        ensures
            r@ == spec_target_path(self.motd_path@),
    {
        target_path(self.motd_path.as_str())
    }

    /// The boolean reply to one call of the exposed method, given the outcome
    /// of the write it triggered: `true` exactly on success.  A write failure
    /// is never a bus-level fault; the caller learns of it only through this
    /// result.
    pub fn write_deadend_reason(&self, outcome: &Result<(), WriteError>) -> (r: bool)
        ensures
            r == (*outcome is Ok),
    {
        match outcome {
            Result::Ok(()) => true,
            Result::Err(_) => false,
        }
    }
}

} // verus!

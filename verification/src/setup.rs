//! Decisions of the maintenance commands.
//!
//! The two commands — preparing the daemon for a restart and resetting
//! the firewall — talk to outside collaborators: the daemon's RPC socket
//! and the platform firewall module. Each command's decision is a
//! verified function from what those collaborators reported to the
//! command's outcome; the surrounding process performs the calls and
//! hands their results in as plain values.

use vstd::prelude::*;

verus! {

/// Errors of the maintenance commands.
#[derive(Debug, Clone, PartialEq, Eq)]
pub enum Error {
    /// Connecting to the daemon failed with an I/O error.
    DaemonConnect(String),
    /// The daemon was reached, but the RPC call failed.
    DaemonRpcError(String),
    /// The command cannot run while the daemon is active.
    DaemonIsRunning,
    /// The firewall module failed.
    FirewallError(String),
}

/// What talking to the daemon over its RPC socket produced, in the order
/// the steps run: connecting either fails or yields a client, and only a
/// connected client makes the call.
pub enum DaemonEvent {
    /// Connecting to the daemon's socket failed; the cause is the I/O
    /// error's message.
    ConnectFailed(String),
    /// Connected, but the RPC call itself failed.
    RpcFailed(String),
    /// Connected, and the RPC call succeeded.
    RpcSucceeded,
}

/// The arguments the firewall module is created with when resetting its
/// policy: no blocking on initialization, and no opinion on local
/// network traffic.
#[derive(Debug, Clone, PartialEq, Eq)]
pub struct FirewallArguments {
    pub initialize_blocked: bool,
    pub allow_lan: Option<bool>,
}

/// Decide the outcome of the restart-preparation command from what the
/// daemon connection produced: a connection failure surfaces as
/// `DaemonConnect`, a failed call as `DaemonRpcError`, and a successful
/// call is the command's success.
pub fn prepare_restart(event: DaemonEvent) -> (r: Result<(), Error>)
    ensures
        event matches DaemonEvent::ConnectFailed(cause) ==> r == Err::<(), Error>(
            Error::DaemonConnect(cause),
        ),
        event matches DaemonEvent::RpcFailed(cause) ==> r == Err::<(), Error>(
            Error::DaemonRpcError(cause),
        ),
        event is RpcSucceeded ==> r == Ok::<(), Error>(()),
{
    match event {
        DaemonEvent::ConnectFailed(cause) => Err(Error::DaemonConnect(cause)),
        DaemonEvent::RpcFailed(cause) => Err(Error::DaemonRpcError(cause)),
        DaemonEvent::RpcSucceeded => Ok(()),
    }
}

/// The arguments the firewall-reset command creates the firewall module
/// with.
pub fn firewall_reset_arguments() -> (a: FirewallArguments)
    ensures
        !a.initialize_blocked,
        a.allow_lan is None,
{
    FirewallArguments { initialize_blocked: false, allow_lan: None }
}

/// Decide the outcome of the firewall-reset command. The command refuses
/// to run beside an active daemon: if the daemon could be reached at all,
/// the outcome is `DaemonIsRunning` and the firewall module is never
/// touched. Otherwise the module is created and its policy reset, and
/// the first of those two steps to fail decides the error; both
/// succeeding is the command's success.
pub fn reset_firewall(
    daemon_reachable: bool,
    firewall_init: Result<(), String>,
    policy_reset: Result<(), String>,
) -> (r: Result<(), Error>)
    ensures
        daemon_reachable ==> r == Err::<(), Error>(Error::DaemonIsRunning),
        !daemon_reachable ==> (firewall_init matches Err(cause) ==> r == Err::<(), Error>(
            Error::FirewallError(cause),
        )),
        !daemon_reachable && firewall_init is Ok ==> (policy_reset matches Err(cause) ==> r
            == Err::<(), Error>(Error::FirewallError(cause))),
        !daemon_reachable && firewall_init is Ok && policy_reset is Ok ==> r == Ok::<(), Error>(()),
{
    if daemon_reachable {
        return Err(Error::DaemonIsRunning);
    }
    match firewall_init {
        Err(cause) => Err(Error::FirewallError(cause)),
        Ok(()) => match policy_reset {
            Err(cause) => Err(Error::FirewallError(cause)),
            Ok(()) => Ok(()),
        },
    }
}

} // verus!

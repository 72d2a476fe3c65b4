use rest_dispatch::setup::{
    DaemonEvent, Error, firewall_reset_arguments, prepare_restart, reset_firewall,
};

#[test]
fn prepare_restart_succeeds_when_the_call_succeeds() {
    assert_eq!(prepare_restart(DaemonEvent::RpcSucceeded), Ok(()));
}

#[test]
fn prepare_restart_reports_a_failed_connection() {
    let r = prepare_restart(DaemonEvent::ConnectFailed(String::from("no such socket")));
    assert_eq!(r, Err(Error::DaemonConnect(String::from("no such socket"))));
}

#[test]
fn prepare_restart_reports_a_failed_call() {
    let r = prepare_restart(DaemonEvent::RpcFailed(String::from("daemon refused")));
    assert_eq!(r, Err(Error::DaemonRpcError(String::from("daemon refused"))));
}

#[test]
fn firewall_reset_refuses_a_running_daemon() {
    let r = reset_firewall(true, Ok(()), Ok(()));
    assert_eq!(r, Err(Error::DaemonIsRunning));
}

#[test]
fn firewall_reset_reports_a_failed_module_creation() {
    let r = reset_firewall(false, Err(String::from("no permission")), Ok(()));
    assert_eq!(r, Err(Error::FirewallError(String::from("no permission"))));
}

#[test]
fn firewall_reset_reports_a_failed_policy_reset() {
    let r = reset_firewall(false, Ok(()), Err(String::from("rule in use")));
    assert_eq!(r, Err(Error::FirewallError(String::from("rule in use"))));
}

#[test]
fn firewall_reset_succeeds_when_both_steps_do() {
    assert_eq!(reset_firewall(false, Ok(()), Ok(())), Ok(()));
}

#[test]
fn firewall_is_created_unblocked_and_without_lan_opinion() {
    let args = firewall_reset_arguments();
    assert!(!args.initialize_blocked);
    assert_eq!(args.allow_lan, None);
}

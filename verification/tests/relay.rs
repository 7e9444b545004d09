use hwbridge::relay::{relay_outcome, relay_plan, signal_value, ExecOutcome, RelayRequest};
use hwbridge::text::{decimal_string, trim_end};

fn exited(exit_zero: bool, stderr: &str) -> ExecOutcome {
    ExecOutcome::Exited { exit_zero, stderr: stderr.to_string() }
}

#[test]
fn scenario_relay_success() {
    // set_relay(pin: 7, desired_on: true) where the executor exits 0
    let req = RelayRequest { pin: 7, desired_on: true };
    let plan = relay_plan(&req, "test-credential");
    assert_eq!(plan.pin_arg, "7");
    assert_eq!(plan.signal_arg, "1");
    let result = relay_outcome(exited(true, ""));
    assert_eq!(result, Ok("relay command succeeded".to_string()));
}

#[test]
fn scenario_relay_permission_denied() {
    // the executor exits 1 with stderr "permission denied"
    let result = relay_outcome(exited(false, "permission denied"));
    let err = result.expect_err("a non-zero exit must fail");
    assert!(err.contains("permission denied"));
}

#[test]
fn success_if_and_only_if_exit_zero() {
    assert!(relay_outcome(exited(true, "noise on stderr")).is_ok());
    assert!(relay_outcome(exited(false, "")).is_err());
    assert!(relay_outcome(ExecOutcome::SpawnFailed("no such file".to_string())).is_err());
    assert!(relay_outcome(ExecOutcome::CredentialWriteFailed("broken pipe".to_string())).is_err());
    assert!(relay_outcome(ExecOutcome::WaitFailed("interrupted".to_string())).is_err());
}

#[test]
fn each_failure_carries_its_detail() {
    assert_eq!(
        relay_outcome(ExecOutcome::SpawnFailed("no such file".to_string())),
        Err("failed to spawn privileged executor: no such file".to_string())
    );
    assert_eq!(
        relay_outcome(ExecOutcome::CredentialWriteFailed("broken pipe".to_string())),
        Err("failed to write credential to executor: broken pipe".to_string())
    );
    assert_eq!(
        relay_outcome(ExecOutcome::WaitFailed("interrupted".to_string())),
        Err("failed to wait for executor: interrupted".to_string())
    );
    assert_eq!(
        relay_outcome(exited(false, "gpio busy")),
        Err("relay command failed: gpio busy".to_string())
    );
}

#[test]
fn opposite_toggles_are_independent() {
    // two consecutive calls for the same pin with opposite desired states:
    // each call's plan and result come from its own arguments alone
    let on = relay_plan(&RelayRequest { pin: 7, desired_on: true }, "test-credential");
    let first = relay_outcome(exited(true, ""));
    let off = relay_plan(&RelayRequest { pin: 7, desired_on: false }, "test-credential");
    let second = relay_outcome(exited(true, ""));
    assert_eq!(on.pin_arg, off.pin_arg);
    assert_ne!(on.signal_arg, off.signal_arg);
    assert_eq!(first, second);
    // and a failure on one call leaves the next untouched
    assert!(relay_outcome(exited(false, "x")).is_err());
    assert!(relay_outcome(exited(true, "")).is_ok());
}

#[test]
fn signal_mapping_is_fixed() {
    assert_eq!(signal_value(true), "1");
    assert_eq!(signal_value(false), "0");
}

#[test]
fn plan_renders_request() {
    let plan = relay_plan(&RelayRequest { pin: 41007, desired_on: false }, "pw");
    assert_eq!(plan.pin_arg, "41007");
    assert_eq!(plan.signal_arg, "0");
    assert_eq!(plan.credential_line, "pw\n");
}

#[test]
fn decimal_rendering_exact_values() {
    assert_eq!(decimal_string(0), "0");
    assert_eq!(decimal_string(9), "9");
    assert_eq!(decimal_string(10), "10");
    assert_eq!(decimal_string(100), "100");
    assert_eq!(decimal_string(4294967295), "4294967295");
}

#[test]
fn trim_end_exact_values() {
    assert_eq!(trim_end(&"a \r\n".to_string()), "a");
    assert_eq!(trim_end(&"".to_string()), "");
    assert_eq!(trim_end(&" \t\r\n".to_string()), "");
    assert_eq!(trim_end(&"a\nb".to_string()), "a\nb");
}

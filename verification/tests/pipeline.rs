use oobe::config::{Locale, OobeConfig, SwapFile, Timezone};
use oobe::pipeline::{apply, plan_actions, Action, Recorder};

fn config(swap_size: u64, fullname: Option<&str>) -> OobeConfig {
    OobeConfig {
        locale: Locale { locale: String::from("en_US.UTF-8") },
        user: String::from("jane"),
        pwd: String::from("SECRET-REDACTED"),
        fullname: fullname.map(String::from),
        hostname: String::from("aosc"),
        rtc_as_localtime: false,
        timezone: Timezone { data: String::from("Asia/Shanghai") },
        swapfile: SwapFile { size: swap_size },
    }
}

fn full_plan() -> Vec<Action> {
    vec![
        Action::SetHostname(String::from("aosc")),
        Action::SetLocale(String::from("en_US.UTF-8")),
        Action::AddNewUser(String::from("jane"), String::from("SECRET-REDACTED")),
        Action::SetHwclockLocaltime(false),
        Action::CreateSwapfile(2 * 1024 * 1024 * 1024),
        Action::WriteSwapFstabEntry,
        Action::SetFullname(String::from("Jane Doe"), String::from("jane")),
        Action::SetZoneinfo(String::from("Asia/Shanghai")),
        Action::RunMachineIdSetup,
    ]
}

#[test]
fn plan_lists_every_step_in_order() {
    let plan = plan_actions(config(2 * 1024 * 1024 * 1024, Some("Jane Doe")));
    assert_eq!(plan, full_plan());
}

#[test]
fn plan_skips_swap_steps_when_no_swap_requested() {
    let plan = plan_actions(config(0, Some("Jane Doe")));
    assert_eq!(
        plan,
        vec![
            Action::SetHostname(String::from("aosc")),
            Action::SetLocale(String::from("en_US.UTF-8")),
            Action::AddNewUser(String::from("jane"), String::from("SECRET-REDACTED")),
            Action::SetHwclockLocaltime(false),
            Action::SetFullname(String::from("Jane Doe"), String::from("jane")),
            Action::SetZoneinfo(String::from("Asia/Shanghai")),
            Action::RunMachineIdSetup,
        ]
    );
}

#[test]
fn plan_skips_fullname_step_when_absent() {
    let plan = plan_actions(config(0, None));
    assert_eq!(
        plan,
        vec![
            Action::SetHostname(String::from("aosc")),
            Action::SetLocale(String::from("en_US.UTF-8")),
            Action::AddNewUser(String::from("jane"), String::from("SECRET-REDACTED")),
            Action::SetHwclockLocaltime(false),
            Action::SetZoneinfo(String::from("Asia/Shanghai")),
            Action::RunMachineIdSetup,
        ]
    );
}

#[test]
fn apply_performs_the_whole_plan_in_order() {
    let mut recorder = Recorder::new();
    let r = apply(config(2 * 1024 * 1024 * 1024, Some("Jane Doe")), &mut recorder);
    assert!(r.is_ok());
    assert_eq!(recorder.calls, full_plan());
}

#[test]
fn apply_short_circuits_when_user_creation_fails() {
    // The user-creation action is the third call (index 2). When it fails,
    // no later collaborator runs and the injected message is propagated
    // verbatim.
    let mut recorder = Recorder::failing(2, String::from("user creation failed"));
    let r = apply(config(2 * 1024 * 1024 * 1024, Some("Jane Doe")), &mut recorder);
    match r {
        Err(e) => assert_eq!(e.0, "user creation failed"),
        Ok(()) => panic!("the scripted failure must surface"),
    }
    assert_eq!(
        recorder.calls,
        vec![
            Action::SetHostname(String::from("aosc")),
            Action::SetLocale(String::from("en_US.UTF-8")),
            Action::AddNewUser(String::from("jane"), String::from("SECRET-REDACTED")),
        ]
    );
}

#[test]
fn apply_stops_at_a_late_failure_without_rollback() {
    // Failure at the timezone step (index 7 of the full plan): everything
    // up to and including it was performed, the machine-id step was not.
    let mut recorder = Recorder::failing(7, String::from("zoneinfo missing"));
    let r = apply(config(2 * 1024 * 1024 * 1024, Some("Jane Doe")), &mut recorder);
    match r {
        Err(e) => assert_eq!(e.message(), "zoneinfo missing"),
        Ok(()) => panic!("the scripted failure must surface"),
    }
    let mut expected = full_plan();
    expected.truncate(8);
    assert_eq!(recorder.calls, expected);
}

#[test]
fn scripted_index_beyond_the_plan_never_fires() {
    let mut recorder = Recorder::failing(100, String::from("unreached"));
    let r = apply(config(0, None), &mut recorder);
    assert!(r.is_ok());
    assert_eq!(recorder.calls.len(), 6);
}

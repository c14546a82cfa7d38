use tahoe::cache::{fetch_plan, server_path, server_url, FetchPlan};
use tahoe::launch::{launch_command, launch_plan};
use tahoe::supervisor::{Action, Event, Mode, Phase, Supervisor};

#[test]
fn server_file_locations() {
    assert_eq!(server_path("vpn-us.json"), "servers/vpn-us.json");
    assert_eq!(
        server_url("vpn-vn.json"),
        "https://raw.githubusercontent.com/teppyboy/everything-v2ray/master/client/profile/sfa/vpn-vn.json"
    );
}

#[test]
fn cached_server_file_is_not_fetched() {
    assert_eq!(fetch_plan(true, false), FetchPlan::UseCached);
    assert_eq!(fetch_plan(false, false), FetchPlan::Fetch);
    assert_eq!(fetch_plan(true, true), FetchPlan::Fetch);
}

#[test]
fn ensuring_twice_fetches_once() {
    let first = fetch_plan(false, false);
    assert_eq!(first, FetchPlan::Fetch);
    let second = fetch_plan(true, false);
    assert_eq!(second, FetchPlan::UseCached);
}

#[test]
fn launch_as_root_or_windows_is_direct() {
    assert_eq!(launch_command("/b/sb", "vpn-us.json", "linux", 0), vec!["/b/sb", "run", "-c", "servers/vpn-us.json"]);
    assert_eq!(launch_command("sb.exe", "vpn-vn.json", "windows", 1000), vec!["sb.exe", "run", "-c", "servers/vpn-vn.json"]);
    assert_eq!(launch_plan("sb.exe", "vpn-vn.json", "windows"), vec!["sb.exe", "run", "-c", "servers/vpn-vn.json"]);
}

#[test]
fn launch_as_user_goes_through_sudo() {
    assert_eq!(
        launch_command("bin/sing-box", "vpn-vn.json", "linux", 1000),
        vec!["sudo", "bin/sing-box", "run", "-c", "servers/vpn-vn.json"]
    );
    let p = launch_plan("bin/sing-box", "vpn-us.json", "linux");
    assert_eq!(&p[p.len() - 4..], &["bin/sing-box", "run", "-c", "servers/vpn-us.json"]);
}

#[test]
fn interrupt_kills_once_and_exits_zero() {
    let mut s = Supervisor::new(Mode::UntilCancelled, false);
    assert_eq!(s.step(Event::Spawned), Action::WaitInterrupt);
    assert_eq!(s.step(Event::Interrupted), Action::Kill);
    assert_eq!(s.step(Event::Interrupted), Action::Nothing);
    assert_eq!(s.kills, 1);
    assert_eq!(s.step(Event::Killed), Action::Exit(0));
    assert_eq!(s.phase, Phase::Done);
    assert_eq!(s.kills, 1);
}

#[test]
fn refresh_after_grace_then_interrupt() {
    let mut s = Supervisor::new(Mode::UntilCancelled, true);
    assert_eq!(s.step(Event::Spawned), Action::WaitGrace);
    assert_eq!(s.step(Event::GraceElapsed), Action::Refresh);
    assert_eq!(s.step(Event::Refreshed), Action::WaitInterrupt);
    assert_eq!(s.step(Event::Interrupted), Action::Kill);
    assert_eq!(s.step(Event::Killed), Action::Exit(0));
}

#[test]
fn interrupt_during_refresh_kills_after_it() {
    let mut s = Supervisor::new(Mode::UntilCancelled, true);
    s.step(Event::Spawned);
    assert_eq!(s.step(Event::Interrupted), Action::Nothing);
    assert_eq!(s.step(Event::GraceElapsed), Action::Refresh);
    assert_eq!(s.step(Event::Refreshed), Action::Kill);
    assert_eq!(s.step(Event::Killed), Action::Exit(0));
}

#[test]
fn run_to_completion_passes_exit_code() {
    let mut s = Supervisor::new(Mode::RunToCompletion, false);
    assert_eq!(s.step(Event::Spawned), Action::WaitChild);
    assert_eq!(s.step(Event::Interrupted), Action::Nothing);
    assert_eq!(s.step(Event::ChildExited(3)), Action::Exit(3));
    assert_eq!(s.kills, 0);
}

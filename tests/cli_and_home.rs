use piing::config::ConfigPaths;
use piing::audit::{bar_length, max_count, recent_events, tally, Bucketing, PingEvent, BAR_WIDTH};
use piing::cli::{
    Action, AdapterArgs, AdapterCommand, CheckArgs, Cli, Command, GetPathArgs, GlobalArgs,
    HomeArgs, ListArgs, LogLevel, LogWritingBehaviour, SoundArgs, SoundCommand, SoundTestArgs,
    TargetArgs, TargetCommand, TargetRemoveArgs, VpnArgs, VpnCommand,
};
use piing::dialog::{ConfigDialogChoice, DialogOutcome, BTN_OK, BTN_RELOAD, BTN_SHOW_LOGS};
use piing::home::{file_extension, join_component, PiingHome};

fn globals(debug: bool, log_file: Option<&str>) -> GlobalArgs {
    GlobalArgs { debug, log_file: log_file.map(|s| s.to_string()) }
}

#[test]
fn no_command_runs_the_tray_with_a_log_file() {
    let inv = Cli { global_args: globals(false, None), command: None }.invoke();
    assert!(matches!(inv.action, Action::RunTray));
    assert_eq!(inv.log_level, LogLevel::Info);
    assert!(matches!(inv.log_behaviour, LogWritingBehaviour::TerminalAndDefaultFile));
}

#[test]
fn other_commands_log_to_terminal_unless_told() {
    let inv = Command::Home(HomeArgs {}).invoke(&globals(true, None));
    assert!(matches!(inv.action, Action::PrintHome));
    assert_eq!(inv.log_level, LogLevel::Debug);
    assert!(matches!(inv.log_behaviour, LogWritingBehaviour::TerminalOnly));
    let inv = Command::Home(HomeArgs {}).invoke(&globals(false, Some("x.ndjson")));
    match inv.log_behaviour {
        LogWritingBehaviour::TerminalAndSpecificFile(p) => assert_eq!(p, "x.ndjson"),
        _ => panic!("expected a specific file"),
    }
}

#[test]
fn nested_commands_resolve_to_actions() {
    let vpn = Command::Vpn(VpnArgs { command: VpnCommand::Check(CheckArgs { quiet: true }) });
    match vpn.invoke(&globals(false, None)).action {
        Action::CheckVpn(a) => assert!(a.quiet),
        _ => panic!("expected a VPN check"),
    }
    let list = VpnArgs {
        command: VpnCommand::Adapter(AdapterArgs { command: AdapterCommand::List(ListArgs { all: true }) }),
    };
    assert!(matches!(list.invoke(), Action::ListAdapters(ListArgs { all: true })));
    let path = AdapterArgs { command: AdapterCommand::GetPath(GetPathArgs {}) };
    assert!(matches!(path.invoke(), Action::PrintCriteriaDir));
    let remove = TargetArgs { command: TargetCommand::Remove(TargetRemoveArgs { name: "a".to_string() }) };
    match remove.invoke() {
        Action::RemoveTarget(a) => assert_eq!(a.name, "a"),
        _ => panic!("expected a target removal"),
    }
    let sound = SoundArgs { command: SoundCommand::Test(SoundTestArgs {}) };
    assert!(matches!(sound.invoke(), Action::TestSound));
    assert_eq!(globals(true, None).log_level(), LogLevel::Debug);
}

#[test]
fn home_directories() {
    let home = PiingHome(r"C:\Users\me\AppData\Roaming\TeamDman\piing".to_string());
    assert_eq!(home.logs_dir(), r"C:\Users\me\AppData\Roaming\TeamDman\piing\logs");
    assert_eq!(home.config_dir(), r"C:\Users\me\AppData\Roaming\TeamDman\piing\config");
    assert_eq!(join_component(r"D:\", "logs"), r"D:\logs");
    assert_eq!(join_component("", "logs"), "logs");
}

#[test]
fn dialog_buttons() {
    assert_eq!(ConfigDialogChoice::from_button(BTN_RELOAD), ConfigDialogChoice::ReloadNow);
    assert_eq!(ConfigDialogChoice::from_button(BTN_SHOW_LOGS), ConfigDialogChoice::ShowLogs);
    assert_eq!(ConfigDialogChoice::from_button(BTN_OK), ConfigDialogChoice::Acknowledge);
    assert_eq!(ConfigDialogChoice::from_button(-1), ConfigDialogChoice::Acknowledge);
    assert_eq!(ConfigDialogChoice::Acknowledge.outcome(), DialogOutcome::GiveUp);
    assert_eq!(ConfigDialogChoice::ReloadNow.outcome(), DialogOutcome::Reload);
    assert_eq!(ConfigDialogChoice::CopyMessage.outcome(), DialogOutcome::ShowAgain);
}

fn event(timestamp_s: i64, hour: u32, weekday: u32, success: bool) -> PingEvent {
    PingEvent { timestamp_s, hour, weekday, success }
}

#[test]
fn audit_tallies() {
    let events = vec![
        event(10, 3, 0, false),
        event(20, 3, 0, true),
        event(30, 23, 6, false),
        event(40, 3, 1, false),
        event(50, 24, 7, false),
    ];
    let by_hour = tally(&events, Bucketing::ByHour);
    assert_eq!(by_hour.failures.len(), 24);
    assert_eq!(by_hour.failures[3], 2);
    assert_eq!(by_hour.totals[3], 3);
    assert_eq!(by_hour.failures[23], 1);
    assert_eq!(by_hour.totals[0], 0);
    let by_day = tally(&events, Bucketing::ByWeekday);
    assert_eq!(by_day.totals.len(), 7);
    assert_eq!(by_day.totals[0], 2);
    assert_eq!(by_day.failures[0], 1);
    assert_eq!(by_day.failures[6], 1);
    assert_eq!(max_count(&by_hour.failures), 2);
    assert_eq!(max_count(&[]), 0);
    assert_eq!(bar_length(1, 2, BAR_WIDTH), 25);
    assert_eq!(bar_length(2, 3, BAR_WIDTH), 33);
    assert_eq!(bar_length(0, 0, BAR_WIDTH), 0);
    let recent = recent_events(&events, 30);
    assert_eq!(recent.len(), 3);
    assert_eq!(recent[0].timestamp_s, 30);
}

#[test]
fn config_file_candidates() {
    let paths = ConfigPaths::new(&PiingHome(r"C:\piing".to_string()));
    assert_eq!(paths.config_dir(), r"C:\piing\config");
    assert_eq!(
        ConfigPaths::candidate_file_name("2024-01-02_030405", "latency", 1),
        "2024-01-02_030405_latency.piing_hcl"
    );
    assert_eq!(
        paths.candidate_path("2024-01-02_030405", "latency", 3),
        r"C:\piing\config\2024-01-02_030405_latency_3.piing_hcl"
    );
}

#[test]
fn config_files_and_extensions() {
    assert!(piing::config::is_hcl_file(r"C:\piing\config\a_target.piing_hcl"));
    assert!(!piing::config::is_hcl_file("a.piing_hcl.bak"));
    assert!(!piing::config::is_hcl_file(".piing_hcl"));
    assert_eq!(file_extension("logs/piing_1.log.ndjson"), Some("ndjson"));
    assert_eq!(file_extension("archive.tar.gz/"), Some("gz"));
    assert_eq!(file_extension("noext"), None);
    assert_eq!(file_extension("name."), Some(""));
}

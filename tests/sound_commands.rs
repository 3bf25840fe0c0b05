use piing::sound::{
    MciPlayback, MciState, MciStep, PlayResult,
    build_close_cmd, build_open_cmd, build_open_cmd_with_type, build_play_cmd, build_set_cmd,
    build_set_cmd_variants, infer_mci_type, make_alias,
};

#[test]
fn open_cmd_does_not_force_waveaudio() {
    let path = r"C:\sounds\alert.mp3";
    let alias = make_alias(1);
    let cmd = build_open_cmd(path, &alias);
    assert_eq!(
        cmd,
        "open \"C:\\sounds\\alert.mp3\" alias piing_problem_sound_1"
    );
    assert!(!cmd.contains("waveaudio"));
}

#[test]
fn volume_scaling_and_set_cmd() {
    let set = build_set_cmd("piing_problem_sound_1", 123);
    assert_eq!(set, "setaudio piing_problem_sound_1 output volume to 123");

    let variants = build_set_cmd_variants("piing_problem_sound_1", 123);
    assert_eq!(variants[0], "setaudio piing_problem_sound_1 output volume to 123");
    assert_eq!(variants[1], "setaudio piing_problem_sound_1 volume to 123");
}

#[test]
fn play_and_close_cmds() {
    assert_eq!(build_play_cmd("a"), "play a from 0 wait");
    assert_eq!(build_close_cmd("a"), "close a");
}

#[test]
fn infer_types() {
    assert_eq!(infer_mci_type("a.wav"), Some("waveaudio"));
    assert_eq!(infer_mci_type("b.mp3"), Some("mpegvideo"));
    assert_eq!(infer_mci_type("c.wma"), Some("mpegvideo"));
    assert_eq!(infer_mci_type("d.unknown"), None);
}

#[test]
fn infer_type_edge_cases() {
    assert_eq!(infer_mci_type(r"C:\sounds\ALERT.WAV"), Some("waveaudio"));
    assert_eq!(infer_mci_type("dir.wav/file"), None);
    assert_eq!(infer_mci_type(".wav"), None);
    assert_eq!(infer_mci_type("x/clip.mp3/"), Some("mpegvideo"));
    assert_eq!(infer_mci_type(".."), None);
    assert_eq!(infer_mci_type(""), None);
}

#[test]
fn open_with_type_and_alias_numbers() {
    assert_eq!(make_alias(42), "piing_problem_sound_42");
    assert_eq!(
        build_open_cmd_with_type("a.wav", "x", "waveaudio"),
        "open \"a.wav\" type waveaudio alias x"
    );
    assert_eq!(build_set_cmd("a", 0), "setaudio a output volume to 0");
    assert_eq!(build_set_cmd("a", 1000), "setaudio a output volume to 1000");
}

fn sent(step: &MciStep) -> String {
    match step {
        MciStep::Send(c) => c.clone(),
        MciStep::SetWaveVolume(v) => format!("<wave volume {v}>"),
        MciStep::Finish(r) => format!("<finish {r:?}>"),
    }
}

fn run_playback(path: &str, results: &[bool]) -> Vec<String> {
    let (mut p, mut step) = MciPlayback::new(path, "a", 500);
    let mut log = vec![sent(&step)];
    for &ok in results {
        step = p.advance(ok);
        log.push(sent(&step));
    }
    log
}

#[test]
fn wave_playback_sets_device_volume() {
    let log = run_playback("x.wav", &[true, true, true, true]);
    assert_eq!(
        log,
        vec![
            "open \"x.wav\" alias a",
            "<wave volume 500>",
            "play a from 0 wait",
            "close a",
            "<finish Played>",
        ]
    );
}

#[test]
fn playback_falls_back_through_volume_commands() {
    let log = run_playback("x.mp3", &[false, true, false, false, false, true, true, false, true, true, true]);
    assert_eq!(
        log,
        vec![
            "open \"x.mp3\" alias a",
            "open \"x.mp3\" type mpegvideo alias a",
            "setaudio a output volume to 500",
            "setaudio a volume to 500",
            "play a from 0 wait",
            "close a",
            "open \"x.mp3\" type mpegvideo alias a",
            "setaudio a output volume to 500",
            "setaudio a volume to 500",
            "play a from 0 wait",
            "close a",
            "<finish Played>",
        ]
    );
}

#[test]
fn playback_of_unknown_type_reports_open_error() {
    let log = run_playback("x.ogg", &[false]);
    assert_eq!(log, vec!["open \"x.ogg\" alias a", "<finish FailedAt(0)>"]);
    let (p, _) = MciPlayback::new("x.ogg", "a", 1000);
    assert_eq!(p.state, MciState::Open);
    let log = run_playback("x.ogg", &[true, false, false, false, true]);
    assert_eq!(log.last().unwrap(), "<finish FailedAt(3)>");
    assert_eq!(PlayResult::Played, PlayResult::Played);
}

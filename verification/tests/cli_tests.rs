use kiya::cli::{run_args, CliArgs, CliCommand};

fn args(sign_in: Option<&str>, test: bool, gui: bool, tts: bool) -> CliArgs {
    CliArgs { sign_in: sign_in.map(|s| s.to_string()), test: Some(test), gui: Some(gui), test_tts: Some(tts) }
}

#[test]
fn nothing_asked() {
    assert!(run_args(args(None, false, false, false)).is_empty());
}

#[test]
fn gui_only() {
    let c = run_args(args(None, false, true, false));
    assert_eq!(c.len(), 1);
    assert!(matches!(c[0], CliCommand::Gui));
}

#[test]
fn all_in_order() {
    let c = run_args(args(Some("dorothy"), true, true, true));
    assert_eq!(c.len(), 4);
    match &c[0] {
        CliCommand::Chat(u) => assert_eq!(u, "dorothy"),
        _ => panic!("expected Chat first"),
    }
    assert!(matches!(c[1], CliCommand::DatabaseTest));
    assert!(matches!(c[2], CliCommand::Gui));
    assert!(matches!(c[3], CliCommand::SpeechTest));
}

#[test]
fn unknown_flags_are_skipped() {
    let c = run_args(CliArgs { sign_in: None, test: None, gui: Some(true), test_tts: None });
    assert_eq!(c.len(), 1);
    assert!(matches!(c[0], CliCommand::Gui));
}

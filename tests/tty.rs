use alacritty_tty::clipboard::{utf8_message, Clipboard, Error};
use alacritty_tty::exit::{exit_transition, ExitMonitor};
use alacritty_tty::launch::{plan_launch, EnvOp, LaunchPlan, Shell};
use alacritty_tty::pty::Pty;
use alacritty_tty::size::{TerminalSize, ToWinsize, Winsize};

fn size(rows: u16, cols: u16, w: u16, h: u16) -> TerminalSize {
    TerminalSize { rows, cols, pixel_width: w, pixel_height: h }
}

fn shell(program: &str, args: &[&str]) -> Shell {
    Shell { program: program.to_string(), args: args.iter().map(|a| a.to_string()).collect() }
}

fn lookup(plan: &LaunchPlan, key: &str) -> Option<Option<String>> {
    let mut found = None;
    for EnvOp { key: k, value } in plan.env.iter() {
        if k == key {
            found = Some(value.clone());
        }
    }
    found
}

#[test]
fn native_size_round_trip() {
    for s in [size(24, 80, 640, 480), size(0, 0, 0, 0), size(u16::MAX, 1, u16::MAX, 7)] {
        let w = s.to_native_size();
        assert_eq!(TerminalSize::from_native_size(&w), s);
    }
}

#[test]
fn native_size_fields() {
    let w = size(24, 80, 640, 480).to_winsize();
    assert_eq!(w, Winsize { ws_row: 24, ws_col: 80, ws_xpixel: 640, ws_ypixel: 480 });
}

#[test]
fn resize_records_24_by_80() {
    let mut pty = Pty::from_master(7);
    assert_eq!(pty.winsize(), Winsize { ws_row: 0, ws_col: 0, ws_xpixel: 0, ws_ypixel: 0 });
    let sent = pty.resize(size(24, 80, 0, 0));
    assert_eq!(sent.ws_row, 24);
    assert_eq!(sent.ws_col, 80);
    assert_eq!(pty.winsize(), sent);
    assert_eq!(pty.raw_fd(), 7);
    assert!(pty.is_open());
}

#[test]
fn release_closes_once() {
    let mut pty = Pty::from_master(5);
    assert_eq!(pty.release(), Some(5));
    assert!(!pty.is_open());
    assert_eq!(pty.release(), None);
    assert_eq!(pty.release(), None);
}

#[test]
fn window_id_is_set_in_decimal() {
    let plan = plan_launch(shell("/bin/sh", &[]), None, &vec![], None, Some(12345));
    assert_eq!(lookup(&plan, "WINDOWID"), Some(Some("12345".to_string())));
    assert_eq!(lookup(&plan, "TERM"), Some(Some("xterm-256color".to_string())));
}

#[test]
fn window_id_zero_and_large() {
    let plan = plan_launch(shell("/bin/sh", &[]), None, &vec![], None, Some(0));
    assert_eq!(lookup(&plan, "WINDOWID"), Some(Some("0".to_string())));
    let plan = plan_launch(shell("/bin/sh", &[]), None, &vec![], None, Some(1000000007));
    assert_eq!(lookup(&plan, "WINDOWID"), Some(Some("1000000007".to_string())));
}

#[test]
fn no_window_id_removes_variable() {
    let plan = plan_launch(shell("/bin/sh", &[]), None, &vec![], None, None);
    assert_eq!(lookup(&plan, "WINDOWID"), Some(None));
}

#[test]
fn configured_values_win() {
    let env = vec![
        ("TERM".to_string(), "screen".to_string()),
        ("WINDOWID".to_string(), "9".to_string()),
        ("TERM".to_string(), "vt100".to_string()),
    ];
    let plan = plan_launch(shell("/bin/sh", &[]), None, &env, None, Some(12345));
    assert_eq!(lookup(&plan, "TERM"), Some(Some("vt100".to_string())));
    assert_eq!(lookup(&plan, "WINDOWID"), Some(Some("9".to_string())));
    assert_eq!(plan.env.len(), 5);
    assert_eq!(plan.env[0].key, "TERM");
    assert_eq!(plan.env[1].key, "WINDOWID");
}

#[test]
fn command_line_replaces_shell() {
    let plan = plan_launch(
        shell("/bin/bash", &["--login"]),
        Some(shell("echo", &["hello", "world"])),
        &vec![],
        Some("/tmp".to_string()),
        None,
    );
    assert_eq!(plan.program, "echo");
    assert_eq!(plan.args, vec!["hello".to_string(), "world".to_string()]);
    assert_eq!(plan.working_dir, Some("/tmp".to_string()));
}

#[test]
fn configured_shell_without_command() {
    let plan = plan_launch(shell("/bin/bash", &["--login"]), None, &vec![], None, None);
    assert_eq!(plan.program, "/bin/bash");
    assert_eq!(plan.args, vec!["--login".to_string()]);
    assert_eq!(plan.working_dir, None);
}

#[test]
fn exit_follows_tracked_child() {
    let mut m = ExitMonitor::new();
    assert!(!m.process_should_exit());
    m.record_child(42);
    assert!(!m.process_should_exit());
    m.on_child_terminated(17);
    assert!(!m.process_should_exit());
    m.on_child_terminated(42);
    assert!(m.process_should_exit());
    m.on_child_terminated(17);
    assert!(m.process_should_exit());
}

#[test]
fn exit_transition_cases() {
    assert!(!exit_transition(false, None, 3));
    assert!(!exit_transition(false, Some(4), 3));
    assert!(exit_transition(false, Some(3), 3));
    assert!(exit_transition(true, Some(4), 3));
    assert!(exit_transition(true, None, 3));
}

#[test]
fn inert_clipboard() {
    let mut c = Clipboard::new().unwrap();
    assert_eq!(c.load_primary().unwrap(), "");
    assert_eq!(c.load_selection().unwrap(), "");
    assert!(c.store_primary("abc").is_ok());
    assert!(c.store_selection(String::from("xyz")).is_ok());
    assert_eq!(c.load_primary().unwrap(), "");
}

#[test]
fn utf8_error_messages() {
    let bad = String::from_utf8(vec![0x66, 0xff]).unwrap_err();
    let e = Error::Utf8(bad.clone());
    assert_eq!(e.description(), "clipboard contents not utf8");
    assert_eq!(e.cause(), Some(&bad));
    let m = e.message();
    assert_eq!(m, format!("error parsing utf8 string: {}", bad));
    assert!(m.len() > "error parsing utf8 string: ".len());
    assert_eq!(utf8_message("x"), "error parsing utf8 string: x");
}

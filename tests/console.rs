use atty::console::{Action, Probe, Reply, Stage};

fn record(name: &str) -> Vec<u8> {
    let units: Vec<u16> = name.encode_utf16().collect();
    let mut info = ((units.len() * 2) as u32).to_le_bytes().to_vec();
    for u in units {
        info.extend_from_slice(&u.to_le_bytes());
    }
    info
}

const PTY: &str = "\\msys-1888ae32e00d56aa-pty0-to-master";

// Drives a probe against a platform that answers from fixed values, and
// records the queries it made.
fn drive(direct: bool, consoles: &[bool], name: Option<Vec<u8>>) -> (bool, Vec<Action>) {
    let mut probe = Probe::new(consoles.len());
    let mut asked = Vec::new();
    let mut action = probe.action();
    loop {
        asked.push(action);
        let reply = match action {
            Action::QueryConsole => Reply::ConsoleMode(direct),
            Action::QuerySiblingConsole(i) => Reply::ConsoleMode(consoles[i]),
            Action::QueryFileName => Reply::FileName(name.clone()),
            Action::Report(b) => return (b, asked),
        };
        action = probe.step(reply);
    }
}

#[test]
fn console_on_the_handle_short_circuits() {
    let (r, asked) = drive(true, &[false, false], Some(record("plain.txt")));
    assert!(r);
    assert_eq!(asked, vec![Action::QueryConsole, Action::Report(true)]);
    let (r, _) = drive(true, &[true, true], None);
    assert!(r);
}

#[test]
fn sibling_console_is_a_true_negative() {
    let (r, asked) = drive(false, &[false, true], Some(record(PTY)));
    assert!(!r);
    assert_eq!(
        asked,
        vec![
            Action::QueryConsole,
            Action::QuerySiblingConsole(0),
            Action::QuerySiblingConsole(1),
            Action::Report(false)
        ]
    );
    let (r, asked) = drive(false, &[true, false], Some(record(PTY)));
    assert!(!r);
    assert_eq!(asked.len(), 3);
}

#[test]
fn no_console_anywhere_falls_back_on_the_name() {
    let (r, asked) = drive(false, &[false, false], Some(record(PTY)));
    assert!(r);
    assert_eq!(
        asked,
        vec![
            Action::QueryConsole,
            Action::QuerySiblingConsole(0),
            Action::QuerySiblingConsole(1),
            Action::QueryFileName,
            Action::Report(true)
        ]
    );
    let (r, _) = drive(false, &[false, false, false], Some(record("my-pty-notes.txt")));
    assert!(!r);
}

#[test]
fn failed_name_query_is_no_terminal() {
    let (r, _) = drive(false, &[false, false], None);
    assert!(!r);
}

#[test]
fn no_siblings_goes_straight_to_the_name() {
    let (r, asked) = drive(false, &[], Some(record(PTY)));
    assert!(r);
    assert_eq!(
        asked,
        vec![Action::QueryConsole, Action::QueryFileName, Action::Report(true)]
    );
}

#[test]
fn reply_to_another_query_changes_nothing() {
    let mut probe = Probe::new(2);
    assert_eq!(probe.step(Reply::FileName(None)), Action::QueryConsole);
    assert_eq!(probe.stage, Stage::Direct);
    assert_eq!(probe.step(Reply::ConsoleMode(false)), Action::QuerySiblingConsole(0));
    assert_eq!(probe.step(Reply::FileName(None)), Action::QuerySiblingConsole(0));
    assert_eq!(probe.step(Reply::ConsoleMode(false)), Action::QuerySiblingConsole(1));
    assert_eq!(probe.step(Reply::ConsoleMode(false)), Action::QueryFileName);
    assert_eq!(probe.step(Reply::ConsoleMode(true)), Action::QueryFileName);
    assert_eq!(probe.step(Reply::FileName(None)), Action::Report(false));
    assert_eq!(probe.step(Reply::ConsoleMode(true)), Action::Report(false));
    assert_eq!(probe.stage, Stage::Done(false));
}

use std::sync::mpsc::RecvError;

use pgmon::CliError;

#[test]
fn closed_channel_is_a_pipe_error() {
    assert!(matches!(CliError::from(RecvError), CliError::Pipe { .. }));
}

#[test]
fn terminal_failure_is_a_ui_error() {
    let err = std::io::Error::new(std::io::ErrorKind::BrokenPipe, "terminal gone");
    match CliError::from(err) {
        CliError::UI { source } => assert_eq!(source.kind(), std::io::ErrorKind::BrokenPipe),
        other => panic!("unexpected {:?}", other),
    }
}

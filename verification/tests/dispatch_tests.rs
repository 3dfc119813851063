use ftpc::commands::{retr_base_command, user_base_command, list_base_command, Command};
use ftpc::dispatch::{dispatch_step, DispatchAction, DispatchEvent, DispatchPhase};
use ftpc::matcher::FtpError;

#[test]
fn plain_command_sends_then_reads_then_finishes() {
    let cmd = Command::User(user_base_command(), String::from("anon"));
    let octets: Vec<u8> = Vec::new();

    let (phase, action) = dispatch_step(&cmd, &octets, DispatchPhase::Line, DispatchEvent::Start);
    assert_eq!(phase, DispatchPhase::AwaitImmediate);
    match action {
        DispatchAction::Send(line) => assert_eq!(line, "USER anon\r\n"),
        _ => panic!("expected the command line to be sent"),
    }

    let (phase, action) = dispatch_step(&cmd, &octets, phase, DispatchEvent::Sent);
    assert_eq!(phase, DispatchPhase::AwaitImmediate);
    assert!(matches!(action, DispatchAction::ReadResponse));

    let (phase, action) =
        dispatch_step(&cmd, &octets, phase, DispatchEvent::Response(String::from("331 need pw")));
    assert_eq!(phase, DispatchPhase::Done);
    match action {
        DispatchAction::Finish(outcome) => assert!(outcome.is_ok()),
        _ => panic!("expected the command to finish"),
    }
}

#[test]
fn mismatched_immediate_response_finishes_with_the_response() {
    let cmd = Command::User(user_base_command(), String::from("anon"));
    let octets: Vec<u8> = Vec::new();
    let (phase, action) = dispatch_step(
        &cmd,
        &octets,
        DispatchPhase::AwaitImmediate,
        DispatchEvent::Response(String::from("530 Not logged in")),
    );
    assert_eq!(phase, DispatchPhase::Done);
    match action {
        DispatchAction::Finish(Err(FtpError::Protocol(text))) => {
            assert_eq!(text, "530 Not logged in")
        }
        _ => panic!("expected a protocol error carrying the response"),
    }
}

#[test]
fn retrieval_binds_before_sending_and_sinks_the_bytes() {
    let cmd = Command::Retr(
        retr_base_command(),
        String::from("remote.txt"),
        String::from("local.txt"),
        51300,
    );
    let octets: Vec<u8> = Vec::new();

    // the listener is bound first
    let (phase, action) = dispatch_step(&cmd, &octets, DispatchPhase::Line, DispatchEvent::Start);
    assert_eq!(phase, DispatchPhase::Line);
    match action {
        DispatchAction::BindListener(port) => assert_eq!(port, 51300),
        _ => panic!("expected the listener to be bound first"),
    }

    // only then does the line go out
    let (phase, action) = dispatch_step(&cmd, &octets, phase, DispatchEvent::Sent);
    assert_eq!(phase, DispatchPhase::AwaitImmediate);
    match action {
        DispatchAction::Send(line) => assert_eq!(line, "RETR remote.txt\r\n"),
        _ => panic!("expected the command line to be sent"),
    }

    let (phase, action) = dispatch_step(&cmd, &octets, phase, DispatchEvent::Sent);
    assert!(matches!(action, DispatchAction::ReadResponse));

    // a matching immediate response leads to the join
    let (phase, action) =
        dispatch_step(&cmd, &octets, phase, DispatchEvent::Response(String::from("150 opening")));
    assert_eq!(phase, DispatchPhase::AwaitData);
    assert!(matches!(action, DispatchAction::JoinData));

    // the joined bytes go to the destination path, then the final read
    let (phase, action) =
        dispatch_step(&cmd, &octets, phase, DispatchEvent::DataJoined(b"contents".to_vec()));
    assert_eq!(phase, DispatchPhase::AwaitFinal);
    match action {
        DispatchAction::SinkThenRead(dest, bytes) => {
            assert_eq!(dest, "local.txt");
            assert_eq!(bytes, b"contents".to_vec());
        }
        _ => panic!("expected the bytes to go to the sink"),
    }

    // the final response is validated against the same code set
    let (phase, action) =
        dispatch_step(&cmd, &octets, phase, DispatchEvent::Response(String::from("226 done")));
    assert_eq!(phase, DispatchPhase::Done);
    match action {
        DispatchAction::Finish(outcome) => assert!(outcome.is_ok()),
        _ => panic!("expected the command to finish"),
    }
}

#[test]
fn listing_prints_the_joined_bytes() {
    let cmd = Command::List(list_base_command(), String::new(), 51205);
    let octets: Vec<u8> = Vec::new();
    let (phase, action) = dispatch_step(
        &cmd,
        &octets,
        DispatchPhase::AwaitData,
        DispatchEvent::DataJoined(b"file1\r\n".to_vec()),
    );
    assert_eq!(phase, DispatchPhase::AwaitFinal);
    match action {
        DispatchAction::PrintThenRead(bytes) => assert_eq!(bytes, b"file1\r\n".to_vec()),
        _ => panic!("expected the bytes to be printed"),
    }
}

#[test]
fn a_failure_event_ends_the_command_with_that_error() {
    let cmd = Command::List(list_base_command(), String::new(), 51205);
    let octets: Vec<u8> = Vec::new();
    let (phase, action) = dispatch_step(
        &cmd,
        &octets,
        DispatchPhase::AwaitData,
        DispatchEvent::Failed(FtpError::Io(String::from("connection reset"))),
    );
    assert_eq!(phase, DispatchPhase::Done);
    match action {
        DispatchAction::Finish(Err(FtpError::Io(text))) => assert_eq!(text, "connection reset"),
        _ => panic!("expected the failure to surface unchanged"),
    }
}

#[test]
fn an_unexpected_event_is_refused_as_an_engine_fault() {
    let cmd = Command::Quit(ftpc::commands::quit_base_command());
    let octets: Vec<u8> = Vec::new();
    let (phase, action) =
        dispatch_step(&cmd, &octets, DispatchPhase::Done, DispatchEvent::Start);
    assert_eq!(phase, DispatchPhase::Done);
    match action {
        DispatchAction::Finish(Err(FtpError::Task(_))) => {}
        _ => panic!("expected an engine fault"),
    }
}

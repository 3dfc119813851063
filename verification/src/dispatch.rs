//! The dispatcher's choreography as a verified step machine: from the
//! command, the current phase and the last event, the next phase and
//! the one action the runner must perform. The contract pins the
//! active-mode ordering — the data listener is bound before the
//! command line goes out, the immediate response is validated, the
//! data session is joined and its bytes handed on, and a second, final
//! response is validated against the same code set — while the runner
//! outside the library only performs each action and hands back what
//! happened.

use vstd::prelude::*;

use crate::commands::{spec_base, spec_command_line, spec_data_port, Command};
use crate::matcher::{matches_spec, FtpError};

verus! {

/// Where a command stands in its choreography.
#[derive(Clone, Copy, Debug, PartialEq, Eq, Structural)]
pub enum DispatchPhase {
    /// The command line has not been sent yet.
    Line,
    /// The line is on its way out; the immediate response comes next.
    AwaitImmediate,
    /// The immediate response matched; the data session must be joined.
    AwaitData,
    /// The data arrived; the final response comes next.
    AwaitFinal,
    /// The command finished, with or without success.
    Done,
}

/// What the runner reports back after performing an action.
pub enum DispatchEvent {
    /// The command was handed in; nothing has happened yet.
    Start,
    /// The last listener bind or line send completed.
    Sent,
    /// A control-channel response was read.
    Response(String),
    /// The data session completed with these bytes.
    DataJoined(Vec<u8>),
    /// A bind, send, read, join or sink failure; ends the command.
    Failed(FtpError),
}

/// The one thing the runner must do next.
pub enum DispatchAction {
    /// Bind the data listener on this port, and only then report back:
    /// the server may connect the moment the command line arrives.
    BindListener(u16),
    /// Send this exact line over the control channel.
    Send(String),
    /// Read one response from the control channel.
    ReadResponse,
    /// Block until the data session completes.
    JoinData,
    /// Persist the bytes at this destination path, then read the final
    /// response.
    SinkThenRead(String, Vec<u8>),
    /// Print the bytes, then read the final response.
    PrintThenRead(Vec<u8>),
    /// The command is over: surface this outcome to the caller.
    Finish(Result<(), FtpError>),
}

/// The phase/event pairs the choreography can produce when the runner
/// performs each action as asked.
pub open spec fn expected_step(phase: DispatchPhase, event: DispatchEvent, c: Command) -> bool {
    ||| (phase is Line && event is Start)
    ||| (phase is Line && event is Sent && spec_data_port(c) is Some)
    ||| (phase is AwaitImmediate && event is Sent)
    ||| (phase is AwaitImmediate && event is Response)
    ||| (phase is AwaitData && event is DataJoined && spec_data_port(c) is Some)
    ||| (phase is AwaitFinal && event is Response)
    ||| (event is Failed)
}

/// One step of the choreography. A transfer command's first action is
/// to bind its listener, and its line is sent only after that bind
/// completed; every response is validated against the command's code
/// set, the same set both times; any failure surfaces as the command's
/// outcome, untouched.
pub fn dispatch_step(
    c: &Command,
    local_octets: &Vec<u8>,
    phase: DispatchPhase,
    event: DispatchEvent,
) -> (r: (DispatchPhase, DispatchAction))
    ensures
        // a transfer command binds its listener before anything is sent
        (phase is Line && event is Start && spec_data_port(*c) is Some) ==> ({
            &&& r.0 is Line
            &&& r.1 is BindListener
            &&& r.1->BindListener_0 == spec_data_port(*c)->Some_0
        }),
        // a plain command sends its exact line at once
        (phase is Line && event is Start && spec_data_port(*c) is None) ==> ({
            &&& r.0 is AwaitImmediate
            &&& r.1 is Send
            &&& r.1->Send_0@ == spec_command_line(*c, local_octets@)
        }),
        // the line goes out only once the listener is bound
        (phase is Line && event is Sent && spec_data_port(*c) is Some) ==> ({
            &&& r.0 is AwaitImmediate
            &&& r.1 is Send
            &&& r.1->Send_0@ == spec_command_line(*c, local_octets@)
        }),
        (phase is AwaitImmediate && event is Sent) ==> ({
            &&& r.0 is AwaitImmediate
            &&& r.1 is ReadResponse
        }),
        // the immediate response decides: a match leads transfer
        // commands to the join and plain commands to success; a
        // mismatch ends the command with the full response
        (phase is AwaitImmediate && event is Response) ==> ({
            let resp = event->Response_0;
            if matches_spec(resp@, spec_base(*c).codes.deep_view()) {
                if spec_data_port(*c) is Some {
                    r.0 is AwaitData && r.1 is JoinData
                } else {
                    r.0 is Done && r.1 is Finish && r.1->Finish_0 is Ok
                }
            } else {
                &&& r.0 is Done
                &&& r.1 is Finish
                &&& r.1->Finish_0 is Err
                &&& r.1->Finish_0->Err_0 is Protocol
                &&& r.1->Finish_0->Err_0->Protocol_0@ == resp@
            }
        }),
        // the joined bytes go to the retrieval's sink, or are printed
        (phase is AwaitData && event is DataJoined && *c is Retr) ==> ({
            &&& r.0 is AwaitFinal
            &&& r.1 is SinkThenRead
            &&& r.1->SinkThenRead_0@ == c->Retr_2@
            &&& r.1->SinkThenRead_1@ == event->DataJoined_0@
        }),
        (phase is AwaitData && event is DataJoined && !(*c is Retr) && spec_data_port(*c) is Some)
            ==> ({
            &&& r.0 is AwaitFinal
            &&& r.1 is PrintThenRead
            &&& r.1->PrintThenRead_0@ == event->DataJoined_0@
        }),
        // the final response is validated against the same code set
        (phase is AwaitFinal && event is Response) ==> ({
            let resp = event->Response_0;
            if matches_spec(resp@, spec_base(*c).codes.deep_view()) {
                r.0 is Done && r.1 is Finish && r.1->Finish_0 is Ok
            } else {
                &&& r.0 is Done
                &&& r.1 is Finish
                &&& r.1->Finish_0 is Err
                &&& r.1->Finish_0->Err_0 is Protocol
                &&& r.1->Finish_0->Err_0->Protocol_0@ == resp@
            }
        }),
        // any failure ends the command carrying exactly that error
        (event is Failed) ==> ({
            &&& r.0 is Done
            &&& r.1 is Finish
            &&& r.1->Finish_0 is Err
            &&& r.1->Finish_0->Err_0 == event->Failed_0
        }),
        // anything else is a fault of the engine's own protocol
        !expected_step(phase, event, *c) ==> ({
            &&& r.0 is Done
            &&& r.1 is Finish
            &&& r.1->Finish_0 is Err
            &&& r.1->Finish_0->Err_0 is Task
        }),
{
    match event {
        DispatchEvent::Failed(e) => (DispatchPhase::Done, DispatchAction::Finish(Err(e))),
        DispatchEvent::Start => {
            match phase {
                DispatchPhase::Line => {
                    match c.data_port() {
                        Some(port) => (DispatchPhase::Line, DispatchAction::BindListener(port)),
                        None => (
                            DispatchPhase::AwaitImmediate,
                            DispatchAction::Send(c.line(local_octets)),
                        ),
                    }
                },
                _ => fault(),
            }
        },
        DispatchEvent::Sent => {
            match phase {
                DispatchPhase::Line => {
                    match c.data_port() {
                        Some(_) => (
                            DispatchPhase::AwaitImmediate,
                            DispatchAction::Send(c.line(local_octets)),
                        ),
                        None => fault(),
                    }
                },
                DispatchPhase::AwaitImmediate => (
                    DispatchPhase::AwaitImmediate,
                    DispatchAction::ReadResponse,
                ),
                _ => fault(),
            }
        },
        DispatchEvent::Response(resp) => {
            match phase {
                DispatchPhase::AwaitImmediate => {
                    if crate::matcher::matches(resp.as_str(), &c.base().codes) {
                        match c.data_port() {
                            Some(_) => (DispatchPhase::AwaitData, DispatchAction::JoinData),
                            None => (DispatchPhase::Done, DispatchAction::Finish(Ok(()))),
                        }
                    } else {
                        (
                            DispatchPhase::Done,
                            DispatchAction::Finish(Err(FtpError::Protocol(resp))),
                        )
                    }
                },
                DispatchPhase::AwaitFinal => {
                    if crate::matcher::matches(resp.as_str(), &c.base().codes) {
                        (DispatchPhase::Done, DispatchAction::Finish(Ok(())))
                    } else {
                        (
                            DispatchPhase::Done,
                            DispatchAction::Finish(Err(FtpError::Protocol(resp))),
                        )
                    }
                },
                _ => fault(),
            }
        },
        DispatchEvent::DataJoined(bytes) => {
            match phase {
                DispatchPhase::AwaitData => {
                    match c {
                        Command::Retr(_, _, local_path, _) => (
                            DispatchPhase::AwaitFinal,
                            DispatchAction::SinkThenRead(local_path.clone(), bytes),
                        ),
                        Command::List(_, _, _) => (
                            DispatchPhase::AwaitFinal,
                            DispatchAction::PrintThenRead(bytes),
                        ),
                        _ => fault(),
                    }
                },
                _ => fault(),
            }
        },
    }
}

/// The outcome of a phase/event pair the choreography never produces.
fn fault() -> (r: (DispatchPhase, DispatchAction))
    ensures
        r.0 is Done,
        r.1 is Finish,
        r.1->Finish_0 is Err,
        r.1->Finish_0->Err_0 is Task,
{
    (
        DispatchPhase::Done,
        DispatchAction::Finish(Err(FtpError::Task("unexpected dispatch event".to_owned()))),
    )
}

} // verus!

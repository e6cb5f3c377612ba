//! The command dispatcher: parses one line, routes it, and hands back
//! everything the surrounding loop must do — lines to print, records to
//! log, whether to terminate — while mutating the board and the
//! diagnostics controller it was given.

use vstd::prelude::*;
use vstd::string::*;
use crate::apply::{
    apply_position, spec_position_logs, spec_position_result, spec_source_rejected,
};
use crate::board::{board_fen, render_board};
use crate::command::{parse_command, spec_parse, Command, CommandV};
use crate::diag::{spec_admits, DiagnosticsController, LogLevel, LogRecord, LogRecordV, VerbosityLevel};

verus! {

/// Everything one dispatched line asks of the surrounding loop.
pub struct DispatchOutcome {
    /// The loop terminates after this command.
    pub quit: bool,
    /// Lines owed to standard output, in order.
    pub outputs: Vec<String>,
    /// Records owed to the logging sinks, in order.
    pub logs: Vec<LogRecord>,
    /// The encoded position string was rejected; the board is untouched.
    pub invalid_position: bool,
}

/// The mathematical value of a `DispatchOutcome`, together with the board
/// encoding and the verbosity the dispatched line leaves behind.
pub struct StepV {
    pub quit: bool,
    pub outputs: Seq<Seq<char>>,
    pub logs: Seq<LogRecordV>,
    pub invalid_position: bool,
    pub fen: Seq<char>,
    pub level: VerbosityLevel,
}

/// The line printed after a position command.
pub open spec fn board_output(fen: Seq<char>) -> Seq<char> {
    "Current board position: "@ + fen
}

/// What dispatching `line` does, as a whole, to a session whose board is
/// encoded by `fen` and whose verbosity is `level`.
pub open spec fn spec_step(line: Seq<char>, fen: Seq<char>, level: VerbosityLevel) -> StepV {
    match spec_parse(line) {
        CommandV::Empty => StepV {
            quit: false,
            outputs: Seq::empty(),
            logs: seq![
                LogRecordV { level: LogLevel::Warn, message: "Ignoring empty input line"@ },
            ],
            invalid_position: false,
            fen,
            level,
        },
        CommandV::Ready => StepV {
            quit: false,
            outputs: seq!["readyok"@],
            logs: Seq::empty(),
            invalid_position: false,
            fen,
            level,
        },
        CommandV::DebugToggle { enable } => StepV {
            quit: false,
            outputs: Seq::empty(),
            logs: seq![
                LogRecordV {
                    level: LogLevel::Info,
                    message: if enable {
                        "Enabled debugging"@
                    } else {
                        "Disabled debugging"@
                    },
                },
            ],
            invalid_position: false,
            fen,
            level: if enable {
                VerbosityLevel::Debug
            } else {
                VerbosityLevel::Info
            },
        },
        CommandV::DebugUnknown { option } => StepV {
            quit: false,
            outputs: Seq::empty(),
            logs: seq![
                LogRecordV {
                    level: LogLevel::Error,
                    message: "Unrecognized debug option "@ + option,
                },
            ],
            invalid_position: false,
            fen,
            level,
        },
        CommandV::PositionSetup { source, moves } => {
            if spec_source_rejected(source) {
                StepV {
                    quit: false,
                    outputs: Seq::empty(),
                    logs: seq![
                        LogRecordV {
                            level: LogLevel::Error,
                            message: "Invalid fen string provided!"@,
                        },
                    ],
                    invalid_position: true,
                    fen,
                    level,
                }
            } else {
                StepV {
                    quit: false,
                    outputs: seq![board_output(spec_position_result(source, moves, fen))],
                    logs: spec_position_logs(source, moves),
                    invalid_position: false,
                    fen: spec_position_result(source, moves, fen),
                    level,
                }
            }
        },
        CommandV::PositionUnknown { option } => StepV {
            quit: false,
            outputs: seq![board_output(fen)],
            logs: seq![
                LogRecordV {
                    level: LogLevel::Error,
                    message: "Unrecognized position option "@ + option,
                },
            ],
            invalid_position: false,
            fen,
            level,
        },
        CommandV::Quit => StepV {
            quit: true,
            outputs: Seq::empty(),
            logs: Seq::empty(),
            invalid_position: false,
            fen,
            level,
        },
        CommandV::Unrecognized { line: text } => StepV {
            quit: false,
            outputs: Seq::empty(),
            logs: seq![
                LogRecordV { level: LogLevel::Info, message: "Received input: "@ + text },
            ],
            invalid_position: false,
            fen,
            level,
        },
    }
}

/// Builds the one-line message `prefix` + `rest`.
fn message(prefix: &str, rest: &str) -> (r: String)
    ensures
        r@ == prefix@ + rest@,
{
    let mut m = String::from_str(prefix);
    m.append(rest);
    m
}

/// Dispatches one input line: routes it by its first token, mutates the
/// board and the diagnostics controller as the directive asks, and
/// returns what the surrounding loop owes the outside world.
pub fn dispatch(line: &str, board: &mut chess::Board, diag: &mut DiagnosticsController) -> (r:
    DispatchOutcome)
    ensures
        ({
            let s = spec_step(line@, board_fen(*old(board)), old(diag).level);
            &&& r.quit == s.quit
            &&& r.outputs.deep_view() == s.outputs
            &&& r.logs.deep_view() == s.logs
            &&& r.invalid_position == s.invalid_position
            &&& board_fen(*final(board)) == s.fen
            &&& final(diag).level == s.level
        }),
        !(spec_parse(line@) is PositionSetup) ==> *final(board) == *old(board),
        r.invalid_position ==> *final(board) == *old(board),
{
    let ghost s = spec_step(line@, board_fen(*board), diag.level);
    let mut outputs: Vec<String> = Vec::new();
    let mut logs: Vec<LogRecord> = Vec::new();
    let mut quit: bool = false;
    let mut invalid_position: bool = false;
    proof {
        assert(outputs.deep_view() =~= Seq::<Seq<char>>::empty());
        assert(logs.deep_view() =~= Seq::<LogRecordV>::empty());
    }
    match parse_command(line) {
        Command::Empty => {
            logs.push(
                LogRecord {
                    level: LogLevel::Warn,
                    message: String::from_str("Ignoring empty input line"),
                },
            );
            proof {
                assert(logs.deep_view() =~= s.logs);
            }
        },
        Command::Ready => {
            outputs.push(String::from_str("readyok"));
            proof {
                assert(outputs.deep_view() =~= s.outputs);
            }
        },
        Command::DebugToggle(enable) => {
            if enable {
                diag.set_level(VerbosityLevel::Debug);
                logs.push(
                    LogRecord {
                        level: LogLevel::Info,
                        message: String::from_str("Enabled debugging"),
                    },
                );
            } else {
                diag.set_level(VerbosityLevel::Info);
                logs.push(
                    LogRecord {
                        level: LogLevel::Info,
                        message: String::from_str("Disabled debugging"),
                    },
                );
            }
            proof {
                assert(logs.deep_view() =~= s.logs);
            }
        },
        Command::DebugUnknown(option) => {
            logs.push(
                LogRecord {
                    level: LogLevel::Error,
                    message: message("Unrecognized debug option ", option.as_str()),
                },
            );
            proof {
                assert(logs.deep_view() =~= s.logs);
            }
        },
        Command::PositionSetup(source, moves) => {
            let report = apply_position(&source, &moves, board);
            match report.result {
                Ok(_) => {
                    logs = report.logs;
                    let rendered = render_board(board);
                    outputs.push(message("Current board position: ", rendered.as_str()));
                    proof {
                        assert(outputs.deep_view() =~= s.outputs);
                    }
                },
                Err(_) => {
                    invalid_position = true;
                    logs.push(
                        LogRecord {
                            level: LogLevel::Error,
                            message: String::from_str("Invalid fen string provided!"),
                        },
                    );
                    proof {
                        assert(logs.deep_view() =~= s.logs);
                    }
                },
            }
        },
        Command::PositionUnknown(option) => {
            logs.push(
                LogRecord {
                    level: LogLevel::Error,
                    message: message("Unrecognized position option ", option.as_str()),
                },
            );
            let rendered = render_board(board);
            outputs.push(message("Current board position: ", rendered.as_str()));
            proof {
                assert(logs.deep_view() =~= s.logs);
                assert(outputs.deep_view() =~= s.outputs);
            }
        },
        Command::Quit => {
            quit = true;
        },
        Command::Unrecognized(text) => {
            logs.push(
                LogRecord {
                    level: LogLevel::Info,
                    message: message("Received input: ", text.as_str()),
                },
            );
            proof {
                assert(logs.deep_view() =~= s.logs);
            }
        },
    }
    DispatchOutcome { quit, outputs, logs, invalid_position }
}

/// Termination is signalled by the `quit` directive and by nothing else.
pub proof fn lemma_quit_terminates(line: Seq<char>, fen: Seq<char>, level: VerbosityLevel)
    ensures
        spec_step(line, fen, level).quit <==> spec_parse(line) is Quit,
{
}

/// The readiness handshake emits exactly `readyok` and changes nothing:
/// no board movement, no log record, no verbosity change.
pub proof fn lemma_ready_is_pure(line: Seq<char>, fen: Seq<char>, level: VerbosityLevel)
    requires
        spec_parse(line) is Ready,
    ensures
        spec_step(line, fen, level).outputs == seq!["readyok"@],
        spec_step(line, fen, level).logs == Seq::<LogRecordV>::empty(),
        spec_step(line, fen, level).fen == fen,
        spec_step(line, fen, level).level == level,
        !spec_step(line, fen, level).quit,
{
}

/// An unrecognized first token never yields an error-level record and
/// never alters the board.
pub proof fn lemma_unrecognized_harmless(line: Seq<char>, fen: Seq<char>, level: VerbosityLevel)
    requires
        spec_parse(line) is Unrecognized,
    ensures
        spec_step(line, fen, level).fen == fen,
        spec_step(line, fen, level).level == level,
        forall|i: int|
            0 <= i < spec_step(line, fen, level).logs.len() ==> !(#[trigger] spec_step(
                line,
                fen,
                level,
            ).logs[i].level is Error),
{
}

/// An encoded position string that does not parse is reported as invalid
/// and leaves the board exactly as it stood before the line, whatever
/// move list follows it.
pub proof fn lemma_invalid_position_preserves(
    line: Seq<char>,
    source: crate::command::SourceV,
    moves: Seq<Seq<char>>,
    fen: Seq<char>,
    level: VerbosityLevel,
)
    requires
        spec_parse(line) == (CommandV::PositionSetup { source, moves }),
        spec_source_rejected(source),
    ensures
        spec_step(line, fen, level).fen == fen,
        spec_step(line, fen, level).invalid_position,
        spec_step(line, fen, level).outputs == Seq::<Seq<char>>::empty(),
        spec_step(line, fen, level).logs == seq![
            LogRecordV { level: LogLevel::Error, message: "Invalid fen string provided!"@ },
        ],
{
}

/// Turning debugging on admits the debug records that informational
/// filtering suppressed; turning it off restores informational-only
/// filtering.
pub proof fn lemma_debug_toggle(
    on_line: Seq<char>,
    off_line: Seq<char>,
    fen: Seq<char>,
    level: VerbosityLevel,
)
    requires
        spec_parse(on_line) == (CommandV::DebugToggle { enable: true }),
        spec_parse(off_line) == (CommandV::DebugToggle { enable: false }),
    ensures
        spec_step(on_line, fen, level).level is Debug,
        spec_admits(spec_step(on_line, fen, level).level, LogLevel::Debug),
        !spec_admits(VerbosityLevel::Info, LogLevel::Debug),
        spec_step(off_line, fen, spec_step(on_line, fen, level).level).level is Info,
        !spec_admits(spec_step(off_line, fen, spec_step(on_line, fen, level).level).level,
            LogLevel::Debug),
        spec_admits(spec_step(off_line, fen, spec_step(on_line, fen, level).level).level,
            LogLevel::Info),
{
}

} // verus!

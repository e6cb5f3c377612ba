use std::str::FromStr;

use uci_front::board::{initial_board, render_board};
use uci_front::diag::{DiagnosticsController, LogLevel, VerbosityLevel};
use uci_front::dispatch::dispatch;

fn start_text() -> String {
    format!("{}", chess::Board::default())
}

fn apply(board: chess::Board, san: &str) -> chess::Board {
    let m = chess::ChessMove::from_san(&board, san).expect("legal move");
    board.make_move_new(m)
}

#[test]
fn isready_replies_readyok_and_touches_nothing() {
    let mut board = initial_board();
    let mut diag = DiagnosticsController::new();
    let before = render_board(&board);
    let r = dispatch("isready", &mut board, &mut diag);
    assert_eq!(r.outputs.len(), 1);
    assert_eq!(r.outputs[0], "readyok");
    assert!(r.logs.is_empty());
    assert!(!r.quit);
    assert!(!r.invalid_position);
    assert_eq!(render_board(&board), before);
    assert_eq!(diag.level, VerbosityLevel::Info);
}

#[test]
fn debug_on_raises_verbosity_and_off_restores_it() {
    let mut board = initial_board();
    let mut diag = DiagnosticsController::new();
    assert!(!diag.admits(LogLevel::Debug));
    assert!(diag.admits(LogLevel::Info));

    let r = dispatch("debug on", &mut board, &mut diag);
    assert_eq!(diag.level, VerbosityLevel::Debug);
    assert!(diag.admits(LogLevel::Debug));
    assert_eq!(r.logs.len(), 1);
    assert_eq!(r.logs[0].level, LogLevel::Info);
    assert_eq!(r.logs[0].message, "Enabled debugging");
    assert!(r.outputs.is_empty());

    let r = dispatch("debug off", &mut board, &mut diag);
    assert_eq!(diag.level, VerbosityLevel::Info);
    assert!(!diag.admits(LogLevel::Debug));
    assert!(diag.admits(LogLevel::Info));
    assert_eq!(r.logs[0].message, "Disabled debugging");
}

#[test]
fn debug_unknown_option_logs_error_and_keeps_verbosity() {
    let mut board = initial_board();
    let mut diag = DiagnosticsController::new();
    let r = dispatch("debug loud", &mut board, &mut diag);
    assert_eq!(diag.level, VerbosityLevel::Info);
    assert_eq!(r.logs.len(), 1);
    assert_eq!(r.logs[0].level, LogLevel::Error);
    assert_eq!(r.logs[0].message, "Unrecognized debug option loud");
    assert!(r.outputs.is_empty());
}

#[test]
fn position_startpos_applies_moves_in_order() {
    let mut board = initial_board();
    let mut diag = DiagnosticsController::new();
    let r = dispatch("position startpos moves e2e4 e7e5", &mut board, &mut diag);
    let expected = apply(apply(chess::Board::default(), "e2e4"), "e7e5");
    assert_eq!(render_board(&board), format!("{}", expected));
    assert!(r.logs.is_empty());
    assert_eq!(r.outputs.len(), 1);
    assert_eq!(r.outputs[0], format!("Current board position: {}", expected));
    assert!(!r.quit);
    assert!(!r.invalid_position);
}

#[test]
fn position_fen_parses_then_applies_moves() {
    let mut board = initial_board();
    let mut diag = DiagnosticsController::new();
    let fen = "rnbqkbnr/pppppppp/8/8/4P3/8/PPPP1PPP/RNBQKBNR b KQkq - 0 1";
    let line = format!("position fen {} moves e7e5", fen);
    let r = dispatch(line.as_str(), &mut board, &mut diag);
    let expected = apply(chess::Board::from_str(fen).expect("valid fen"), "e7e5");
    assert_eq!(render_board(&board), format!("{}", expected));
    assert!(r.logs.is_empty());
    assert_eq!(r.outputs[0], format!("Current board position: {}", expected));
}

#[test]
fn illegal_move_is_logged_and_skipped_but_rest_still_applies() {
    let mut board = initial_board();
    let mut diag = DiagnosticsController::new();
    let r = dispatch("position startpos moves e2e4 ZZ e7e5", &mut board, &mut diag);
    let expected = apply(apply(chess::Board::default(), "e2e4"), "e7e5");
    assert_eq!(render_board(&board), format!("{}", expected));
    assert_eq!(r.logs.len(), 1);
    assert_eq!(r.logs[0].level, LogLevel::Error);
    assert_eq!(
        r.logs[0].message,
        "There was an error while attempting to make the chess move: ZZ"
    );
    assert!(!r.invalid_position);
}

#[test]
fn malformed_fen_is_reported_and_board_is_untouched() {
    let mut board = initial_board();
    let mut diag = DiagnosticsController::new();
    dispatch("position startpos moves e2e4", &mut board, &mut diag);
    let before = render_board(&board);
    let r = dispatch("position fen not a position at all", &mut board, &mut diag);
    assert!(r.invalid_position);
    assert_eq!(render_board(&board), before);
    assert_eq!(r.logs.len(), 1);
    assert_eq!(r.logs[0].level, LogLevel::Error);
    assert_eq!(r.logs[0].message, "Invalid fen string provided!");
    assert!(r.outputs.is_empty());
}

#[test]
fn quit_signals_termination_and_nothing_else() {
    let mut board = initial_board();
    let mut diag = DiagnosticsController::new();
    let before = render_board(&board);
    let r = dispatch("quit", &mut board, &mut diag);
    assert!(r.quit);
    assert!(r.outputs.is_empty());
    assert!(r.logs.is_empty());
    assert_eq!(render_board(&board), before);
}

#[test]
fn other_commands_do_not_signal_termination() {
    let mut board = initial_board();
    let mut diag = DiagnosticsController::new();
    assert!(!dispatch("isready", &mut board, &mut diag).quit);
    assert!(!dispatch("debug on", &mut board, &mut diag).quit);
    assert!(!dispatch("position startpos", &mut board, &mut diag).quit);
    assert!(!dispatch("hello", &mut board, &mut diag).quit);
    assert!(!dispatch("", &mut board, &mut diag).quit);
}

#[test]
fn unrecognized_input_logs_info_and_leaves_board_alone() {
    let mut board = initial_board();
    let mut diag = DiagnosticsController::new();
    let before = render_board(&board);
    let r = dispatch("  ucinewgame   now ", &mut board, &mut diag);
    assert_eq!(render_board(&board), before);
    assert_eq!(r.logs.len(), 1);
    assert_eq!(r.logs[0].level, LogLevel::Info);
    assert_eq!(r.logs[0].message, "Received input: ucinewgame   now");
    assert!(r.outputs.is_empty());
    assert!(!r.quit);
}

#[test]
fn empty_line_is_a_warned_no_op() {
    let mut board = initial_board();
    let mut diag = DiagnosticsController::new();
    let before = render_board(&board);
    let r = dispatch("   ", &mut board, &mut diag);
    assert_eq!(render_board(&board), before);
    assert_eq!(r.logs.len(), 1);
    assert_eq!(r.logs[0].level, LogLevel::Warn);
    assert!(r.outputs.is_empty());
    assert!(!r.quit);
}

#[test]
fn position_unknown_option_logs_error_and_prints_unchanged_board() {
    let mut board = initial_board();
    let mut diag = DiagnosticsController::new();
    let r = dispatch("position sideways", &mut board, &mut diag);
    assert_eq!(r.logs.len(), 1);
    assert_eq!(r.logs[0].level, LogLevel::Error);
    assert_eq!(r.logs[0].message, "Unrecognized position option sideways");
    assert_eq!(r.outputs.len(), 1);
    assert_eq!(r.outputs[0], format!("Current board position: {}", start_text()));
}

#[test]
fn sentinel_moves_token_is_skipped_not_applied() {
    let mut board = initial_board();
    let mut diag = DiagnosticsController::new();
    let r = dispatch("position startpos moves moves e2e4", &mut board, &mut diag);
    let expected = apply(chess::Board::default(), "e2e4");
    assert_eq!(render_board(&board), format!("{}", expected));
    assert!(r.logs.is_empty());
}

#[test]
fn initial_board_is_the_standard_start_position() {
    let board = initial_board();
    assert_eq!(render_board(&board), start_text());
    assert_eq!(
        render_board(&board),
        "rnbqkbnr/pppppppp/8/8/8/8/PPPPPPPP/RNBQKBNR w KQkq - 0 1"
    );
}

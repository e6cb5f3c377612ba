use std::str::FromStr;

use uci_front::apply::{apply_position, do_moves, PositionError};
use uci_front::command::{parse_command, Command, PositionSource};
use uci_front::tokens::{str_eq, tokenize, trim};

#[test]
fn tokenize_collapses_whitespace_runs() {
    let toks = tokenize("  one \t two\r\n  three ");
    assert_eq!(toks, vec!["one", "two", "three"]);
}

#[test]
fn tokenize_of_blank_line_is_empty() {
    assert!(tokenize("").is_empty());
    assert!(tokenize(" \t ").is_empty());
}

#[test]
fn trim_strips_both_ends_only() {
    assert_eq!(trim("  a  b  "), "a  b");
    assert_eq!(trim("ab"), "ab");
    assert_eq!(trim("   "), "");
}

#[test]
fn str_eq_compares_by_characters() {
    assert!(str_eq("moves", "moves"));
    assert!(!str_eq("moves", "move"));
    assert!(!str_eq("", "x"));
    assert!(str_eq("", ""));
}

#[test]
fn parse_recognizes_each_directive() {
    assert!(matches!(parse_command("isready"), Command::Ready));
    assert!(matches!(parse_command("quit"), Command::Quit));
    assert!(matches!(parse_command(""), Command::Empty));
    assert!(matches!(parse_command("debug on"), Command::DebugToggle(true)));
    assert!(matches!(parse_command("debug off"), Command::DebugToggle(false)));
    match parse_command("debug hard") {
        Command::DebugUnknown(opt) => assert_eq!(opt, "hard"),
        _ => panic!("expected an unknown debug option"),
    }
    match parse_command("go wild") {
        Command::Unrecognized(line) => assert_eq!(line, "go wild"),
        _ => panic!("expected an unrecognized command"),
    }
}

#[test]
fn parse_position_fen_rejoins_fields_and_splits_moves() {
    match parse_command("position fen 8/8/8/8/8/8/8/K6k w - - 0 1 moves a1a2 a2a3") {
        Command::PositionSetup(PositionSource::Encoded(fen), moves) => {
            assert_eq!(fen, "8/8/8/8/8/8/8/K6k w - - 0 1");
            assert_eq!(moves, vec!["a1a2", "a2a3"]);
        },
        _ => panic!("expected an encoded position setup"),
    }
}

#[test]
fn parse_position_fen_without_sentinel_takes_all_fields() {
    match parse_command("position fen 8/8/8/8/8/8/8/K6k w - - 0 1") {
        Command::PositionSetup(PositionSource::Encoded(fen), moves) => {
            assert_eq!(fen, "8/8/8/8/8/8/8/K6k w - - 0 1");
            assert!(moves.is_empty());
        },
        _ => panic!("expected an encoded position setup"),
    }
}

#[test]
fn parse_position_startpos_keeps_trailing_tokens_as_moves() {
    match parse_command("position startpos moves e2e4") {
        Command::PositionSetup(PositionSource::StartPos, moves) => {
            assert_eq!(moves, vec!["moves", "e2e4"]);
        },
        _ => panic!("expected a startpos setup"),
    }
}

#[test]
fn apply_position_reports_invalid_encodings() {
    let mut board = chess::Board::default();
    let before = format!("{}", board);
    let source = PositionSource::Encoded(String::from("only/half a fen"));
    let report = apply_position(&source, &Vec::new(), &mut board);
    assert_eq!(report.result, Err(PositionError::InvalidPosition));
    assert!(report.logs.is_empty());
    assert_eq!(format!("{}", board), before);
}

#[test]
fn apply_position_startpos_resets_then_applies() {
    let fen = "rnbqkbnr/pppppppp/8/8/4P3/8/PPPP1PPP/RNBQKBNR b KQkq - 0 1";
    let mut board = chess::Board::from_str(fen).expect("valid fen");
    let source = PositionSource::StartPos;
    let moves = vec![String::from("d2d4")];
    let report = apply_position(&source, &moves, &mut board);
    assert_eq!(report.result, Ok(()));
    assert!(report.logs.is_empty());
    let expected = {
        let b = chess::Board::default();
        let m = chess::ChessMove::from_san(&b, "d2d4").expect("legal move");
        b.make_move_new(m)
    };
    assert_eq!(format!("{}", board), format!("{}", expected));
}

#[test]
fn do_moves_keeps_earlier_moves_when_a_later_one_fails() {
    let mut board = chess::Board::default();
    let moves = vec![
        String::from("e2e4"),
        String::from("e7e5"),
        String::from("Qh7"),
    ];
    let logs = do_moves(&mut board, &moves);
    assert_eq!(logs.len(), 1);
    assert_eq!(
        logs[0].message,
        "There was an error while attempting to make the chess move: Qh7"
    );
    let expected = {
        let b = chess::Board::default();
        let m = chess::ChessMove::from_san(&b, "e2e4").expect("legal move");
        let b = b.make_move_new(m);
        let m = chess::ChessMove::from_san(&b, "e7e5").expect("legal move");
        b.make_move_new(m)
    };
    assert_eq!(format!("{}", board), format!("{}", expected));
}

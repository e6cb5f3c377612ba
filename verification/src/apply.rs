//! The position/move applier: rebuilds the board from a position source,
//! then applies the trailing move list in strict order.  A token that is
//! the literal `moves` sentinel is skipped; a token that fails to parse or
//! names an illegal move is logged and skipped, and the rest of the list
//! is still applied.

use vstd::prelude::*;
use vstd::string::*;
use crate::board::{
    board_apply_san, board_default, board_fen, board_from_fen, spec_parse_fen, spec_san_apply,
    start_fen,
};
use crate::command::{PositionSource, SourceV};
use crate::diag::{LogLevel, LogRecord, LogRecordV};
use crate::tokens::str_eq;

verus! {

/// The position reached by applying `moves` in order to the position
/// encoded by `fen`.  The sentinel `moves` is skipped, and a token that
/// cannot be applied leaves the position as it was, the rest of the list
/// still applying.
pub open spec fn spec_apply_moves(fen: Seq<char>, moves: Seq<Seq<char>>) -> Seq<char>
    decreases moves.len(),
{
    if moves.len() == 0 {
        fen
    } else if moves[0] == "moves"@ {
        spec_apply_moves(fen, moves.drop_first())
    } else {
        match spec_san_apply(fen, moves[0]) {
            Some(next) => spec_apply_moves(next, moves.drop_first()),
            None => spec_apply_moves(fen, moves.drop_first()),
        }
    }
}

/// The message logged for a move token that could not be applied.
pub open spec fn illegal_move_message(m: Seq<char>) -> Seq<char> {
    "There was an error while attempting to make the chess move: "@ + m
}

/// The error records emitted while applying `moves` to `fen`: one per
/// failing token, in list order.
pub open spec fn spec_move_logs(fen: Seq<char>, moves: Seq<Seq<char>>) -> Seq<LogRecordV>
    decreases moves.len(),
{
    if moves.len() == 0 {
        Seq::empty()
    } else if moves[0] == "moves"@ {
        spec_move_logs(fen, moves.drop_first())
    } else {
        match spec_san_apply(fen, moves[0]) {
            Some(next) => spec_move_logs(next, moves.drop_first()),
            None => seq![
                LogRecordV { level: LogLevel::Error, message: illegal_move_message(moves[0]) },
            ] + spec_move_logs(fen, moves.drop_first()),
        }
    }
}

/// Applies a move list to the board in strict order, logging each token
/// that fails and continuing with the remaining tokens.
pub fn do_moves(board: &mut chess::Board, moves: &Vec<String>) -> (logs: Vec<LogRecord>)
    ensures
        board_fen(*final(board)) == spec_apply_moves(board_fen(*old(board)), moves.deep_view()),
        logs.deep_view() == spec_move_logs(board_fen(*old(board)), moves.deep_view()),
{
    let ghost all = moves.deep_view();
    let ghost fen0 = board_fen(*board);
    let mut logs: Vec<LogRecord> = Vec::new();
    let mut i: usize = 0;
    proof {
        assert(all.subrange(0, all.len() as int) =~= all);
        assert(logs.deep_view() =~= Seq::<LogRecordV>::empty());
    }
    while i < moves.len()
        invariant
            all == moves.deep_view(),
            i <= moves.len(),
            spec_apply_moves(fen0, all) == spec_apply_moves(
                board_fen(*board),
                all.subrange(i as int, all.len() as int),
            ),
            spec_move_logs(fen0, all) == logs.deep_view() + spec_move_logs(
                board_fen(*board),
                all.subrange(i as int, all.len() as int),
            ),
        decreases moves.len() - i,
    {
        let ghost rest = all.subrange(i as int, all.len() as int);
        proof {
            assert(rest[0] == all[i as int]);
            assert(rest.drop_first() =~= all.subrange(i as int + 1, all.len() as int));
        }
        if str_eq(moves[i].as_str(), "moves") {
            // the sentinel separates; it is no move
        } else {
            match board_apply_san(&*board, moves[i].as_str()) {
                Some(nb) => {
                    *board = nb;
                },
                None => {
                    let mut msg = String::from_str(
                        "There was an error while attempting to make the chess move: ",
                    );
                    msg.append(moves[i].as_str());
                    let ghost old_logs = logs.deep_view();
                    let ghost entry = LogRecordV {
                        level: LogLevel::Error,
                        message: illegal_move_message(all[i as int]),
                    };
                    logs.push(LogRecord { level: LogLevel::Error, message: msg });
                    proof {
                        assert(logs.deep_view() =~= old_logs.push(entry));
                        assert(old_logs.push(entry) + spec_move_logs(board_fen(*board), rest.drop_first())
                            =~= old_logs + (seq![entry] + spec_move_logs(
                            board_fen(*board),
                            rest.drop_first(),
                        )));
                    }
                },
            }
        }
        i = i + 1;
    }
    proof {
        assert(all.subrange(all.len() as int, all.len() as int) =~= Seq::<Seq<char>>::empty());
        assert(logs.deep_view() + Seq::<LogRecordV>::empty() =~= logs.deep_view());
    }
    logs
}

/// Why a position directive failed.
#[derive(Clone, Copy, PartialEq, Eq, Debug, Structural)]
pub enum PositionError {
    InvalidPosition,
}

/// What a completed position directive hands back: whether the source was
/// accepted, and the records logged for moves that failed.
pub struct ApplyReport {
    pub result: Result<(), PositionError>,
    pub logs: Vec<LogRecord>,
}

/// The position a completed position directive leaves the board in, given
/// the position `fen0` it held before.
pub open spec fn spec_position_result(
    source: SourceV,
    moves: Seq<Seq<char>>,
    fen0: Seq<char>,
) -> Seq<char> {
    match source {
        SourceV::StartPos => spec_apply_moves(start_fen(), moves),
        SourceV::Encoded(s) => match spec_parse_fen(s) {
            Some(f) => spec_apply_moves(f, moves),
            None => fen0,
        },
    }
}

/// The error records a completed position directive emits for its moves.
pub open spec fn spec_position_logs(source: SourceV, moves: Seq<Seq<char>>) -> Seq<LogRecordV> {
    match source {
        SourceV::StartPos => spec_move_logs(start_fen(), moves),
        SourceV::Encoded(s) => match spec_parse_fen(s) {
            Some(f) => spec_move_logs(f, moves),
            None => Seq::empty(),
        },
    }
}

/// Whether a position source is rejected: an encoded string that does not
/// parse.  The start position is never rejected.
pub open spec fn spec_source_rejected(source: SourceV) -> bool {
    match source {
        SourceV::StartPos => false,
        SourceV::Encoded(s) => spec_parse_fen(s) is None,
    }
}

/// Rebuilds the board from `source`, then applies `moves` in order.  An
/// encoded string that does not parse is reported and leaves the board
/// exactly as it was; a failing move is logged and skipped.
pub fn apply_position(source: &PositionSource, moves: &Vec<String>, board: &mut chess::Board) -> (r:
    ApplyReport)
    ensures
        board_fen(*final(board)) == spec_position_result(
            source@,
            moves.deep_view(),
            board_fen(*old(board)),
        ),
        r.logs.deep_view() == spec_position_logs(source@, moves.deep_view()),
        r.result is Ok <==> !spec_source_rejected(source@),
        spec_source_rejected(source@) ==> *final(board) == *old(board),
{
    match source {
        PositionSource::StartPos => {
            *board = board_default();
            let logs = do_moves(board, moves);
            ApplyReport { result: Ok(()), logs }
        },
        PositionSource::Encoded(s) => match board_from_fen(s.as_str()) {
            Some(b) => {
                *board = b;
                let logs = do_moves(board, moves);
                ApplyReport { result: Ok(()), logs }
            },
            None => {
                let logs: Vec<LogRecord> = Vec::new();
                proof {
                    assert(logs.deep_view() =~= Seq::<LogRecordV>::empty());
                }
                ApplyReport { result: Err(PositionError::InvalidPosition), logs }
            },
        },
    }
}

/// A move token that cannot be applied is logged and skipped: the rest of
/// the list still applies, to the position the bad token left unchanged.
pub proof fn lemma_bad_move_continues(fen: Seq<char>, m: Seq<char>, rest: Seq<Seq<char>>)
    requires
        m != "moves"@,
        spec_san_apply(fen, m) is None,
    ensures
        spec_apply_moves(fen, seq![m] + rest) == spec_apply_moves(fen, rest),
        spec_move_logs(fen, seq![m] + rest) == seq![
            LogRecordV { level: LogLevel::Error, message: illegal_move_message(m) },
        ] + spec_move_logs(fen, rest),
{
    assert((seq![m] + rest)[0] == m);
    assert((seq![m] + rest).drop_first() =~= rest);
}

/// Moves apply strictly in order: the head move first, the rest of the
/// list on the position that move produced.
pub proof fn lemma_moves_in_order(fen: Seq<char>, m: Seq<char>, next: Seq<char>, rest: Seq<Seq<char>>)
    requires
        m != "moves"@,
        spec_san_apply(fen, m) == Some(next),
    ensures
        spec_apply_moves(fen, seq![m] + rest) == spec_apply_moves(next, rest),
{
    assert((seq![m] + rest)[0] == m);
    assert((seq![m] + rest).drop_first() =~= rest);
}

/// The literal `moves` token is a separator: it is never applied as a move
/// and is never logged.
pub proof fn lemma_sentinel_skipped(fen: Seq<char>, rest: Seq<Seq<char>>)
    ensures
        spec_apply_moves(fen, seq!["moves"@] + rest) == spec_apply_moves(fen, rest),
        spec_move_logs(fen, seq!["moves"@] + rest) == spec_move_logs(fen, rest),
{
    assert((seq!["moves"@] + rest)[0] == "moves"@);
    assert((seq!["moves"@] + rest).drop_first() =~= rest);
}

} // verus!

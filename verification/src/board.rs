//! The rules-engine collaborator: the `chess` crate owns true board
//! semantics (default position, parsing an encoded position string,
//! resolving and applying move notation, rendering).  Each operation the
//! front-end needs is reached through one trusted wrapper here, specified
//! over the board's textual encoding.

use vstd::prelude::*;

verus! {

#[verifier::external_type_specification]
#[verifier::external_body]
pub struct ExBoard(chess::Board);

/// The textual (FEN) rendering of a board.  It carries the whole of what
/// the collaborator stores of a position, so the contracts below speak of
/// a board only through it.
pub uninterp spec fn board_fen(b: chess::Board) -> Seq<char>;

/// What FEN parsing makes of an encoded position string: `None` when the
/// string is rejected, else the rendering of the board it parses to.
pub uninterp spec fn spec_parse_fen(s: Seq<char>) -> Option<Seq<char>>;

/// What resolving move text against a position and applying it yields:
/// `None` when the text does not parse or names no legal move, else the
/// rendering of the position after the move.
pub uninterp spec fn spec_san_apply(fen: Seq<char>, san: Seq<char>) -> Option<Seq<char>>;

/// The encoding of the standard start position.
pub open spec fn start_fen() -> Seq<char> {
    "rnbqkbnr/pppppppp/8/8/8/8/PPPPPPPP/RNBQKBNR w KQkq - 0 1"@
}

/// Relies on `chess::Board::default`: it builds the standard start
/// position, and the crate's rendering of that board is the canonical
/// start encoding (its `Display` always ends with the counters `0 1`).
#[verifier::external_body]
pub(crate) fn board_default() -> (b: chess::Board)
    ensures
        board_fen(b) == start_fen(),
{
    chess::Board::default()
}

/// Relies on `chess::Board::from_str` (FEN parsing): whether a string
/// parses, and the board it parses to, depend on the string alone.
#[verifier::external_body]
pub(crate) fn board_from_fen(s: &str) -> (r: Option<chess::Board>)
    ensures
        r is Some <==> spec_parse_fen(s@) is Some,
        r matches Some(b) ==> spec_parse_fen(s@) == Some(board_fen(b)),
{
    match <chess::Board as core::str::FromStr>::from_str(s) {
        Ok(b) => Some(b),
        Err(_) => None,
    }
}

/// Relies on `chess::ChessMove::from_san` and `chess::Board::make_move_new`:
/// `from_san` resolves move text against the given position and returns
/// only a move drawn from that position's legal moves, on which
/// `make_move_new` cannot panic; both depend on the position and the text
/// alone.
#[verifier::external_body]
pub(crate) fn board_apply_san(b: &chess::Board, san: &str) -> (r: Option<chess::Board>)
    ensures
        r is Some <==> spec_san_apply(board_fen(*b), san@) is Some,
        r matches Some(nb) ==> spec_san_apply(board_fen(*b), san@) == Some(board_fen(nb)),
{
    match chess::ChessMove::from_san(b, san) {
        Ok(m) => Some(b.make_move_new(m)),
        Err(_) => None,
    }
}

/// Relies on `chess::Board`'s `Display`: the rendering is the position's
/// FEN encoding and depends on the board alone.
#[verifier::external_body]
pub(crate) fn board_render(b: &chess::Board) -> (r: String)
    ensures
        r@ == board_fen(*b),
{
    format!("{}", b)
}

/// The board every session starts from: the collaborator's default
/// position.
pub fn initial_board() -> (b: chess::Board)
    ensures
        board_fen(b) == start_fen(),
{
    board_default()
}

/// Renders a board as its textual encoding.
pub fn render_board(b: &chess::Board) -> (r: String)
    ensures
        r@ == board_fen(*b),
{
    board_render(b)
}

} // verus!

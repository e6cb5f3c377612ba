//! Parsing one input line into a directive.  The first token selects the
//! directive; a `position fen` line rejoins the encoded-position fields
//! with single spaces up to the `moves` sentinel, and the tokens after the
//! sentinel form the move list.

use vstd::prelude::*;
use vstd::string::*;
use crate::tokens::{spec_tokenize, spec_trim, str_eq, tokenize, trim};

verus! {

/// Where a position is rebuilt from: the collaborator's default start
/// position, or an encoded position string.
pub enum PositionSource {
    StartPos,
    Encoded(String),
}

/// The mathematical value of a `PositionSource`.
pub enum SourceV {
    StartPos,
    Encoded(Seq<char>),
}

impl View for PositionSource {
    type V = SourceV;

    open spec fn view(&self) -> SourceV {
        match self {
            PositionSource::StartPos => SourceV::StartPos,
            PositionSource::Encoded(s) => SourceV::Encoded(s@),
        }
    }
}

impl DeepView for PositionSource {
    type V = SourceV;

    open spec fn deep_view(&self) -> SourceV {
        self.view()
    }
}

/// One input line, parsed.  `DebugUnknown` and `PositionUnknown` carry the
/// unrecognized sub-option (empty when the option was missing);
/// `Unrecognized` carries the whole trimmed line.
pub enum Command {
    Ready,
    DebugToggle(bool),
    DebugUnknown(String),
    PositionSetup(PositionSource, Vec<String>),
    PositionUnknown(String),
    Quit,
    Unrecognized(String),
    Empty,
}

/// The mathematical value of a `Command`.
pub enum CommandV {
    Ready,
    DebugToggle { enable: bool },
    DebugUnknown { option: Seq<char> },
    PositionSetup { source: SourceV, moves: Seq<Seq<char>> },
    PositionUnknown { option: Seq<char> },
    Quit,
    Unrecognized { line: Seq<char> },
    Empty,
}

impl View for Command {
    type V = CommandV;

    open spec fn view(&self) -> CommandV {
        match self {
            Command::Ready => CommandV::Ready,
            Command::DebugToggle(enable) => CommandV::DebugToggle { enable: *enable },
            Command::DebugUnknown(option) => CommandV::DebugUnknown { option: option@ },
            Command::PositionSetup(source, moves) => CommandV::PositionSetup {
                source: source@,
                moves: moves.deep_view(),
            },
            Command::PositionUnknown(option) => CommandV::PositionUnknown { option: option@ },
            Command::Quit => CommandV::Quit,
            Command::Unrecognized(line) => CommandV::Unrecognized { line: line@ },
            Command::Empty => CommandV::Empty,
        }
    }
}

/// The encoded-position fields of a `position fen` argument list: the
/// tokens before the first `moves` sentinel.
pub open spec fn fen_fields(toks: Seq<Seq<char>>) -> Seq<Seq<char>>
    decreases toks.len(),
{
    if toks.len() == 0 {
        Seq::empty()
    } else if toks[0] == "moves"@ {
        Seq::empty()
    } else {
        seq![toks[0]] + fen_fields(toks.drop_first())
    }
}

/// The move tokens of a `position fen` argument list: the tokens after the
/// first `moves` sentinel, or none when there is no sentinel.
pub open spec fn fen_moves(toks: Seq<Seq<char>>) -> Seq<Seq<char>>
    decreases toks.len(),
{
    if toks.len() == 0 {
        Seq::empty()
    } else if toks[0] == "moves"@ {
        toks.drop_first()
    } else {
        fen_moves(toks.drop_first())
    }
}

/// The fields rejoined with single spaces.
pub open spec fn spec_join_space(fields: Seq<Seq<char>>) -> Seq<char>
    decreases fields.len(),
{
    if fields.len() == 0 {
        Seq::empty()
    } else if fields.len() == 1 {
        fields[0]
    } else {
        spec_join_space(fields.drop_last()) + " "@ + fields.last()
    }
}

/// What one line parses to.
pub open spec fn spec_parse(line: Seq<char>) -> CommandV {
    let toks = spec_tokenize(line);
    if toks.len() == 0 {
        CommandV::Empty
    } else if toks[0] == "isready"@ {
        CommandV::Ready
    } else if toks[0] == "debug"@ {
        if toks.len() < 2 {
            CommandV::DebugUnknown { option: Seq::empty() }
        } else if toks[1] == "on"@ {
            CommandV::DebugToggle { enable: true }
        } else if toks[1] == "off"@ {
            CommandV::DebugToggle { enable: false }
        } else {
            CommandV::DebugUnknown { option: toks[1] }
        }
    } else if toks[0] == "position"@ {
        if toks.len() < 2 {
            CommandV::PositionUnknown { option: Seq::empty() }
        } else if toks[1] == "startpos"@ {
            CommandV::PositionSetup {
                source: SourceV::StartPos,
                moves: toks.subrange(2, toks.len() as int),
            }
        } else if toks[1] == "fen"@ {
            CommandV::PositionSetup {
                source: SourceV::Encoded(
                    spec_join_space(fen_fields(toks.subrange(2, toks.len() as int))),
                ),
                moves: fen_moves(toks.subrange(2, toks.len() as int)),
            }
        } else {
            CommandV::PositionUnknown { option: toks[1] }
        }
    } else if toks[0] == "quit"@ {
        CommandV::Quit
    } else {
        CommandV::Unrecognized { line: spec_trim(line) }
    }
}

/// Rejoins fields with single spaces.
fn join_spaces(fields: &Vec<String>) -> (r: String)
    ensures
        r@ == spec_join_space(fields.deep_view()),
{
    let ghost all = fields.deep_view();
    let mut out = String::new();
    let mut i: usize = 0;
    while i < fields.len()
        invariant
            all == fields.deep_view(),
            i <= fields.len(),
            out@ == spec_join_space(all.subrange(0, i as int)),
        decreases fields.len() - i,
    {
        if i > 0 {
            out.append(" ");
        }
        out.append(fields[i].as_str());
        proof {
            let part = all.subrange(0, i as int + 1);
            assert(part.drop_last() =~= all.subrange(0, i as int));
            assert(part.last() == all[i as int]);
            if i == 0 {
                assert(out@ =~= spec_join_space(part));
            }
        }
        i = i + 1;
    }
    proof {
        assert(all.subrange(0, all.len() as int) =~= all);
    }
    out
}

/// Copies `toks[from..]` into a fresh move list.
fn copy_tail(toks: &Vec<String>, from: usize) -> (r: Vec<String>)
    requires
        from <= toks.len(),
    ensures
        r.deep_view() == toks.deep_view().subrange(from as int, toks.len() as int),
{
    let ghost all = toks.deep_view();
    let mut out: Vec<String> = Vec::new();
    let mut i: usize = from;
    proof {
        assert(out.deep_view() =~= all.subrange(from as int, from as int));
    }
    while i < toks.len()
        invariant
            all == toks.deep_view(),
            from <= i <= toks.len(),
            out.deep_view() == all.subrange(from as int, i as int),
        decreases toks.len() - i,
    {
        let ghost old_dv = out.deep_view();
        out.push(toks[i].clone());
        proof {
            assert(out.deep_view() =~= old_dv.push(all[i as int]));
            assert(old_dv.push(all[i as int]) =~= all.subrange(from as int, i as int + 1));
        }
        i = i + 1;
    }
    out
}

/// Parses one input line into the directive it names.
pub fn parse_command(line: &str) -> (c: Command)
    ensures
        c@ == spec_parse(line@),
{
    let toks = tokenize(line);
    let ghost tv = toks.deep_view();
    if toks.len() == 0 {
        return Command::Empty;
    }
    if str_eq(toks[0].as_str(), "isready") {
        Command::Ready
    } else if str_eq(toks[0].as_str(), "debug") {
        if toks.len() < 2 {
            Command::DebugUnknown(String::new())
        } else if str_eq(toks[1].as_str(), "on") {
            Command::DebugToggle(true)
        } else if str_eq(toks[1].as_str(), "off") {
            Command::DebugToggle(false)
        } else {
            Command::DebugUnknown(toks[1].clone())
        }
    } else if str_eq(toks[0].as_str(), "position") {
        if toks.len() < 2 {
            Command::PositionUnknown(String::new())
        } else if str_eq(toks[1].as_str(), "startpos") {
            let moves = copy_tail(&toks, 2);
            Command::PositionSetup(PositionSource::StartPos, moves)
        } else if str_eq(toks[1].as_str(), "fen") {
            let ghost tail = tv.subrange(2, tv.len() as int);
            let mut fields: Vec<String> = Vec::new();
            let mut i: usize = 2;
            proof {
                assert(tail.subrange(0, tail.len() as int) =~= tail);
                assert(fields.deep_view() =~= Seq::<Seq<char>>::empty());
            }
            while i < toks.len() && !str_eq(toks[i].as_str(), "moves")
                invariant
                    tv == toks.deep_view(),
                    tail == tv.subrange(2, tv.len() as int),
                    2 <= i <= toks.len(),
                    fen_fields(tail) == fields.deep_view() + fen_fields(
                        tail.subrange(i as int - 2, tail.len() as int),
                    ),
                    fen_moves(tail) == fen_moves(tail.subrange(i as int - 2, tail.len() as int)),
                decreases toks.len() - i,
            {
                let ghost rest = tail.subrange(i as int - 2, tail.len() as int);
                proof {
                    assert(rest[0] == tv[i as int]);
                    assert(rest.drop_first() =~= tail.subrange(i as int - 1, tail.len() as int));
                }
                let ghost old_fields = fields.deep_view();
                fields.push(toks[i].clone());
                proof {
                    assert(fields.deep_view() =~= old_fields + seq![tv[i as int]]);
                    assert(fields.deep_view() + fen_fields(rest.drop_first()) =~= old_fields + (
                    seq![tv[i as int]] + fen_fields(rest.drop_first())));
                }
                i = i + 1;
            }
            let encoded = join_spaces(&fields);
            let moves: Vec<String> = if i < toks.len() {
                copy_tail(&toks, i + 1)
            } else {
                Vec::new()
            };
            proof {
                let rest = tail.subrange(i as int - 2, tail.len() as int);
                if i < toks.len() {
                    assert(rest[0] == tv[i as int]);
                    assert(rest.drop_first() =~= tail.subrange(i as int - 1, tail.len() as int));
                    assert(rest.drop_first() =~= tv.subrange(i as int + 1, tv.len() as int));
                    assert(fen_fields(rest) =~= Seq::<Seq<char>>::empty());
                } else {
                    assert(rest =~= Seq::<Seq<char>>::empty());
                    assert(moves.deep_view() =~= Seq::<Seq<char>>::empty());
                }
                assert(fields.deep_view() + Seq::<Seq<char>>::empty() =~= fields.deep_view());
            }
            Command::PositionSetup(PositionSource::Encoded(encoded), moves)
        } else {
            Command::PositionUnknown(toks[1].clone())
        }
    } else if str_eq(toks[0].as_str(), "quit") {
        Command::Quit
    } else {
        Command::Unrecognized(trim(line))
    }
}

} // verus!

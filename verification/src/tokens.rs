//! Splitting a command line into whitespace-delimited tokens, and trimming
//! a line's surrounding blanks.  Runs of whitespace collapse, and leading
//! or trailing blanks yield no token.

use vstd::prelude::*;
use vstd::string::*;

verus! {

/// ASCII whitespace: the separators protocol lines use.
pub open spec fn is_space_char(c: char) -> bool {
    c == ' ' || c == '\t' || c == '\r' || c == '\n'
}

/// Runtime test for a whitespace character.
pub fn is_space(c: char) -> (r: bool)
    ensures
        r == is_space_char(c),
{
    c == ' ' || c == '\t' || c == '\r' || c == '\n'
}

/// The tokens of `s` when the text `cur` has already been read as the
/// beginning of the current token.
pub open spec fn tok_acc(s: Seq<char>, cur: Seq<char>) -> Seq<Seq<char>>
    decreases s.len(),
{
    if s.len() == 0 {
        if cur.len() == 0 {
            Seq::empty()
        } else {
            seq![cur]
        }
    } else if is_space_char(s[0]) {
        if cur.len() == 0 {
            tok_acc(s.drop_first(), Seq::empty())
        } else {
            seq![cur] + tok_acc(s.drop_first(), Seq::empty())
        }
    } else {
        tok_acc(s.drop_first(), cur.push(s[0]))
    }
}

/// The whitespace-delimited tokens of a line: maximal runs of non-blank
/// characters, in order.
pub open spec fn spec_tokenize(s: Seq<char>) -> Seq<Seq<char>> {
    tok_acc(s, Seq::empty())
}

/// Splits a line into its whitespace-delimited tokens.
pub fn tokenize(line: &str) -> (r: Vec<String>)
    ensures
        r.deep_view() == spec_tokenize(line@),
{
    let n: usize = line.unicode_len();
    let mut out: Vec<String> = Vec::new();
    let mut i: usize = 0;
    let mut start: usize = 0;
    let mut in_tok: bool = false;
    proof {
        assert(line@.subrange(0, n as int) =~= line@);
        assert(out.deep_view() =~= Seq::<Seq<char>>::empty());
    }
    while i < n
        invariant
            n == line@.len(),
            i <= n,
            in_tok ==> start < i,
            spec_tokenize(line@) == out.deep_view() + tok_acc(
                line@.subrange(i as int, n as int),
                if in_tok {
                    line@.subrange(start as int, i as int)
                } else {
                    Seq::<char>::empty()
                },
            ),
        decreases n - i,
    {
        let ghost rest = line@.subrange(i as int, n as int);
        let ghost cur = if in_tok {
            line@.subrange(start as int, i as int)
        } else {
            Seq::<char>::empty()
        };
        let c = line.get_char(i);
        proof {
            assert(rest[0] == line@[i as int]);
            assert(rest.drop_first() =~= line@.subrange(i as int + 1, n as int));
        }
        if is_space(c) {
            if in_tok {
                let t = line.substring_char(start, i).to_owned();
                let ghost old_out = out.deep_view();
                out.push(t);
                proof {
                    assert(out.deep_view() =~= old_out + seq![cur]);
                    assert(tok_acc(rest, cur) == seq![cur] + tok_acc(
                        rest.drop_first(),
                        Seq::<char>::empty(),
                    ));
                }
                in_tok = false;
            } else {
                proof {
                    assert(tok_acc(rest, cur) == tok_acc(rest.drop_first(), Seq::<char>::empty()));
                }
            }
        } else {
            if !in_tok {
                in_tok = true;
                start = i;
                proof {
                    assert(cur.push(c) =~= line@.subrange(i as int, i as int + 1));
                    assert(tok_acc(rest, cur) == tok_acc(rest.drop_first(), cur.push(rest[0])));
                }
            } else {
                proof {
                    assert(cur.push(c) =~= line@.subrange(start as int, i as int + 1));
                    assert(tok_acc(rest, cur) == tok_acc(rest.drop_first(), cur.push(rest[0])));
                }
            }
        }
        i = i + 1;
    }
    proof {
        assert(line@.subrange(i as int, n as int) =~= Seq::<char>::empty());
    }
    if in_tok {
        let t = line.substring_char(start, n).to_owned();
        let ghost old_out = out.deep_view();
        let ghost cur = line@.subrange(start as int, n as int);
        out.push(t);
        proof {
            assert(tok_acc(Seq::<char>::empty(), cur) == seq![cur]);
            assert(out.deep_view() =~= old_out + seq![cur]);
        }
    }
    out
}

/// Character-for-character equality of two strings.
pub fn str_eq(a: &str, b: &str) -> (r: bool)
    ensures
        r == (a@ == b@),
{
    let n: usize = a.unicode_len();
    if n != b.unicode_len() {
        return false;
    }
    let mut i: usize = 0;
    while i < n
        invariant
            n == a@.len(),
            n == b@.len(),
            i <= n,
            forall|j: int| 0 <= j < i ==> a@[j] == b@[j],
        decreases n - i,
    {
        if a.get_char(i) != b.get_char(i) {
            return false;
        }
        i = i + 1;
    }
    proof {
        assert(a@ =~= b@);
    }
    true
}

/// `s` with its leading whitespace removed.
pub open spec fn drop_leading(s: Seq<char>) -> Seq<char>
    decreases s.len(),
{
    if s.len() > 0 && is_space_char(s[0]) {
        drop_leading(s.drop_first())
    } else {
        s
    }
}

/// `s` with its trailing whitespace removed.
pub open spec fn drop_trailing(s: Seq<char>) -> Seq<char>
    decreases s.len(),
{
    if s.len() > 0 && is_space_char(s[s.len() - 1]) {
        drop_trailing(s.drop_last())
    } else {
        s
    }
}

/// `s` without leading or trailing whitespace.
pub open spec fn spec_trim(s: Seq<char>) -> Seq<char> {
    drop_trailing(drop_leading(s))
}

/// Removes leading and trailing whitespace from a line.
pub fn trim(line: &str) -> (r: String)
    ensures
        r@ == spec_trim(line@),
{
    let n: usize = line.unicode_len();
    let mut a: usize = 0;
    proof {
        assert(line@.subrange(0, n as int) =~= line@);
    }
    while a < n && is_space(line.get_char(a))
        invariant
            n == line@.len(),
            a <= n,
            drop_leading(line@) == drop_leading(line@.subrange(a as int, n as int)),
        decreases n - a,
    {
        proof {
            let rest = line@.subrange(a as int, n as int);
            assert(rest[0] == line@[a as int]);
            assert(rest.drop_first() =~= line@.subrange(a as int + 1, n as int));
        }
        a = a + 1;
    }
    proof {
        let rest = line@.subrange(a as int, n as int);
        if a < n {
            assert(rest[0] == line@[a as int]);
        }
        assert(drop_leading(rest) == rest);
    }
    let mut b: usize = n;
    while b > a && is_space(line.get_char(b - 1))
        invariant
            n == line@.len(),
            a <= b <= n,
            drop_leading(line@) == line@.subrange(a as int, n as int),
            drop_trailing(line@.subrange(a as int, n as int)) == drop_trailing(
                line@.subrange(a as int, b as int),
            ),
            a < n ==> !is_space_char(line@[a as int]),
        decreases b,
    {
        proof {
            let part = line@.subrange(a as int, b as int);
            assert(part[part.len() - 1] == line@[b as int - 1]);
            assert(part.drop_last() =~= line@.subrange(a as int, b as int - 1));
        }
        b = b - 1;
    }
    proof {
        let part = line@.subrange(a as int, b as int);
        if b > a {
            assert(part[part.len() - 1] == line@[b as int - 1]);
        } else {
            assert(part.len() == 0);
        }
        assert(drop_trailing(part) == part);
    }
    line.substring_char(a, b).to_owned()
}

} // verus!

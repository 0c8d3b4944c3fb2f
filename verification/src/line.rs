//! Operator input lines: the line terminator, the exit token, and framing
//! for the wire.

use vstd::prelude::*;
use vstd::string::StringExecFns;
use vstd::string::StrSliceExecFns;

verus! {

/// The character that ends a line on the wire.
pub open spec fn line_terminator() -> char {
    '\n'
}

/// The line as the operator meant it: `line` without the line feed at its
/// end, if it has one, and without a carriage return directly before that.
/// Everything else stays, white space included.
pub open spec fn without_terminator(line: Seq<char>) -> Seq<char> {
    if line.len() > 0 && line.last() == '\n' {
        let body = line.drop_last();
        if body.len() > 0 && body.last() == '\r' {
            body.drop_last()
        } else {
            body
        }
    } else {
        line
    }
}

/// Takes the line terminator off a line as it was read.
pub fn strip_terminator(line: &str) -> (text: &str)
    ensures
        text@ == without_terminator(line@),
{
    let length: usize = line.unicode_len();
    if length > 0 && line.get_char(length - 1) == '\n' {
        assert(line@.drop_last() =~= line@.subrange(0, length - 1));
        if length > 1 && line.get_char(length - 2) == '\r' {
            assert(line@.drop_last().drop_last() =~= line@.subrange(0, length - 2));
            line.substring_char(0, length - 2)
        } else {
            line.substring_char(0, length - 1)
        }
    } else {
        line
    }
}

/// The line that ends the session when the operator types it.
pub open spec fn exit_token() -> Seq<char> {
    seq!['/', 'q', 'u', 'i', 't']
}

/// Whether `text` is the exit token, character for character.
pub fn is_exit_token(text: &str) -> (yes: bool)
    ensures
        yes == (text@ == exit_token()),
{
    let token = "/quit";
    proof {
        reveal_strlit("/quit");
        assert(token@ =~= exit_token());
    }
    let length: usize = token.unicode_len();
    if text.unicode_len() != length {
        return false;
    }
    let mut at: usize = 0;
    while at < length
        invariant
            token@ == exit_token(),
            text@.len() == token@.len(),
            length == token@.len(),
            at <= length,
            text@.subrange(0, at as int) == token@.subrange(0, at as int),
        decreases token@.len() - at,
    {
        if text.get_char(at) != token.get_char(at) {
            assert(text@[at as int] != token@[at as int]);
            return false;
        }
        assert(text@.subrange(0, at + 1) =~= text@.subrange(0, at as int).push(text@[at as int]));
        assert(token@.subrange(0, at + 1) =~= token@.subrange(0, at as int).push(
            token@[at as int],
        ));
        at += 1;
    }
    assert(text@ =~= text@.subrange(0, at as int));
    assert(token@ =~= token@.subrange(0, at as int));
    true
}

/// What goes on the wire for `text`: the text itself, then the line
/// terminator.
pub fn frame_line(text: &str) -> (framed: String)
    ensures
        framed@ == text@.push(line_terminator()),
{
    let mut framed = String::from_str(text);
    proof {
        reveal_strlit("\n");
        assert("\n"@ =~= seq![line_terminator()]);
    }
    framed.append("\n");
    assert(framed@ =~= text@.push(line_terminator()));
    framed
}

} // verus!

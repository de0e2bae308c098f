//! The text of one log record.
//!
//! Both destinations of a logger receive the same text for a message: the
//! name of the level in square brackets, one space, the message exactly as
//! the caller gave it, and a line feed.

use vstd::prelude::*;
use crate::levels::{lemma_name_injective, lemma_names_spelled, LogLevel};

verus! {

/// The text of the record for `message` at `level`.
///
/// The message is taken as it is: nothing in it is escaped or removed, so a
/// message that holds line feeds gives a record of several lines.
pub open spec fn record_line(level: LogLevel, message: Seq<char>) -> Seq<char> {
    "["@ + level.name() + "] "@ + message + "\n"@
}

/// Builds the text of the record for `message` at `level`.
pub fn format_record(level: LogLevel, message: &str) -> (line: String)
    ensures
        line@ == record_line(level, message@),
{
    let name = level.to_level_string();
    let mut line = "[".to_string();
    line.append(name.as_str());
    line.append("] ");
    line.append(message);
    line.append("\n");
    line
}

/// Whether `line` is laid out as the record for `message` at `level`.
///
/// Such a line opens with `[`, the name of the level and `] `, carries the
/// message unchanged, and closes with a single line feed; it holds nothing
/// else.
pub open spec fn is_record_of(line: Seq<char>, level: LogLevel, message: Seq<char>) -> bool {
    let n = level.name().len() as int;
    let m = message.len() as int;
    &&& line.len() == n + m + 4
    &&& line[0] == '['
    &&& line.subrange(1, 1 + n) == level.name()
    &&& line[1 + n] == ']'
    &&& line[2 + n] == ' '
    &&& line.subrange(3 + n, 3 + n + m) == message
    &&& line[3 + n + m] == '\n'
}

/// The text of a record is laid out as a record: in particular the message
/// stands in it unchanged, whatever it holds.
pub proof fn lemma_record_layout(level: LogLevel, message: Seq<char>)
    ensures
        is_record_of(record_line(level, message), level, message),
{
    reveal_strlit("[");
    reveal_strlit("] ");
    reveal_strlit("\n");
    let line = record_line(level, message);
    let n = level.name().len() as int;
    let m = message.len() as int;
    assert(line.subrange(1, 1 + n) =~= level.name());
    assert(line.subrange(3 + n, 3 + n + m) =~= message);
}

/// A line is the record of at most one level and message.
pub proof fn lemma_record_of_one_call(
    line: Seq<char>,
    level_a: LogLevel,
    message_a: Seq<char>,
    level_b: LogLevel,
    message_b: Seq<char>,
)
    requires
        is_record_of(line, level_a, message_a),
        is_record_of(line, level_b, message_b),
    ensures
        level_a == level_b,
        message_a == message_b,
{
    let na = level_a.name().len() as int;
    let nb = level_b.name().len() as int;
    lemma_names_spelled();
    // The first `]` of a record is the one that closes the name: no name
    // holds one.
    if na < nb {
        assert(line.subrange(1, 1 + nb)[na] == line[1 + na]);
    }
    if nb < na {
        assert(line.subrange(1, 1 + na)[nb] == line[1 + nb]);
    }
    assert(na == nb);
    lemma_name_injective(level_a, level_b);
}

/// A record tells which call made it: two calls give the same record exactly
/// when they have the same level and the same message.
pub proof fn lemma_record_injective(
    level_a: LogLevel,
    message_a: Seq<char>,
    level_b: LogLevel,
    message_b: Seq<char>,
)
    ensures
        record_line(level_a, message_a) == record_line(level_b, message_b) <==> (level_a
            == level_b && message_a == message_b),
{
    lemma_record_layout(level_a, message_a);
    lemma_record_layout(level_b, message_b);
    if record_line(level_a, message_a) == record_line(level_b, message_b) {
        lemma_record_of_one_call(
            record_line(level_a, message_a),
            level_a,
            message_a,
            level_b,
            message_b,
        );
    }
}

} // verus!

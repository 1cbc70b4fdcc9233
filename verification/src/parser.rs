use vstd::prelude::*;

use crate::primitives;
use crate::types::{
    spec_default_command, spec_dispatch, spec_known_code, CommandTypes, CommandTypesView, Error,
    ErrorView, TalkerIds,
};

verus! {

/// The state a line parse carries: the selected sentence type, the split
/// field strings, and the talker that produced the line.
#[derive(Debug, Clone, PartialEq)]
pub struct Parser {
    /// The sentence type selected by the type code; after a successful parse
    /// it wraps the decoded record.
    pub command_type: CommandTypes,
    /// The comma-delimited field strings of the sentence body.
    pub commands: Vec<String>,
    /// The talker that produced the line.
    pub talker_id: TalkerIds,
}

/// The checksum token of a line: everything after the last `*`, or the whole
/// line when no `*` occurs.
pub open spec fn spec_checksum_token(line: Seq<char>) -> Seq<char> {
    primitives::after_last(line, '*')
}

/// The checksum body of a line: everything between the last `$` and the
/// first `*` after it.
pub open spec fn spec_checksum_body(line: Seq<char>) -> Seq<char> {
    primitives::before_first(primitives::after_last(line, '$'), '*')
}

/// Splits the remainder `s` of a sentence into fields, `cur` being the
/// token collected so far: a comma ends a field, a `*` ends the last field
/// and everything after it is dropped, and a non-empty token left at the end
/// of the line becomes a final field.
pub open spec fn spec_split_fields(s: Seq<char>, cur: Seq<char>) -> Seq<Seq<char>>
    decreases s.len(),
{
    if s.len() == 0 {
        if cur.len() == 0 {
            Seq::empty()
        } else {
            seq![cur]
        }
    } else if s[0] == ',' {
        seq![cur] + spec_split_fields(s.drop_first(), Seq::empty())
    } else if s[0] == '*' {
        seq![cur]
    } else {
        spec_split_fields(s.drop_first(), cur.push(s[0]))
    }
}

/// The field strings of a line: the characters after the talker code, the
/// type code and its comma, split at commas up to the first `*`.
pub open spec fn spec_fields(line: Seq<char>) -> Seq<Seq<char>> {
    spec_split_fields(line.subrange(7, line.len() as int), Seq::empty())
}

/// Message reported for a line whose framing cannot be read.
pub open spec fn msg_invalid_line() -> Seq<char> {
    "Invalid line"@
}

/// Message reported when the checksum token does not read as a hex byte.
pub open spec fn msg_invalid_checksum(tok: Seq<char>) -> Seq<char> {
    "Invalid line, checksum is invalid \""@ + tok + "\""@
}

/// Message reported when the first three characters are no talker code.
pub open spec fn msg_invalid_start(tok: Seq<char>) -> Seq<char> {
    "Invalid command start \""@ + tok + "\""@
}

/// The complete result of parsing one line.  In order: the line must hold a
/// `*`; the checksum token after the last `*` must read as a hex byte; the
/// exclusive-or of the checksum body must equal it; the first three
/// characters must be a `$`-prefixed talker code; the seventh character must
/// be the comma that ends the three-letter type code; the type code, with
/// commas struck, must be registered; and the fields are then handed to that
/// type's decoder.
pub open spec fn spec_parse_line(line: Seq<char>) -> Result<CommandTypesView, ErrorView> {
    if !line.contains('*') {
        Err(ErrorView::ParseError(msg_invalid_line()))
    } else {
        spec_parse_starred_line(line)
    }
}

/// Continues [`spec_parse_line`] for a line that holds a `*`.
pub open spec fn spec_parse_starred_line(line: Seq<char>) -> Result<CommandTypesView, ErrorView> {
    match primitives::spec_parse_hex_u8(spec_checksum_token(line)) {
        None => Err(ErrorView::ParseError(msg_invalid_checksum(spec_checksum_token(line)))),
        Some(expected) => {
            let computed = primitives::xor_of(spec_checksum_body(line));
            if computed != expected {
                Err(ErrorView::ChecksumError(expected, computed))
            } else if line.len() < 3 {
                Err(ErrorView::ParseError(msg_invalid_line()))
            } else if !TalkerIds::spec_is_correct(line.subrange(0, 3)) {
                Err(ErrorView::ParseError(msg_invalid_start(line.subrange(0, 3))))
            } else if line.len() < 7 || line[6] != ',' {
                Err(ErrorView::ParseError(msg_invalid_line()))
            } else {
                let code = primitives::strip_commas(line.subrange(3, 7));
                if !spec_known_code(code) {
                    Err(ErrorView::UnknownCommand(code))
                } else {
                    spec_dispatch(spec_default_command(code), spec_fields(line))
                }
            }
        },
    }
}

/// Collects the field strings of `line` from `from` on, as
/// [`spec_split_fields`] describes.
fn collect_fields(line: &str, from: usize) -> (r: Vec<String>)
    requires
        from <= line@.len(),
    ensures
        r.deep_view() == spec_split_fields(
            line@.subrange(from as int, line@.len() as int),
            Seq::empty(),
        ),
{
    let n = line.unicode_len();
    let mut fields: Vec<String> = Vec::new();
    let mut start: usize = from;
    let mut i: usize = from;
    proof {
        assert(fields.deep_view() =~= Seq::<Seq<char>>::empty());
        assert(line@.subrange(from as int, from as int) =~= Seq::<char>::empty());
        assert(Seq::<Seq<char>>::empty() + spec_split_fields(
            line@.subrange(from as int, n as int),
            Seq::<char>::empty(),
        ) =~= spec_split_fields(line@.subrange(from as int, n as int), Seq::<char>::empty()));
    }
    while i < n
        invariant
            n == line@.len(),
            from <= start <= i <= n,
            spec_split_fields(line@.subrange(from as int, n as int), Seq::empty())
                == fields.deep_view() + spec_split_fields(
                line@.subrange(i as int, n as int),
                line@.subrange(start as int, i as int),
            ),
        decreases n - i,
    {
        let ghost rest = line@.subrange(i as int, n as int);
        let ghost cur = line@.subrange(start as int, i as int);
        proof {
            assert(rest[0] == line@[i as int]);
            assert(rest.drop_first() =~= line@.subrange((i + 1) as int, n as int));
        }
        let c = line.get_char(i);
        if c == ',' {
            let field = String::from_str(line.substring_char(start, i));
            fields.push(field);
            proof {
                assert(fields.deep_view() =~= fields.deep_view().subrange(
                    0,
                    fields.deep_view().len() - 1,
                ) + seq![cur]);
                assert(line@.subrange((i + 1) as int, (i + 1) as int) =~= Seq::<char>::empty());
                assert((fields.deep_view().subrange(0, fields.deep_view().len() - 1) + seq![cur])
                    + spec_split_fields(rest.drop_first(), Seq::empty()) =~= fields.deep_view().subrange(
                    0,
                    fields.deep_view().len() - 1,
                ) + (seq![cur] + spec_split_fields(rest.drop_first(), Seq::empty())));
            }
            start = i + 1;
        } else if c == '*' {
            let field = String::from_str(line.substring_char(start, i));
            fields.push(field);
            proof {
                assert(fields.deep_view() =~= fields.deep_view().subrange(
                    0,
                    fields.deep_view().len() - 1,
                ) + seq![cur]);
            }
            return fields;
        } else {
            proof {
                assert(cur.push(line@[i as int]) =~= line@.subrange(
                    start as int,
                    (i + 1) as int,
                ));
            }
        }
        i = i + 1;
    }
    proof {
        assert(line@.subrange(n as int, n as int) =~= Seq::<char>::empty());
    }
    if start < n {
        let field = String::from_str(line.substring_char(start, n));
        fields.push(field);
        proof {
            assert(fields.deep_view() =~= fields.deep_view().subrange(
                0,
                fields.deep_view().len() - 1,
            ) + seq![line@.subrange(start as int, n as int)]);
        }
        fields
    } else {
        proof {
            assert(line@.subrange(start as int, n as int) =~= Seq::<char>::empty());
            assert(fields.deep_view() + Seq::<Seq<char>>::empty() =~= fields.deep_view());
        }
        fields
    }
}

impl Parser {
    /// Parses one raw sentence line into a typed record or a precise error,
    /// exactly as [`spec_parse_line`] describes its character sequence.
    pub fn parse_line(line: &str) -> (r: Result<CommandTypes, Error>)
        ensures
            (match r {
                Ok(t) => spec_parse_line(line@) == Ok::<CommandTypesView, ErrorView>(t@),
                Err(e) => spec_parse_line(line@) == Err::<CommandTypesView, ErrorView>(e@),
            }),
    {
        let n = line.unicode_len();
        let checksum_str: &str = match primitives::find_last(line, '*') {
            Some(j) => {
                proof {
                    primitives::lemma_after_last_some(line@, '*', j as int);
                    assert(line@.contains('*'));
                }
                line.substring_char(j + 1, n)
            },
            None => {
                proof {
                    if line@.contains('*') {
                        let w = choose|w: int| 0 <= w < line@.len() && line@[w] == '*';
                        assert(false);
                    }
                }
                return Err(Error::ParseError(String::from_str("Invalid line")));
            },
        };
        let expected = match primitives::parse_hex_u8(checksum_str) {
            Some(v) => v,
            None => {
                let msg = String::from_str("Invalid line, checksum is invalid \"").concat(
                    checksum_str,
                ).concat("\"");
                return Err(Error::ParseError(msg));
            },
        };
        let after_dollar: &str = match primitives::find_last(line, '$') {
            Some(j) => {
                proof {
                    primitives::lemma_after_last_some(line@, '$', j as int);
                }
                line.substring_char(j + 1, n)
            },
            None => {
                proof {
                    primitives::lemma_after_last_none(line@, '$');
                }
                line
            },
        };
        let nd = after_dollar.unicode_len();
        let body: &str = match primitives::find_first_from(after_dollar, 0, '*') {
            Some(k) => {
                proof {
                    primitives::lemma_split_first(after_dollar@, '*', k as int);
                }
                after_dollar.substring_char(0, k)
            },
            None => {
                proof {
                    primitives::lemma_split_first(after_dollar@, '*', nd as int);
                    assert(after_dollar@.subrange(0, nd as int) =~= after_dollar@);
                }
                after_dollar
            },
        };
        let computed = primitives::xor_str(body);
        if computed != expected {
            return Err(Error::ChecksumError(expected, computed));
        }
        if n < 3 {
            return Err(Error::ParseError(String::from_str("Invalid line")));
        }
        let head = line.substring_char(0, 3);
        if !TalkerIds::is_correct(head) {
            let msg = String::from_str("Invalid command start \"").concat(head).concat("\"");
            return Err(Error::ParseError(msg));
        }
        let talker_id = TalkerIds::parse(head);
        if n < 7 || line.get_char(6) != ',' {
            return Err(Error::ParseError(String::from_str("Invalid line")));
        }
        let code = primitives::strip_commas_str(line.substring_char(3, 7));
        let command_type = match CommandTypes::from_str(code.as_str()) {
            Ok(t) => t,
            Err(_) => {
                return Err(Error::UnknownCommand(code));
            },
        };
        let commands = collect_fields(line, 7);
        let parser = Parser { command_type, commands, talker_id };
        parser.command_type.parse_commands(parser.commands)
    }
}

/// Parsing is a function of the line alone: two results that both satisfy
/// the contract of [`Parser::parse_line`] on the same line are images of one
/// value, so repeated parses of one line agree in every field.
pub proof fn lemma_parse_line_deterministic(
    line: Seq<char>,
    r1: Result<CommandTypesView, ErrorView>,
    r2: Result<CommandTypesView, ErrorView>,
)
    requires
        r1 == spec_parse_line(line),
        r2 == spec_parse_line(line),
    ensures
        r1 == r2,
{
}

/// A line that holds a `*` and whose checksum token reads as a hex byte that
/// differs from the exclusive-or of its checksum body is reported as exactly
/// that mismatch, before any field of the line is decoded.
pub proof fn lemma_checksum_mismatch_reported(line: Seq<char>, expected: u8)
    requires
        line.contains('*'),
        primitives::spec_parse_hex_u8(spec_checksum_token(line)) == Some(expected),
        primitives::xor_of(spec_checksum_body(line)) != expected,
    ensures
        spec_parse_line(line) == Err::<CommandTypesView, ErrorView>(
            ErrorView::ChecksumError(expected, primitives::xor_of(spec_checksum_body(line))),
        ),
{
}

/// A line that passes the checksum and framing checks but carries an
/// unregistered type code is reported as exactly that unknown code.
pub proof fn lemma_unknown_code_reported(line: Seq<char>)
    requires
        line.contains('*'),
        primitives::spec_parse_hex_u8(spec_checksum_token(line)) == Some(
            primitives::xor_of(spec_checksum_body(line)),
        ),
        line.len() >= 7,
        TalkerIds::spec_is_correct(line.subrange(0, 3)),
        line[6] == ',',
        !spec_known_code(primitives::strip_commas(line.subrange(3, 7))),
    ensures
        spec_parse_line(line) == Err::<CommandTypesView, ErrorView>(
            ErrorView::UnknownCommand(primitives::strip_commas(line.subrange(3, 7))),
        ),
{
}

/// A line that passes the checksum and framing checks and carries a
/// registered type code is decoded by exactly that type's field decoder, on
/// exactly the fields split out of the line.
pub proof fn lemma_well_formed_line_dispatched(line: Seq<char>)
    requires
        line.contains('*'),
        primitives::spec_parse_hex_u8(spec_checksum_token(line)) == Some(
            primitives::xor_of(spec_checksum_body(line)),
        ),
        line.len() >= 7,
        TalkerIds::spec_is_correct(line.subrange(0, 3)),
        line[6] == ',',
        spec_known_code(primitives::strip_commas(line.subrange(3, 7))),
    ensures
        spec_parse_line(line) == spec_dispatch(
            spec_default_command(primitives::strip_commas(line.subrange(3, 7))),
            spec_fields(line),
        ),
{
}

} // verus!

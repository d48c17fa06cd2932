//! The outbound control message and its wire form.
//!
//! A command carries a numeric correlation id (always 1 in this one-shot
//! design), the method name `Runtime.evaluate`, and parameters: the rendered
//! script as `expression` and the `userGesture` flag (always true). Its wire
//! form is the UTF-8 JSON text sent as a single websocket text frame; string
//! contents are escaped as JSON demands (quote, backslash, and control
//! characters).

use vstd::prelude::*;
use vstd::string::StringExecFns;
use crate::text::dec_digits;
use crate::text::digit_char;
use crate::text::str_to_chars;
use crate::text::u32_dec;

verus! {

/// The parameters of an evaluate command.
#[derive(Debug)]
pub struct CommandParams {
    pub expression: String,
    pub user_gesture: bool,
}

/// One remote-debugging control message.
#[derive(Debug)]
pub struct Command {
    pub id: u32,
    pub method: String,
    pub params: CommandParams,
}

/// Builds the single evaluate command of a run: id 1, method
/// `Runtime.evaluate`, the given expression, and a user gesture.
pub fn evaluate_command(expression: String) -> (c: Command)
    ensures
        c.id == 1,
        c.method@ == "Runtime.evaluate"@,
        c.params.expression == expression,
        c.params.user_gesture,
{
    Command {
        id: 1,
        method: "Runtime.evaluate".to_owned(),
        params: CommandParams { expression, user_gesture: true },
    }
}

/// The character for one hexadecimal digit (lower case).
pub open spec fn hex_char(d: nat) -> char {
    if d < 10 {
        digit_char(d)
    } else if d == 10 {
        'a'
    } else if d == 11 {
        'b'
    } else if d == 12 {
        'c'
    } else if d == 13 {
        'd'
    } else if d == 14 {
        'e'
    } else {
        'f'
    }
}

/// The JSON escape of one character: quote and backslash get a backslash,
/// control characters a `\u00XX` escape, every other character stands as
/// itself.
pub open spec fn escape_char(c: char) -> Seq<char> {
    if c == '"' {
        seq!['\\', '"']
    } else if c == '\\' {
        seq!['\\', '\\']
    } else if (c as u32) < 32 {
        seq!['\\', 'u', '0', '0', hex_char((c as u32 / 16) as nat), hex_char((c as u32 % 16) as nat)]
    } else {
        seq![c]
    }
}

/// The JSON escape of a text, character by character.
pub open spec fn escape_spec(s: Seq<char>) -> Seq<char>
    decreases s.len(),
{
    if s.len() == 0 {
        Seq::empty()
    } else {
        escape_char(s[0]) + escape_spec(s.skip(1))
    }
}

fn hex_char_of(d: u32) -> (c: char)
    requires
        d < 16,
    ensures
        c == hex_char(d as nat),
{
    if d == 0 {
        '0'
    } else if d == 1 {
        '1'
    } else if d == 2 {
        '2'
    } else if d == 3 {
        '3'
    } else if d == 4 {
        '4'
    } else if d == 5 {
        '5'
    } else if d == 6 {
        '6'
    } else if d == 7 {
        '7'
    } else if d == 8 {
        '8'
    } else if d == 9 {
        '9'
    } else if d == 10 {
        'a'
    } else if d == 11 {
        'b'
    } else if d == 12 {
        'c'
    } else if d == 13 {
        'd'
    } else if d == 14 {
        'e'
    } else {
        'f'
    }
}

fn push_escaped(out: &mut String, c: char)
    ensures
        final(out)@ == old(out)@ + escape_char(c),
{
    if c == '"' {
        out.push('\\');
        out.push('"');
        proof {
            assert(old(out)@.push('\\').push('"') =~= old(out)@ + escape_char(c));
        }
    } else if c == '\\' {
        out.push('\\');
        out.push('\\');
        proof {
            assert(old(out)@.push('\\').push('\\') =~= old(out)@ + escape_char(c));
        }
    } else if (c as u32) < 32 {
        out.push('\\');
        out.push('u');
        out.push('0');
        out.push('0');
        out.push(hex_char_of(c as u32 / 16));
        out.push(hex_char_of(c as u32 % 16));
        proof {
            assert(old(out)@.push('\\').push('u').push('0').push('0').push(
                hex_char((c as u32 / 16) as nat),
            ).push(hex_char((c as u32 % 16) as nat)) =~= old(out)@ + escape_char(c));
        }
    } else {
        out.push(c);
        proof {
            assert(old(out)@.push(c) =~= old(out)@ + escape_char(c));
        }
    }
}

/// Appends the JSON escape of `s` to `out`.
fn append_escaped(out: &mut String, s: &str)
    ensures
        final(out)@ == old(out)@ + escape_spec(s@),
{
    let cs = str_to_chars(s);
    let mut i: usize = 0;
    proof {
        assert(cs@.skip(0) =~= cs@);
        assert(old(out)@ + Seq::<char>::empty() =~= old(out)@);
    }
    while i < cs.len()
        invariant
            cs@ == s@,
            0 <= i <= cs@.len(),
            old(out)@ + escape_spec(s@) == out@ + escape_spec(cs@.skip(i as int)),
        decreases cs@.len() - i,
    {
        let ghost rest = cs@.skip(i as int);
        proof {
            assert(rest[0] == cs@[i as int]);
            assert(rest.skip(1) =~= cs@.skip(i as int + 1));
            assert((out@ + escape_char(cs@[i as int])) + escape_spec(cs@.skip(i as int + 1)) =~= out@
                + (escape_char(cs@[i as int]) + escape_spec(cs@.skip(i as int + 1))));
        }
        push_escaped(out, cs[i]);
        i += 1;
    }
    proof {
        assert(cs@.skip(cs@.len() as int) =~= Seq::<char>::empty());
        assert(out@ + Seq::<char>::empty() =~= out@);
    }
}

/// The wire text of a command: the JSON object
/// `{"id":<id>,"method":"<method>","params":{"expression":"<expression>",
/// "userGesture":<flag>}}` with both strings JSON-escaped.
pub open spec fn command_wire(
    id: nat,
    method: Seq<char>,
    expression: Seq<char>,
    user_gesture: bool,
) -> Seq<char> {
    "{\"id\":"@ + dec_digits(id) + ",\"method\":\""@ + escape_spec(method)
        + "\",\"params\":{\"expression\":\""@ + escape_spec(expression) + "\",\"userGesture\":"@
        + (if user_gesture {
        "true"@
    } else {
        "false"@
    }) + "}}"@
}

/// Serializes a command to its wire text.
pub fn encode_command(c: &Command) -> (r: String)
    ensures
        r@ == command_wire(c.id as nat, c.method@, c.params.expression@, c.params.user_gesture),
{
    let mut out = "{\"id\":".to_owned();
    let id_text = u32_dec(c.id);
    out.append(id_text.as_str());
    out.append(",\"method\":\"");
    append_escaped(&mut out, c.method.as_str());
    out.append("\",\"params\":{\"expression\":\"");
    append_escaped(&mut out, c.params.expression.as_str());
    out.append("\",\"userGesture\":");
    if c.params.user_gesture {
        out.append("true");
    } else {
        out.append("false");
    }
    out.append("}}");
    proof {
        assert(out@ =~= command_wire(
            c.id as nat,
            c.method@,
            c.params.expression@,
            c.params.user_gesture,
        ));
    }
    out
}

} // verus!

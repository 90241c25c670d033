//! The user notifier: when a turn completes, an external program named by
//! the user receives one JSON argument describing the turn. The payload's
//! wire format — kebab-case keys, JSON string escaping — is the crate's
//! own and is built verified, character by character; spawning the
//! program is the caller's job.

use vstd::prelude::*;

use crate::items::clone_string_vec;
use crate::retry_after::str_chars;

verus! {

/// The character for one hexadecimal digit value, lowercase.
pub open spec fn hex_char(d: int) -> char {
    if d == 0 {
        '0'
    } else if d == 1 {
        '1'
    } else if d == 2 {
        '2'
    } else if d == 3 {
        '3'
    } else if d == 4 {
        '4'
    } else if d == 5 {
        '5'
    } else if d == 6 {
        '6'
    } else if d == 7 {
        '7'
    } else if d == 8 {
        '8'
    } else if d == 9 {
        '9'
    } else if d == 10 {
        'a'
    } else if d == 11 {
        'b'
    } else if d == 12 {
        'c'
    } else if d == 13 {
        'd'
    } else if d == 14 {
        'e'
    } else {
        'f'
    }
}

/// How one character appears inside a JSON string: quotes and
/// backslashes escaped, the named control characters by their short
/// escapes, other control characters by their code point, everything
/// else verbatim.
pub open spec fn spec_escape_char(c: char) -> Seq<char> {
    if c == '"' {
        seq!['\\', '"']
    } else if c == '\\' {
        seq!['\\', '\\']
    } else if c == '\n' {
        seq!['\\', 'n']
    } else if c == '\r' {
        seq!['\\', 'r']
    } else if c == '\t' {
        seq!['\\', 't']
    } else if c as u32 == 8 {
        seq!['\\', 'b']
    } else if c as u32 == 12 {
        seq!['\\', 'f']
    } else if (c as u32) < 32 {
        seq!['\\', 'u', '0', '0', hex_char(((c as u32) / 16) as int), hex_char(((c as u32) % 16) as int)]
    } else {
        seq![c]
    }
}

/// The escaped body of a JSON string.
pub open spec fn spec_escape_string(s: Seq<char>) -> Seq<char>
    decreases s.len(),
{
    if s.len() == 0 {
        Seq::empty()
    } else {
        spec_escape_string(s.drop_last()) + spec_escape_char(s.last())
    }
}

/// A JSON string literal: quoted, with its body escaped.
pub open spec fn spec_json_string(s: Seq<char>) -> Seq<char> {
    seq!['"'] + spec_escape_string(s) + seq!['"']
}

/// Relies on String's FromIterator<char>: collecting characters builds
/// the string of exactly those characters, in order.
#[verifier::external_body]
fn chars_to_string(v: &Vec<char>) -> (r: String)
    ensures
        r@ == v@,
{
    v.iter().collect()
}

/// The lowercase hex digit for a value below sixteen.
fn hex_digit(d: u32) -> (r: char)
    requires
        d < 16,
    ensures
        r == hex_char(d as int),
{
    match d {
        0 => '0',
        1 => '1',
        2 => '2',
        3 => '3',
        4 => '4',
        5 => '5',
        6 => '6',
        7 => '7',
        8 => '8',
        9 => '9',
        10 => 'a',
        11 => 'b',
        12 => 'c',
        13 => 'd',
        14 => 'e',
        _ => 'f',
    }
}

/// Appends one character's JSON escape.
fn push_escaped(out: &mut Vec<char>, c: char)
    ensures
        final(out)@ == old(out)@ + spec_escape_char(c),
{
    let u = c as u32;
    if c == '"' {
        out.push('\\');
        out.push('"');
    } else if c == '\\' {
        out.push('\\');
        out.push('\\');
    } else if c == '\n' {
        out.push('\\');
        out.push('n');
    } else if c == '\r' {
        out.push('\\');
        out.push('r');
    } else if c == '\t' {
        out.push('\\');
        out.push('t');
    } else if u == 8 {
        out.push('\\');
        out.push('b');
    } else if u == 12 {
        out.push('\\');
        out.push('f');
    } else if u < 32 {
        out.push('\\');
        out.push('u');
        out.push('0');
        out.push('0');
        out.push(hex_digit(u / 16));
        out.push(hex_digit(u % 16));
    } else {
        out.push(c);
    }
    proof {
        assert(final(out)@ =~= old(out)@ + spec_escape_char(c));
    }
}

/// Appends a whole JSON string literal: quote, escaped body, quote.
#[verifier::loop_isolation(false)]
fn push_json_string(out: &mut Vec<char>, s: &str)
    ensures
        final(out)@ == old(out)@ + spec_json_string(s@),
{
    out.push('"');
    let cs = str_chars(s);
    let ghost base = out@;
    let mut i: usize = 0;
    proof {
        assert(spec_escape_string(s@.take(0)) =~= Seq::<char>::empty());
        assert(base + spec_escape_string(s@.take(0)) =~= base);
    }
    while i < cs.len()
        invariant
            i <= cs@.len(),
            out@ == base + spec_escape_string(s@.take(i as int)),
        decreases cs@.len() - i,
    {
        proof {
            assert(s@.take(i + 1 as int).drop_last() =~= s@.take(i as int));
            assert(s@.take(i + 1 as int).last() == s@[i as int]);
        }
        push_escaped(out, cs[i]);
        proof {
            assert(out@ =~= base + spec_escape_string(s@.take(i + 1 as int)));
        }
        i = i + 1;
    }
    out.push('"');
    proof {
        assert(s@.take(s@.len() as int) =~= s@);
        assert(out@ =~= old(out)@ + spec_json_string(s@));
    }
}

/// Appends every character of a literal.
#[verifier::loop_isolation(false)]
fn push_literal(out: &mut Vec<char>, s: &str)
    ensures
        final(out)@ == old(out)@ + s@,
{
    let cs = str_chars(s);
    let ghost base = out@;
    let mut i: usize = 0;
    proof {
        assert(base + s@.take(0) =~= base);
    }
    while i < cs.len()
        invariant
            i <= cs@.len(),
            out@ == base + s@.take(i as int),
        decreases cs@.len() - i,
    {
        out.push(cs[i]);
        proof {
            assert(base + s@.take(i + 1 as int) =~= (base + s@.take(i as int)).push(s@[i as int]));
        }
        i = i + 1;
    }
    proof {
        assert(s@.take(s@.len() as int) =~= s@);
    }
}

/// A notification handed to the user's program.
#[derive(Debug, PartialEq, Eq)]
pub enum UserNotification {
    AgentTurnComplete {
        thread_id: String,
        turn_id: String,
        cwd: String,
        input_messages: Vec<String>,
        last_assistant_message: Option<String>,
    },
}

/// The JSON array of the turn's input messages.
pub open spec fn spec_messages_json(messages: Seq<String>) -> Seq<char>
    decreases messages.len(),
{
    if messages.len() == 0 {
        Seq::empty()
    } else if messages.len() == 1 {
        spec_json_string(messages.last()@)
    } else {
        spec_messages_json(messages.drop_last()) + seq![','] + spec_json_string(messages.last()@)
    }
}

/// The notification's JSON payload, kebab-case keys and all.
pub open spec fn spec_notification_json(n: UserNotification) -> Seq<char> {
    match n {
        UserNotification::AgentTurnComplete {
            thread_id,
            turn_id,
            cwd,
            input_messages,
            last_assistant_message,
        } => "{\"type\":\"agent-turn-complete\",\"thread-id\":"@ + spec_json_string(thread_id@)
            + ",\"turn-id\":"@ + spec_json_string(turn_id@) + ",\"cwd\":"@ + spec_json_string(cwd@)
            + ",\"input-messages\":["@ + spec_messages_json(input_messages@)
            + "],\"last-assistant-message\":"@ + (match last_assistant_message {
            Some(m) => spec_json_string(m@),
            None => "null"@,
        }) + "}"@,
    }
}

impl UserNotification {
    /// Renders the notification as the JSON argument the program
    /// receives.
    #[verifier::loop_isolation(false)]
    pub fn to_json(&self) -> (r: String)
        ensures
            r@ == spec_notification_json(*self),
    {
        proof {
            reveal_strlit("{\"type\":\"agent-turn-complete\",\"thread-id\":");
            reveal_strlit(",\"turn-id\":");
            reveal_strlit(",\"cwd\":");
            reveal_strlit(",\"input-messages\":[");
            reveal_strlit("],\"last-assistant-message\":");
            reveal_strlit("null");
            reveal_strlit("}");
            reveal_strlit(",");
        }
        match self {
            UserNotification::AgentTurnComplete {
                thread_id,
                turn_id,
                cwd,
                input_messages,
                last_assistant_message,
            } => {
                let mut out: Vec<char> = Vec::new();
                push_literal(&mut out, "{\"type\":\"agent-turn-complete\",\"thread-id\":");
                push_json_string(&mut out, thread_id.as_str());
                push_literal(&mut out, ",\"turn-id\":");
                push_json_string(&mut out, turn_id.as_str());
                push_literal(&mut out, ",\"cwd\":");
                push_json_string(&mut out, cwd.as_str());
                push_literal(&mut out, ",\"input-messages\":[");
                let ghost msgs = input_messages@;
                let ghost base = out@;
                let mut i: usize = 0;
                proof {
                    assert(base + spec_messages_json(msgs.take(0)) =~= base);
                }
                while i < input_messages.len()
                    invariant
                        i <= msgs.len(),
                        out@ == base + spec_messages_json(msgs.take(i as int)),
                    decreases msgs.len() - i,
                {
                    if i > 0 {
                        push_literal(&mut out, ",");
                    }
                    push_json_string(&mut out, input_messages[i].as_str());
                    proof {
                        assert(msgs.take(i + 1 as int).drop_last() =~= msgs.take(i as int));
                        assert(msgs.take(i + 1 as int).last() == msgs[i as int]);
                        assert(out@ =~= base + spec_messages_json(msgs.take(i + 1 as int)));
                    }
                    i = i + 1;
                }
                proof {
                    assert(msgs.take(msgs.len() as int) =~= msgs);
                }
                push_literal(&mut out, "],\"last-assistant-message\":");
                match last_assistant_message {
                    Some(m) => push_json_string(&mut out, m.as_str()),
                    None => push_literal(&mut out, "null"),
                }
                push_literal(&mut out, "}");
                let r = chars_to_string(&out);
                proof {
                    assert(r@ =~= spec_notification_json(*self));
                }
                r
            },
        }
    }
}

/// The notifier: the user's program and its fixed arguments, if one is
/// configured.
#[derive(Debug, PartialEq, Eq)]
pub struct UserNotifier {
    pub notify_command: Option<Vec<String>>,
}

impl UserNotifier {
    /// A notifier over the configured command, if any.
    pub fn new(notify: Option<Vec<String>>) -> (r: UserNotifier)
        ensures
            r.notify_command == notify,
    {
        UserNotifier { notify_command: notify }
    }

    /// The full argument list to spawn for one notification: the
    /// configured command followed by the JSON payload — or nothing when
    /// no command, or an empty one, is configured. Spawning, and
    /// shrugging off spawn failures, is the caller's job.
    pub fn notify(&self, notification: &UserNotification) -> (r: Option<Vec<String>>)
        ensures
            match self.notify_command {
                Some(cmd) => {
                    if cmd@.len() > 0 {
                        r matches Some(argv) && argv@.len() == cmd@.len() + 1 && (forall|i: int|
                            0 <= i < cmd@.len() ==> (#[trigger] argv@[i])@ == cmd@[i]@) && argv@.last()@
                            == spec_notification_json(*notification)
                    } else {
                        r is None
                    }
                },
                None => r is None,
            },
    {
        match &self.notify_command {
            Some(cmd) => {
                if cmd.len() == 0 {
                    return None;
                }
                let mut argv = clone_string_vec(cmd);
                let json = notification.to_json();
                argv.push(json);
                proof {
                    assert(argv@.last()@ == spec_notification_json(*notification));
                }
                Some(argv)
            },
            None => None,
        }
    }
}

} // verus!

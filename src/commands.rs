//! The node's interactive commands: one input line to one command.

use vstd::prelude::*;

verus! {

/// The line with leading and trailing white space removed.
pub uninterp spec fn trimmed(line: Seq<char>) -> Seq<char>;

/// The white-space separated words of a line.
pub uninterp spec fn whitespace_words(line: Seq<char>) -> Seq<Seq<char>>;

/// Relies on str::trim.
#[verifier::external_body]
fn trim_line(line: &str) -> (r: String)
    ensures
        r@ == trimmed(line@),
{
    String::from(line.trim())
}

/// Relies on str::split_whitespace.
#[verifier::external_body]
fn split_words(line: &str) -> (r: Vec<String>)
    ensures
        r@.len() == whitespace_words(line@).len(),
        forall|i: int| 0 <= i < r@.len() ==> #[trigger] r@[i]@ == whitespace_words(line@)[i],
{
    line.split_whitespace().map(String::from).collect()
}

/// What a line of input asks for.
#[derive(Debug, Clone, PartialEq, Eq)]
pub enum Command {
    /// A blank line.
    Empty,
    /// Text to send to every peer as chat.
    Chat(String),
    /// `/dial` with an address (it holds a `.` or a `:`).
    Dial(String),
    /// `/dial` with a Node ID, looked up through the rendezvous service.
    Lookup(String),
    /// `/dial` without a target.
    DialUsage,
    Peers,
    History,
    Id,
    /// A `/` command this node does not know.
    Unknown,
}

/// Whether a dial target names an address rather than a Node ID.
pub open spec fn is_address_target(t: Seq<char>) -> bool {
    exists|i: int| 0 <= i < t.len() && (t[i] == '.' || t[i] == ':')
}

/// The command a trimmed, non-empty line starting with `/` gives, from its words.
pub open spec fn slash_command(words: Seq<Seq<char>>, c: Command) -> bool {
    if words.len() == 0 {
        c == Command::Unknown
    } else if words[0] == seq!['/', 'd', 'i', 'a', 'l'] {
        if words.len() > 1 {
            if is_address_target(words[1]) {
                c matches Command::Dial(t) && t@ == words[1]
            } else {
                c matches Command::Lookup(t) && t@ == words[1]
            }
        } else {
            c == Command::DialUsage
        }
    } else if words[0] == seq!['/', 'p', 'e', 'e', 'r', 's'] {
        c == Command::Peers
    } else if words[0] == seq!['/', 'h', 'i', 's', 't', 'o', 'r', 'y'] {
        c == Command::History
    } else if words[0] == seq!['/', 'i', 'd'] {
        c == Command::Id
    } else {
        c == Command::Unknown
    }
}

fn is_address_text(t: &String) -> (r: bool)
    ensures
        r == is_address_target(t@),
{
    let s = t.as_str();
    let n = s.unicode_len();
    let mut i: usize = 0;
    while i < n
        invariant
            n == s@.len(),
            s@ == t@,
            i <= n,
            forall|j: int| 0 <= j < i ==> s@[j] != '.' && s@[j] != ':',
        decreases n - i,
    {
        let c = s.get_char(i);
        if c == '.' || c == ':' {
            return true;
        }
        i += 1;
    }
    false
}

fn equals_literal(s: &String, lit: &str) -> (r: bool)
    ensures
        r == (s@ == lit@),
{
    let l = String::from_str(lit);
    s.eq(&l)
}

/// Reads one input line as a command.
pub fn parse_command(line: &str) -> (r: Command)
    ensures
        trimmed(line@).len() == 0 ==> r == Command::Empty,
        trimmed(line@).len() > 0 && trimmed(line@)[0] != '/' ==> (r matches Command::Chat(t)
            && t@ == trimmed(line@)),
        trimmed(line@).len() > 0 && trimmed(line@)[0] == '/' ==> slash_command(
            whitespace_words(trimmed(line@)),
            r,
        ),
{
    proof {
        reveal_strlit("/dial");
        reveal_strlit("/peers");
        reveal_strlit("/history");
        reveal_strlit("/id");
        assert("/dial"@ =~= seq!['/', 'd', 'i', 'a', 'l']);
        assert("/peers"@ =~= seq!['/', 'p', 'e', 'e', 'r', 's']);
        assert("/history"@ =~= seq!['/', 'h', 'i', 's', 't', 'o', 'r', 'y']);
        assert("/id"@ =~= seq!['/', 'i', 'd']);
    }
    let t = trim_line(line);
    let ts = t.as_str();
    if ts.unicode_len() == 0 {
        return Command::Empty;
    }
    if ts.get_char(0) != '/' {
        return Command::Chat(t);
    }
    let words = split_words(ts);
    if words.len() == 0 {
        return Command::Unknown;
    }
    let first = &words[0];
    if equals_literal(first, "/dial") {
        if words.len() > 1 {
            let target = words[1].clone();
            if is_address_text(&target) {
                Command::Dial(target)
            } else {
                Command::Lookup(target)
            }
        } else {
            Command::DialUsage
        }
    } else if equals_literal(first, "/peers") {
        Command::Peers
    } else if equals_literal(first, "/history") {
        Command::History
    } else if equals_literal(first, "/id") {
        Command::Id
    } else {
        Command::Unknown
    }
}

} // verus!

//! Formatting of the single lines that the UI writes.
use vstd::prelude::*;
use vstd::string::*;

use crate::status::{
    bold_prefix, escape_char, no_escape, no_newline, painted_bold, reset_suffix, Colour, Status,
};

verus! {

/// The plain `symbol label` head of a status line.
pub open spec fn head_text(symbol: char, label: Seq<char>) -> Seq<char> {
    seq![symbol, ' '] + label
}

/// The line written for `status` and `message`: the head painted bold when
/// `colored`, the message never painted, one newline at the end.
pub open spec fn status_line(colored: bool, status: Status, message: Seq<char>) -> Seq<char> {
    let head = head_text(status.symbol(), status.label());
    if colored {
        painted_bold(status.colour(), head) + seq![' '] + message + seq!['\n']
    } else {
        head + seq![' '] + message + seq!['\n']
    }
}

/// The line written for a heading: `symbol message`, painted bold as a whole
/// when `colored`, one newline at the end.
pub open spec fn heading_line(colored: bool, colour: Colour, symbol: char, message: Seq<char>) -> Seq<char> {
    let text = seq![symbol, ' '] + message;
    if colored {
        painted_bold(colour, text) + seq!['\n']
    } else {
        text + seq!['\n']
    }
}

/// Relies on ansi_term's `Colour::bold` and `Style::paint`, shown through
/// `Display`: the bold SGR sequence of the colour (`ESC[1;3xm`), the text,
/// then the reset sequence `ESC[0m`.
#[verifier::external_body]
fn paint_bold(colour: Colour, text: &str) -> (r: String)
    ensures
        r@ == painted_bold(colour, text@),
{
    let c = match colour {
        Colour::Green => ansi_term::Colour::Green,
        Colour::Cyan => ansi_term::Colour::Cyan,
        Colour::Yellow => ansi_term::Colour::Yellow,
        Colour::Blue => ansi_term::Colour::Blue,
        Colour::Red => ansi_term::Colour::Red,
    };
    c.bold().paint(text).to_string()
}

/// Relies on `String::push`: appends one character.
#[verifier::external_body]
fn push_char(s: &mut String, c: char)
    ensures
        final(s)@ == old(s)@.push(c),
{
    s.push(c)
}

/// Renders the line for `status` and `message`, colored or plain.
pub fn render_status(colored: bool, status: &Status, message: &str) -> (r: String)
    ensures
        r@ == status_line(colored, *status, message@),
{
    let (symbol, label, colour) = status.parts();
    let mut head = String::new();
    push_char(&mut head, symbol);
    head.append(" ");
    head.append(label.as_str());
    proof {
        reveal_strlit(" ");
        reveal_strlit("\n");
    }
    assert(head@ =~= head_text(symbol, label@));
    let mut line = if colored {
        paint_bold(colour, head.as_str())
    } else {
        head
    };
    line.append(" ");
    line.append(message);
    line.append("\n");
    assert(line@ =~= status_line(colored, *status, message@));
    line
}

/// Renders the heading line `symbol message`, colored or plain.
pub fn render_heading(colored: bool, colour: Colour, symbol: char, message: &str) -> (r: String)
    ensures
        r@ == heading_line(colored, colour, symbol, message@),
{
    let mut text = String::new();
    push_char(&mut text, symbol);
    text.append(" ");
    text.append(message);
    proof {
        reveal_strlit(" ");
        reveal_strlit("\n");
    }
    let mut line = if colored {
        paint_bold(colour, text.as_str())
    } else {
        text
    };
    line.append("\n");
    assert(line@ =~= heading_line(colored, colour, symbol, message@));
    line
}

/// The symbol and the label of a status from the fixed table hold neither an
/// escape character nor a newline.
proof fn lemma_table_entry_plain(status: Status)
    requires
        !(status is Custom),
    ensures
        status.symbol() != escape_char(),
        status.symbol() != '\n',
        no_escape(status.label()),
        no_newline(status.label()),
{
    reveal_strlit("Applying");
    reveal_strlit("Cached");
    reveal_strlit("Creating");
    reveal_strlit("Downloading");
    reveal_strlit("Encrypting");
    reveal_strlit("Installed");
    reveal_strlit("Missing");
    reveal_strlit("Signing");
    reveal_strlit("Signed");
    reveal_strlit("Uploaded");
    reveal_strlit("Uploading");
    reveal_strlit("Using");
    reveal_strlit("Verified");
}

/// A plain status line holds no escape character; a colored one starts with
/// an escape sequence, and every escape character in it lies in the painted
/// `symbol label` head, which ends with the reset sequence: the message is
/// never painted. This holds when neither the message nor a custom symbol or
/// label holds an escape character itself.
pub proof fn lemma_escapes_only_around_head(status: Status, message: Seq<char>)
    requires
        no_escape(message),
        status is Custom ==> status.symbol() != escape_char() && no_escape(status.label()),
    ensures
        no_escape(status_line(false, status, message)),
        status_line(true, status, message) == painted_bold(
            status.colour(),
            head_text(status.symbol(), status.label()),
        ) + seq![' '] + message + seq!['\n'],
        status_line(true, status, message)[0] == escape_char(),
        ({
            let head = head_text(status.symbol(), status.label());
            let painted = painted_bold(status.colour(), head);
            &&& painted.len() == bold_prefix(status.colour()).len() + head.len()
                + reset_suffix().len()
            &&& painted.subrange(painted.len() - reset_suffix().len(), painted.len() as int)
                == reset_suffix()
            &&& forall|i: int|
                #![trigger status_line(true, status, message)[i]]
                painted.len() <= i < status_line(true, status, message).len()
                    ==> status_line(true, status, message)[i] != escape_char()
        }),
{
    if !(status is Custom) {
        lemma_table_entry_plain(status);
    }
    let head = head_text(status.symbol(), status.label());
    let plain = status_line(false, status, message);
    assert(plain =~= head + seq![' '] + message + seq!['\n']);
    assert forall|i: int| 0 <= i < plain.len() implies plain[i] != escape_char() by {
        if i >= 2 && i < head.len() {
            assert(plain[i] == status.label()[i - 2]);
        } else if i >= head.len() + 1 && i < head.len() + 1 + message.len() {
            assert(plain[i] == message[i - head.len() - 1]);
        }
    }
    let painted = painted_bold(status.colour(), head);
    let line = status_line(true, status, message);
    assert(painted.subrange(painted.len() - reset_suffix().len(), painted.len() as int)
        =~= reset_suffix());
    assert forall|i: int|
        #![trigger status_line(true, status, message)[i]]
        painted.len() <= i < line.len() implies line[i] != escape_char() by {
        if i >= painted.len() + 1 && i < painted.len() + 1 + message.len() {
            assert(line[i] == message[i - painted.len() - 1]);
        }
    }
}

/// A status line or a heading line is exactly one line: it ends with a
/// newline and holds no other, colored or not. This holds when neither the
/// message nor a custom symbol or label holds a newline itself.
pub proof fn lemma_one_line(
    colored: bool,
    status: Status,
    colour: Colour,
    symbol: char,
    message: Seq<char>,
)
    requires
        no_newline(message),
        symbol != '\n',
        status is Custom ==> status.symbol() != '\n' && no_newline(status.label()),
    ensures
        status_line(colored, status, message).last() == '\n',
        no_newline(status_line(colored, status, message).drop_last()),
        heading_line(colored, colour, symbol, message).last() == '\n',
        no_newline(heading_line(colored, colour, symbol, message).drop_last()),
{
    if !(status is Custom) {
        lemma_table_entry_plain(status);
    }
    let head = head_text(status.symbol(), status.label());
    let shown = if colored {
        painted_bold(status.colour(), head)
    } else {
        head
    };
    let line = status_line(colored, status, message);
    assert(line =~= shown + seq![' '] + message + seq!['\n']);
    let body = line.drop_last();
    assert(body =~= shown + seq![' '] + message);
    assert forall|i: int| 0 <= i < body.len() implies body[i] != '\n' by {
        if i < shown.len() {
            if colored {
                let p = bold_prefix(status.colour()).len();
                if p + 2 <= i < p + head.len() {
                    assert(body[i] == status.label()[i - p - 2]);
                }
            } else if 2 <= i {
                assert(body[i] == status.label()[i - 2]);
            }
        } else if i > shown.len() {
            assert(body[i] == message[i - shown.len() - 1]);
        }
    }
    let text = seq![symbol, ' '] + message;
    let shown_text = if colored {
        painted_bold(colour, text)
    } else {
        text
    };
    let hline = heading_line(colored, colour, symbol, message);
    assert(hline =~= shown_text + seq!['\n']);
    let hbody = hline.drop_last();
    assert(hbody =~= shown_text);
    assert forall|i: int| 0 <= i < hbody.len() implies hbody[i] != '\n' by {
        if colored {
            let p = bold_prefix(colour).len();
            if p + 2 <= i < p + text.len() {
                assert(hbody[i] == message[i - p - 2]);
            }
        } else if 2 <= i {
            assert(hbody[i] == message[i - 2]);
        }
    }
}

/// A custom status renders with exactly the caller's symbol and label, in
/// the colour of the routine statuses.
pub proof fn lemma_custom_status(symbol: char, label: String, colored: bool, message: Seq<char>)
    ensures
        Status::Custom(symbol, label).symbol() == symbol,
        Status::Custom(symbol, label).label() == label@,
        Status::Custom(symbol, label).colour() == Status::Installed.colour(),
        status_line(colored, Status::Custom(symbol, label), message) == if colored {
            painted_bold(Colour::Green, head_text(symbol, label@)) + seq![' '] + message + seq![
                '\n',
            ]
        } else {
            head_text(symbol, label@) + seq![' '] + message + seq!['\n']
        },
{
}

} // verus!

//! The status vocabulary and the rendering of status and heading lines.
use vstd::prelude::*;
use vstd::string::*;

verus! {

/// The colours that output lines are painted in.
#[derive(Clone, Copy, PartialEq, Eq, Structural, Debug)]
pub enum Colour {
    Green,
    Cyan,
    Yellow,
    Blue,
    Red,
}

/// A named operational status, or a caller-supplied symbol and label.
#[derive(Clone, Debug)]
pub enum Status {
    Applying,
    Cached,
    Creating,
    Downloading,
    Encrypting,
    Installed,
    Missing,
    Signing,
    Signed,
    Uploaded,
    Uploading,
    Using,
    Verified,
    Custom(char, String),
}

/// The escape character that starts every ANSI control sequence.
pub open spec fn escape_char() -> char {
    '\x1b'
}

/// The digit that selects a foreground colour in an SGR sequence (`3x`).
pub open spec fn colour_digit(c: Colour) -> char {
    match c {
        Colour::Red => '1',
        Colour::Green => '2',
        Colour::Yellow => '3',
        Colour::Blue => '4',
        Colour::Cyan => '6',
    }
}

/// The SGR sequence that turns on bold text in the given foreground colour.
pub open spec fn bold_prefix(c: Colour) -> Seq<char> {
    seq!['\x1b', '[', '1', ';', '3', colour_digit(c), 'm']
}

/// The SGR sequence that resets all attributes.
pub open spec fn reset_suffix() -> Seq<char> {
    seq!['\x1b', '[', '0', 'm']
}

/// `text` painted bold in colour `c`.
pub open spec fn painted_bold(c: Colour, text: Seq<char>) -> Seq<char> {
    bold_prefix(c) + text + reset_suffix()
}

/// No escape character occurs in `s`.
pub open spec fn no_escape(s: Seq<char>) -> bool {
    forall|i: int| 0 <= i < s.len() ==> s[i] != escape_char()
}

/// No newline occurs in `s`.
pub open spec fn no_newline(s: Seq<char>) -> bool {
    forall|i: int| 0 <= i < s.len() ==> s[i] != '\n'
}

impl Status {
    /// The glyph shown for this status.
    pub open spec fn symbol(&self) -> char {
        match self {
            Status::Applying => '↑',
            Status::Cached => '☑',
            Status::Creating => 'Ω',
            Status::Downloading => '↓',
            Status::Encrypting => '☛',
            Status::Installed => '✓',
            Status::Missing => '∵',
            Status::Signing => '☛',
            Status::Signed => '✓',
            Status::Uploaded => '✓',
            Status::Uploading => '↑',
            Status::Using => '→',
            Status::Verified => '✓',
            Status::Custom(c, _) => *c,
        }
    }

    /// The label text shown for this status.
    pub open spec fn label(&self) -> Seq<char> {
        match self {
            Status::Applying => "Applying"@,
            Status::Cached => "Cached"@,
            Status::Creating => "Creating"@,
            Status::Downloading => "Downloading"@,
            Status::Encrypting => "Encrypting"@,
            Status::Installed => "Installed"@,
            Status::Missing => "Missing"@,
            Status::Signing => "Signing"@,
            Status::Signed => "Signed"@,
            Status::Uploaded => "Uploaded"@,
            Status::Uploading => "Uploading"@,
            Status::Using => "Using"@,
            Status::Verified => "Verified"@,
            Status::Custom(_, l) => l@,
        }
    }

    /// The colour category of this status: routine statuses are green,
    /// informational ones cyan.
    pub open spec fn colour(&self) -> Colour {
        match self {
            Status::Missing | Status::Signing | Status::Signed => Colour::Cyan,
            _ => Colour::Green,
        }
    }

    /// The symbol, label and colour of this status.
    pub fn parts(&self) -> (r: (char, String, Colour))
        ensures
            r.0 == self.symbol(),
            r.1@ == self.label(),
            r.2 == self.colour(),
    {
        match self {
            Status::Applying => ('↑', String::from_str("Applying"), Colour::Green),
            Status::Cached => ('☑', String::from_str("Cached"), Colour::Green),
            Status::Creating => ('Ω', String::from_str("Creating"), Colour::Green),
            Status::Downloading => ('↓', String::from_str("Downloading"), Colour::Green),
            Status::Encrypting => ('☛', String::from_str("Encrypting"), Colour::Green),
            Status::Installed => ('✓', String::from_str("Installed"), Colour::Green),
            Status::Missing => ('∵', String::from_str("Missing"), Colour::Cyan),
            Status::Signed => ('✓', String::from_str("Signed"), Colour::Cyan),
            Status::Signing => ('☛', String::from_str("Signing"), Colour::Cyan),
            Status::Uploaded => ('✓', String::from_str("Uploaded"), Colour::Green),
            Status::Uploading => ('↑', String::from_str("Uploading"), Colour::Green),
            Status::Using => ('→', String::from_str("Using"), Colour::Green),
            Status::Verified => ('✓', String::from_str("Verified"), Colour::Green),
            Status::Custom(c, s) => (*c, s.clone(), Colour::Green),
        }
    }
}

} // verus!

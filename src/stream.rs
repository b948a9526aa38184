//! Output and input streams with their terminal capabilities, color
//! negotiation, and the coloring policy.
use vstd::prelude::*;

verus! {

/// term's terminal over a writer, driven by a terminal description.
#[verifier::external_type_specification]
#[verifier::external_body]
#[verifier::reject_recursive_types(T)]
pub struct ExTerminfoTerminal<T>(term::TerminfoTerminal<T>);

/// term's parsed terminal description.
#[verifier::external_type_specification]
#[verifier::external_body]
pub struct ExTermInfo(term::terminfo::TermInfo);

/// The I/O error that a failed write, flush or read returns.
#[verifier::external_type_specification]
#[verifier::external_body]
pub struct ExIoError(std::io::Error);

/// The user's coloring preference.
#[derive(Clone, Copy, PartialEq, Eq, Structural, Debug)]
pub enum Coloring {
    Auto,
    Always,
    Never,
}

/// One of the three standard process streams.
#[derive(Clone, Copy, PartialEq, Eq, Structural, Debug)]
pub enum StdStream {
    Stdin,
    Stdout,
    Stderr,
}

/// Whether a write is colored, given the stream's color support, its
/// terminal attachment and the preference.
pub open spec fn colored_decision(supports_color: bool, isatty: bool, coloring: Coloring) -> bool {
    supports_color && ((isatty && coloring == Coloring::Auto) || coloring == Coloring::Always)
}

/// The coloring decision case by case: `Never` colors nothing, `Always`
/// colors exactly when the stream supports color, and `Auto` colors exactly
/// when the stream supports color and is attached to a terminal.
pub proof fn lemma_coloring_table(supports_color: bool, isatty: bool)
    ensures
        !colored_decision(supports_color, isatty, Coloring::Never),
        colored_decision(supports_color, isatty, Coloring::Always) == supports_color,
        colored_decision(supports_color, isatty, Coloring::Auto) == (supports_color && isatty),
        !supports_color ==> forall|c: Coloring| !colored_decision(supports_color, isatty, c),
{
}

/// One operation handed to an output stream's sink.
pub ghost enum SinkEvent {
    /// A complete text written in one call.
    Text(Seq<char>),
    /// The leading bytes of a buffer that the sink accepted.
    Bytes(Seq<u8>),
    /// A flush of the sink.
    Flush,
}

/// Relies on `TerminfoTerminal::new_with_terminfo`: wraps `out` with the
/// description `info`.
#[verifier::external_body]
fn terminfo_terminal<W: std::io::Write>(out: W, info: term::terminfo::TermInfo) -> (r:
    term::TerminfoTerminal<W>) {
    term::TerminfoTerminal::new_with_terminfo(out, info)
}

/// Relies on `Terminal::supports_color` of a `TerminfoTerminal` built by
/// `new_with_terminfo` from this description: it depends on the description
/// alone (its `setaf`, `setab`, `colors` and reset capabilities), not on the
/// writer, so a discarding writer stands in for the real one.
#[verifier::external_body]
fn description_supports_color(info: &term::terminfo::TermInfo) -> (r: bool) {
    let probe = term::TerminfoTerminal::new_with_terminfo(std::io::sink(), info.clone());
    term::Terminal::supports_color(&probe)
}

/// Relies on `Terminal::get_ref` of `TerminfoTerminal`: the wrapped writer.
#[verifier::external_body]
fn terminal_get_ref<W: std::io::Write>(t: &term::TerminfoTerminal<W>) -> (r: &W) {
    term::Terminal::get_ref(t)
}

/// Relies on `Write::write_all`: hands the whole text to the writer. A
/// `TerminfoTerminal` writes straight through to the writer it wraps.
#[verifier::external_body]
fn write_text<W: std::io::Write>(w: &mut W, s: &str) -> (r: Result<(), std::io::Error>) {
    w.write_all(s.as_bytes())
}

/// Relies on `Write::write`: the writer accepts at most the whole buffer.
#[verifier::external_body]
fn write_some<W: std::io::Write>(w: &mut W, buf: &[u8]) -> (r: Result<usize, std::io::Error>)
    ensures
        r matches Ok(n) ==> n <= buf@.len(),
{
    w.write(buf)
}

/// Relies on `Write::flush`.
#[verifier::external_body]
fn flush_writer<W: std::io::Write>(w: &mut W) -> (r: Result<(), std::io::Error>) {
    w.flush()
}

/// Relies on `Read::read`: at most `buf.len()` bytes are read.
#[verifier::external_body]
fn read_some<R: std::io::Read>(r: &mut R, buf: &mut [u8]) -> (res: Result<usize, std::io::Error>)
    ensures
        res matches Ok(n) ==> n <= old(buf)@.len(),
        final(buf)@.len() == old(buf)@.len(),
{
    r.read(buf)
}

/// A writable sink, either plain or wrapped in a color-capable terminal.
#[verifier::reject_recursive_types(W)]
pub enum WriteStream<W> {
    NoColor(W),
    Color(term::TerminfoTerminal<W>),
}

impl<W: std::io::Write> WriteStream<W> {
    /// Negotiates color for `writable` given the terminal description found
    /// for the current terminal, if any. Never fails: without a description,
    /// or when it gives no color support, the result is the plain sink that
    /// was given.
    pub fn create(writable: W, description: Option<term::terminfo::TermInfo>) -> (r: WriteStream<W>)
        ensures
            description is None ==> r == WriteStream::NoColor(writable),
            r is NoColor ==> r == WriteStream::NoColor(writable),
            r is Color ==> description is Some,
    {
        match description {
            Some(info) => {
                let supported = description_supports_color(&info);
                Self::with_color_support(writable, info, supported)
            },
            None => WriteStream::NoColor(writable),
        }
    }

    /// Wraps `writable` in a terminal driven by `info` when the description
    /// gives color support, and keeps it plain otherwise.
    pub fn with_color_support(writable: W, info: term::terminfo::TermInfo, supports_color: bool) -> (r:
        WriteStream<W>)
        ensures
            r is Color <==> supports_color,
            !supports_color ==> r == WriteStream::NoColor(writable),
    {
        if supports_color {
            WriteStream::Color(terminfo_terminal(writable, info))
        } else {
            WriteStream::NoColor(writable)
        }
    }

    /// The underlying sink.
    pub fn get_ref(&self) -> (r: &W)
        ensures
            self matches WriteStream::NoColor(w) ==> *r == w,
    {
        match self {
            WriteStream::NoColor(w) => w,
            WriteStream::Color(t) => terminal_get_ref(t),
        }
    }
}

/// An output sink together with its terminal capability and the coloring
/// preference. It records, as ghost state, every operation handed to the sink.
#[verifier::reject_recursive_types(W)]
pub struct OutputStream<W> {
    inner: WriteStream<W>,
    coloring: Coloring,
    isatty: bool,
    trace: Ghost<Seq<SinkEvent>>,
}

impl<W> OutputStream<W> {
    /// The sink, plain or wrapped in a terminal.
    pub closed spec fn writer(&self) -> WriteStream<W> {
        self.inner
    }

    /// The stream can render color: the sink is a color-capable terminal.
    pub open spec fn color_capable(&self) -> bool {
        self.writer() is Color
    }

    /// The stream is attached to an interactive terminal.
    pub closed spec fn attached(&self) -> bool {
        self.isatty
    }

    /// The coloring preference of the stream.
    pub closed spec fn preference(&self) -> Coloring {
        self.coloring
    }

    /// The operations handed to the sink so far, oldest first.
    pub closed spec fn events(&self) -> Seq<SinkEvent> {
        self.trace@
    }

    /// Writes to this stream are colored.
    pub open spec fn colored(&self) -> bool {
        colored_decision(self.color_capable(), self.attached(), self.preference())
    }

    /// `self` and `other` have the same capability and preference.
    pub open spec fn same_capability(&self, other: &Self) -> bool {
        &&& self.color_capable() == other.color_capable()
        &&& self.attached() == other.attached()
        &&& self.preference() == other.preference()
    }

    pub fn new(inner: WriteStream<W>, coloring: Coloring, isatty: bool) -> (r: Self)
        ensures
            r.writer() == inner,
            r.attached() == isatty,
            r.preference() == coloring,
            r.events() == Seq::<SinkEvent>::empty(),
    {
        OutputStream { inner, coloring, isatty, trace: Ghost(Seq::empty()) }
    }

    pub fn supports_color(&self) -> (r: bool)
        ensures
            r == self.color_capable(),
    {
        match self.inner {
            WriteStream::Color(_) => true,
            WriteStream::NoColor(_) => false,
        }
    }

    pub fn is_colored(&self) -> (r: bool)
        ensures
            r == self.colored(),
    {
        self.supports_color() && ((self.isatty && self.coloring == Coloring::Auto)
            || self.coloring == Coloring::Always)
    }

    pub fn is_a_terminal(&self) -> (r: bool)
        ensures
            r == self.attached(),
    {
        self.isatty
    }
}

impl<W: std::io::Write> OutputStream<W> {
    /// Writes the whole text to the sink in one operation.
    pub fn write_str(&mut self, s: &str) -> (r: Result<(), std::io::Error>)
        ensures
            final(self).same_capability(old(self)),
            r is Ok ==> final(self).events() == old(self).events().push(SinkEvent::Text(s@)),
            r is Err ==> final(self).events() == old(self).events(),
    {
        let r = match &mut self.inner {
            WriteStream::Color(t) => write_text(t, s),
            WriteStream::NoColor(w) => write_text(w, s),
        };
        if r.is_ok() {
            self.trace = Ghost(self.trace@.push(SinkEvent::Text(s@)));
        }
        r
    }

    /// Writes a leading part of `buf` to the sink; returns its length.
    pub fn write(&mut self, buf: &[u8]) -> (r: Result<usize, std::io::Error>)
        ensures
            final(self).same_capability(old(self)),
            r matches Ok(n) ==> n <= buf@.len() && final(self).events() == old(
                self,
            ).events().push(SinkEvent::Bytes(buf@.take(n as int))),
            r is Err ==> final(self).events() == old(self).events(),
    {
        let r = match &mut self.inner {
            WriteStream::Color(t) => write_some(t, buf),
            WriteStream::NoColor(w) => write_some(w, buf),
        };
        match r {
            Ok(n) => {
                self.trace = Ghost(self.trace@.push(SinkEvent::Bytes(buf@.take(n as int))));
            },
            Err(_) => {},
        }
        r
    }

    /// Flushes the sink.
    pub fn flush(&mut self) -> (r: Result<(), std::io::Error>)
        ensures
            final(self).same_capability(old(self)),
            r is Ok ==> final(self).events() == old(self).events().push(SinkEvent::Flush),
            r is Err ==> final(self).events() == old(self).events(),
    {
        let r = match &mut self.inner {
            WriteStream::Color(t) => flush_writer(t),
            WriteStream::NoColor(w) => flush_writer(w),
        };
        if r.is_ok() {
            self.trace = Ghost(self.trace@.push(SinkEvent::Flush));
        }
        r
    }

    /// The underlying sink.
    pub fn get_ref(&self) -> (r: &W)
        ensures
            self.writer() matches WriteStream::NoColor(w) ==> *r == w,
    {
        self.inner.get_ref()
    }
}

/// A readable source together with its terminal attachment.
#[verifier::reject_recursive_types(R)]
pub struct InputStream<R> {
    inner: R,
    isatty: bool,
}

impl<R> InputStream<R> {
    /// The stream is attached to an interactive terminal.
    pub closed spec fn attached(&self) -> bool {
        self.isatty
    }

    /// The source read from.
    pub closed spec fn source(&self) -> R {
        self.inner
    }

    pub fn new(inner: R, isatty: bool) -> (r: Self)
        ensures
            r.source() == inner,
            r.attached() == isatty,
    {
        InputStream { inner, isatty }
    }

    pub fn is_a_terminal(&self) -> (r: bool)
        ensures
            r == self.attached(),
    {
        self.isatty
    }
}

impl<R: std::io::Read> InputStream<R> {
    /// Reads into `buf`; returns how many bytes were read.
    pub fn read(&mut self, buf: &mut [u8]) -> (r: Result<usize, std::io::Error>)
        ensures
            final(self).attached() == old(self).attached(),
            r matches Ok(n) ==> n <= old(buf)@.len(),
            final(buf)@.len() == old(buf)@.len(),
    {
        read_some(&mut self.inner, buf)
    }
}

} // verus!

//! The shell (one input and two output streams) and the UI that writes
//! headings and statuses to it.
use vstd::prelude::*;

use crate::render::{heading_line, render_heading, render_status, status_line};
use crate::status::{Colour, Status};
use crate::stream::{InputStream, OutputStream, SinkEvent};

verus! {

/// The process's interaction surface: an input stream and the primary and
/// diagnostic output streams.
#[verifier::reject_recursive_types(R)]
#[verifier::reject_recursive_types(W)]
pub struct Shell<R, W> {
    input: InputStream<R>,
    out: OutputStream<W>,
    err: OutputStream<W>,
}

impl<R, W> Shell<R, W> {
    /// The input stream.
    pub closed spec fn input_stream(&self) -> InputStream<R> {
        self.input
    }

    /// The primary output stream.
    pub closed spec fn out_stream(&self) -> OutputStream<W> {
        self.out
    }

    /// The diagnostic output stream.
    pub closed spec fn err_stream(&self) -> OutputStream<W> {
        self.err
    }

    pub fn new(input: InputStream<R>, out: OutputStream<W>, err: OutputStream<W>) -> (r: Self)
        ensures
            r.input_stream() == input,
            r.out_stream() == out,
            r.err_stream() == err,
    {
        Shell { input, out, err }
    }

    pub fn input(&mut self) -> (r: &mut InputStream<R>)
        ensures
            *r == old(self).input_stream(),
            final(self).input_stream() == *final(r),
            final(self).out_stream() == old(self).out_stream(),
            final(self).err_stream() == old(self).err_stream(),
    {
        &mut self.input
    }

    pub fn out(&mut self) -> (r: &mut OutputStream<W>)
        ensures
            *r == old(self).out_stream(),
            final(self).out_stream() == *final(r),
            final(self).input_stream() == old(self).input_stream(),
            final(self).err_stream() == old(self).err_stream(),
    {
        &mut self.out
    }

    pub fn err(&mut self) -> (r: &mut OutputStream<W>)
        ensures
            *r == old(self).err_stream(),
            final(self).err_stream() == *final(r),
            final(self).input_stream() == old(self).input_stream(),
            final(self).out_stream() == old(self).out_stream(),
    {
        &mut self.err
    }
}

/// The events that writing `line` as one text and then flushing leaves
/// after `before`, when both succeed.
pub open spec fn line_written(before: Seq<SinkEvent>, line: Seq<char>) -> Seq<SinkEvent> {
    before.push(SinkEvent::Text(line)).push(SinkEvent::Flush)
}

/// The events that an attempt to write `line` and flush may leave after
/// `before` when it fails: nothing, or the text without the flush.
pub open spec fn line_failed(before: Seq<SinkEvent>, after: Seq<SinkEvent>, line: Seq<char>) -> bool {
    after == before || after == before.push(SinkEvent::Text(line))
}

/// Writes `line` in one operation, then flushes.
fn write_line<W: std::io::Write>(stream: &mut OutputStream<W>, line: &str) -> (r: Result<
    (),
    std::io::Error,
>)
    ensures
        final(stream).same_capability(old(stream)),
        r is Ok ==> final(stream).events() == line_written(old(stream).events(), line@),
        r is Err ==> line_failed(old(stream).events(), final(stream).events(), line@),
{
    match stream.write_str(line) {
        Ok(()) => {},
        Err(e) => {
            return Err(e);
        },
    }
    stream.flush()
}

/// The user-facing reporter over a shell.
#[verifier::reject_recursive_types(R)]
#[verifier::reject_recursive_types(W)]
pub struct UI<R, W> {
    shell: Shell<R, W>,
}

impl<R, W> UI<R, W> {
    /// The shell written to.
    pub closed spec fn shell_state(&self) -> Shell<R, W> {
        self.shell
    }

    /// A UI that reports to `shell`.
    pub fn new(shell: Shell<R, W>) -> (r: Self)
        ensures
            r.shell_state() == shell,
    {
        UI { shell }
    }

    /// The shell written to.
    pub fn shell(&mut self) -> (r: &mut Shell<R, W>)
        ensures
            *r == old(self).shell_state(),
            final(self).shell_state() == *final(r),
    {
        &mut self.shell
    }
}

/// The state of `after` is that of `before` with the primary output stream
/// having gone from `events` by a write of `line` and a flush: complete when
/// `ok`, possibly partial otherwise.
pub open spec fn reported<R, W>(
    before: Shell<R, W>,
    after: Shell<R, W>,
    line: Seq<char>,
    ok: bool,
) -> bool {
    &&& after.input_stream() == before.input_stream()
    &&& after.err_stream() == before.err_stream()
    &&& after.out_stream().same_capability(&before.out_stream())
    &&& ok ==> after.out_stream().events() == line_written(before.out_stream().events(), line)
    &&& !ok ==> line_failed(before.out_stream().events(), after.out_stream().events(), line)
}

/// The state of `after` is that of `before` with the diagnostic output stream
/// having gone from `events` by a write of `line` and a flush: complete when
/// `ok`, possibly partial otherwise.
pub open spec fn reported_on_err<R, W>(
    before: Shell<R, W>,
    after: Shell<R, W>,
    line: Seq<char>,
    ok: bool,
) -> bool {
    &&& after.input_stream() == before.input_stream()
    &&& after.out_stream() == before.out_stream()
    &&& after.err_stream().same_capability(&before.err_stream())
    &&& ok ==> after.err_stream().events() == line_written(before.err_stream().events(), line)
    &&& !ok ==> line_failed(before.err_stream().events(), after.err_stream().events(), line)
}

impl<R, W: std::io::Write> UI<R, W> {
    /// Writes the section-start heading `» message` to the primary output.
    pub fn begin(&mut self, message: &str) -> (r: Result<(), std::io::Error>)
        ensures
            reported(
                old(self).shell_state(),
                final(self).shell_state(),
                heading_line(
                    old(self).shell_state().out_stream().colored(),
                    Colour::Yellow,
                    '»',
                    message@,
                ),
                r is Ok,
            ),
    {
        Self::write_heading(&mut self.shell.out, Colour::Yellow, '»', message)
    }

    /// Writes the section-end heading `★ message` to the primary output.
    pub fn end(&mut self, message: &str) -> (r: Result<(), std::io::Error>)
        ensures
            reported(
                old(self).shell_state(),
                final(self).shell_state(),
                heading_line(
                    old(self).shell_state().out_stream().colored(),
                    Colour::Blue,
                    '★',
                    message@,
                ),
                r is Ok,
            ),
    {
        Self::write_heading(&mut self.shell.out, Colour::Blue, '★', message)
    }

    /// Writes the line of `status` and `message` to the primary output.
    pub fn status(&mut self, status: Status, message: &str) -> (r: Result<(), std::io::Error>)
        ensures
            reported(
                old(self).shell_state(),
                final(self).shell_state(),
                status_line(old(self).shell_state().out_stream().colored(), status, message@),
                r is Ok,
            ),
    {
        let stream = &mut self.shell.out;
        let line = render_status(stream.is_colored(), &status, message);
        write_line(stream, line.as_str())
    }

    /// Reports a failure `✗ message` on the diagnostic output; what the
    /// process does next is the caller's decision.
    pub fn fatal(&mut self, message: &str) -> (r: Result<(), std::io::Error>)
        ensures
            reported_on_err(
                old(self).shell_state(),
                final(self).shell_state(),
                heading_line(
                    old(self).shell_state().err_stream().colored(),
                    Colour::Red,
                    '✗',
                    message@,
                ),
                r is Ok,
            ),
    {
        Self::write_heading(&mut self.shell.err, Colour::Red, '✗', message)
    }

    fn write_heading(stream: &mut OutputStream<W>, colour: Colour, symbol: char, message: &str) -> (r:
        Result<(), std::io::Error>)
        ensures
            final(stream).same_capability(old(stream)),
            r is Ok ==> final(stream).events() == line_written(
                old(stream).events(),
                heading_line(old(stream).colored(), colour, symbol, message@),
            ),
            r is Err ==> line_failed(
                old(stream).events(),
                final(stream).events(),
                heading_line(old(stream).colored(), colour, symbol, message@),
            ),
    {
        let line = render_heading(stream.is_colored(), colour, symbol, message);
        write_line(stream, line.as_str())
    }
}

} // verus!

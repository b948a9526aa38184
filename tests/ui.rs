use std::collections::HashMap;
use std::io::Write;

use habitat_ui::render::{render_heading, render_status};
use habitat_ui::settings::{coloring_for, is_toggle_set, resolve_terminal, terminal_override};
use habitat_ui::shell::{Shell, UI};
use habitat_ui::status::{Colour, Status};
use habitat_ui::stream::{Coloring, InputStream, OutputStream, WriteStream};

fn description(with_colors: bool) -> term::terminfo::TermInfo {
    let mut numbers = HashMap::new();
    let mut strings = HashMap::new();
    strings.insert("sgr0", b"\x1b[m".to_vec());
    if with_colors {
        numbers.insert("colors", 8u32);
        strings.insert("setaf", b"\x1b[3m".to_vec());
        strings.insert("setab", b"\x1b[4m".to_vec());
    }
    term::terminfo::TermInfo {
        names: vec!["test-term".to_string()],
        bools: HashMap::new(),
        numbers,
        strings,
    }
}

fn sink(color: bool) -> WriteStream<Vec<u8>> {
    if color {
        WriteStream::create(Vec::new(), Some(description(true)))
    } else {
        WriteStream::NoColor(Vec::new())
    }
}

fn ui_with(coloring: Coloring, isatty: bool, color: bool) -> UI<std::io::Empty, Vec<u8>> {
    let input = InputStream::new(std::io::empty(), isatty);
    let out = OutputStream::new(sink(color), coloring, isatty);
    let err = OutputStream::new(sink(color), coloring, isatty);
    UI::new(Shell::new(input, out, err))
}

fn out_text(ui: &mut UI<std::io::Empty, Vec<u8>>) -> String {
    String::from_utf8(ui.shell().out().get_ref().clone()).unwrap()
}

fn err_text(ui: &mut UI<std::io::Empty, Vec<u8>>) -> String {
    String::from_utf8(ui.shell().err().get_ref().clone()).unwrap()
}

#[test]
fn coloring_decision_table() {
    let prefs = [Coloring::Auto, Coloring::Always, Coloring::Never];
    for &pref in prefs.iter() {
        for &isatty in [false, true].iter() {
            for &color in [false, true].iter() {
                let s = OutputStream::new(sink(color), pref, isatty);
                let expected = color && ((isatty && pref == Coloring::Auto) || pref == Coloring::Always);
                assert_eq!(s.is_colored(), expected, "{:?} {} {}", pref, isatty, color);
                assert_eq!(s.supports_color(), color);
                assert_eq!(s.is_a_terminal(), isatty);
            }
        }
    }
}

#[test]
fn always_without_terminal_paints_installed() {
    let mut ui = ui_with(Coloring::Always, false, true);
    ui.status(Status::Installed, "redis").unwrap();
    assert_eq!(out_text(&mut ui), "\x1b[1;32m✓ Installed\x1b[0m redis\n");
}

#[test]
fn auto_without_terminal_is_plain() {
    let mut ui = ui_with(Coloring::Auto, false, true);
    ui.status(Status::Downloading, "core/redis").unwrap();
    assert_eq!(out_text(&mut ui), "↓ Downloading core/redis\n");
}

#[test]
fn auto_on_color_terminal_paints() {
    let mut ui = ui_with(Coloring::Auto, true, true);
    ui.status(Status::Downloading, "core/redis").unwrap();
    assert_eq!(out_text(&mut ui), "\x1b[1;32m↓ Downloading\x1b[0m core/redis\n");
}

#[test]
fn never_is_always_plain() {
    let mut ui = ui_with(Coloring::Never, true, true);
    ui.status(Status::Verified, "core/redis").unwrap();
    ui.status(Status::Missing, "core/redis").unwrap();
    ui.status(Status::Custom('*', "Custom".to_string()), "x").unwrap();
    assert_eq!(
        out_text(&mut ui),
        "✓ Verified core/redis\n∵ Missing core/redis\n* Custom x\n"
    );
}

#[test]
fn no_description_gives_plain_stream() {
    for &pref in [Coloring::Auto, Coloring::Always, Coloring::Never].iter() {
        let ws = WriteStream::create(Vec::new(), None);
        let s = OutputStream::new(ws, pref, true);
        assert!(!s.supports_color());
        assert!(!s.is_colored());
        let input = InputStream::new(std::io::empty(), true);
        let err = OutputStream::new(WriteStream::NoColor(Vec::new()), pref, true);
        let mut ui = UI::new(Shell::new(input, s, err));
        ui.status(Status::Installed, "redis").unwrap();
        assert_eq!(out_text(&mut ui), "✓ Installed redis\n");
    }
}

#[test]
fn colorless_description_gives_plain_stream() {
    let ws = WriteStream::create(Vec::new(), Some(description(false)));
    let s = OutputStream::new(ws, Coloring::Always, true);
    assert!(!s.supports_color());
    assert!(!s.is_colored());
}

#[test]
fn color_description_gives_color_stream() {
    let ws = WriteStream::create(Vec::new(), Some(description(true)));
    let s = OutputStream::new(ws, Coloring::Always, false);
    assert!(s.supports_color());
    assert!(s.is_colored());
}

#[test]
fn negotiation_without_description_keeps_a_writer() {
    let ws = WriteStream::create(Vec::new(), None);
    let mut s = OutputStream::new(ws, Coloring::Always, false);
    s.write_str("hello\n").unwrap();
    s.flush().unwrap();
    assert_eq!(s.get_ref().as_slice(), b"hello\n");
}

#[test]
fn custom_status_uses_given_symbol_and_label() {
    let mut ui = ui_with(Coloring::Always, false, true);
    ui.status(Status::Custom('☃', "Melting".to_string()), "snow").unwrap();
    assert_eq!(out_text(&mut ui), "\x1b[1;32m☃ Melting\x1b[0m snow\n");
    let (c, l, colour) = Status::Custom('☃', "Melting".to_string()).parts();
    assert_eq!(c, '☃');
    assert_eq!(l, "Melting");
    assert_eq!(colour, Status::Installed.parts().2);
}

#[test]
fn status_table() {
    let table = vec![
        (Status::Applying, '↑', "Applying", Colour::Green),
        (Status::Cached, '☑', "Cached", Colour::Green),
        (Status::Creating, 'Ω', "Creating", Colour::Green),
        (Status::Downloading, '↓', "Downloading", Colour::Green),
        (Status::Encrypting, '☛', "Encrypting", Colour::Green),
        (Status::Installed, '✓', "Installed", Colour::Green),
        (Status::Missing, '∵', "Missing", Colour::Cyan),
        (Status::Signing, '☛', "Signing", Colour::Cyan),
        (Status::Signed, '✓', "Signed", Colour::Cyan),
        (Status::Uploaded, '✓', "Uploaded", Colour::Green),
        (Status::Uploading, '↑', "Uploading", Colour::Green),
        (Status::Using, '→', "Using", Colour::Green),
        (Status::Verified, '✓', "Verified", Colour::Green),
    ];
    for (status, symbol, label, colour) in table {
        let (s, l, c) = status.parts();
        assert_eq!(s, symbol);
        assert_eq!(l, label);
        assert_eq!(c, colour);
    }
}

#[test]
fn informational_status_is_cyan() {
    let mut ui = ui_with(Coloring::Always, true, true);
    ui.status(Status::Signed, "key").unwrap();
    assert_eq!(out_text(&mut ui), "\x1b[1;36m✓ Signed\x1b[0m key\n");
}

#[test]
fn begin_and_end_headings() {
    let mut ui = ui_with(Coloring::Never, true, true);
    ui.begin("Building").unwrap();
    ui.end("Done").unwrap();
    assert_eq!(out_text(&mut ui), "» Building\n★ Done\n");
    let mut ui = ui_with(Coloring::Always, false, true);
    ui.begin("Building").unwrap();
    ui.end("Done").unwrap();
    assert_eq!(
        out_text(&mut ui),
        "\x1b[1;33m» Building\x1b[0m\n\x1b[1;34m★ Done\x1b[0m\n"
    );
}

#[test]
fn each_call_writes_one_line() {
    for &pref in [Coloring::Always, Coloring::Never].iter() {
        let mut ui = ui_with(pref, true, true);
        ui.begin("a").unwrap();
        ui.status(Status::Using, "b").unwrap();
        ui.end("c").unwrap();
        let text = out_text(&mut ui);
        assert_eq!(text.matches('\n').count(), 3);
        assert!(text.ends_with('\n'));
        assert!(!text.contains("\n\n"));
        assert_eq!(err_text(&mut ui), "");
    }
}

#[test]
fn plain_rendering_has_no_escapes() {
    let statuses = vec![Status::Applying, Status::Cached, Status::Signing, Status::Uploading];
    for s in statuses {
        let line = render_status(false, &s, "msg");
        assert!(!line.contains('\x1b'));
        let colored = render_status(true, &s, "msg");
        assert!(colored.starts_with('\x1b'));
        assert!(colored.ends_with("\x1b[0m msg\n"));
    }
}

#[test]
fn render_heading_exact() {
    assert_eq!(render_heading(false, Colour::Yellow, '»', "x"), "» x\n");
    assert_eq!(render_heading(true, Colour::Blue, '★', "y"), "\x1b[1;34m★ y\x1b[0m\n");
}

#[test]
fn environment_toggles() {
    assert!(is_toggle_set(&Some("true".to_string())));
    assert!(!is_toggle_set(&Some("1".to_string())));
    assert!(!is_toggle_set(&Some("TRUE".to_string())));
    assert!(!is_toggle_set(&None));
    assert_eq!(coloring_for(true), Coloring::Never);
    assert_eq!(coloring_for(false), Coloring::Auto);
    assert_eq!(terminal_override(true), Some(false));
    assert_eq!(terminal_override(false), None);
    assert!(!resolve_terminal(Some(false), true));
    assert!(resolve_terminal(None, true));
    assert!(!resolve_terminal(None, false));
}

#[test]
fn input_stream_reads_and_reports_terminal() {
    let mut input = InputStream::new(&b"abc"[..], true);
    assert!(input.is_a_terminal());
    let mut buf = [0u8; 8];
    let n = input.read(&mut buf).unwrap();
    assert_eq!(&buf[..n], b"abc");
    let input = InputStream::new(std::io::empty(), false);
    assert!(!input.is_a_terminal());
}

#[test]
fn raw_write_and_flush() {
    let mut s = OutputStream::new(WriteStream::NoColor(Vec::new()), Coloring::Auto, false);
    let n = s.write(b"xyz").unwrap();
    assert_eq!(n, 3);
    s.flush().unwrap();
    assert_eq!(s.get_ref().as_slice(), b"xyz");
}

struct Broken;

impl Write for Broken {
    fn write(&mut self, _buf: &[u8]) -> std::io::Result<usize> {
        Err(std::io::Error::new(std::io::ErrorKind::BrokenPipe, "closed"))
    }

    fn flush(&mut self) -> std::io::Result<()> {
        Ok(())
    }
}

#[test]
fn write_failure_is_reported() {
    let input = InputStream::new(std::io::empty(), false);
    let out = OutputStream::new(WriteStream::NoColor(Broken), Coloring::Never, false);
    let err = OutputStream::new(WriteStream::NoColor(Broken), Coloring::Never, false);
    let mut ui = UI::new(Shell::new(input, out, err));
    let e = ui.status(Status::Installed, "redis").unwrap_err();
    assert_eq!(e.kind(), std::io::ErrorKind::BrokenPipe);
    assert!(ui.begin("x").is_err());
}

#[test]
fn fatal_goes_to_diagnostic_stream() {
    let mut ui = ui_with(Coloring::Never, true, true);
    ui.fatal("it broke").unwrap();
    assert_eq!(err_text(&mut ui), "✗ it broke\n");
    assert_eq!(out_text(&mut ui), "");
    let mut ui = ui_with(Coloring::Always, false, true);
    ui.fatal("it broke").unwrap();
    assert_eq!(err_text(&mut ui), "\x1b[1;31m✗ it broke\x1b[0m\n");
}

#[test]
fn color_stream_writes_through_to_the_given_sink() {
    let ws = WriteStream::create(vec![b'>'], Some(description(true)));
    let mut s = OutputStream::new(ws, Coloring::Always, false);
    assert!(s.supports_color());
    s.write_str("hi").unwrap();
    s.flush().unwrap();
    assert_eq!(s.get_ref().as_slice(), b">hi");
}

#[test]
fn explicit_color_support_decides_the_variant() {
    let ws = WriteStream::with_color_support(vec![1u8], description(true), false);
    assert!(matches!(ws, WriteStream::NoColor(ref v) if v == &vec![1u8]));
    let ws = WriteStream::with_color_support(Vec::<u8>::new(), description(false), true);
    assert!(matches!(ws, WriteStream::Color(_)));
}

#[test]
fn colorless_description_keeps_the_given_sink() {
    let ws = WriteStream::create(vec![7u8], Some(description(false)));
    assert!(matches!(ws, WriteStream::NoColor(ref v) if v == &vec![7u8]));
}

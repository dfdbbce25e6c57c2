use forestry::logs::Logger;
use forestry::logs::Options::{Basic, NoBold, NoColor, NoIndex, NoSymbol, Plain};

fn colour_output() {
    colored::control::set_override(true);
}

#[test]
fn info_is_blue_with_bold_header() {
    colour_output();
    let mut l = Logger::new();
    let rs = l.info("info");
    assert_eq!(
        rs[0].console.as_deref(),
        Some("[\x1b[1;34m0000\x1b[0m:\x1b[1;34m*\x1b[0m] \x1b[34minfo\x1b[0m")
    );
}

#[test]
fn critical_is_white_on_red_and_bold() {
    colour_output();
    let mut l = Logger::new();
    l.cfg(&[NoIndex]);
    let rs = l.critical("down");
    assert_eq!(rs[0].console.as_deref(), Some("[\x1b[1;41;37m%\x1b[0m] \x1b[1;41;37mdown\x1b[0m"));
}

#[test]
fn error_body_is_bold_unless_no_bold() {
    colour_output();
    let mut l = Logger::new();
    l.cfg(&[NoSymbol]);
    let rs = l.error("bad");
    assert_eq!(rs[0].console.as_deref(), Some("[\x1b[1;31m0000\x1b[0m] \x1b[1;31mbad\x1b[0m"));
    l.cfg(&[NoBold]);
    let rs = l.error("bad");
    assert_eq!(rs[0].console.as_deref(), Some("[\x1b[31m0001\x1b[0m] \x1b[31mbad\x1b[0m"));
}

#[test]
fn no_color_keeps_bold() {
    colour_output();
    let mut l = Logger::new();
    l.cfg(&[NoColor, NoIndex]);
    let rs = l.success("ok");
    assert_eq!(rs[0].console.as_deref(), Some("[\x1b[1m+\x1b[0m] \x1b[1mok\x1b[0m"));
}

#[test]
fn basic_is_bare_even_with_colour() {
    colour_output();
    let mut l = Logger::new();
    l.cfg(&[Basic]);
    for rs in [l.info("a"), l.warn("b"), l.error("c"), l.success("d"), l.critical("e")] {
        assert_eq!(rs.len(), 1);
    }
    assert_eq!(l.critical("plain text")[0].console.as_deref(), Some("plain text"));
}

#[test]
fn plain_strips_colour_and_bold() {
    colour_output();
    let mut l = Logger::new();
    l.cfg(&[Plain]);
    assert_eq!(l.warn("w")[0].console.as_deref(), Some("[0000:~] w"));
}

#[test]
fn empty_header_leaves_painted_body() {
    colour_output();
    let mut l = Logger::new();
    l.cfg(&[NoIndex, NoSymbol]);
    assert_eq!(l.warn("w")[0].console.as_deref(), Some("\x1b[33mw\x1b[0m"));
}

#[test]
fn inner_reset_is_reopened() {
    colour_output();
    let mut l = Logger::new();
    l.cfg(&[NoIndex, NoSymbol]);
    assert_eq!(
        l.info("a\x1b[0mb")[0].console.as_deref(),
        Some("\x1b[34ma\x1b[0m\x1b[34mb\x1b[0m")
    );
}

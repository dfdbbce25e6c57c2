use forestry::level::Level;
use forestry::logs::{Logger, Options, Origin, Record, Sink, OVERFLOW_NOTICE};
use forestry::logs::Options::{
    Basic, File, FileAt, FileOnly, NoBold, NoColor, NoIndex, NoSymbol, Plain, Reset, Timer, TimerAt,
};
use forestry::render::plain_line;
use forestry::text::{elapsed_label, index_label};

fn plain_output() {
    colored::control::set_override(false);
}

fn five(l: &mut Logger) -> Vec<Record> {
    let mut all = Vec::new();
    all.extend(l.info("info"));
    all.extend(l.warn("warning"));
    all.extend(l.error("error"));
    all.extend(l.success("success"));
    all.extend(l.critical("critical"));
    all
}

fn consoles(rs: &[Record]) -> Vec<String> {
    rs.iter().map(|r| r.console.clone().unwrap()).collect()
}

#[test]
fn logger_prints() {
    plain_output();
    let mut l = Logger::new();
    let rs = five(&mut l);
    assert_eq!(
        consoles(&rs),
        vec!["[0000:*] info", "[0001:~] warning", "[0002:!] error", "[0003:+] success", "[0004:%] critical"]
    );
    assert!(rs.iter().all(|r| r.file.is_none() && r.elapsed.is_none() && r.origin == Origin::Caller));
    assert_eq!(l.index(), 5);
}

#[test]
fn logger_no_header() {
    plain_output();
    let mut l = Logger::new();
    l.cfg(&[NoIndex, NoSymbol]);
    let rs = five(&mut l);
    assert_eq!(consoles(&rs), vec!["info", "warning", "error", "success", "critical"]);
}

#[test]
fn logger_plain() {
    plain_output();
    let mut l = Logger::new();
    l.cfg(&[Plain]);
    assert_eq!(l.flags(), 0x0c);
    let rs = five(&mut l);
    assert_eq!(
        consoles(&rs),
        vec!["[0000:*] info", "[0001:~] warning", "[0002:!] error", "[0003:+] success", "[0004:%] critical"]
    );
}

#[test]
fn logger_basic() {
    plain_output();
    let mut l = Logger::new();
    l.cfg(&[Basic]);
    assert_eq!(l.flags(), 0x0f);
    let rs = five(&mut l);
    assert_eq!(consoles(&rs), vec!["info", "warning", "error", "success", "critical"]);
}

#[test]
fn logger_no_index() {
    plain_output();
    let mut l = Logger::new();
    l.cfg(&[NoIndex]);
    let rs = five(&mut l);
    assert_eq!(consoles(&rs), vec!["[*] info", "[~] warning", "[!] error", "[+] success", "[%] critical"]);
}

#[test]
fn logger_no_symbol() {
    plain_output();
    let mut l = Logger::new();
    l.cfg(&[NoSymbol]);
    let rs = five(&mut l);
    assert_eq!(
        consoles(&rs),
        vec!["[0000] info", "[0001] warning", "[0002] error", "[0003] success", "[0004] critical"]
    );
}

#[test]
fn logger_ns_nc_nb() {
    plain_output();
    let mut l = Logger::new();
    l.cfg(&[NoSymbol, NoColor, NoBold]);
    assert_eq!(l.flags(), 0x0e);
    let rs = five(&mut l);
    assert_eq!(
        consoles(&rs),
        vec!["[0000] info", "[0001] warning", "[0002] error", "[0003] success", "[0004] critical"]
    );
}

#[test]
fn logger_no_bold() {
    plain_output();
    let mut l = Logger::new();
    l.cfg(&[NoBold]);
    assert_eq!(l.flags(), 0x08);
    let rs = five(&mut l);
    assert_eq!(consoles(&rs)[0], "[0000:*] info");
}

#[test]
fn logger_file_io() {
    plain_output();
    let mut l = Logger::new();
    l.cfg(&[File, FileOnly]);
    assert_eq!(l.sink(), Some(Sink::DefaultFile));
    assert_eq!(l.flags(), 0x30);
    let rs = five(&mut l);
    assert_eq!(rs.len(), 5);
    assert!(rs.iter().all(|r| r.console.is_none()));
    let files: Vec<String> = rs.iter().map(|r| r.file.clone().unwrap()).collect();
    assert_eq!(
        files,
        vec!["[0000:*] info", "[0001:~] warning", "[0002:!] error", "[0003:+] success", "[0004:%] critical"]
    );
}

#[test]
fn logger_file_at() {
    plain_output();
    let mut l = Logger::new();
    l.cfg(&[FileAt, FileOnly]);
    assert_eq!(l.sink(), Some(Sink::Provided));
    let rs = five(&mut l);
    assert!(rs.iter().all(|r| r.console.is_none()));
    assert_eq!(rs[4].file.as_deref(), Some("[0004:%] critical"));
}

#[test]
fn logger_timer() {
    plain_output();
    let mut l = Logger::new();
    l.cfg(&[Timer]);
    assert_eq!(l.flags(), 0x40);
    let rs = five(&mut l);
    for (k, r) in rs.iter().enumerate() {
        let micros = r.elapsed.unwrap();
        let expected = plain_line(0x40, k as u16, r.level, ["info", "warning", "error", "success", "critical"][k], Some(micros));
        assert_eq!(r.console.as_deref(), Some(expected.as_str()));
        assert!(expected.contains("ms) "));
    }
}

#[test]
fn logger_timer_at() {
    plain_output();
    let start = std::time::Instant::now();
    let mut l = Logger::new();
    l.cfg(&[TimerAt(start)]);
    let rs = five(&mut l);
    assert!(rs.iter().all(|r| r.elapsed.is_some()));
    let first = rs[0].console.clone().unwrap();
    assert!(first.starts_with("[0000:*]("));
    assert!(first.ends_with("ms) info"));
}

#[test]
fn default_info_line() {
    plain_output();
    let mut l = Logger::new();
    let rs = l.info("info");
    assert_eq!(rs.len(), 1);
    assert_eq!(rs[0].level, Level::Info);
    assert_eq!(rs[0].index, 0);
    assert_eq!(rs[0].console.as_deref(), Some("[0000:*] info"));
    assert_eq!(rs[0].file, None);
}

#[test]
fn indices_follow_call_positions() {
    plain_output();
    let mut l = Logger::new();
    for k in 0..300u32 {
        let rs = if k % 2 == 0 { l.info("m") } else { l.error("m") };
        assert_eq!(rs.len(), 1);
        assert_eq!(rs[0].index, k as u16);
        assert!(rs[0].console.as_deref().unwrap().starts_with(&format!("[{:04x}:", k)));
    }
}

#[test]
fn records_number_through_the_wrap() {
    plain_output();
    let mut l = Logger::new();
    let mut q: u32 = 0;
    for _ in 0..65537u32 {
        for r in l.info("m") {
            assert_eq!(r.index as u32, q % 65536);
            q += 1;
        }
    }
    assert_eq!(q, 65538);
    assert_eq!(l.index(), 2);
}

#[test]
fn counter_wraps_with_one_notice() {
    plain_output();
    let mut l = Logger::new();
    l.set_index(0xffff);
    let rs = l.success("last");
    assert_eq!(rs.len(), 2);
    assert_eq!(rs[0].index, 0xffff);
    assert_eq!(rs[0].console.as_deref(), Some("[ffff:+] last"));
    assert_eq!(rs[1].origin, Origin::Overflow);
    assert_eq!(rs[1].level, Level::Warn);
    assert_eq!(rs[1].index, 0);
    assert_eq!(rs[1].console.as_deref(), Some(format!("[0000:~] {}", OVERFLOW_NOTICE).as_str()));
    assert_eq!(l.index(), 1);
    let next = l.info("after");
    assert_eq!(next.len(), 1);
    assert_eq!(next[0].console.as_deref(), Some("[0001:*] after"));
}

#[test]
fn file_only_without_sink_warns_once() {
    plain_output();
    let mut l = Logger::new();
    l.cfg(&[FileOnly]);
    assert_eq!(l.sink(), None);
    let first = l.info("lost");
    assert_eq!(first.len(), 2);
    assert_eq!(first[0].origin, Origin::Caller);
    assert_eq!(first[0].index, 0);
    assert_eq!(first[0].console, None);
    assert_eq!(first[0].file, None);
    assert_eq!(first[1].origin, Origin::MissingSink);
    assert_eq!(first[1].level, Level::Warn);
    assert_eq!(first[1].index, 1);
    assert_eq!(first[1].console, None);
    assert_eq!(first[1].file, None);
    for call in 0..3u16 {
        let rs = l.warn("lost");
        assert_eq!(rs.len(), 1);
        assert_eq!(rs[0].origin, Origin::Caller);
        assert_eq!(rs[0].index, 2 + call);
        assert!(rs[0].console.is_none() && rs[0].file.is_none());
    }
}

#[test]
fn reset_clears_file_only() {
    plain_output();
    let mut l = Logger::new();
    l.cfg(&[FileOnly, Reset, NoSymbol]);
    assert_eq!(l.flags(), 0x02);
    let rs = l.info("shown");
    assert_eq!(rs.len(), 1);
    assert_eq!(rs[0].console.as_deref(), Some("[0000] shown"));
}

#[test]
fn plain_equals_no_color_no_bold() {
    plain_output();
    let mut a = Logger::new();
    a.cfg(&[NoColor, NoBold]);
    let mut b = Logger::new();
    b.cfg(&[Plain]);
    assert_eq!(a.flags(), b.flags());
    assert_eq!(consoles(&five(&mut a)), consoles(&five(&mut b)));
}

#[test]
fn reset_clears_flags_and_keeps_sink() {
    plain_output();
    let mut l = Logger::new();
    l.cfg(&[File, Basic, Timer, Reset]);
    assert_eq!(l.flags(), 0);
    assert_eq!(l.sink(), Some(Sink::DefaultFile));
    let rs = l.warn("w");
    assert_eq!(rs[0].console.as_deref(), Some("[0000:~] w"));
    assert_eq!(rs[0].file, None);
    assert_eq!(rs[0].elapsed, None);
    l.cfg(&[FileOnly]);
    let rs = l.warn("x");
    assert_eq!(rs.len(), 1);
    assert_eq!(rs[0].console, None);
    assert_eq!(rs[0].file, None);
    l.cfg(&[File]);
    let rs = l.warn("y");
    assert_eq!(rs[0].console, None);
    assert_eq!(rs[0].file.as_deref(), Some("[0002:~] y"));
}

#[test]
fn mirrored_line_is_plain_with_console() {
    plain_output();
    let mut l = Logger::new();
    l.cfg(&[FileAt, NoIndex]);
    let rs = l.critical("down");
    assert_eq!(rs[0].console.as_deref(), Some("[%] down"));
    assert_eq!(rs[0].file.as_deref(), Some("[%] down"));
}

#[test]
fn timer_readings_advance() {
    plain_output();
    let mut l = Logger::new();
    l.cfg(&[Timer]);
    let first = l.info("a");
    let waited = std::time::Instant::now();
    while waited.elapsed() < std::time::Duration::from_millis(3) {}
    let second = l.info("b");
    let (t1, t2) = (first[0].elapsed.unwrap(), second[0].elapsed.unwrap());
    assert!(t2 >= t1 + 3000);
    let annotation = |line: &str| line[line.find('(').unwrap()..=line.find(')').unwrap()].to_string();
    let (a1, a2) = (annotation(first[0].console.as_deref().unwrap()), annotation(second[0].console.as_deref().unwrap()));
    assert_ne!(a1, a2);
    assert_eq!(a1, format!("({})", elapsed_label(t1)));
    assert_eq!(a2, format!("({})", elapsed_label(t2)));
}

#[test]
fn labels() {
    assert_eq!(index_label(0), "0000");
    assert_eq!(index_label(0x2a), "002a");
    assert_eq!(index_label(0xbeef), "beef");
    assert_eq!(index_label(0xffff), "ffff");
    assert_eq!(elapsed_label(0), "0.000ms");
    assert_eq!(elapsed_label(7), "0.007ms");
    assert_eq!(elapsed_label(1500), "1.500ms");
    assert_eq!(elapsed_label(12345), "12.345ms");
    assert_eq!(elapsed_label(987654321), "987654.321ms");
}

#[test]
fn plain_line_layouts() {
    assert_eq!(plain_line(0x00, 5, Level::Warn, "w", None), "[0005:~] w");
    assert_eq!(plain_line(0x40, 5, Level::Warn, "w", Some(1234)), "[0005:~](1.234ms) w");
    assert_eq!(plain_line(0x41, 5, Level::Error, "e", Some(1234)), "[!](1.234ms) e");
    assert_eq!(plain_line(0x42, 0x10, Level::Success, "s", Some(0)), "[0010](0.000ms) s");
    assert_eq!(plain_line(0x43, 9, Level::Critical, "c", Some(99)), "c");
    assert_eq!(plain_line(0x0c, 9, Level::Info, "", None), "[0009:*] ");
}

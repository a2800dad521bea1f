use flexi_syslog::bounded::MaxByteWriter;
use flexi_syslog::format::{Formatter5424, StrWriter};
use flexi_syslog::sdata::{SdElement, SdParam};
use flexi_syslog::priority::{
    default_level_mapping, encode_priority, Facility, Level, LevelFilter, LevelToSeverity, Severity,
};

fn app_formatter() -> Formatter5424 {
    Formatter5424::new(
        Facility::User,
        Some("app.domain.com".to_string()),
        Some("app_test".to_string()),
        None,
    )
}

#[test]
fn user_info_priority_is_fourteen() {
    assert_eq!(encode_priority(Severity::Info, Facility::User), 14);
    assert_eq!(encode_priority(Severity::Info, Facility::User), Facility::User.code() | Severity::Info.code());
}

#[test]
fn priority_edges() {
    assert_eq!(encode_priority(Severity::Emerg, Facility::Kern), 0);
    assert_eq!(encode_priority(Severity::Debug, Facility::Local7), 191);
    assert_eq!(encode_priority(Severity::Error, Facility::Local0), 131);
    assert_eq!(encode_priority(Severity::Warning, Facility::Ftp), 92);
}

#[test]
fn priority_is_or_for_all_pairs() {
    let facilities = [
        Facility::Kern, Facility::User, Facility::Mail, Facility::Daemon, Facility::Auth,
        Facility::Syslog, Facility::Lpr, Facility::News, Facility::Uucp, Facility::Cron,
        Facility::Authpriv, Facility::Ftp, Facility::Local0, Facility::Local1, Facility::Local2,
        Facility::Local3, Facility::Local4, Facility::Local5, Facility::Local6, Facility::Local7,
    ];
    let severities = [
        Severity::Emerg, Severity::Alert, Severity::Crit, Severity::Error, Severity::Warning,
        Severity::Notice, Severity::Info, Severity::Debug,
    ];
    for f in facilities {
        for s in severities {
            let p = encode_priority(s, f);
            assert_eq!(p, f.code() | s.code());
            assert_eq!(p, f.code() + s.code());
        }
    }
}

#[test]
fn default_mapping_of_levels() {
    assert_eq!(default_level_mapping(Level::Error), Severity::Error);
    assert_eq!(default_level_mapping(Level::Warn), Severity::Warning);
    assert_eq!(default_level_mapping(Level::Info), Severity::Info);
    assert_eq!(default_level_mapping(Level::Debug), Severity::Debug);
    assert_eq!(default_level_mapping(Level::Trace), Severity::Debug);
    let m = LevelToSeverity::default_mapping();
    assert_eq!(m.map(Level::Trace), Severity::Debug);
    assert_eq!(m.map(Level::Error), Severity::Error);
}

#[test]
fn filters_levels() {
    assert!(LevelFilter::Info.allows(Level::Info));
    assert!(LevelFilter::Info.allows(Level::Error));
    assert!(!LevelFilter::Info.allows(Level::Trace));
    assert!(!LevelFilter::Off.allows(Level::Error));
    assert!(LevelFilter::Trace.allows(Level::Trace));
}

#[test]
fn renders_full_line() {
    let f = app_formatter();
    let line = f.render(Severity::Info, "2025-01-01T00:00:00.000000Z", &[], "Info gets through");
    assert_eq!(
        std::str::from_utf8(&line).unwrap(),
        "<14>1 2025-01-01T00:00:00.000000Z app.domain.com app_test - 0 - Info gets through"
    );
}

#[test]
fn renders_absent_identity() {
    let f = Formatter5424::new(Facility::Local7, None, None, Some(4242));
    let line = f.render(Severity::Debug, "T", &[], "");
    assert_eq!(std::str::from_utf8(&line).unwrap(), "<191>1 T localhost - 4242 0 - ");
    let f = Formatter5424::new(Facility::Kern, None, None, Some(0));
    let line = f.render(Severity::Emerg, "T", &[], "m");
    assert_eq!(std::str::from_utf8(&line).unwrap(), "<0>1 T localhost - 0 0 - m");
}

#[test]
fn format_at_bounds_the_line() {
    let f = app_formatter();
    let mut sink = MaxByteWriter::new(Vec::new(), 40);
    f.format_at(&mut sink, Severity::Info, "2025-01-01T00:00:00.000000Z", &[], "Info gets through");
    assert_eq!(
        std::str::from_utf8(sink.get_ref()).unwrap(),
        "<14>1 2025-01-01T00:00:00.000000Z app.do"
    );
    assert!(sink.is_truncated());
}

#[test]
fn format_stamps_current_time() {
    let f = app_formatter();
    let mut sink = MaxByteWriter::new(Vec::new(), 1024);
    f.format(&mut sink, Severity::Info, &[], "Info gets through");
    let s = std::str::from_utf8(sink.get_ref()).unwrap();
    assert!(s.starts_with("<14>1 "));
    assert!(s.ends_with(" app.domain.com app_test - 0 - Info gets through"));
    let stamp = s.split(' ').nth(1).unwrap();
    assert!(stamp.ends_with('Z'));
    assert_eq!(stamp.len(), 27);
}

#[test]
fn str_writer_hands_on_message() {
    let w = StrWriter::new("abc");
    assert_eq!(w.as_str(), "abc");
}

fn param(name: &str, value: &str) -> SdParam {
    SdParam { name: name.to_string(), value: value.to_string() }
}

#[test]
fn renders_structured_data_elements() {
    let f = Formatter5424::new(Facility::Local0, Some("h".to_string()), Some("a".to_string()), Some(7));
    let data = vec![
        SdElement { id: "exampleSDID@32473".to_string(), params: vec![param("iut", "3"), param("eventSource", "Application")] },
        SdElement { id: "examplePriority@32473".to_string(), params: vec![] },
    ];
    let line = f.render(Severity::Notice, "T", &data, "msg");
    assert_eq!(
        std::str::from_utf8(&line).unwrap(),
        "<133>1 T h a 7 0 [exampleSDID@32473 iut=\"3\" eventSource=\"Application\"][examplePriority@32473] msg"
    );
}

#[test]
fn escapes_param_values() {
    let f = Formatter5424::new(Facility::User, None, None, None);
    let data = vec![SdElement { id: "x".to_string(), params: vec![param("k", "a\"b\\c]dé")] }];
    let line = f.render(Severity::Info, "T", &data, "");
    assert_eq!(
        std::str::from_utf8(&line).unwrap(),
        "<14>1 T localhost - - 0 [x k=\"a\\\"b\\\\c\\]dé\"] "
    );
}

#[test]
fn default_facility_is_local0() {
    assert_eq!(Facility::default(), Facility::Local0);
    assert_eq!(Facility::default().code(), 128);
}

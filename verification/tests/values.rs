use givc_cli::report::{dump, optional_bool_to_display, sysinfo, Format};
use givc_cli::text::{chars_of, split_once};
use givc_cli::unit::{unit_type_parse, UnitTypeError};
use givc_cli::watch::WatchLimit;

#[test]
fn unit_numbers() {
    assert_eq!(unit_type_parse("0"), Ok(0));
    assert_eq!(unit_type_parse("11"), Ok(11));
    assert_eq!(unit_type_parse("+7"), Ok(7));
    assert_eq!(unit_type_parse("000042"), Ok(42));
    assert_eq!(unit_type_parse("4294967295"), Ok(u32::MAX));
    assert_eq!(unit_type_parse("4294967296"), Err(UnitTypeError::PosOverflow));
    assert_eq!(unit_type_parse(""), Err(UnitTypeError::Empty));
    assert_eq!(unit_type_parse("-1"), Err(UnitTypeError::InvalidDigit));
    assert_eq!(unit_type_parse("99999999999x"), Err(UnitTypeError::PosOverflow));
    assert_eq!(unit_type_parse("9x99999999999"), Err(UnitTypeError::InvalidDigit));
}

#[test]
fn unit_numbers_are_read_as_the_standard_library_reads_them() {
    for text in [
        "", "+", "-", "++1", "+-1", "-0", "0", "00000000000000000000001", "1_000", " 1", "1 ", "1.0",
        "4294967295", "4294967296", "42949672950", "4294967299x", "429496729x", "99999999999x",
        "+4294967295", "+4294967296", "\u{663}", "12\u{663}", "x", "0x10",
    ] {
        let expected = text.parse::<u32>().map_err(|error| error.to_string());
        let read = unit_type_parse(text).map_err(|error| error.message().to_string());
        assert_eq!(read, expected, "{text:?}");
    }
}

#[test]
fn states_are_displayed() {
    assert_eq!(optional_bool_to_display(Some(true)), "enabled");
    assert_eq!(optional_bool_to_display(Some(false)), "disabled");
    assert_eq!(optional_bool_to_display(None), "unknown");
}

#[test]
fn sysinfo_lines() {
    assert_eq!(
        sysinfo("25.06", Some(true), None),
        "Ghaf Version: 25.06\nSecure Boot: enabled\nDisk Encryption: unknown\n"
    );
    assert_eq!(
        sysinfo("", None, Some(false)),
        "Ghaf Version: \nSecure Boot: unknown\nDisk Encryption: disabled\n"
    );
}

#[test]
fn dump_formats() {
    assert_eq!(dump(true), Format::Json);
    assert_eq!(dump(false), Format::Pretty);
}

#[test]
fn watch_limit_counts() {
    let mut three = WatchLimit::new(Some(3));
    let shown: Vec<bool> = (0..5).map(|_| three.next()).collect();
    assert_eq!(shown, vec![true, true, true, false, false]);
    let mut none = WatchLimit::new(Some(0));
    assert!(!none.next());
    let mut all = WatchLimit::new(None);
    assert!((0..1000).all(|_| all.next()));
}

#[test]
fn texts_are_split() {
    assert_eq!(split_once("a=b=c", '='), Some(("a", "b=c")));
    assert_eq!(split_once("=", '='), Some(("", "")));
    assert_eq!(split_once("\u{e9}\u{20ac}+\u{1f600}", '+'), Some(("\u{e9}\u{20ac}", "\u{1f600}")));
    assert_eq!(split_once("abc", '='), None);
    assert_eq!(split_once("", '='), None);
    assert_eq!(chars_of("a\u{20ac}"), vec!['a', '\u{20ac}']);
}

use aifw_api::json::{texts_in_column, texts_to_json};
use aifw_api::kv::{bool_str, find, items_of, nonempty, put, split_csv};
use aifw_api::net::{ip_ok, ipv4_in_subnet, ipv6_ok, is_loopback, parse_ipv4, parse_v4_cidr};
use aifw_api::number::{decimal_ok, fmt_i64, fmt_u64, parse_u16, parse_u64, parse_u8};
use aifw_api::text::{
    contains_text, join_text, lines_of, lowercase_text, pad_right, split_once, split_text, strip_prefix, trimmed, words_of,
};

fn text(s: &str) -> String {
    s.to_string()
}

#[test]
fn numbers_are_written_and_read() {
    assert_eq!(fmt_u64(u64::MAX), "18446744073709551615");
    assert_eq!(fmt_i64(i64::MIN), "-9223372036854775808");
    assert_eq!(parse_u64("18446744073709551615"), Some(u64::MAX));
    assert_eq!(parse_u64("18446744073709551616"), None);
    assert_eq!(parse_u8("+255"), Some(255));
    assert_eq!(parse_u8("256"), None);
    assert_eq!(parse_u16(""), None);
    assert_eq!(parse_u16(" 1"), None);
    for n in [0u64, 7, 10, 12345] {
        assert_eq!(parse_u64(&fmt_u64(n)), Some(n));
    }
}

#[test]
fn texts_are_cut() {
    assert_eq!(trimmed("\t a b \u{a0}\n"), "a b");
    assert_eq!(split_text("a,,b", ','), vec!["a", "", "b"]);
    assert_eq!(split_text("", ','), vec![""]);
    assert_eq!(split_once("a=b=c", '='), Some((text("a"), text("b=c"))));
    assert_eq!(split_once("a", '='), None);
    assert_eq!(strip_prefix("Bearer x", "Bearer ").as_deref(), Some("x"));
    assert_eq!(strip_prefix("bearer x", "Bearer "), None);
    assert_eq!(lines_of("a\r\nb\n\nc"), vec!["a", "b", "", "c"]);
    assert_eq!(lines_of(""), Vec::<String>::new());
    assert_eq!(words_of("  a\tb  c "), vec!["a", "b", "c"]);
    assert!(contains_text("route: File exists", "File exists"));
    assert_eq!(lowercase_text("AbÄ"), "abÄ");
    assert_eq!(pad_right("ab", 4), "ab  ");
}

#[test]
fn joining_undoes_splitting() {
    for s in ["", "a", "a,b", ",a,,b,"] {
        assert_eq!(join_text(&split_text(s, ','), ","), s);
    }
}

#[test]
fn lists_are_kept_in_one_text() {
    assert_eq!(split_csv(" a, ,b ,"), vec!["a", "b"]);
    assert_eq!(items_of("x\n\ny", '\n'), vec!["x", "y"]);
    assert_eq!(nonempty(String::new()), None);
    assert_eq!(nonempty(text("a")).as_deref(), Some("a"));
    assert_eq!(bool_str(true), "true");
    assert_eq!(bool_str(false), "false");
}

#[test]
fn last_row_of_a_key_counts() {
    let mut t = Vec::new();
    put(&mut t, "k", "1");
    put(&mut t, "k", "2");
    assert_eq!(find(&t, "k"), Some("2"));
    assert_eq!(find(&t, "x"), None);
}

#[test]
fn addresses_are_read() {
    assert_eq!(parse_ipv4("10.0.0.1"), Some(0x0a00_0001));
    assert_eq!(parse_ipv4("10.0.0.01"), None);
    assert_eq!(parse_ipv4("256.0.0.1"), None);
    assert_eq!(parse_v4_cidr("10.0.0.0/24"), Some((0x0a00_0000, 24)));
    assert_eq!(parse_v4_cidr("10.0.0.0/33"), None);
    assert!(ipv4_in_subnet(0x0a00_00ff, 0x0a00_0000, 24));
    assert!(!ipv4_in_subnet(0x0a00_0100, 0x0a00_0000, 24));
    assert!(ipv4_in_subnet(1, 0xffff_ffff, 0));
    assert!(is_loopback(0x7f00_0001));
    for good in ["::", "::1", "2001:db8::8:800:200c:417a", "::ffff:10.0.0.1", "1:2:3:4:5:6:7:8"] {
        assert!(ipv6_ok(good), "{good}");
    }
    for bad in ["", ":", ":::", "1:2:3:4:5:6:7", "1:2:3:4:5:6:7:8:9", "12345::", "::1::", "g::"] {
        assert!(!ipv6_ok(bad), "{bad}");
    }
    assert!(ip_ok("10.0.0.1") && ip_ok("::1") && !ip_ok("host"));
}

#[test]
fn json_lists_are_written_and_read() {
    let l = vec![text("a\"b"), text("ä"), String::new()];
    assert_eq!(texts_to_json(&l), "[\"a\\\"b\",\"ä\",\"\"]");
    assert_eq!(texts_in_column(Some(&texts_to_json(&l))), l);
    assert!(texts_in_column(Some("{}")).is_empty());
    assert!(texts_in_column(None).is_empty());
}

#[test]
fn fractions_are_what_std_reads_as_floats() {
    for t in [
        "100", "100.0", "5.", ".5", ".", "", "+", "-", "-1.5", "+.5e3", "1e", "1e+", "1e-7", "1E10", "e5", ".e5", "1.2.3", "1e2e3",
        "1e2.5", "inf", "-Infinity", "NaN", "+nan", "infinit", " 1", "1 ", "1_000", "0x10", "--1", "1,5", "\u{661}", "ten",
    ] {
        assert_eq!(decimal_ok(t), t.parse::<f64>().is_ok(), "{t:?}");
    }
}

#[test]
fn shorter_prefixes_keep_a_match() {
    let (a, b) = (0xc0a8_0101, 0xc0a8_01fe);
    assert!(ipv4_in_subnet(a, b, 24) && !ipv4_in_subnet(a, b, 25));
    assert!((0..=24).all(|p| ipv4_in_subnet(a, b, p)));
}

#[test]
fn entries_hold_no_separator() {
    let read = items_of(" a b ,, c;d,\te ", ',');
    assert_eq!(read, ["a b", "c;d", "e"]);
    assert_eq!(items_of(&join_text(&read, ","), ','), read);
}

use aperture::json::{append_bool, append_dec_u32, append_hex_u64, append_json_string};

#[test]
fn decimal_numerals_are_exact() {
    let cases: Vec<(u32, &str)> = vec![
        (0, "0"),
        (7, "7"),
        (10, "10"),
        (30, "30"),
        (1080, "1080"),
        (u32::MAX, "4294967295"),
    ];
    for (n, expected) in cases {
        let mut s = String::new();
        append_dec_u32(&mut s, n);
        assert_eq!(s, expected);
    }
}

#[test]
fn hex_numerals_are_exact() {
    let cases: Vec<(u64, &str)> = vec![
        (0, "0"),
        (10, "a"),
        (255, "ff"),
        (0xdeadbeef, "deadbeef"),
        (u64::MAX, "ffffffffffffffff"),
    ];
    for (n, expected) in cases {
        let mut s = String::new();
        append_hex_u64(&mut s, n);
        assert_eq!(s, expected);
    }
}

#[test]
fn booleans_spell_json() {
    let mut s = String::new();
    append_bool(&mut s, true);
    append_bool(&mut s, false);
    assert_eq!(s, "truefalse");
}

#[test]
fn string_literals_escape_what_json_requires() {
    let mut s = String::new();
    append_json_string(&mut s, "plain");
    assert_eq!(s, "\"plain\"");

    let mut s = String::new();
    append_json_string(&mut s, "a\"b\\c\nd\te");
    assert_eq!(s, "\"a\\\"b\\\\c\\u000ad\\u0009e\"");

    let mut s = String::new();
    append_json_string(&mut s, "");
    assert_eq!(s, "\"\"");

    // Characters above the control range pass through, Unicode included.
    let mut s = String::new();
    append_json_string(&mut s, "héllo ☃");
    assert_eq!(s, "\"héllo ☃\"");
}

use octopos_bootstrapper::number::{append_decimal, append_signed, hex_text, parse_u32};
use octopos_bootstrapper::text::{
    append_quoted, chars_of, double_quotes, ends_with, field_of, first_line, has_text,
    is_white_space, position_of_char, position_of_text, starts_with, string_of, trimmed,
    without_leading,
};

fn chars(text: &str) -> Vec<char> {
    text.chars().collect()
}

fn all_lines(text: &str) -> Vec<String> {
    let all = chars_of(text);
    let mut rest: &[char] = all.as_slice();
    let mut lines = Vec::new();
    while !rest.is_empty() {
        let (line, more) = first_line(rest);
        lines.push(string_of(line));
        rest = more;
    }
    lines
}

const SAMPLES: [&str; 12] = [
    "",
    "a",
    "\n",
    "\r\n",
    "one\ntwo",
    "one\r\ntwo\r\n",
    "one\r\n\r\nthree\r",
    " \t padded \u{a0}\u{3000}\n",
    "a.b.c.d]e",
    "'quoted' it''s",
    "\u{2003}ñandú\u{2003}",
    "\"\"A\"B\"",
];

#[test]
fn white_space_is_that_of_the_standard_library() {
    for code in 0u32..0x11_0000 {
        if let Some(c) = char::from_u32(code) {
            assert_eq!(is_white_space(c), c.is_whitespace(), "{:x}", code);
        }
    }
}

#[test]
fn lines_are_those_of_the_standard_library() {
    for sample in SAMPLES {
        let expected: Vec<String> = sample.lines().map(|l| l.to_string()).collect();
        assert_eq!(all_lines(sample), expected, "{:?}", sample);
    }
}

#[test]
fn trimming_is_that_of_the_standard_library() {
    for sample in SAMPLES {
        let all = chars(sample);
        assert_eq!(string_of(trimmed(&all)), sample.trim());
        assert_eq!(string_of(without_leading(&all, '"')), sample.trim_start_matches('"'));
    }
}

#[test]
fn searching_is_that_of_the_standard_library() {
    let patterns = ["", "a", "o", "one", "two", "\r\n", "''", "ñan", "zzz"];
    for sample in SAMPLES {
        let all = chars(sample);
        for pattern in patterns {
            let wanted = chars(pattern);
            assert_eq!(has_text(sample, pattern), sample.contains(pattern));
            assert_eq!(starts_with(&all, &wanted), sample.starts_with(pattern));
            assert_eq!(ends_with(&all, &wanted), sample.ends_with(pattern));
            let expected = sample.find(pattern).map(|at| sample[..at].chars().count());
            assert_eq!(position_of_text(&all, &wanted), expected);
        }
        let expected = sample.find('o').map(|at| sample[..at].chars().count());
        assert_eq!(position_of_char(&all, 'o'), expected);
    }
}

#[test]
fn fields_are_those_of_the_standard_library() {
    for sample in SAMPLES {
        let all = chars(sample);
        for n in 0..6usize {
            let expected = sample.split('.').nth(n).map(|s| s.to_string());
            assert_eq!(field_of(&all, '.', n).map(string_of), expected);
        }
    }
}

#[test]
fn apostrophes_are_doubled() {
    assert_eq!(double_quotes(""), "");
    assert_eq!(double_quotes("it's"), "it''s");
    assert_eq!(double_quotes("''"), "''''");
    for sample in SAMPLES {
        assert_eq!(double_quotes(sample), sample.replace('\'', "''"));
    }
}

#[test]
fn literal_is_read_back() {
    let mut script = String::from("x ");
    append_quoted(&mut script, "C:\\Users\\O'Brien\\setup.exe");
    script.push_str(" y");
    assert_eq!(script, "x 'C:\\Users\\O''Brien\\setup.exe' y");
    let inner = &script[3..script.len() - 3];
    assert_eq!(inner.replace("''", "'"), "C:\\Users\\O'Brien\\setup.exe");
}

#[test]
fn numbers_are_written_in_decimal() {
    for n in [0u32, 7, 10, 99, 100, 19041, u32::MAX] {
        let mut text = String::from("n=");
        append_decimal(&mut text, n);
        assert_eq!(text, format!("n={}", n));
    }
    for n in [0i32, 5, -1, -1073, 1073, i32::MAX, i32::MIN] {
        let mut text = String::new();
        append_signed(&mut text, n);
        assert_eq!(text, format!("{}", n));
    }
}

#[test]
fn numbers_are_read_as_the_standard_library_does() {
    let samples = [
        "", "+", "-", "0", "7", "+7", "-7", "0012", "19041", "19041 ", " 1", "4294967295",
        "4294967296", "99999999999999999999", "1a", "+4294967295", "++1", "١",
    ];
    for sample in samples {
        assert_eq!(parse_u32(&chars(sample)), sample.parse::<u32>().ok(), "{:?}", sample);
    }
    for n in [0u32, 1, 9, 10, 22621, u32::MAX] {
        assert_eq!(parse_u32(&chars(&n.to_string())), Some(n));
    }
}

#[test]
fn bytes_are_written_in_hexadecimal() {
    assert_eq!(hex_text(&[]), "");
    assert_eq!(hex_text(&[0x00, 0x0f, 0xf0, 0xab]), "000ff0ab");
    let mut seen = std::collections::HashSet::new();
    for b in 0u8..=255 {
        let text = hex_text(&[b]);
        assert_eq!(text, format!("{:02x}", b));
        assert!(seen.insert(text));
    }
}

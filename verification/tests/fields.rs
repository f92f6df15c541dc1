use azusa_proxy_ui::fields::{
    is_space, parse_number, parse_port, parse_ports, trim, trim_slashes, write_ports,
};
use azusa_proxy_ui::text::{clip_bytes, decimal_text, push_signed, to_crlf, utf16_vec};

#[test]
fn white_space_is_what_the_standard_says() {
    for n in 0..=0x10_FFFFu32 {
        if let Some(c) = char::from_u32(n) {
            assert_eq!(is_space(c), c.is_whitespace(), "{n:#x}");
        }
    }
}

#[test]
fn texts_are_trimmed_like_strings() {
    for text in ["", " ", "a", " a", "a ", "\t a b\u{3000}\n", "\u{85}\u{2028}x", "//a//", "//"] {
        assert_eq!(trim(text), text.trim());
        assert_eq!(trim_slashes(text), text.trim_end_matches('/'));
    }
}

#[test]
fn numbers_are_read_like_integers() {
    for text in [
        "", "0", "00", "7", "+7", "++7", "-0", "65535", "65536", "000065535", "1a", "a1", "+", "１",
        "18446744073709551615", "18446744073709551616", "99999999999999999999999", " 1",
    ] {
        assert_eq!(parse_number(text, u64::MAX), text.parse::<u64>().ok(), "{text}");
        assert_eq!(
            parse_number(text, 65535),
            text.parse::<u16>().ok().map(u64::from),
            "{text}"
        );
        assert_eq!(
            parse_number(text, 255),
            text.parse::<u8>().ok().map(u64::from),
            "{text}"
        );
    }
    assert_eq!(parse_number("0", 0), Some(0));
    assert_eq!(parse_number("1", 0), None);
}

#[test]
fn ports_are_read_and_written() {
    assert_eq!(parse_port(" 80 ", "p"), Ok(80));
    assert_eq!(
        parse_port("x", "p"),
        Err("p 必须是 1–65535 的整数（当前「x」）".to_string())
    );
    for list in [vec![], vec![0], vec![1, 2], vec![65535, 1, 80]] {
        assert_eq!(parse_ports(&write_ports(&list)), Ok(list));
    }
    assert_eq!(write_ports(&vec![8001, 8002]), "8001, 8002");
    assert_eq!(parse_ports(" ,;\u{3000}、"), Ok(vec![]));
    assert_eq!(
        parse_ports("1 99999 x"),
        Err("候选端口「99999」 必须是 1–65535 的整数（当前「99999」）".to_string())
    );
}

#[test]
fn numbers_are_written_like_integers() {
    for n in [0, 9, 10, 99, 100, 12_345, u64::MAX] {
        assert_eq!(decimal_text(n), n.to_string());
    }
    for n in [0, -1, 42, i64::MIN, i64::MAX] {
        let mut out = String::from("n=");
        push_signed(&mut out, n);
        assert_eq!(out, format!("n={n}"));
    }
}

#[test]
fn texts_convert_like_strings() {
    for text in ["", "a", "中\u{1F600}\nx", "\n\n", "é"] {
        assert_eq!(utf16_vec(text), text.encode_utf16().collect::<Vec<u16>>());
        assert_eq!(to_crlf(text), text.replace('\n', "\r\n"));
    }
}

#[test]
fn bytes_are_clipped_between_characters() {
    assert_eq!(clip_bytes("中中", 6), ("中中", false));
    assert_eq!(clip_bytes("中中", 5), ("中", true));
    assert_eq!(clip_bytes("中中", 2), ("", true));
    assert_eq!(clip_bytes("abc", 0), ("", true));
}

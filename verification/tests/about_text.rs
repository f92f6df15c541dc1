use azusa_proxy_ui::about_text::{
    chapter_heading, tutorial_text, tutorial_text_for, utf16_len, CHAPTER_LABELS, CLI_LONG_FLAGS,
};
use azusa_proxy_ui::model::OsInfo;

fn windows() -> Option<OsInfo> {
    Some(OsInfo {
        name: "Windows 10".to_string(),
        version: "10.0.19045".to_string(),
        dark_title_bar: true,
    })
}

#[test]
fn chapter_bar_has_eight_labels() {
    assert_eq!(CHAPTER_LABELS.len(), 8);
    assert_eq!(tutorial_text("1.0.0", &windows()).chapters.len(), 8);
}

#[test]
fn chapter_offsets_are_monotonic_inside_the_text() {
    let text = tutorial_text("1.0.0", &windows());
    assert_eq!(text.chapters.len(), 8);
    let chars: Vec<char> = text.body.chars().collect();
    let mut previous = 0usize;
    for (index, (label, offset)) in text.chapters.iter().enumerate() {
        assert_eq!(*label, CHAPTER_LABELS[index]);
        assert!(index == 0 || *offset > previous, "chapter {index} at {offset}");
        assert!(*offset < chars.len());
        let first_line: String = chars[*offset..]
            .iter()
            .take_while(|ch| **ch != '\n')
            .collect();
        assert_eq!(first_line, chapter_heading(index));
        previous = *offset;
    }
    assert_eq!(text.chapters[0].1, 0);
    assert_eq!(utf16_len(&text.body), text.body.chars().count());
}

#[test]
fn about_mentions_every_cli_flag() {
    let tutorial = tutorial_text("1.0.0", &windows()).body;
    assert!(!CLI_LONG_FLAGS.is_empty());
    for flag in CLI_LONG_FLAGS {
        assert!(flag.starts_with("--"), "{flag}");
        assert!(tutorial.contains(flag), "{flag} is not explained");
    }
}

#[test]
fn environment_section_carries_version_and_os() {
    let text = tutorial_text_for("9.9.9", "Windows Test 1（深色标题栏：启用）").body;
    assert!(text.contains("环境（本次运行）"));
    assert!(text.contains("版本：v9.9.9"));
    assert!(text.contains("Windows Test 1（深色标题栏：启用）"));
    assert!(text.contains("构建目标：Windows 7 SP1+ x64"));
    assert!(text.contains("这只是参考命令，程序不再提供该能力"));
    let c10 = ["1", "0"].join("");
    let c172 = ["1", "7", "2"].join("");
    let c192 = ["1", "9", "2"].join("");
    let id = ["k", "1", "0", "0", "a", "i"].join("");
    let mut needles: Vec<String> = vec![format!("{c10}."), format!("{c192}.168."), id];
    for second in 16..=31 {
        needles.push(format!("{c172}.{second}."));
    }
    assert_eq!(needles.len(), 3 + 16);
    for (index, forbidden) in needles.iter().enumerate() {
        assert!(!text.contains(forbidden.as_str()), "needle #{index}");
    }
}

#[test]
fn utf16_len_counts_code_units() {
    assert_eq!(utf16_len(""), 0);
    assert_eq!(utf16_len("中"), 1);
    assert_eq!(utf16_len("a中"), 2);
    assert_eq!(utf16_len("\u{1F600}"), 2);
    assert_ne!(utf16_len("中"), "中".len());
}

#[test]
fn system_line_is_part_of_the_tutorial() {
    let known = tutorial_text("1.2.3", &windows());
    assert!(known.body.contains("Windows 10 10.0.19045（深色标题栏：启用）"));
    assert_eq!(
        known.body,
        tutorial_text_for("1.2.3", "Windows 10 10.0.19045（深色标题栏：启用）").body
    );
    let old = tutorial_text(
        "1.2.3",
        &Some(OsInfo {
            name: "Windows 7".to_string(),
            version: "6.1.7601".to_string(),
            dark_title_bar: false,
        }),
    );
    assert!(old.body.contains("Windows 7 6.1.7601（深色标题栏：按版本闸跳过）"));
    let unknown = tutorial_text("1.2.3", &None);
    assert!(unknown.body.contains("未知（RtlGetVersion 不可用）"));
}

#[test]
fn offsets_count_utf16_units_of_the_version_line() {
    let plain = tutorial_text_for("1", "os");
    let wide = tutorial_text_for("1", "o\u{1F600}s");
    assert_eq!(utf16_len(&wide.body), utf16_len(&plain.body) + 2);
    for (a, b) in plain.chapters.iter().zip(wide.chapters.iter()) {
        assert!(b.1 == a.1 || b.1 == a.1 + 2);
    }
}

#[test]
fn headings_number_the_chapters() {
    assert_eq!(chapter_heading(0), "第一章 · 这是什么");
    assert_eq!(chapter_heading(7), "第八章 · 许可与环境");
}

#[test]
fn every_heading_is_a_line_of_its_own() {
    let tutorial = tutorial_text_for("1.2.3", "Windows 11");
    let units: Vec<u16> = tutorial.body.encode_utf16().collect();
    for (index, (_, at)) in tutorial.chapters.iter().enumerate() {
        let end = at + units[*at..].iter().position(|unit| *unit == 0x0A).unwrap();
        let line = String::from_utf16(&units[*at..end]).unwrap();
        assert_eq!(line, chapter_heading(index));
        assert!(if index == 0 { *at == 0 } else { units[at - 1] == 0x0A });
    }
}

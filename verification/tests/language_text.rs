use update_engine::decimal::usize_to_string;
use update_engine::language::{get_dict, parse_language, Language};

#[test]
fn decimal_rendering_exact() {
    assert_eq!(usize_to_string(0), "0");
    assert_eq!(usize_to_string(7), "7");
    assert_eq!(usize_to_string(10), "10");
    assert_eq!(usize_to_string(12345), "12345");
}

#[test]
fn decimal_rendering_largest() {
    assert_eq!(usize_to_string(usize::MAX), usize::MAX.to_string());
}

#[test]
fn parse_language_selectors() {
    assert_eq!(parse_language("zh"), Some(Language::Chinese));
    assert_eq!(parse_language("ZH"), Some(Language::Chinese));
    assert_eq!(parse_language("Chinese"), Some(Language::Chinese));
    assert_eq!(parse_language("en"), Some(Language::English));
    assert_eq!(parse_language("EN"), Some(Language::English));
    assert_eq!(parse_language("English"), Some(Language::English));
    assert_eq!(parse_language("cHiNeSe"), Some(Language::Chinese));
    assert_eq!(parse_language(""), None);
    assert_eq!(parse_language("de"), None);
    assert_eq!(parse_language("english "), None);
}

#[test]
fn dictionaries_are_language_specific() {
    let zh = get_dict(Language::Chinese);
    assert_eq!(zh.title, "软件更新");
    assert_eq!(zh.status_preparing, "正在准备更新...");
    assert_eq!(zh.status_complete, "软件更新已完成！");
    assert_eq!(zh.status_failed, "软件更新失败！");
    assert_eq!(zh.button_ok, "确定");
    assert_eq!(zh.lang, Language::Chinese);
    let en = get_dict(Language::English);
    assert_eq!(en.title, "Software Update");
    assert_eq!(en.status_preparing, "Preparing update...");
    assert_eq!(en.status_complete, "Software update completed!");
    assert_eq!(en.status_failed, "Software update failed!");
    assert_eq!(en.button_ok, "OK");
    assert_eq!(en.lang, Language::English);
}

#[test]
fn status_replacing_files_formats_counters() {
    let en = get_dict(Language::English);
    assert_eq!(en.status_replacing_files(3, 7), "Replacing files (3/7)...");
    assert_eq!(en.status_replacing_files(0, 0), "Replacing files (0/0)...");
    let zh = get_dict(Language::Chinese);
    assert_eq!(zh.status_replacing_files(12, 120), "正在替换文件 (12/120)...");
}

#[test]
fn status_processing_names_the_file() {
    let en = get_dict(Language::English);
    assert_eq!(en.status_processing("a/b.txt"), "Processing: a/b.txt");
    let zh = get_dict(Language::Chinese);
    assert_eq!(zh.status_processing("x.dll"), "正在处理: x.dll");
}

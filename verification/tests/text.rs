use dlsite::common::{AgeCategory, FileType, WorkCategory, WorkType};
use dlsite::text::{
    chars_of, decimal_string, parse_i32, parse_i64, remove_chars, split, str_eq, strip_prefix,
    trim,
};

#[test]
fn trim_drops_white_space_at_both_ends() {
    assert_eq!("a b", trim("  a b \n\t"));
    assert_eq!("", trim(" \u{3000}\u{a0} "));
    assert_eq!("", trim(""));
    assert_eq!("総計\u{a0}1.2GB", trim("\u{a0}総計\u{a0}1.2GB\u{2003}"));
    assert_eq!("\u{200b}x", trim("\u{200b}x"));
}

#[test]
fn split_keeps_empty_pieces() {
    assert_eq!(vec!["a", "", "b"], split("a//b", '/'));
    assert_eq!(vec![""], split("", '/'));
    assert_eq!(vec!["", ""], split("/", '/'));
    assert_eq!(vec!["abc"], split("abc", '/'));
    assert_eq!(vec!["RG24350", "html"], split("RG24350.html", '.'));
}

#[test]
fn strip_prefix_needs_the_whole_prefix() {
    assert_eq!(Some("SOU".to_string()), strip_prefix("type_SOU", "type_"));
    assert_eq!(Some("".to_string()), strip_prefix("type_", "type_"));
    assert_eq!(None, strip_prefix("type", "type_"));
    assert_eq!(None, strip_prefix("xtype_SOU", "type_"));
    assert_eq!(Some("abc".to_string()), strip_prefix("abc", ""));
}

#[test]
fn remove_chars_drops_each_occurrence() {
    assert_eq!("1234", remove_chars("(1,234)", "(),"));
    assert_eq!("(1234)", remove_chars("(1,234)", ","));
    assert_eq!("", remove_chars(",,,", ","));
}

#[test]
fn parse_i32_reads_what_the_standard_library_reads() {
    for text in [
        "0", "-0", "+0", "1320", "-1320", "+1320", "007", "2147483647", "2147483648",
        "-2147483648", "-2147483649", "99999999999999999999", "", "+", "-", " 1", "1 ", "1,320",
        "1.0", "１２", "--1", "0x10",
    ] {
        assert_eq!(text.parse::<i32>().ok(), parse_i32(text), "{}", text);
    }
}

#[test]
fn parse_i64_reads_what_the_standard_library_reads() {
    for text in [
        "0", "9223372036854775807", "9223372036854775808", "-9223372036854775808",
        "-9223372036854775809", "123456789012", "", "-", "12a",
    ] {
        assert_eq!(text.parse::<i64>().ok(), parse_i64(text), "{}", text);
    }
}

#[test]
fn decimal_string_writes_what_the_standard_library_writes() {
    for n in [0u64, 1, 9, 10, 11, 99, 100, 801, 4294967295, 18446744073709551615] {
        assert_eq!(n.to_string(), decimal_string(n));
    }
}

#[test]
fn chars_and_equality() {
    assert_eq!(vec!['全', '年', '齢'], chars_of("全年齢"));
    assert!(str_eq("R-15", "R-15"));
    assert!(!str_eq("R-15", "R15"));
}

#[test]
fn an_unknown_code_is_kept_as_it_was_written() {
    assert_eq!(WorkType::SOU, WorkType::from_code("SOU"));
    assert_eq!(WorkType::Unknown("sou".to_string()), WorkType::from_code("sou"));
    assert_eq!(WorkType::Unknown("".to_string()), WorkType::from_code(""));
    assert_eq!(WorkType::Unknown("Unknown".to_string()), WorkType::from_code("Unknown"));
    assert_eq!("XYZ", WorkType::from_code("XYZ").to_string());
    assert_eq!(FileType::Unknown("ZIP".to_string()), FileType::from_code("ZIP"));
    assert_eq!(FileType::MP4, FileType::from_code("MP4"));
    assert_eq!(WorkCategory::Doujin, WorkCategory::from_code("doujin"));
    assert_eq!(WorkCategory::Unknown("Doujin".to_string()), WorkCategory::from_code("Doujin"));
}

#[test]
fn every_known_code_reads_back() {
    for code in [
        "ACN", "QIZ", "ADV", "RPG", "TBL", "DNV", "SLN", "TYP", "STG", "PZL", "ETC", "MNG", "SCM",
        "WBT", "ICG", "NRE", "KSV", "MOV", "SOU", "MUS", "TOL", "IMT", "AMT", "ET3", "VCM",
    ] {
        let kind = WorkType::from_code(code);
        assert!(!matches!(kind, WorkType::Unknown(_)), "{}", code);
        assert_eq!(code, kind.to_string());
    }
    for code in [
        "EXE", "HTI", "HTE", "HMO", "IJP", "IGF", "IME", "IBP", "PNG", "AVI", "MVF", "MPG", "MWM",
        "MP4", "AAC", "WAV", "MP3", "ADO", "WMA", "FLC", "OGG", "PDF", "APK", "ET1",
    ] {
        let kind = FileType::from_code(code);
        assert!(!matches!(kind, FileType::Unknown(_)), "{}", code);
        assert_eq!(code, kind.to_string());
    }
    for code in ["doujin", "books", "pc", "app"] {
        let kind = WorkCategory::from_code(code);
        assert!(!matches!(kind, WorkCategory::Unknown(_)), "{}", code);
        assert_eq!(code, kind.to_string());
    }
}

#[test]
fn age_categories_by_number() {
    assert_eq!(Some(AgeCategory::General), AgeCategory::from_number(1));
    assert_eq!(Some(AgeCategory::R15), AgeCategory::from_number(2));
    assert_eq!(Some(AgeCategory::Adult), AgeCategory::from_number(3));
    assert_eq!(None, AgeCategory::from_number(0));
    assert_eq!(None, AgeCategory::from_number(4));
    assert_eq!(3, AgeCategory::Adult.to_number());
    assert_eq!("r15", AgeCategory::R15.to_string());
}

use dlsite::common::{AgeCategory, Genre};
use dlsite::dates::Date;
use dlsite::error::{DlsiteError, FailureKind};
use dlsite::outline::{OutlineTable, RawAnchor, RawCell, RawRow};
use dlsite::product::html::{
    decode_product_page, find_released_date, get_work_outline_table, parse_product_html,
    parse_product_people, read_product_page, RawProductPage,
};
use dlsite::search::RawLink;

fn page_message<T: std::fmt::Debug>(r: Result<T, DlsiteError>) -> String {
    match r {
        Err(DlsiteError::Parse(_, m)) => m,
        other => panic!("expected a parse error, got {:?}", other),
    }
}

fn page(rows: &str) -> String {
    format!(
        "<html><head><title>t</title></head><body>\
<div id=\"work_maker\"><table><tr><th>サークル名</th><td>\
<span class=\"maker_name\"><a href=\"https://www.dlsite.com/maniax/circle/profile/=/maker_id/RG62982.html\">Yostar</a></span>\
</td></tr></table></div>\
<div class=\"product-slider-data\"><div data-src=\"//img.dlsite.jp/a.jpg\"></div><div></div>\
<div data-src=\"//img.dlsite.jp/b c.jpg\"></div></div>\
<table id=\"work_outline\">{rows}</table>\
<div itemprop=\"description\"><p>Hello</p></div>\
<div class=\"work_edition\"><div class=\"type_trans\"><a href=\"/work/en\"> English </a><a>none</a></div></div>\
</body></html>"
    )
}

const ROWS: &str = "\
<tr><th>販売日</th><td><a href=\"/year\">2022年07月17日</a> 0時</td></tr>\
<tr><th> シリーズ名 </th><td><a> A series </a></td></tr>\
<tr><th>作者</th><td><a>A1</a> / <a>A2</a></td></tr>\
<tr><th>シナリオ</th><td><a> S1 </a></td></tr>\
<tr><th>イラスト</th><td>nobody</td></tr>\
<tr><th>声優</th><td><a>V1</a><a>V2</a><a></a></td></tr>\
<tr><th>年齢指定</th><td><div class=\"work_genre\"><a><span title=\"x\">R18</span></a></div></td></tr>\
<tr><th>作品形式</th><td><div class=\"work_genre\"><a><span> ボイス・ASMR </span></a><span>音楽あり</span></div></td></tr>\
<tr><th>ファイル形式</th><td><div class=\"work_genre\"><a><span>WAV</span></a><span> / MP3 </span></div></td></tr>\
<tr><th>ジャンル</th><td><div class=\"main_genre\">\
<a href=\"https://www.dlsite.com/maniax/fsr/=/genre/497/from/work.genre\">ASMR</a>\
<a href=\"/x/y\">Nope</a><a>No target</a>\
<a href=\"/genre/1/genre/2/genre\">Twice</a></div></td></tr>\
<tr><th>ファイル容量</th><td><div class=\"main_genre\"> 総計&nbsp;1.23GB </div></td></tr>\
<tr><th>ページ数</th><td> 24 </td></tr>\
<tr><th>イベント</th><td><a> C100 </a></td></tr>";

#[test]
fn a_page_decodes_field_by_field() {
    let record = parse_product_html(&page(ROWS)).unwrap();
    assert_eq!(Date { year: 2022, month: 7, day: 17 }, record.released_at);
    assert_eq!(Some(AgeCategory::Adult), record.age_rating);
    assert_eq!("RG62982", record.circle_id);
    assert_eq!("Yostar", record.circle_name);
    assert_eq!(
        vec!["https://img.dlsite.jp/a.jpg".to_string(), "https://img.dlsite.jp/b%20c.jpg".to_string()],
        record.images
    );
    assert_eq!(Some(vec!["A1".to_string(), "A2".to_string()]), record.people.author);
    assert_eq!(Some(vec![" S1 ".to_string()]), record.people.scenario);
    assert_eq!(None, record.people.illustrator);
    assert_eq!(Some(vec!["V1".to_string(), "V2".to_string()]), record.people.voice_actor);
    assert_eq!(
        vec![
            Genre { name: "ASMR".to_string(), id: "497".to_string() },
            Genre { name: "Twice".to_string(), id: "2".to_string() },
        ],
        record.genre
    );
    assert_eq!(Some("A series".to_string()), record.series);
    assert_eq!(vec!["WAV".to_string(), "MP3".to_string()], record.file_format);
    assert_eq!(Some("1.23GB".to_string()), record.file_size);
    assert_eq!(vec!["ボイス・ASMR".to_string(), "音楽あり".to_string()], record.product_format);
    assert_eq!(Some("<p>Hello</p>".to_string()), record.description_html);
    assert_eq!(vec!["C100".to_string()], record.event);
    assert_eq!(Some(" 24 ".to_string()), record.pages);
    assert_eq!(None, record.update_information);
    assert_eq!(vec!["S1".to_string()], record.scenario);
    assert!(record.illustration.is_empty());
    assert!(record.misc.is_empty());
    assert!(record.langs.is_empty());
    assert!(record.music.is_empty());
    assert_eq!(None, record.sys_req);
    assert!(record.coupling.is_empty());
    assert_eq!(vec![("English".to_string(), "/work/en".to_string())], record.lang_refs);
}

#[test]
fn a_page_of_known_rows_leaves_no_row_behind() {
    assert!(parse_product_html(&page(ROWS)).is_ok());
    assert!(parse_product_html(&page("<tr><th>販売日</th><td>2023年1月21日</td></tr>")).is_ok());
}

#[test]
fn a_row_that_no_rule_knows_fails_the_page() {
    let rows = format!("{ROWS}<tr><th>謎の項目</th><td>x</td></tr>");
    assert_eq!("failed to parse tags 1", page_message(parse_product_html(&page(&rows))));
    let rows = format!("{ROWS}<tr><th>謎</th><td>x</td></tr><tr><th>More</th><td>y</td></tr>\
<tr><th>謎</th><td>again</td></tr>");
    assert_eq!("failed to parse tags 2", page_message(parse_product_html(&page(&rows))));
}

#[test]
fn a_row_without_header_or_cell_is_no_row() {
    let rows = format!("{ROWS}<tr><td>no header</td></tr><tr><th>no cell</th></tr><tr><th></th><td>x</td></tr>");
    assert!(parse_product_html(&page(&rows)).is_ok());
}

#[test]
fn a_page_without_its_circle_fails() {
    let html = "<html><body><table id=\"work_outline\"><tr><th>販売日</th><td>2022年07月17日</td></tr></table></body></html>";
    assert_eq!("No circle found", page_message(parse_product_html(html)));
    assert_eq!("No circle found", page_message(parse_product_html("")));
}

#[test]
fn a_page_without_its_release_date_fails() {
    assert_eq!("No released_at found", page_message(parse_product_html(&page(""))));
    assert_eq!(
        "No released_at found",
        page_message(parse_product_html(&page("<tr><th>販売日</th><td></td></tr>")))
    );
    assert_eq!(
        "Failed to parse released_at",
        page_message(parse_product_html(&page("<tr><th>販売日</th><td>soon</td></tr>")))
    );
    assert_eq!(
        "Failed to parse released_at",
        page_message(parse_product_html(&page("<tr><th>販売日</th><td>2022年13月40日</td></tr>")))
    );
}

#[test]
fn an_age_mark_that_is_not_known_fails_the_page() {
    let rows = "<tr><th>販売日</th><td>2022年07月17日</td></tr>\
<tr><th>年齢指定</th><td><span>R-99</span></td></tr>";
    assert_eq!("failed to convert R-99 to enum", page_message(parse_product_html(&page(rows))));
    let rows = "<tr><th>販売日</th><td>2022年07月17日</td></tr><tr><th>年齢指定</th><td>plain</td></tr>";
    assert_eq!("No age rating found", page_message(parse_product_html(&page(rows))));
    let rows = "<tr><th>販売日</th><td>2022年07月17日</td></tr>\
<tr><th>年齢指定</th><td><span>全年齢</span></td></tr>";
    assert_eq!(Some(AgeCategory::General), parse_product_html(&page(rows)).unwrap().age_rating);
    let rows = "<tr><th>販売日</th><td>2022年07月17日</td></tr>\
<tr><th>年齢指定</th><td><span>R-15</span></td></tr>";
    assert_eq!(Some(AgeCategory::R15), parse_product_html(&page(rows)).unwrap().age_rating);
    let rows = "<tr><th>販売日</th><td>2022年07月17日</td></tr>";
    assert_eq!(None, parse_product_html(&page(rows)).unwrap().age_rating);
}

#[test]
fn the_release_date_is_found_inside_other_text() {
    assert_eq!(
        Date { year: 2023, month: 1, day: 21 },
        find_released_date("販売日: 2023年01月21日 16時").unwrap()
    );
    assert_eq!(Date { year: 2024, month: 2, day: 29 }, find_released_date("2024年2月29日").unwrap());
    assert_eq!("Failed to parse released_at", page_message(find_released_date("2023年02月29日")));
    assert_eq!("Failed to parse released_at", page_message(find_released_date("2023-01-21")));
    assert_eq!("Failed to parse released_at", page_message(find_released_date("年月日")));
}

fn cell(text: &str) -> RawCell {
    RawCell {
        texts: vec![text.to_string()],
        links: vec![],
        first_div: None,
        genre_items: None,
        first_span_html: None,
    }
}

fn row(label: &str, text: &str) -> RawRow {
    RawRow { label: Some(label.to_string()), cell: Some(cell(text)) }
}

#[test]
fn the_first_row_of_a_label_wins() {
    let table = OutlineTable::from_rows(vec![
        row(" 販売日 ", "first"),
        row("販売日", "second"),
        RawRow { label: None, cell: Some(cell("no label")) },
        RawRow { label: Some("x".to_string()), cell: None },
        row("ジャンル", "third"),
    ]);
    assert_eq!(2, table.len());
    assert_eq!(vec!["first".to_string()], table.get("販売日").unwrap().texts);
    assert_eq!(vec!["third".to_string()], table.get("ジャンル").unwrap().texts);
    assert!(table.get("x").is_none());
    assert!(table.get(" 販売日 ").is_none());
}

#[test]
fn consuming_removes_the_entry_and_finish_counts_what_is_left() {
    let mut table = OutlineTable::from_rows(vec![row("a", "1"), row("b", "2"), row("c", "3")]);
    assert_eq!("failed to parse tags 3", page_message(table.finish()));
    assert_eq!(vec!["2".to_string()], table.consume("b").unwrap().texts);
    assert!(table.consume("b").is_none());
    assert!(table.consume("z").is_none());
    assert_eq!(2, table.len());
    let cells = table.consume_all(&vec!["c".to_string(), "z".to_string(), "a".to_string(), "c".to_string()]);
    assert_eq!(4, cells.len());
    assert_eq!(vec!["3".to_string()], cells[0].as_ref().unwrap().texts);
    assert!(cells[1].is_none());
    assert_eq!(vec!["1".to_string()], cells[2].as_ref().unwrap().texts);
    assert!(cells[3].is_none());
    assert_eq!(0, table.len());
    assert!(table.finish().is_ok());
}

#[test]
fn a_raw_page_decodes_without_markup() {
    let released = RawRow {
        label: Some("販売日".to_string()),
        cell: Some(cell("2022年07月17日")),
    };
    let genres = RawRow {
        label: Some("ジャンル".to_string()),
        cell: Some(RawCell {
            texts: vec![],
            links: vec![
                RawAnchor { texts: vec!["ASMR".to_string(), "!".to_string()], href: Some("/genre/497".to_string()) },
                RawAnchor { texts: vec![], href: Some("/genre/1".to_string()) },
                RawAnchor { texts: vec!["x".to_string()], href: Some("/genre".to_string()) },
            ],
            first_div: None,
            genre_items: None,
            first_span_html: None,
        }),
    };
    let raw = RawProductPage {
        circle: Some(RawLink { text: Some("Circle".to_string()), href: Some("RG1.html".to_string()) }),
        image_sources: vec![None, Some("//a.example/b c".to_string()), Some("//[".to_string())],
        rows: vec![released, genres],
        description_html: None,
        lang_refs: vec![],
    };
    let record = decode_product_page(raw).unwrap();
    assert_eq!("RG1", record.circle_id);
    assert_eq!("Circle", record.circle_name);
    assert_eq!(vec![Genre { name: "ASMR".to_string(), id: "497".to_string() }], record.genre);
    assert_eq!(None, record.description_html);
    assert_eq!(Date { year: 2022, month: 7, day: 17 }, record.released_at);
    assert_eq!(vec!["https://a.example/b%20c".to_string()], record.images);
}

#[test]
fn a_raw_page_without_circle_name_or_target_fails() {
    let raw = RawProductPage {
        circle: Some(RawLink { text: None, href: Some("RG1.html".to_string()) }),
        image_sources: vec![],
        rows: vec![],
        description_html: None,
        lang_refs: vec![],
    };
    assert_eq!("No circle name found", page_message(decode_product_page(raw)));
    let raw = RawProductPage {
        circle: Some(RawLink { text: Some("c".to_string()), href: None }),
        image_sources: vec![],
        rows: vec![],
        description_html: None,
        lang_refs: vec![],
    };
    assert_eq!("No circle id found", page_message(decode_product_page(raw)));
}

#[test]
fn the_outline_table_is_read_from_the_document() {
    let doc = scraper::Html::parse_document(&page(ROWS));
    let table = get_work_outline_table(&doc);
    assert_eq!(13, table.len());
    let released = table.get("販売日").unwrap();
    assert_eq!(vec!["2022年07月17日".to_string(), " 0時".to_string()], released.texts);
    assert_eq!(1, released.links.len());
    assert_eq!(Some("/year".to_string()), released.links[0].href);
    assert!(table.get("シリーズ名").is_some());
    let age = table.get("年齢指定").unwrap();
    assert_eq!(Some("R18".to_string()), age.first_span_html);
    assert_eq!(Some(vec![vec!["R18".to_string()]]), age.genre_items);
    let size = table.get("ファイル容量").unwrap();
    assert_eq!(Some(vec![" 総計\u{a0}1.23GB ".to_string()]), size.first_div);
    let people = parse_product_people(&table);
    assert_eq!(Some(vec!["A1".to_string(), "A2".to_string()]), people.author);
    assert_eq!(13, table.len());
}

#[test]
fn a_page_is_read_at_its_selectors() {
    let doc = scraper::Html::parse_document(&page(ROWS));
    let raw = read_product_page(&doc);
    let circle = raw.circle.unwrap();
    assert_eq!(Some("Yostar".to_string()), circle.text);
    assert_eq!(
        vec![Some("//img.dlsite.jp/a.jpg".to_string()), None, Some("//img.dlsite.jp/b c.jpg".to_string())],
        raw.image_sources
    );
    assert_eq!(13, raw.rows.len());
    assert_eq!(Some(" シリーズ名 ".to_string()), raw.rows[1].label);
    assert_eq!(Some("<p>Hello</p>".to_string()), raw.description_html);
    assert_eq!(2, raw.lang_refs.len());
    assert_eq!(None, raw.lang_refs[1].href);
    assert_eq!(vec![" English ".to_string()], raw.lang_refs[0].texts);
}

#[test]
fn a_page_failure_says_of_which_kind_it_is() {
    assert_eq!(
        Some(FailureKind::StructuralMismatch),
        parse_product_html("").unwrap_err().kind()
    );
    assert_eq!(
        Some(FailureKind::StructuralMismatch),
        parse_product_html(&page("")).unwrap_err().kind()
    );
    assert_eq!(
        Some(FailureKind::FieldFormat),
        parse_product_html(&page("<tr><th>販売日</th><td>soon</td></tr>")).unwrap_err().kind()
    );
    let rows = "<tr><th>販売日</th><td>2022年07月17日</td></tr>\
<tr><th>年齢指定</th><td><span>R-99</span></td></tr>";
    assert_eq!(Some(FailureKind::FieldFormat), parse_product_html(&page(rows)).unwrap_err().kind());
    let rows = format!("{ROWS}<tr><th>謎の項目</th><td>x</td></tr>");
    assert_eq!(
        Some(FailureKind::ResidualField),
        parse_product_html(&page(&rows)).unwrap_err().kind()
    );
    let table = OutlineTable::from_rows(vec![row("a", "1")]);
    assert!(matches!(
        table.finish(),
        Err(DlsiteError::Parse(FailureKind::ResidualField, m)) if m == "failed to parse tags 1"
    ));
}

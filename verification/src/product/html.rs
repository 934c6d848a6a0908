//! The product page: its outline table and the parts around it, decoded
//! into a [`ProductHtml`].

use crate::common::{AgeCategory, Genre};
use crate::dates::{date_read, find_pattern, pattern_match, read_date, Date};
use crate::dom::{
    attr, attr_of, child_elements, child_elements_of, document_of, inner_html, inner_html_of,
    matches_in, matches_under, parse_document, select_in, select_under, texts, texts_of,
};
use crate::error::{malformed, residual, structural, DlsiteError, Failure, FailureKind};
use crate::outline::{
    has_label, law_known_labels_leave_nothing, law_unknown_label_is_left,
    lemma_rows_make_distinct_labels, lookup, remaining, table_of, taken, OutlineTable, RawAnchor,
    RawAnchorView, RawCell, RawCellView, RawRow, RawRowView,
};
use crate::product::ProductPeople;
use crate::search::{id_from_href, RawLink, RawLinkView};
use crate::select::{concat_all, concat_strings, first_match, first_of, select_first, text_first};
use crate::text::{
    after_prefix, decimal_digits, split, split_on, str_eq, strip_prefix, trim, trimmed,
};
use crate::urls::{url_written, write_url};
use vstd::prelude::*;

verus! {

/// What the product page tells of a work.
#[derive(Debug)]
pub struct ProductHtml {
    pub released_at: Date,
    pub age_rating: Option<AgeCategory>,
    pub circle_id: String,
    pub circle_name: String,
    pub images: Vec<String>,
    pub people: ProductPeople,
    pub genre: Vec<Genre>,
    pub series: Option<String>,
    pub file_format: Vec<String>,
    pub file_size: Option<String>,
    pub product_format: Vec<String>,
    pub description_html: Option<String>,
    pub event: Vec<String>,
    pub pages: Option<String>,
    pub update_information: Option<String>,
    pub scenario: Vec<String>,
    pub illustration: Vec<String>,
    pub misc: Vec<String>,
    pub langs: Vec<String>,
    pub music: Vec<String>,
    pub sys_req: Option<String>,
    pub coupling: Vec<String>,
    pub lang_refs: Vec<(String, String)>,
}

/// What the product page holds at the selectors that the decoder looks at.
#[derive(Debug)]
pub struct RawProductPage {
    /// `#work_maker .maker_name a`.
    pub circle: Option<RawLink>,
    /// `.product-slider-data > div`: the attribute `data-src` of each.
    pub image_sources: Vec<Option<String>>,
    /// `#work_outline tr`: the first `th` and the first `td` of each.
    pub rows: Vec<RawRow>,
    /// `[itemprop='description']`: the inner markup of the first.
    pub description_html: Option<String>,
    /// `.work_edition .type_trans > a`.
    pub lang_refs: Vec<RawAnchor>,
}

pub struct RawProductPageView {
    pub circle: Option<RawLinkView>,
    pub image_sources: Seq<Option<Seq<char>>>,
    pub rows: Seq<RawRowView>,
    pub description_html: Option<Seq<char>>,
    pub lang_refs: Seq<RawAnchorView>,
}

impl DeepView for RawProductPage {
    type V = RawProductPageView;

    open spec fn deep_view(&self) -> RawProductPageView {
        RawProductPageView {
            circle: self.circle.deep_view(),
            image_sources: self.image_sources.deep_view(),
            rows: self.rows.deep_view(),
            description_html: self.description_html.deep_view(),
            lang_refs: self.lang_refs.deep_view(),
        }
    }
}

/// The labels that the field rules know, in the order in which their rows
/// are consumed.
pub open spec fn outline_labels() -> Seq<Seq<char>> {
    seq![
        "作者"@,
        "声優"@,
        "ファイル容量"@,
        "作品形式"@,
        "イベント"@,
        "ページ数"@,
        "更新情報"@,
        "シナリオ"@,
        "イラスト"@,
        "その他"@,
        "対応言語"@,
        "音楽"@,
        "動作環境"@,
        "カップリング"@,
        "ファイル形式"@,
        "年齢指定"@,
        "シリーズ名"@,
        "販売日"@,
        "ジャンル"@,
    ]
}

pub const AT_FILE_SIZE: usize = 2;

pub const AT_PRODUCT_FORMAT: usize = 3;

pub const AT_EVENT: usize = 4;

pub const AT_PAGES: usize = 5;

pub const AT_UPDATE_INFORMATION: usize = 6;

pub const AT_SCENARIO: usize = 7;

pub const AT_ILLUSTRATION: usize = 8;

pub const AT_MISC: usize = 9;

pub const AT_LANGS: usize = 10;

pub const AT_MUSIC: usize = 11;

pub const AT_SYS_REQ: usize = 12;

pub const AT_COUPLING: usize = 13;

pub const AT_FILE_FORMAT: usize = 14;

pub const AT_AGE_RATING: usize = 15;

pub const AT_SERIES: usize = 16;

pub const AT_RELEASED: usize = 17;

pub const AT_GENRE: usize = 18;

/// The pattern of a date as the page writes it.
pub open spec fn date_pattern() -> Seq<char> {
    "\\d*年\\d*月\\d*日"@
}

/// The format of a date as the page writes it.
pub open spec fn date_format() -> Seq<char> {
    "%Y年%m月%d日"@
}

/// The cell that consuming the `k`-th known label yields.
pub open spec fn cell_at(raw: RawProductPageView, k: int) -> Option<RawCellView> {
    taken(table_of(raw.rows), outline_labels(), k)
}

/// All the text of a cell, trimmed.
pub open spec fn cell_text(cell: Option<RawCellView>) -> Option<Seq<char>> {
    match cell {
        Some(c) => Some(trimmed(concat_all(c.texts))),
        None => None,
    }
}

/// The first text node of each link that has one.
pub open spec fn first_texts(links: Seq<RawAnchorView>) -> Seq<Seq<char>>
    decreases links.len(),
{
    if links.len() == 0 {
        Seq::empty()
    } else {
        let before = first_texts(links.drop_last());
        match first_of(links.last().texts) {
            Some(t) => before.push(t),
            None => before,
        }
    }
}

/// The names under a label of people: the first text node of each link of
/// the cell, and nothing where there is no cell or no name.
pub open spec fn people_of(cell: Option<RawCellView>) -> Option<Seq<Seq<char>>> {
    match cell {
        Some(c) => if first_texts(c.links).len() > 0 {
            Some(first_texts(c.links))
        } else {
            None
        },
        None => None,
    }
}

/// The trimmed text of each link of the cell; empty without a cell.
pub open spec fn link_texts(cell: Option<RawCellView>) -> Seq<Seq<char>> {
    match cell {
        Some(c) => c.links.map_values(|a: RawAnchorView| trimmed(concat_all(a.texts))),
        None => Seq::empty(),
    }
}

/// The trimmed text of each item of the cell's list; empty without a cell
/// or a list.
pub open spec fn item_texts(cell: Option<RawCellView>) -> Seq<Seq<char>> {
    match cell {
        Some(c) => match c.genre_items {
            Some(items) => items.map_values(|t: Seq<Seq<char>>| trimmed(concat_all(t))),
            None => Seq::empty(),
        },
        None => Seq::empty(),
    }
}

/// A file format as the page lists it, without the slash that separates it
/// from the one before.
pub open spec fn format_name(texts: Seq<Seq<char>>) -> Seq<char> {
    let v = trimmed(concat_all(texts));
    match after_prefix(v, "/"@) {
        Some(rest) => trimmed(rest),
        None => trimmed(v),
    }
}

/// The file formats of the cell; empty without a cell or a list.
pub open spec fn format_names(cell: Option<RawCellView>) -> Seq<Seq<char>> {
    match cell {
        Some(c) => match c.genre_items {
            Some(items) => items.map_values(|t: Seq<Seq<char>>| format_name(t)),
            None => Seq::empty(),
        },
        None => Seq::empty(),
    }
}

/// The size that the cell states after its fixed prefix.
pub open spec fn file_size_of(cell: Option<RawCellView>) -> Option<Seq<char>> {
    match cell {
        Some(c) => match c.first_div {
            Some(texts) => after_prefix(trimmed(concat_all(texts)), "総計\u{a0}"@),
            None => None,
        },
        None => None,
    }
}

/// The identifier of a genre in the path of a link: the last segment that
/// follows a segment `genre`.
pub open spec fn genre_id(segments: Seq<Seq<char>>) -> Option<Seq<char>>
    decreases segments.len(),
{
    if segments.len() < 2 {
        None
    } else if segments[segments.len() - 2] == "genre"@ {
        Some(segments.last())
    } else {
        genre_id(segments.drop_last())
    }
}

/// The genre that a link names: its first text node and the identifier in
/// its target. A link without either names none.
pub open spec fn genre_of(link: RawAnchorView) -> Option<(Seq<char>, Seq<char>)> {
    match (first_of(link.texts), link.href) {
        (Some(name), Some(href)) => match genre_id(split_on(href, '/')) {
            Some(id) => Some((name, id)),
            None => None,
        },
        _ => None,
    }
}

/// The genres that `links` name, in order.
pub open spec fn genres_of(links: Seq<RawAnchorView>) -> Seq<(Seq<char>, Seq<char>)>
    decreases links.len(),
{
    if links.len() == 0 {
        Seq::empty()
    } else {
        let before = genres_of(links.drop_last());
        match genre_of(links.last()) {
            Some(g) => before.push(g),
            None => before,
        }
    }
}

/// The addresses of the images: each source that has one and that reads as
/// an address under the scheme `https`, in order.
pub open spec fn images_of(sources: Seq<Option<Seq<char>>>) -> Seq<Seq<char>>
    decreases sources.len(),
{
    if sources.len() == 0 {
        Seq::empty()
    } else {
        let before = images_of(sources.drop_last());
        match sources.last() {
            Some(src) => match url_written("https:"@ + src) {
                Some(u) => before.push(u),
                None => before,
            },
            None => before,
        }
    }
}

/// The other language editions: the trimmed text and the target of each
/// link that has a target, in order.
pub open spec fn lang_refs_of(links: Seq<RawAnchorView>) -> Seq<(Seq<char>, Seq<char>)>
    decreases links.len(),
{
    if links.len() == 0 {
        Seq::empty()
    } else {
        let before = lang_refs_of(links.drop_last());
        match links.last().href {
            Some(href) => before.push((trimmed(concat_all(links.last().texts)), href)),
            None => before,
        }
    }
}

/// The rating that the page writes as `mark`.
pub open spec fn age_of_mark(mark: Seq<char>) -> Option<AgeCategory> {
    if mark == "全年齢"@ {
        Some(AgeCategory::General)
    } else if mark == "R18"@ {
        Some(AgeCategory::Adult)
    } else if mark == "R-15"@ {
        Some(AgeCategory::R15)
    } else {
        None
    }
}

/// The text in which the release date is looked for: the first text node of
/// the cell.
pub open spec fn released_text(raw: RawProductPageView) -> Option<Seq<char>> {
    match cell_at(raw, AT_RELEASED as int) {
        Some(c) => first_of(c.texts),
        None => None,
    }
}

/// The release date: the first date pattern in the text, read as a date.
pub open spec fn released_date(text: Seq<char>) -> Option<(int, int, int)> {
    match pattern_match(date_pattern(), text) {
        Some(m) => date_read(m, date_format()),
        None => None,
    }
}

/// The rows that no field rule knows.
pub open spec fn residue(raw: RawProductPageView) -> Seq<(Seq<char>, RawCellView)> {
    remaining(table_of(raw.rows), outline_labels())
}

/// Why `raw` is no product page: the failure of the first check that
/// fails. `None` where `raw` decodes.
pub open spec fn page_failure(raw: RawProductPageView) -> Option<Failure> {
    let age = cell_at(raw, AT_AGE_RATING as int);
    if raw.circle is None {
        Some(structural("No circle found"@))
    } else if raw.circle->0.text is None {
        Some(structural("No circle name found"@))
    } else if raw.circle->0.href is None {
        Some(structural("No circle id found"@))
    } else if age is Some && age->0.first_span_html is None {
        Some(structural("No age rating found"@))
    } else if age is Some && age_of_mark(age->0.first_span_html->0) is None {
        Some(malformed("failed to convert "@ + age->0.first_span_html->0 + " to enum"@))
    } else if released_text(raw) is None {
        Some(structural("No released_at found"@))
    } else if released_date(released_text(raw)->0) is None {
        Some(malformed("Failed to parse released_at"@))
    } else if residue(raw).len() > 0 {
        Some(residual("failed to parse tags "@ + decimal_digits(residue(raw).len())))
    } else {
        None
    }
}

/// Whether `people` are the people that the table of `raw` names.
pub open spec fn people_decoded(raw: RawProductPageView, people: ProductPeople) -> bool {
    let table = table_of(raw.rows);
    &&& people.author.deep_view() == people_of(lookup(table, "作者"@))
    &&& people.scenario.deep_view() == people_of(lookup(table, "シナリオ"@))
    &&& people.illustrator.deep_view() == people_of(lookup(table, "イラスト"@))
    &&& people.voice_actor.deep_view() == people_of(lookup(table, "声優"@))
}

/// Whether `page` is the record that `raw` decodes to. It is meant for a
/// `raw` without failure.
pub open spec fn page_decoded(raw: RawProductPageView, page: ProductHtml) -> bool {
    &&& Some((page.released_at.year as int, page.released_at.month as int, page.released_at.day as int))
        == released_date(released_text(raw)->0)
    &&& page.released_at.in_range()
    &&& page.age_rating == (match cell_at(raw, AT_AGE_RATING as int) {
        Some(c) => age_of_mark(c.first_span_html->0),
        None => None,
    })
    &&& page.circle_id@ == id_from_href(raw.circle->0.href->0)
    &&& page.circle_name@ == raw.circle->0.text->0
    &&& page.images.deep_view() == images_of(raw.image_sources)
    &&& people_decoded(raw, page.people)
    &&& page.genre.deep_view() == (match cell_at(raw, AT_GENRE as int) {
        Some(c) => genres_of(c.links),
        None => Seq::empty(),
    })
    &&& page.series.deep_view() == cell_text(cell_at(raw, AT_SERIES as int))
    &&& page.file_format.deep_view() == format_names(cell_at(raw, AT_FILE_FORMAT as int))
    &&& page.file_size.deep_view() == file_size_of(cell_at(raw, AT_FILE_SIZE as int))
    &&& page.product_format.deep_view() == item_texts(cell_at(raw, AT_PRODUCT_FORMAT as int))
    &&& page.description_html.deep_view() == raw.description_html
    &&& page.event.deep_view() == link_texts(cell_at(raw, AT_EVENT as int))
    &&& page.pages.deep_view() == (match cell_at(raw, AT_PAGES as int) {
        Some(c) => Some(concat_all(c.texts)),
        None => None,
    })
    &&& page.update_information.deep_view() == cell_text(
        cell_at(raw, AT_UPDATE_INFORMATION as int),
    )
    &&& page.scenario.deep_view() == link_texts(cell_at(raw, AT_SCENARIO as int))
    &&& page.illustration.deep_view() == link_texts(cell_at(raw, AT_ILLUSTRATION as int))
    &&& page.misc.deep_view() == item_texts(cell_at(raw, AT_MISC as int))
    &&& page.langs.deep_view() == item_texts(cell_at(raw, AT_LANGS as int))
    &&& page.music.deep_view() == link_texts(cell_at(raw, AT_MUSIC as int))
    &&& page.sys_req.deep_view() == cell_text(cell_at(raw, AT_SYS_REQ as int))
    &&& page.coupling.deep_view() == link_texts(cell_at(raw, AT_COUPLING as int))
    &&& page.lang_refs.deep_view() == lang_refs_of(raw.lang_refs)
}

/// A page whose rows are all known leaves no row behind: where every label
/// of the outline table is one that a field rule knows, consuming the known
/// labels uses the table up, so the check for leftovers succeeds.
pub proof fn law_known_rows_leave_no_residue(raw: RawProductPageView)
    requires
        forall|i: int|
            0 <= i < table_of(raw.rows).len() ==> outline_labels().contains(
                (#[trigger] table_of(raw.rows)[i]).0,
            ),
    ensures
        residue(raw).len() == 0,
{
    lemma_rows_make_distinct_labels(Seq::empty(), raw.rows);
    law_known_labels_leave_nothing(table_of(raw.rows), outline_labels());
}

/// A row that no field rule knows fails the page: where the outline table
/// has a label that is none of the known ones, something is left over, and
/// the page is refused.
pub proof fn law_unknown_row_fails_the_page(raw: RawProductPageView, label: Seq<char>)
    requires
        has_label(table_of(raw.rows), label),
        !outline_labels().contains(label),
    ensures
        residue(raw).len() > 0,
        page_failure(raw) is Some,
{
    lemma_rows_make_distinct_labels(Seq::empty(), raw.rows);
    law_unknown_label_is_left(table_of(raw.rows), outline_labels(), label);
}

/// A page without its mandatory parts is refused, whatever else it holds:
/// the link to the circle with its text and target, and the release date.
pub proof fn law_page_without_anchor_fails(raw: RawProductPageView)
    requires
        raw.circle is None || raw.circle->0.text is None || raw.circle->0.href is None
            || released_text(raw) is None,
    ensures
        page_failure(raw) is Some,
{
}

fn known_labels() -> (labels: Vec<String>)
    ensures
        labels.deep_view() == outline_labels(),
{
    let mut labels: Vec<String> = Vec::new();
    labels.push("作者".to_owned());
    labels.push("声優".to_owned());
    labels.push("ファイル容量".to_owned());
    labels.push("作品形式".to_owned());
    labels.push("イベント".to_owned());
    labels.push("ページ数".to_owned());
    labels.push("更新情報".to_owned());
    labels.push("シナリオ".to_owned());
    labels.push("イラスト".to_owned());
    labels.push("その他".to_owned());
    labels.push("対応言語".to_owned());
    labels.push("音楽".to_owned());
    labels.push("動作環境".to_owned());
    labels.push("カップリング".to_owned());
    labels.push("ファイル形式".to_owned());
    labels.push("年齢指定".to_owned());
    labels.push("シリーズ名".to_owned());
    labels.push("販売日".to_owned());
    labels.push("ジャンル".to_owned());
    proof {
        assert(labels.deep_view() =~= outline_labels());
    }
    labels
}

fn first_text_names(links: &Vec<RawAnchor>) -> (names: Vec<String>)
    ensures
        names.deep_view() == first_texts(links.deep_view()),
{
    let mut names: Vec<String> = Vec::new();
    let mut i: usize = 0;
    proof {
        assert(names.deep_view() =~= Seq::empty());
    }
    while i < links.len()
        invariant
            i <= links.len(),
            names.deep_view() == first_texts(links.deep_view().take(i as int)),
        decreases links.len() - i,
    {
        let ghost before = names.deep_view();
        proof {
            assert(links.deep_view().take(i as int + 1).drop_last() =~= links.deep_view().take(
                i as int,
            ));
        }
        if links[i].texts.len() > 0 {
            let name = links[i].texts[0].clone();
            names.push(name);
            proof {
                assert(names.deep_view() =~= before.push(name@));
            }
        }
        i += 1;
    }
    proof {
        assert(links.deep_view().take(links.len() as int) =~= links.deep_view());
    }
    names
}

fn people_from(cell: Option<&RawCell>) -> (people: Option<Vec<String>>)
    ensures
        people.deep_view() == people_of(cell.deep_view()),
{
    match cell {
        Some(c) => {
            let names = first_text_names(&c.links);
            if names.len() > 0 {
                Some(names)
            } else {
                None
            }
        },
        None => None,
    }
}

/// The people that the table names under the four labels of people. The
/// table keeps its entries.
pub fn parse_product_people(table: &OutlineTable) -> (people: ProductPeople)
    requires
        table.wf(),
    ensures
        people.author.deep_view() == people_of(lookup(table@, "作者"@)),
        people.scenario.deep_view() == people_of(lookup(table@, "シナリオ"@)),
        people.illustrator.deep_view() == people_of(lookup(table@, "イラスト"@)),
        people.voice_actor.deep_view() == people_of(lookup(table@, "声優"@)),
{
    ProductPeople {
        author: people_from(table.get("作者")),
        scenario: people_from(table.get("シナリオ")),
        illustrator: people_from(table.get("イラスト")),
        voice_actor: people_from(table.get("声優")),
    }
}

fn trimmed_text(texts: &Vec<String>) -> (r: String)
    ensures
        r@ == trimmed(concat_all(texts.deep_view())),
{
    let whole = concat_strings(texts);
    trim(whole.as_str())
}

fn cell_text_of(cell: &Option<RawCell>) -> (r: Option<String>)
    ensures
        r.deep_view() == cell_text(cell.deep_view()),
{
    match cell {
        Some(c) => Some(trimmed_text(&c.texts)),
        None => None,
    }
}

fn link_text_list(cell: &Option<RawCell>) -> (r: Vec<String>)
    ensures
        r.deep_view() == link_texts(cell.deep_view()),
{
    let mut out: Vec<String> = Vec::new();
    match cell {
        Some(c) => {
            let mut i: usize = 0;
            while i < c.links.len()
                invariant
                    i <= c.links.len(),
                    out.len() == i,
                    forall|j: int|
                        0 <= j < i ==> (#[trigger] out[j])@ == trimmed(
                            concat_all(c.links.deep_view()[j].texts),
                        ),
                decreases c.links.len() - i,
            {
                out.push(trimmed_text(&c.links[i].texts));
                i += 1;
            }
            proof {
                assert(out.deep_view() =~= link_texts(cell.deep_view()));
            }
        },
        None => {
            proof {
                assert(out.deep_view() =~= Seq::empty());
            }
        },
    }
    out
}

fn item_text_list(cell: &Option<RawCell>) -> (r: Vec<String>)
    ensures
        r.deep_view() == item_texts(cell.deep_view()),
{
    let mut out: Vec<String> = Vec::new();
    proof {
        assert(out.deep_view() =~= Seq::empty());
    }
    match cell {
        Some(c) => match &c.genre_items {
            Some(items) => {
                let mut i: usize = 0;
                while i < items.len()
                    invariant
                        i <= items.len(),
                        out.len() == i,
                        forall|j: int|
                            0 <= j < i ==> (#[trigger] out[j])@ == trimmed(
                                concat_all(items.deep_view()[j]),
                            ),
                    decreases items.len() - i,
                {
                    out.push(trimmed_text(&items[i]));
                    i += 1;
                }
                proof {
                    assert(out.deep_view() =~= item_texts(cell.deep_view()));
                }
            },
            None => {},
        },
        None => {},
    }
    out
}

fn format_name_of(texts: &Vec<String>) -> (r: String)
    ensures
        r@ == format_name(texts.deep_view()),
{
    let v = trimmed_text(texts);
    match strip_prefix(v.as_str(), "/") {
        Some(rest) => trim(rest.as_str()),
        None => trim(v.as_str()),
    }
}

fn format_name_list(cell: &Option<RawCell>) -> (r: Vec<String>)
    ensures
        r.deep_view() == format_names(cell.deep_view()),
{
    let mut out: Vec<String> = Vec::new();
    proof {
        assert(out.deep_view() =~= Seq::empty());
    }
    match cell {
        Some(c) => match &c.genre_items {
            Some(items) => {
                let mut i: usize = 0;
                while i < items.len()
                    invariant
                        i <= items.len(),
                        out.len() == i,
                        forall|j: int|
                            0 <= j < i ==> (#[trigger] out[j])@ == format_name(
                                items.deep_view()[j],
                            ),
                    decreases items.len() - i,
                {
                    out.push(format_name_of(&items[i]));
                    i += 1;
                }
                proof {
                    assert(out.deep_view() =~= format_names(cell.deep_view()));
                }
            },
            None => {},
        },
        None => {},
    }
    out
}

fn file_size_from(cell: &Option<RawCell>) -> (r: Option<String>)
    ensures
        r.deep_view() == file_size_of(cell.deep_view()),
{
    match cell {
        Some(c) => match &c.first_div {
            Some(texts) => {
                let v = trimmed_text(texts);
                strip_prefix(v.as_str(), "総計\u{a0}")
            },
            None => None,
        },
        None => None,
    }
}

fn genre_id_of(segments: &Vec<String>) -> (r: Option<String>)
    ensures
        r.deep_view() == genre_id(segments.deep_view()),
{
    let mut n: usize = segments.len();
    proof {
        assert(segments.deep_view().take(n as int) =~= segments.deep_view());
    }
    while n >= 2
        invariant
            n <= segments.len(),
            genre_id(segments.deep_view()) == genre_id(segments.deep_view().take(n as int)),
        decreases n,
    {
        proof {
            assert(segments.deep_view().take(n as int).drop_last() =~= segments.deep_view().take(
                n as int - 1,
            ));
        }
        if str_eq(segments[n - 2].as_str(), "genre") {
            return Some(segments[n - 1].clone());
        }
        n -= 1;
    }
    None
}

fn genre_list(links: &Vec<RawAnchor>) -> (genres: Vec<Genre>)
    ensures
        genres.deep_view() == genres_of(links.deep_view()),
{
    let mut genres: Vec<Genre> = Vec::new();
    let mut i: usize = 0;
    proof {
        assert(genres.deep_view() =~= Seq::empty());
    }
    while i < links.len()
        invariant
            i <= links.len(),
            genres.deep_view() == genres_of(links.deep_view().take(i as int)),
        decreases links.len() - i,
    {
        let ghost before = genres.deep_view();
        proof {
            assert(links.deep_view().take(i as int + 1).drop_last() =~= links.deep_view().take(
                i as int,
            ));
        }
        if links[i].texts.len() > 0 {
            match &links[i].href {
                Some(href) => {
                    let segments = split(href.as_str(), '/');
                    match genre_id_of(&segments) {
                        Some(id) => {
                            let name = links[i].texts[0].clone();
                            genres.push(Genre { name, id });
                            proof {
                                assert(genres.deep_view() =~= before.push((name@, id@)));
                            }
                        },
                        None => {},
                    }
                },
                None => {},
            }
        }
        i += 1;
    }
    proof {
        assert(links.deep_view().take(links.len() as int) =~= links.deep_view());
    }
    genres
}

fn image_list(sources: &Vec<Option<String>>) -> (images: Vec<String>)
    ensures
        images.deep_view() == images_of(sources.deep_view()),
{
    let mut images: Vec<String> = Vec::new();
    let mut i: usize = 0;
    proof {
        assert(images.deep_view() =~= Seq::empty());
    }
    while i < sources.len()
        invariant
            i <= sources.len(),
            images.deep_view() == images_of(sources.deep_view().take(i as int)),
        decreases sources.len() - i,
    {
        let ghost before = images.deep_view();
        proof {
            assert(sources.deep_view().take(i as int + 1).drop_last()
                =~= sources.deep_view().take(i as int));
        }
        match &sources[i] {
            Some(src) => {
                let mut address = "https:".to_owned();
                address.append(src.as_str());
                match write_url(address.as_str()) {
                    Some(u) => {
                        images.push(u);
                        proof {
                            assert(images.deep_view() =~= before.push(u@));
                        }
                    },
                    None => {},
                }
            },
            None => {},
        }
        i += 1;
    }
    proof {
        assert(sources.deep_view().take(sources.len() as int) =~= sources.deep_view());
    }
    images
}

fn lang_ref_list(links: &Vec<RawAnchor>) -> (refs: Vec<(String, String)>)
    ensures
        refs.deep_view() == lang_refs_of(links.deep_view()),
{
    let mut refs: Vec<(String, String)> = Vec::new();
    let mut i: usize = 0;
    proof {
        assert(refs.deep_view() =~= Seq::empty());
    }
    while i < links.len()
        invariant
            i <= links.len(),
            refs.deep_view() == lang_refs_of(links.deep_view().take(i as int)),
        decreases links.len() - i,
    {
        let ghost before = refs.deep_view();
        proof {
            assert(links.deep_view().take(i as int + 1).drop_last() =~= links.deep_view().take(
                i as int,
            ));
        }
        match &links[i].href {
            Some(href) => {
                let text = trimmed_text(&links[i].texts);
                let target = href.clone();
                refs.push((text, target));
                proof {
                    assert(refs.deep_view() =~= before.push((text@, target@)));
                }
            },
            None => {},
        }
        i += 1;
    }
    proof {
        assert(links.deep_view().take(links.len() as int) =~= links.deep_view());
    }
    refs
}

/// The release date that `text` holds: the first run of text in the shape
/// of a date, read as a date.
pub fn find_released_date(text: &str) -> (r: Result<Date, DlsiteError>)
    ensures
        match r {
            Ok(d) => released_date(text@) == Some((d.year as int, d.month as int, d.day as int))
                && d.in_range(),
            Err(e) => released_date(text@) is None && e.is_failure(malformed("Failed to parse released_at"@)),
        },
{
    match find_pattern("\\d*年\\d*月\\d*日", text) {
        Some(found) => match read_date(found.as_str(), "%Y年%m月%d日") {
            Some(d) => Ok(d),
            None => Err(DlsiteError::malformed("Failed to parse released_at")),
        },
        None => Err(DlsiteError::malformed("Failed to parse released_at")),
    }
}

/// The record that `raw` holds, or the first failure.
///
/// The rows of the outline table are held by label. Each label that a field
/// rule knows is consumed; a row that is left at the end is a failure, since
/// it is a field that no rule accounts for.
pub fn decode_product_page(raw: RawProductPage) -> (r: Result<ProductHtml, DlsiteError>)
    ensures
        match r {
            Ok(page) => page_failure(raw.deep_view()) is None && page_decoded(
                raw.deep_view(),
                page,
            ),
            Err(e) => page_failure(raw.deep_view()) is Some && e.is_failure(
                page_failure(raw.deep_view())->0,
            ),
        },
{
    let ghost view = raw.deep_view();
    let circle = match &raw.circle {
        Some(c) => c,
        None => {
            return Err(DlsiteError::structural("No circle found"));
        },
    };
    let circle_name = match &circle.text {
        Some(t) => t.clone(),
        None => {
            return Err(DlsiteError::structural("No circle name found"));
        },
    };
    let circle_id = match &circle.href {
        Some(h) => {
            let segments = split(h.as_str(), '/');
            let parts = split(segments[segments.len() - 1].as_str(), '.');
            parts[0].clone()
        },
        None => {
            return Err(DlsiteError::structural("No circle id found"));
        },
    };
    let images = image_list(&raw.image_sources);
    let lang_refs = lang_ref_list(&raw.lang_refs);
    let description_html = raw.description_html;
    let mut table = OutlineTable::from_rows(raw.rows);
    let people = parse_product_people(&table);
    let labels = known_labels();
    let cells = table.consume_all(&labels);
    proof {
        assert(forall|k: int| 0 <= k < 19 ==> (#[trigger] cells[k]).deep_view() == cell_at(view, k));
        assert(table@ == residue(view));
    }
    let file_size = file_size_from(&cells[AT_FILE_SIZE]);
    let product_format = item_text_list(&cells[AT_PRODUCT_FORMAT]);
    let event = link_text_list(&cells[AT_EVENT]);
    let pages = match &cells[AT_PAGES] {
        Some(c) => Some(concat_strings(&c.texts)),
        None => None,
    };
    let update_information = cell_text_of(&cells[AT_UPDATE_INFORMATION]);
    let scenario = link_text_list(&cells[AT_SCENARIO]);
    let illustration = link_text_list(&cells[AT_ILLUSTRATION]);
    let misc = item_text_list(&cells[AT_MISC]);
    let langs = item_text_list(&cells[AT_LANGS]);
    let music = link_text_list(&cells[AT_MUSIC]);
    let sys_req = cell_text_of(&cells[AT_SYS_REQ]);
    let coupling = link_text_list(&cells[AT_COUPLING]);
    let file_format = format_name_list(&cells[AT_FILE_FORMAT]);
    let age_rating = match &cells[AT_AGE_RATING] {
        Some(c) => match &c.first_span_html {
            Some(mark) => {
                if str_eq(mark.as_str(), "全年齢") {
                    Some(AgeCategory::General)
                } else if str_eq(mark.as_str(), "R18") {
                    Some(AgeCategory::Adult)
                } else if str_eq(mark.as_str(), "R-15") {
                    Some(AgeCategory::R15)
                } else {
                    let mut message = "failed to convert ".to_owned();
                    message.append(mark.as_str());
                    message.append(" to enum");
                    return Err(DlsiteError::Parse(FailureKind::FieldFormat, message));
                }
            },
            None => {
                return Err(DlsiteError::structural("No age rating found"));
            },
        },
        None => None,
    };
    let series = cell_text_of(&cells[AT_SERIES]);
    let released_at = match &cells[AT_RELEASED] {
        Some(c) => {
            if c.texts.len() > 0 {
                match find_released_date(c.texts[0].as_str()) {
                    Ok(d) => d,
                    Err(e) => {
                        return Err(e);
                    },
                }
            } else {
                return Err(DlsiteError::structural("No released_at found"));
            }
        },
        None => {
            return Err(DlsiteError::structural("No released_at found"));
        },
    };
    let genre = match &cells[AT_GENRE] {
        Some(c) => genre_list(&c.links),
        None => {
            let none: Vec<Genre> = Vec::new();
            proof {
                assert(none.deep_view() =~= Seq::empty());
            }
            none
        },
    };
    match table.finish() {
        Ok(_) => {},
        Err(e) => {
            return Err(e);
        },
    }
    Ok(
        ProductHtml {
            released_at,
            age_rating,
            circle_id,
            circle_name,
            images,
            people,
            genre,
            series,
            file_format,
            file_size,
            product_format,
            description_html,
            event,
            pages,
            update_information,
            scenario,
            illustration,
            misc,
            langs,
            music,
            sys_req,
            coupling,
            lang_refs,
        },
    )
}

/// A link as the page rules read it.
pub open spec fn anchor_read(a: scraper::ElementRef) -> RawAnchorView {
    RawAnchorView { texts: texts_of(a), href: attr_of(a, "href"@) }
}

/// A content cell as the field rules read it.
pub open spec fn cell_read(td: scraper::ElementRef) -> RawCellView {
    RawCellView {
        texts: texts_of(td),
        links: matches_under(td, "a"@).map_values(|a: scraper::ElementRef| anchor_read(a)),
        first_div: match first_match(td, "div"@) {
            Some(div) => Some(texts_of(div)),
            None => None,
        },
        genre_items: match first_match(td, ".work_genre"@) {
            Some(list) => Some(
                child_elements_of(list).map_values(|c: scraper::ElementRef| texts_of(c)),
            ),
            None => None,
        },
        first_span_html: match first_match(td, "span"@) {
            Some(span) => Some(inner_html_of(span)),
            None => None,
        },
    }
}

/// A row as it is read: the label is the first text node of the first `th`,
/// and is read only where the row has a `td` too.
pub open spec fn row_read(tr: scraper::ElementRef) -> RawRowView {
    match (first_match(tr, "th"@), first_match(tr, "td"@)) {
        (Some(th), Some(td)) => RawRowView {
            label: first_of(texts_of(th)),
            cell: Some(cell_read(td)),
        },
        _ => RawRowView { label: None, cell: None },
    }
}

/// The rows of the outline table of `doc`, in the order in which
/// `scraper::Html::select` yields them.
pub open spec fn rows_read(doc: &scraper::Html) -> Seq<RawRowView> {
    matches_in(doc, "#work_outline tr"@).map_values(|tr: scraper::ElementRef| row_read(tr))
}

/// What `doc` holds at the selectors of the page decoder.
pub open spec fn page_read(doc: &scraper::Html) -> RawProductPageView {
    RawProductPageView {
        circle: match first_of(matches_in(doc, "#work_maker .maker_name a"@)) {
            Some(a) => Some(RawLinkView { text: first_of(texts_of(a)), href: attr_of(a, "href"@) }),
            None => None,
        },
        image_sources: matches_in(doc, ".product-slider-data > div"@).map_values(
            |d: scraper::ElementRef| attr_of(d, "data-src"@),
        ),
        rows: rows_read(doc),
        description_html: match first_of(matches_in(doc, "[itemprop='description']"@)) {
            Some(d) => Some(inner_html_of(d)),
            None => None,
        },
        lang_refs: matches_in(doc, ".work_edition .type_trans > a"@).map_values(
            |a: scraper::ElementRef| anchor_read(a),
        ),
    }
}

fn read_anchors(found: &Vec<scraper::ElementRef>) -> (anchors: Vec<RawAnchor>)
    ensures
        anchors.deep_view() == found@.map_values(|a: scraper::ElementRef| anchor_read(a)),
{
    let mut anchors: Vec<RawAnchor> = Vec::new();
    let mut i: usize = 0;
    while i < found.len()
        invariant
            i <= found.len(),
            anchors.len() == i,
            forall|j: int| 0 <= j < i ==> (#[trigger] anchors[j]).deep_view() == anchor_read(found[j]),
        decreases found.len() - i,
    {
        anchors.push(RawAnchor { texts: texts(found[i]), href: attr(found[i], "href") });
        i += 1;
    }
    proof {
        assert(anchors.deep_view() =~= found@.map_values(|a: scraper::ElementRef| anchor_read(a)));
    }
    anchors
}

fn read_cell(td: scraper::ElementRef) -> (cell: RawCell)
    ensures
        cell.deep_view() == cell_read(td),
{
    let links = select_under(td, "a");
    let first_div = match select_first(td, "div") {
        Some(div) => Some(texts(div)),
        None => None,
    };
    let genre_items = match select_first(td, ".work_genre") {
        Some(list) => {
            let children = child_elements(list);
            let mut items: Vec<Vec<String>> = Vec::new();
            let mut i: usize = 0;
            while i < children.len()
                invariant
                    i <= children.len(),
                    items.len() == i,
                    forall|j: int|
                        0 <= j < i ==> (#[trigger] items[j]).deep_view() == texts_of(children[j]),
                decreases children.len() - i,
            {
                items.push(texts(children[i]));
                i += 1;
            }
            proof {
                assert(items.deep_view() =~= children@.map_values(
                    |c: scraper::ElementRef| texts_of(c),
                ));
            }
            Some(items)
        },
        None => None,
    };
    let first_span_html = match select_first(td, "span") {
        Some(span) => Some(inner_html(span)),
        None => None,
    };
    RawCell {
        texts: texts(td),
        links: read_anchors(&links),
        first_div,
        genre_items,
        first_span_html,
    }
}

fn read_row(tr: scraper::ElementRef) -> (row: RawRow)
    ensures
        row.deep_view() == row_read(tr),
{
    match (select_first(tr, "th"), select_first(tr, "td")) {
        (Some(th), Some(td)) => RawRow { label: text_first(th), cell: Some(read_cell(td)) },
        _ => RawRow { label: None, cell: None },
    }
}

/// Reads the rows of the outline table of `doc`.
pub fn read_outline_rows(doc: &scraper::Html) -> (rows: Vec<RawRow>)
    ensures
        rows.deep_view() == rows_read(doc),
{
    let found = select_in(doc, "#work_outline tr");
    let mut rows: Vec<RawRow> = Vec::new();
    let mut i: usize = 0;
    while i < found.len()
        invariant
            i <= found.len(),
            rows.len() == i,
            forall|j: int| 0 <= j < i ==> (#[trigger] rows[j]).deep_view() == row_read(found[j]),
        decreases found.len() - i,
    {
        rows.push(read_row(found[i]));
        i += 1;
    }
    proof {
        assert(rows.deep_view() =~= found@.map_values(|tr: scraper::ElementRef| row_read(tr)));
    }
    rows
}

/// The outline table of `doc`: its rows by trimmed label, the first row of
/// a label winning.
pub fn get_work_outline_table(doc: &scraper::Html) -> (table: OutlineTable)
    ensures
        table.wf(),
        table@ == table_of(rows_read(doc)),
{
    OutlineTable::from_rows(read_outline_rows(doc))
}

/// Reads `doc` at the selectors of the page decoder.
pub fn read_product_page(doc: &scraper::Html) -> (raw: RawProductPage)
    ensures
        raw.deep_view() == page_read(doc),
{
    let makers = select_in(doc, "#work_maker .maker_name a");
    let circle = if makers.len() > 0 {
        Some(RawLink { text: text_first(makers[0]), href: attr(makers[0], "href") })
    } else {
        None
    };
    let slides = select_in(doc, ".product-slider-data > div");
    let mut image_sources: Vec<Option<String>> = Vec::new();
    let mut i: usize = 0;
    while i < slides.len()
        invariant
            i <= slides.len(),
            image_sources.len() == i,
            forall|j: int|
                0 <= j < i ==> (#[trigger] image_sources[j]).deep_view() == attr_of(
                    slides[j],
                    "data-src"@,
                ),
        decreases slides.len() - i,
    {
        image_sources.push(attr(slides[i], "data-src"));
        i += 1;
    }
    proof {
        assert(image_sources.deep_view() =~= slides@.map_values(
            |d: scraper::ElementRef| attr_of(d, "data-src"@),
        ));
    }
    let descriptions = select_in(doc, "[itemprop='description']");
    let description_html = if descriptions.len() > 0 {
        Some(inner_html(descriptions[0]))
    } else {
        None
    };
    let editions = select_in(doc, ".work_edition .type_trans > a");
    RawProductPage {
        circle,
        image_sources,
        rows: read_outline_rows(doc),
        description_html,
        lang_refs: read_anchors(&editions),
    }
}

/// Whether `r` is the outcome of reading the product page `html`.
pub open spec fn product_html_parsed(html: Seq<char>, r: Result<ProductHtml, DlsiteError>) -> bool {
    let raw = page_read(&document_of(html));
    match r {
        Ok(page) => page_failure(raw) is None && page_decoded(raw, page),
        Err(e) => page_failure(raw) is Some && e.is_failure(page_failure(raw)->0),
    }
}

/// The record of the product page `html`.
pub fn parse_product_html(html: &str) -> (r: Result<ProductHtml, DlsiteError>)
    ensures
        product_html_parsed(html@, r),
{
    let doc = parse_document(html);
    decode_product_page(read_product_page(&doc))
}

} // verus!

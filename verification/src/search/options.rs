//! The options of a product search, and the path that asks for them.

use crate::common::{AgeCategory, FileType, WorkCategory, WorkType};
use crate::text::{decimal_digits, decimal_string};
use vstd::prelude::*;

verus! {

/// A value that a path can carry in a segment.
pub trait PathValue {
    /// The segment that stands for the value.
    spec fn path_text(&self) -> Seq<char>;

    fn to_path_text(&self) -> (r: String)
        ensures
            r@ == self.path_text(),
    ;
}

impl PathValue for String {
    open spec fn path_text(&self) -> Seq<char> {
        self@
    }

    fn to_path_text(&self) -> (r: String) {
        self.clone()
    }
}

impl PathValue for u32 {
    open spec fn path_text(&self) -> Seq<char> {
        decimal_digits(*self as nat)
    }

    fn to_path_text(&self) -> (r: String) {
        decimal_string(*self as u64)
    }
}

impl PathValue for AgeCategory {
    open spec fn path_text(&self) -> Seq<char> {
        self.code()
    }

    fn to_path_text(&self) -> (r: String) {
        self.to_string()
    }
}

impl PathValue for FileType {
    open spec fn path_text(&self) -> Seq<char> {
        self.code()
    }

    fn to_path_text(&self) -> (r: String) {
        self.to_string()
    }
}

impl PathValue for WorkCategory {
    open spec fn path_text(&self) -> Seq<char> {
        self.code()
    }

    fn to_path_text(&self) -> (r: String) {
        self.to_string()
    }
}

impl PathValue for WorkType {
    open spec fn path_text(&self) -> Seq<char> {
        self.code()
    }

    fn to_path_text(&self) -> (r: String) {
        self.to_string()
    }
}

/// The language of the listing.
#[derive(Debug, Clone, Copy, PartialEq, Eq, Structural)]
pub enum Language {
    /// Japanese.
    Jp,
}

impl Language {
    /// What a path writes for this value.
    pub open spec fn code(&self) -> Seq<char> {
        match self {
            Language::Jp => "jp"@,
        }
    }

    pub fn to_string(&self) -> (r: String)
        ensures
            r@ == self.code(),
    {
        match self {
            Language::Jp => "jp".to_owned(),
        }
    }
}

impl PathValue for Language {
    open spec fn path_text(&self) -> Seq<char> {
        self.code()
    }

    fn to_path_text(&self) -> (r: String) {
        self.to_string()
    }
}

impl Default for Language {
    fn default() -> (r: Language)
        ensures
            r == Language::Jp,
    {
        Language::Jp
    }
}
/// The audience that a work is sold to.
#[derive(Debug, Clone, Copy, PartialEq, Eq, Structural)]
pub enum SexCategory {
    Male,
    Female,
}

impl SexCategory {
    /// What a path writes for this value.
    pub open spec fn code(&self) -> Seq<char> {
        match self {
            SexCategory::Male => "male"@,
            SexCategory::Female => "female"@,
        }
    }

    pub fn to_string(&self) -> (r: String)
        ensures
            r@ == self.code(),
    {
        match self {
            SexCategory::Male => "male".to_owned(),
            SexCategory::Female => "female".to_owned(),
        }
    }
}

impl PathValue for SexCategory {
    open spec fn path_text(&self) -> Seq<char> {
        self.code()
    }

    fn to_path_text(&self) -> (r: String) {
        self.to_string()
    }
}
/// The sales status of a work.
#[derive(Debug, Clone, Copy, PartialEq, Eq, Structural)]
pub enum AnaFlg {
    Off,
    On,
    Reserve,
    All,
}

impl AnaFlg {
    /// What a path writes for this value.
    pub open spec fn code(&self) -> Seq<char> {
        match self {
            AnaFlg::Off => "off"@,
            AnaFlg::On => "on"@,
            AnaFlg::Reserve => "reserve"@,
            AnaFlg::All => "all"@,
        }
    }

    pub fn to_string(&self) -> (r: String)
        ensures
            r@ == self.code(),
    {
        match self {
            AnaFlg::Off => "off".to_owned(),
            AnaFlg::On => "on".to_owned(),
            AnaFlg::Reserve => "reserve".to_owned(),
            AnaFlg::All => "all".to_owned(),
        }
    }
}

impl PathValue for AnaFlg {
    open spec fn path_text(&self) -> Seq<char> {
        self.code()
    }

    fn to_path_text(&self) -> (r: String) {
        self.to_string()
    }
}
/// The order of a listing.
#[derive(Debug, Clone, Copy, PartialEq, Eq, Structural)]
pub enum Order {
    Trend,
    /// Newest first.
    Release,
    /// Oldest first.
    ReleaseD,
    /// Most downloads first.
    DlD,
    /// Fewest downloads first.
    Dl,
    /// Cheapest first.
    Price,
    /// Most expensive first.
    PriceD,
    /// Best rated first.
    RateD,
    /// Most reviewed first.
    ReviewD,
}

impl Order {
    /// What a path writes for this value.
    pub open spec fn code(&self) -> Seq<char> {
        match self {
            Order::Trend => "trend"@,
            Order::Release => "release"@,
            Order::ReleaseD => "release_d"@,
            Order::DlD => "dl_d"@,
            Order::Dl => "dl"@,
            Order::Price => "price"@,
            Order::PriceD => "price_d"@,
            Order::RateD => "rate_d"@,
            Order::ReviewD => "review_d"@,
        }
    }

    pub fn to_string(&self) -> (r: String)
        ensures
            r@ == self.code(),
    {
        match self {
            Order::Trend => "trend".to_owned(),
            Order::Release => "release".to_owned(),
            Order::ReleaseD => "release_d".to_owned(),
            Order::DlD => "dl_d".to_owned(),
            Order::Dl => "dl".to_owned(),
            Order::Price => "price".to_owned(),
            Order::PriceD => "price_d".to_owned(),
            Order::RateD => "rate_d".to_owned(),
            Order::ReviewD => "review_d".to_owned(),
        }
    }
}

impl PathValue for Order {
    open spec fn path_text(&self) -> Seq<char> {
        self.code()
    }

    fn to_path_text(&self) -> (r: String) {
        self.to_string()
    }
}
/// The parent category of a kind of work.
#[derive(Debug, Clone, Copy, PartialEq, Eq, Structural)]
pub enum WorkTypeCategory {
    Game,
    Comic,
    Illust,
    Novel,
    MovieAudio,
    Music,
    Tool,
    Etc,
}

impl WorkTypeCategory {
    /// What a path writes for this value.
    pub open spec fn code(&self) -> Seq<char> {
        match self {
            WorkTypeCategory::Game => "game"@,
            WorkTypeCategory::Comic => "comic"@,
            WorkTypeCategory::Illust => "illust"@,
            WorkTypeCategory::Novel => "novel"@,
            WorkTypeCategory::MovieAudio => "movie_audio"@,
            WorkTypeCategory::Music => "music"@,
            WorkTypeCategory::Tool => "tool"@,
            WorkTypeCategory::Etc => "etc"@,
        }
    }

    pub fn to_string(&self) -> (r: String)
        ensures
            r@ == self.code(),
    {
        match self {
            WorkTypeCategory::Game => "game".to_owned(),
            WorkTypeCategory::Comic => "comic".to_owned(),
            WorkTypeCategory::Illust => "illust".to_owned(),
            WorkTypeCategory::Novel => "novel".to_owned(),
            WorkTypeCategory::MovieAudio => "movie_audio".to_owned(),
            WorkTypeCategory::Music => "music".to_owned(),
            WorkTypeCategory::Tool => "tool".to_owned(),
            WorkTypeCategory::Etc => "etc".to_owned(),
        }
    }
}

impl PathValue for WorkTypeCategory {
    open spec fn path_text(&self) -> Seq<char> {
        self.code()
    }

    fn to_path_text(&self) -> (r: String) {
        self.to_string()
    }
}
/// Whether a work must have all of the options asked for, or one.
#[derive(Debug, Clone, Copy, PartialEq, Eq, Structural)]
pub enum OptionAndOr {
    And,
    Or,
}

impl OptionAndOr {
    /// What a path writes for this value.
    pub open spec fn code(&self) -> Seq<char> {
        match self {
            OptionAndOr::And => "and"@,
            OptionAndOr::Or => "or"@,
        }
    }

    pub fn to_string(&self) -> (r: String)
        ensures
            r@ == self.code(),
    {
        match self {
            OptionAndOr::And => "and".to_owned(),
            OptionAndOr::Or => "or".to_owned(),
        }
    }
}

impl PathValue for OptionAndOr {
    open spec fn path_text(&self) -> Seq<char> {
        self.code()
    }

    fn to_path_text(&self) -> (r: String) {
        self.to_string()
    }
}
/// How long ago a work was released.
#[derive(Debug, Clone, Copy, PartialEq, Eq, Structural)]
pub enum ReleaseTerm {
    /// No term; paths write it as `None`.
    NoTerm,
    Week,
    Month,
    Year,
    Old,
}

impl ReleaseTerm {
    /// What a path writes for this value.
    pub open spec fn code(&self) -> Seq<char> {
        match self {
            ReleaseTerm::NoTerm => "None"@,
            ReleaseTerm::Week => "Week"@,
            ReleaseTerm::Month => "Month"@,
            ReleaseTerm::Year => "Year"@,
            ReleaseTerm::Old => "Old"@,
        }
    }

    pub fn to_string(&self) -> (r: String)
        ensures
            r@ == self.code(),
    {
        match self {
            ReleaseTerm::NoTerm => "None".to_owned(),
            ReleaseTerm::Week => "Week".to_owned(),
            ReleaseTerm::Month => "Month".to_owned(),
            ReleaseTerm::Year => "Year".to_owned(),
            ReleaseTerm::Old => "Old".to_owned(),
        }
    }
}

impl PathValue for ReleaseTerm {
    open spec fn path_text(&self) -> Seq<char> {
        self.code()
    }

    fn to_path_text(&self) -> (r: String) {
        self.to_string()
    }
}
/// The segments `/key/value`.
pub open spec fn pair(key: Seq<char>, value: Seq<char>) -> Seq<char> {
    "/"@ + key + "/"@ + value
}

/// The segments of an optional value: nothing where there is none.
pub open spec fn option_pair<T: PathValue>(key: Seq<char>, value: Option<T>) -> Seq<char> {
    match value {
        Some(v) => pair(key, v.path_text()),
        None => Seq::empty(),
    }
}

/// The segments `/key[i]/value` of each of `values`, `i` counting from 0.
pub open spec fn indexed_pairs<T: PathValue>(key: Seq<char>, values: Seq<T>) -> Seq<char>
    decreases values.len(),
{
    if values.len() == 0 {
        Seq::empty()
    } else {
        indexed_pairs(key, values.drop_last()) + "/"@ + key + "["@ + decimal_digits(
            (values.len() - 1) as nat,
        ) + "]/"@ + values.last().path_text()
    }
}

/// The segments of an optional list: nothing where there is none.
pub open spec fn option_indexed<T: PathValue>(key: Seq<char>, values: Option<Vec<T>>) -> Seq<char> {
    match values {
        Some(v) => indexed_pairs(key, v@),
        None => Seq::empty(),
    }
}

/// The segments `/key/1` of a flag that is set: nothing where it is not.
pub open spec fn flag_pair(key: Seq<char>, value: Option<bool>) -> Seq<char> {
    if value == Some(true) {
        "/"@ + key + "/1"@
    } else {
        Seq::empty()
    }
}

/// Appends `/key/value`.
pub fn push<T: PathValue>(path: &mut String, key: &str, value: &T)
    ensures
        final(path)@ == old(path)@ + pair(key@, value.path_text()),
{
    let text = value.to_path_text();
    path.append("/");
    path.append(key);
    path.append("/");
    path.append(text.as_str());
    proof {
        assert(path@ =~= old(path)@ + pair(key@, value.path_text()));
    }
}

/// Appends `/key/value` where there is a value.
pub fn push_option<T: PathValue>(path: &mut String, key: &str, value: &Option<T>)
    ensures
        final(path)@ == old(path)@ + option_pair(key@, *value),
{
    match value {
        Some(v) => {
            push(path, key, v);
        },
        None => {
            proof {
                assert(path@ =~= old(path)@ + Seq::<char>::empty());
            }
        },
    }
}

/// Appends `/key[i]/value` for each value of the list, where there is one.
pub fn push_option_array<T: PathValue>(path: &mut String, key: &str, values: &Option<Vec<T>>)
    ensures
        final(path)@ == old(path)@ + option_indexed(key@, *values),
{
    match values {
        Some(list) => {
            let mut i: usize = 0;
            proof {
                assert(path@ =~= old(path)@ + indexed_pairs(key@, list@.take(0)));
            }
            while i < list.len()
                invariant
                    i <= list.len(),
                    path@ == old(path)@ + indexed_pairs(key@, list@.take(i as int)),
                decreases list.len() - i,
            {
                let ghost before = path@;
                proof {
                    assert(list@.take(i as int + 1).drop_last() =~= list@.take(i as int));
                }
                let index = decimal_string(i as u64);
                let text = list[i].to_path_text();
                path.append("/");
                path.append(key);
                path.append("[");
                path.append(index.as_str());
                path.append("]/");
                path.append(text.as_str());
                proof {
                    assert(path@ =~= before + "/"@ + key@ + "["@ + decimal_digits(i as nat) + "]/"@
                        + list@[i as int].path_text());
                    assert(path@ =~= old(path)@ + indexed_pairs(key@, list@.take(i as int + 1)));
                }
                i += 1;
            }
            proof {
                assert(list@.take(list.len() as int) =~= list@);
            }
        },
        None => {
            proof {
                assert(path@ =~= old(path)@ + Seq::<char>::empty());
            }
        },
    }
}

/// Appends `/key/1` where the flag is set.
pub fn push_option_bool(path: &mut String, key: &str, value: &Option<bool>)
    ensures
        final(path)@ == old(path)@ + flag_pair(key@, *value),
{
    let set = match value {
        Some(b) => *b,
        None => false,
    };
    if set {
        path.append("/");
        path.append(key);
        path.append("/1");
        proof {
            assert(path@ =~= old(path)@ + flag_pair(key@, *value));
        }
    } else {
        proof {
            assert(path@ =~= old(path)@ + Seq::<char>::empty());
        }
    }
}

/// What a product search asks for. Every field but the language may be left
/// out.
#[derive(Debug)]
pub struct ProductSearchOptions {
    /// The language of the listing.
    pub language: Language,
    pub keyword_creator: Option<String>,
    pub sex_category: Option<Vec<SexCategory>>,
    pub keyword: Option<String>,
    pub regist_date_end: Option<String>,
    pub price_low: Option<u32>,
    pub price_high: Option<u32>,
    /// The sales status.
    pub ana_flg: Option<AnaFlg>,
    pub age_category: Option<Vec<AgeCategory>>,
    pub work_category: Option<Vec<WorkCategory>>,
    pub order: Option<Order>,
    pub work_type: Option<Vec<WorkType>>,
    pub work_type_category: Option<Vec<WorkTypeCategory>>,
    pub genre: Option<Vec<u32>>,
    pub options_and_or: Option<OptionAndOr>,
    pub options: Option<Vec<String>>,
    pub options_not: Option<Vec<String>>,
    pub file_type: Option<Vec<FileType>>,
    pub rate_average: Option<u32>,
    /// 30, 50 or 100.
    pub per_page: Option<u32>,
    pub page: Option<u32>,
    pub campagin: Option<bool>,
    /// Whether the sale ends within a day.
    pub soon: Option<bool>,
    pub is_pointup: Option<bool>,
    pub is_free: Option<bool>,
    pub release_term: Option<ReleaseTerm>,
}

impl Default for ProductSearchOptions {
    fn default() -> (r: ProductSearchOptions)
        ensures
            r.language == Language::Jp,
            r.keyword_creator is None,
            r.sex_category is None,
            r.keyword is None,
            r.regist_date_end is None,
            r.price_low is None,
            r.price_high is None,
            r.ana_flg is None,
            r.age_category is None,
            r.work_category is None,
            r.order is None,
            r.work_type is None,
            r.work_type_category is None,
            r.genre is None,
            r.options_and_or is None,
            r.options is None,
            r.options_not is None,
            r.file_type is None,
            r.rate_average is None,
            r.per_page is None,
            r.page is None,
            r.campagin is None,
            r.soon is None,
            r.is_pointup is None,
            r.is_free is None,
            r.release_term is None,
    {
        ProductSearchOptions {
            language: Language::Jp,
            keyword_creator: None,
            sex_category: None,
            keyword: None,
            regist_date_end: None,
            price_low: None,
            price_high: None,
            ana_flg: None,
            age_category: None,
            work_category: None,
            order: None,
            work_type: None,
            work_type_category: None,
            genre: None,
            options_and_or: None,
            options: None,
            options_not: None,
            file_type: None,
            rate_average: None,
            per_page: None,
            page: None,
            campagin: None,
            soon: None,
            is_pointup: None,
            is_free: None,
            release_term: None,
        }
    }
}

impl ProductSearchOptions {
    /// The path of the search: its fixed start, then the segments of each
    /// option that is set, in the order of the fields.
    pub open spec fn path(&self) -> Seq<char> {
        "/fsr/ajax/="@
            + pair("language"@, self.language.path_text())
            + option_pair("keyword_creator"@, self.keyword_creator)
            + option_indexed("sex_category"@, self.sex_category)
            + option_pair("keyword"@, self.keyword)
            + option_pair("regist_date_end"@, self.regist_date_end)
            + option_pair("price_low"@, self.price_low)
            + option_pair("price_high"@, self.price_high)
            + option_pair("ana_flg"@, self.ana_flg)
            + option_indexed("age_category"@, self.age_category)
            + option_indexed("work_category"@, self.work_category)
            + option_pair("order"@, self.order)
            + option_indexed("work_type"@, self.work_type)
            + option_indexed("work_type_category"@, self.work_type_category)
            + option_indexed("genre"@, self.genre)
            + option_pair("options_and_or"@, self.options_and_or)
            + option_indexed("options"@, self.options)
            + option_indexed("options_not"@, self.options_not)
            + option_indexed("file_type"@, self.file_type)
            + option_pair("rate_average"@, self.rate_average)
            + option_pair("per_page"@, self.per_page)
            + option_pair("page"@, self.page)
            + flag_pair("campagin"@, self.campagin)
            + flag_pair("soon"@, self.soon)
            + flag_pair("is_pointup"@, self.is_pointup)
            + flag_pair("is_free"@, self.is_free)
            + option_pair("release_term"@, self.release_term)
    }

    /// The path that asks for this search.
    pub fn to_path(&self) -> (path: String)
        ensures
            path@ == self.path(),
    {
        let mut path = "/fsr/ajax/=".to_owned();
        push(&mut path, "language", &self.language);
        push_option(&mut path, "keyword_creator", &self.keyword_creator);
        push_option_array(&mut path, "sex_category", &self.sex_category);
        push_option(&mut path, "keyword", &self.keyword);
        push_option(&mut path, "regist_date_end", &self.regist_date_end);
        push_option(&mut path, "price_low", &self.price_low);
        push_option(&mut path, "price_high", &self.price_high);
        push_option(&mut path, "ana_flg", &self.ana_flg);
        push_option_array(&mut path, "age_category", &self.age_category);
        push_option_array(&mut path, "work_category", &self.work_category);
        push_option(&mut path, "order", &self.order);
        push_option_array(&mut path, "work_type", &self.work_type);
        push_option_array(&mut path, "work_type_category", &self.work_type_category);
        push_option_array(&mut path, "genre", &self.genre);
        push_option(&mut path, "options_and_or", &self.options_and_or);
        push_option_array(&mut path, "options", &self.options);
        push_option_array(&mut path, "options_not", &self.options_not);
        push_option_array(&mut path, "file_type", &self.file_type);
        push_option(&mut path, "rate_average", &self.rate_average);
        push_option(&mut path, "per_page", &self.per_page);
        push_option(&mut path, "page", &self.page);
        push_option_bool(&mut path, "campagin", &self.campagin);
        push_option_bool(&mut path, "soon", &self.soon);
        push_option_bool(&mut path, "is_pointup", &self.is_pointup);
        push_option_bool(&mut path, "is_free", &self.is_free);
        push_option(&mut path, "release_term", &self.release_term);
        path
    }
}

} // verus!

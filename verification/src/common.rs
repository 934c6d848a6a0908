//! The classifications that the catalog attaches to a work.

use crate::error::DlsiteError;
use crate::json::{Json, JsonView};
use crate::shape::FromJson;
use crate::text::str_eq;
use vstd::prelude::*;

verus! {

/// The kind of a work.
#[derive(Debug, Clone, PartialEq, Eq)]
pub enum WorkType {
    /// Action
    ACN,
    /// Quiz
    QIZ,
    /// Adventure
    ADV,
    /// Role-playing
    RPG,
    /// Table
    TBL,
    /// Digital novel
    DNV,
    /// Simulation
    SLN,
    /// Typing
    TYP,
    /// Shooting
    STG,
    /// Puzzle
    PZL,
    /// Miscellaneous games
    ETC,
    /// Manga
    MNG,
    /// Gekiga
    SCM,
    /// Webtoon
    WBT,
    /// CG and illustrations
    ICG,
    /// Novel
    NRE,
    /// Erotic novel
    KSV,
    /// Video
    MOV,
    /// Voice and ASMR
    SOU,
    /// Music
    MUS,
    /// Tools and accessories
    TOL,
    /// Illustration materials
    IMT,
    /// Music materials
    AMT,
    /// Miscellaneous
    ET3,
    /// Voiced comics
    VCM,
    /// Any other code, kept as it was written.
    Unknown(String),
}

impl WorkType {
    /// The code that the catalog writes for this value.
    pub open spec fn code(&self) -> Seq<char> {
        match self {
            WorkType::ACN => "ACN"@,
            WorkType::QIZ => "QIZ"@,
            WorkType::ADV => "ADV"@,
            WorkType::RPG => "RPG"@,
            WorkType::TBL => "TBL"@,
            WorkType::DNV => "DNV"@,
            WorkType::SLN => "SLN"@,
            WorkType::TYP => "TYP"@,
            WorkType::STG => "STG"@,
            WorkType::PZL => "PZL"@,
            WorkType::ETC => "ETC"@,
            WorkType::MNG => "MNG"@,
            WorkType::SCM => "SCM"@,
            WorkType::WBT => "WBT"@,
            WorkType::ICG => "ICG"@,
            WorkType::NRE => "NRE"@,
            WorkType::KSV => "KSV"@,
            WorkType::MOV => "MOV"@,
            WorkType::SOU => "SOU"@,
            WorkType::MUS => "MUS"@,
            WorkType::TOL => "TOL"@,
            WorkType::IMT => "IMT"@,
            WorkType::AMT => "AMT"@,
            WorkType::ET3 => "ET3"@,
            WorkType::VCM => "VCM"@,
            WorkType::Unknown(s) => s@,
        }
    }

    /// Whether `code` is one of the codes that have a variant of their own.
    pub open spec fn is_known(code: Seq<char>) -> bool {
        ||| code == "ACN"@
        ||| code == "QIZ"@
        ||| code == "ADV"@
        ||| code == "RPG"@
        ||| code == "TBL"@
        ||| code == "DNV"@
        ||| code == "SLN"@
        ||| code == "TYP"@
        ||| code == "STG"@
        ||| code == "PZL"@
        ||| code == "ETC"@
        ||| code == "MNG"@
        ||| code == "SCM"@
        ||| code == "WBT"@
        ||| code == "ICG"@
        ||| code == "NRE"@
        ||| code == "KSV"@
        ||| code == "MOV"@
        ||| code == "SOU"@
        ||| code == "MUS"@
        ||| code == "TOL"@
        ||| code == "IMT"@
        ||| code == "AMT"@
        ||| code == "ET3"@
        ||| code == "VCM"@
    }

    /// The value that `code` stands for. A code without a variant of its own
    /// is no error: it is kept in `Unknown`.
    pub fn from_code(code: &str) -> (r: WorkType)
        ensures
            r.code() == code@,
            r is Unknown <==> !Self::is_known(code@),
            r is Unknown ==> r->Unknown_0@ == code@,
    {
        if str_eq(code, "ACN") {
            WorkType::ACN
        } else if str_eq(code, "QIZ") {
            WorkType::QIZ
        } else if str_eq(code, "ADV") {
            WorkType::ADV
        } else if str_eq(code, "RPG") {
            WorkType::RPG
        } else if str_eq(code, "TBL") {
            WorkType::TBL
        } else if str_eq(code, "DNV") {
            WorkType::DNV
        } else if str_eq(code, "SLN") {
            WorkType::SLN
        } else if str_eq(code, "TYP") {
            WorkType::TYP
        } else if str_eq(code, "STG") {
            WorkType::STG
        } else if str_eq(code, "PZL") {
            WorkType::PZL
        } else if str_eq(code, "ETC") {
            WorkType::ETC
        } else if str_eq(code, "MNG") {
            WorkType::MNG
        } else if str_eq(code, "SCM") {
            WorkType::SCM
        } else if str_eq(code, "WBT") {
            WorkType::WBT
        } else if str_eq(code, "ICG") {
            WorkType::ICG
        } else if str_eq(code, "NRE") {
            WorkType::NRE
        } else if str_eq(code, "KSV") {
            WorkType::KSV
        } else if str_eq(code, "MOV") {
            WorkType::MOV
        } else if str_eq(code, "SOU") {
            WorkType::SOU
        } else if str_eq(code, "MUS") {
            WorkType::MUS
        } else if str_eq(code, "TOL") {
            WorkType::TOL
        } else if str_eq(code, "IMT") {
            WorkType::IMT
        } else if str_eq(code, "AMT") {
            WorkType::AMT
        } else if str_eq(code, "ET3") {
            WorkType::ET3
        } else if str_eq(code, "VCM") {
            WorkType::VCM
        } else {
            WorkType::Unknown(code.to_owned())
        }
    }

    /// The known codes are told apart: two values with a variant of their
    /// own that write the same code are the same value. So a known value
    /// that is written out and read again is itself.
    pub proof fn law_known_codes_differ(a: WorkType, b: WorkType)
        requires
            !(a is Unknown),
            !(b is Unknown),
            a.code() == b.code(),
        ensures
            a == b,
            Self::is_known(a.code()),
    {
        let x = a.code();
        let y = b.code();
        assert(x.len() == y.len() && x[0] == y[0] && x[1] == y[1] && x[2] == y[2]);
        reveal_strlit("ACN");
        reveal_strlit("QIZ");
        reveal_strlit("ADV");
        reveal_strlit("RPG");
        reveal_strlit("TBL");
        reveal_strlit("DNV");
        reveal_strlit("SLN");
        reveal_strlit("TYP");
        reveal_strlit("STG");
        reveal_strlit("PZL");
        reveal_strlit("ETC");
        reveal_strlit("MNG");
        reveal_strlit("SCM");
        reveal_strlit("WBT");
        reveal_strlit("ICG");
        reveal_strlit("NRE");
        reveal_strlit("KSV");
        reveal_strlit("MOV");
        reveal_strlit("SOU");
        reveal_strlit("MUS");
        reveal_strlit("TOL");
        reveal_strlit("IMT");
        reveal_strlit("AMT");
        reveal_strlit("ET3");
        reveal_strlit("VCM");
    }

    /// The code as a string.
    pub fn to_string(&self) -> (r: String)
        ensures
            r@ == self.code(),
    {
        match self {
            WorkType::ACN => "ACN".to_owned(),
            WorkType::QIZ => "QIZ".to_owned(),
            WorkType::ADV => "ADV".to_owned(),
            WorkType::RPG => "RPG".to_owned(),
            WorkType::TBL => "TBL".to_owned(),
            WorkType::DNV => "DNV".to_owned(),
            WorkType::SLN => "SLN".to_owned(),
            WorkType::TYP => "TYP".to_owned(),
            WorkType::STG => "STG".to_owned(),
            WorkType::PZL => "PZL".to_owned(),
            WorkType::ETC => "ETC".to_owned(),
            WorkType::MNG => "MNG".to_owned(),
            WorkType::SCM => "SCM".to_owned(),
            WorkType::WBT => "WBT".to_owned(),
            WorkType::ICG => "ICG".to_owned(),
            WorkType::NRE => "NRE".to_owned(),
            WorkType::KSV => "KSV".to_owned(),
            WorkType::MOV => "MOV".to_owned(),
            WorkType::SOU => "SOU".to_owned(),
            WorkType::MUS => "MUS".to_owned(),
            WorkType::TOL => "TOL".to_owned(),
            WorkType::IMT => "IMT".to_owned(),
            WorkType::AMT => "AMT".to_owned(),
            WorkType::ET3 => "ET3".to_owned(),
            WorkType::VCM => "VCM".to_owned(),
            WorkType::Unknown(s) => s.clone(),
        }
    }
}
/// The parent category of a work.
#[derive(Debug, Clone, PartialEq, Eq)]
pub enum WorkCategory {
    /// Self-published works.
    Doujin,
    /// Comics.
    Books,
    /// Software for personal computers.
    Pc,
    /// Games for phones.
    App,
    /// Any other code, kept as it was written.
    Unknown(String),
}

impl WorkCategory {
    /// The code that the catalog writes for this value.
    pub open spec fn code(&self) -> Seq<char> {
        match self {
            WorkCategory::Doujin => "doujin"@,
            WorkCategory::Books => "books"@,
            WorkCategory::Pc => "pc"@,
            WorkCategory::App => "app"@,
            WorkCategory::Unknown(s) => s@,
        }
    }

    /// Whether `code` is one of the codes that have a variant of their own.
    pub open spec fn is_known(code: Seq<char>) -> bool {
        ||| code == "doujin"@
        ||| code == "books"@
        ||| code == "pc"@
        ||| code == "app"@
    }

    /// The value that `code` stands for. A code without a variant of its own
    /// is no error: it is kept in `Unknown`.
    pub fn from_code(code: &str) -> (r: WorkCategory)
        ensures
            r.code() == code@,
            r is Unknown <==> !Self::is_known(code@),
            r is Unknown ==> r->Unknown_0@ == code@,
    {
        if str_eq(code, "doujin") {
            WorkCategory::Doujin
        } else if str_eq(code, "books") {
            WorkCategory::Books
        } else if str_eq(code, "pc") {
            WorkCategory::Pc
        } else if str_eq(code, "app") {
            WorkCategory::App
        } else {
            WorkCategory::Unknown(code.to_owned())
        }
    }

    /// The known codes are told apart: two values with a variant of their
    /// own that write the same code are the same value. So a known value
    /// that is written out and read again is itself.
    pub proof fn law_known_codes_differ(a: WorkCategory, b: WorkCategory)
        requires
            !(a is Unknown),
            !(b is Unknown),
            a.code() == b.code(),
        ensures
            a == b,
            Self::is_known(a.code()),
    {
        let x = a.code();
        let y = b.code();
        assert(x.len() == y.len() && x[0] == y[0] && x[1] == y[1] && x[2] == y[2]);
        reveal_strlit("doujin");
        reveal_strlit("books");
        reveal_strlit("pc");
        reveal_strlit("app");
    }

    /// The code as a string.
    pub fn to_string(&self) -> (r: String)
        ensures
            r@ == self.code(),
    {
        match self {
            WorkCategory::Doujin => "doujin".to_owned(),
            WorkCategory::Books => "books".to_owned(),
            WorkCategory::Pc => "pc".to_owned(),
            WorkCategory::App => "app".to_owned(),
            WorkCategory::Unknown(s) => s.clone(),
        }
    }
}
/// The format of the files of a work.
#[derive(Debug, Clone, PartialEq, Eq)]
pub enum FileType {
    EXE,
    HTI,
    HTE,
    HMO,
    IJP,
    IGF,
    IME,
    IBP,
    PNG,
    AVI,
    MVF,
    MPG,
    MWM,
    MP4,
    AAC,
    WAV,
    MP3,
    ADO,
    WMA,
    FLC,
    OGG,
    PDF,
    APK,
    ET1,
    /// Any other code, kept as it was written.
    Unknown(String),
}

impl FileType {
    /// The code that the catalog writes for this value.
    pub open spec fn code(&self) -> Seq<char> {
        match self {
            FileType::EXE => "EXE"@,
            FileType::HTI => "HTI"@,
            FileType::HTE => "HTE"@,
            FileType::HMO => "HMO"@,
            FileType::IJP => "IJP"@,
            FileType::IGF => "IGF"@,
            FileType::IME => "IME"@,
            FileType::IBP => "IBP"@,
            FileType::PNG => "PNG"@,
            FileType::AVI => "AVI"@,
            FileType::MVF => "MVF"@,
            FileType::MPG => "MPG"@,
            FileType::MWM => "MWM"@,
            FileType::MP4 => "MP4"@,
            FileType::AAC => "AAC"@,
            FileType::WAV => "WAV"@,
            FileType::MP3 => "MP3"@,
            FileType::ADO => "ADO"@,
            FileType::WMA => "WMA"@,
            FileType::FLC => "FLC"@,
            FileType::OGG => "OGG"@,
            FileType::PDF => "PDF"@,
            FileType::APK => "APK"@,
            FileType::ET1 => "ET1"@,
            FileType::Unknown(s) => s@,
        }
    }

    /// Whether `code` is one of the codes that have a variant of their own.
    pub open spec fn is_known(code: Seq<char>) -> bool {
        ||| code == "EXE"@
        ||| code == "HTI"@
        ||| code == "HTE"@
        ||| code == "HMO"@
        ||| code == "IJP"@
        ||| code == "IGF"@
        ||| code == "IME"@
        ||| code == "IBP"@
        ||| code == "PNG"@
        ||| code == "AVI"@
        ||| code == "MVF"@
        ||| code == "MPG"@
        ||| code == "MWM"@
        ||| code == "MP4"@
        ||| code == "AAC"@
        ||| code == "WAV"@
        ||| code == "MP3"@
        ||| code == "ADO"@
        ||| code == "WMA"@
        ||| code == "FLC"@
        ||| code == "OGG"@
        ||| code == "PDF"@
        ||| code == "APK"@
        ||| code == "ET1"@
    }

    /// The value that `code` stands for. A code without a variant of its own
    /// is no error: it is kept in `Unknown`.
    pub fn from_code(code: &str) -> (r: FileType)
        ensures
            r.code() == code@,
            r is Unknown <==> !Self::is_known(code@),
            r is Unknown ==> r->Unknown_0@ == code@,
    {
        if str_eq(code, "EXE") {
            FileType::EXE
        } else if str_eq(code, "HTI") {
            FileType::HTI
        } else if str_eq(code, "HTE") {
            FileType::HTE
        } else if str_eq(code, "HMO") {
            FileType::HMO
        } else if str_eq(code, "IJP") {
            FileType::IJP
        } else if str_eq(code, "IGF") {
            FileType::IGF
        } else if str_eq(code, "IME") {
            FileType::IME
        } else if str_eq(code, "IBP") {
            FileType::IBP
        } else if str_eq(code, "PNG") {
            FileType::PNG
        } else if str_eq(code, "AVI") {
            FileType::AVI
        } else if str_eq(code, "MVF") {
            FileType::MVF
        } else if str_eq(code, "MPG") {
            FileType::MPG
        } else if str_eq(code, "MWM") {
            FileType::MWM
        } else if str_eq(code, "MP4") {
            FileType::MP4
        } else if str_eq(code, "AAC") {
            FileType::AAC
        } else if str_eq(code, "WAV") {
            FileType::WAV
        } else if str_eq(code, "MP3") {
            FileType::MP3
        } else if str_eq(code, "ADO") {
            FileType::ADO
        } else if str_eq(code, "WMA") {
            FileType::WMA
        } else if str_eq(code, "FLC") {
            FileType::FLC
        } else if str_eq(code, "OGG") {
            FileType::OGG
        } else if str_eq(code, "PDF") {
            FileType::PDF
        } else if str_eq(code, "APK") {
            FileType::APK
        } else if str_eq(code, "ET1") {
            FileType::ET1
        } else {
            FileType::Unknown(code.to_owned())
        }
    }

    /// The known codes are told apart: two values with a variant of their
    /// own that write the same code are the same value. So a known value
    /// that is written out and read again is itself.
    pub proof fn law_known_codes_differ(a: FileType, b: FileType)
        requires
            !(a is Unknown),
            !(b is Unknown),
            a.code() == b.code(),
        ensures
            a == b,
            Self::is_known(a.code()),
    {
        let x = a.code();
        let y = b.code();
        assert(x.len() == y.len() && x[0] == y[0] && x[1] == y[1] && x[2] == y[2]);
        reveal_strlit("EXE");
        reveal_strlit("HTI");
        reveal_strlit("HTE");
        reveal_strlit("HMO");
        reveal_strlit("IJP");
        reveal_strlit("IGF");
        reveal_strlit("IME");
        reveal_strlit("IBP");
        reveal_strlit("PNG");
        reveal_strlit("AVI");
        reveal_strlit("MVF");
        reveal_strlit("MPG");
        reveal_strlit("MWM");
        reveal_strlit("MP4");
        reveal_strlit("AAC");
        reveal_strlit("WAV");
        reveal_strlit("MP3");
        reveal_strlit("ADO");
        reveal_strlit("WMA");
        reveal_strlit("FLC");
        reveal_strlit("OGG");
        reveal_strlit("PDF");
        reveal_strlit("APK");
        reveal_strlit("ET1");
    }

    /// The code as a string.
    pub fn to_string(&self) -> (r: String)
        ensures
            r@ == self.code(),
    {
        match self {
            FileType::EXE => "EXE".to_owned(),
            FileType::HTI => "HTI".to_owned(),
            FileType::HTE => "HTE".to_owned(),
            FileType::HMO => "HMO".to_owned(),
            FileType::IJP => "IJP".to_owned(),
            FileType::IGF => "IGF".to_owned(),
            FileType::IME => "IME".to_owned(),
            FileType::IBP => "IBP".to_owned(),
            FileType::PNG => "PNG".to_owned(),
            FileType::AVI => "AVI".to_owned(),
            FileType::MVF => "MVF".to_owned(),
            FileType::MPG => "MPG".to_owned(),
            FileType::MWM => "MWM".to_owned(),
            FileType::MP4 => "MP4".to_owned(),
            FileType::AAC => "AAC".to_owned(),
            FileType::WAV => "WAV".to_owned(),
            FileType::MP3 => "MP3".to_owned(),
            FileType::ADO => "ADO".to_owned(),
            FileType::WMA => "WMA".to_owned(),
            FileType::FLC => "FLC".to_owned(),
            FileType::OGG => "OGG".to_owned(),
            FileType::PDF => "PDF".to_owned(),
            FileType::APK => "APK".to_owned(),
            FileType::ET1 => "ET1".to_owned(),
            FileType::Unknown(s) => s.clone(),
        }
    }
}
/// The age rating of a work.
#[derive(Debug, Clone, Copy, PartialEq, Eq, Structural)]
pub enum AgeCategory {
    /// For all ages.
    General,
    /// From fifteen years.
    R15,
    /// For adults only.
    Adult,
}

impl AgeCategory {
    /// The code that the catalog writes for this value.
    pub open spec fn code(&self) -> Seq<char> {
        match self {
            AgeCategory::General => "general"@,
            AgeCategory::R15 => "r15"@,
            AgeCategory::Adult => "adult"@,
        }
    }

    /// The code as a string.
    pub fn to_string(&self) -> (r: String)
        ensures
            r@ == self.code(),
    {
        match self {
            AgeCategory::General => "general".to_owned(),
            AgeCategory::R15 => "r15".to_owned(),
            AgeCategory::Adult => "adult".to_owned(),
        }
    }
}
impl AgeCategory {
    /// The number that stands for this rating in JSON payloads.
    pub open spec fn number(&self) -> int {
        match self {
            AgeCategory::General => 1,
            AgeCategory::R15 => 2,
            AgeCategory::Adult => 3,
        }
    }

    /// The rating that `n` stands for in JSON payloads, if it stands for one.
    pub fn from_number(n: i64) -> (r: Option<AgeCategory>)
        ensures
            r is Some <==> 1 <= n <= 3,
            r is Some ==> r->0.number() == n,
    {
        if n == 1 {
            Some(AgeCategory::General)
        } else if n == 2 {
            Some(AgeCategory::R15)
        } else if n == 3 {
            Some(AgeCategory::Adult)
        } else {
            None
        }
    }

    /// The number that stands for this rating in JSON payloads.
    pub fn to_number(&self) -> (n: u16)
        ensures
            n == self.number(),
    {
        match self {
            AgeCategory::General => 1,
            AgeCategory::R15 => 2,
            AgeCategory::Adult => 3,
        }
    }
}

impl FromJson for WorkType {
    /// Any string is a code.
    open spec fn failure(j: JsonView) -> Option<Seq<char>> {
        if j is Str {
            None
        } else {
            Some("expected a string"@)
        }
    }

    open spec fn decoded_from(&self, j: JsonView) -> bool {
        &&& j == JsonView::Str(self.code())
        &&& self is Unknown <==> !Self::is_known(self.code())
    }

    fn from_json(j: &Json) -> (r: Result<WorkType, DlsiteError>) {
        match j {
            Json::Str(s) => Ok(WorkType::from_code(s.as_str())),
            _ => Err(DlsiteError::shape("expected a string")),
        }
    }
}

impl FromJson for WorkCategory {
    /// Any string is a code.
    open spec fn failure(j: JsonView) -> Option<Seq<char>> {
        if j is Str {
            None
        } else {
            Some("expected a string"@)
        }
    }

    open spec fn decoded_from(&self, j: JsonView) -> bool {
        &&& j == JsonView::Str(self.code())
        &&& self is Unknown <==> !Self::is_known(self.code())
    }

    fn from_json(j: &Json) -> (r: Result<WorkCategory, DlsiteError>) {
        match j {
            Json::Str(s) => Ok(WorkCategory::from_code(s.as_str())),
            _ => Err(DlsiteError::shape("expected a string")),
        }
    }
}

impl FromJson for FileType {
    /// Any string is a code.
    open spec fn failure(j: JsonView) -> Option<Seq<char>> {
        if j is Str {
            None
        } else {
            Some("expected a string"@)
        }
    }

    open spec fn decoded_from(&self, j: JsonView) -> bool {
        &&& j == JsonView::Str(self.code())
        &&& self is Unknown <==> !Self::is_known(self.code())
    }

    fn from_json(j: &Json) -> (r: Result<FileType, DlsiteError>) {
        match j {
            Json::Str(s) => Ok(FileType::from_code(s.as_str())),
            _ => Err(DlsiteError::shape("expected a string")),
        }
    }
}

impl FromJson for AgeCategory {
    open spec fn failure(j: JsonView) -> Option<Seq<char>> {
        match j.as_i64() {
            Some(n) => if 1 <= n <= 3 {
                None
            } else {
                Some("expected an age category from 1 to 3"@)
            },
            None => Some("expected an age category from 1 to 3"@),
        }
    }

    open spec fn decoded_from(&self, j: JsonView) -> bool {
        j.as_i64() is Some && j.as_i64()->0 == self.number()
    }

    fn from_json(j: &Json) -> (r: Result<AgeCategory, DlsiteError>) {
        match j.as_i64() {
            Some(n) => match AgeCategory::from_number(n) {
                Some(age) => Ok(age),
                None => Err(DlsiteError::shape("expected an age category from 1 to 3")),
            },
            None => Err(DlsiteError::shape("expected an age category from 1 to 3")),
        }
    }
}

/// A genre: its display name and its identifier.
#[derive(Debug, Clone, PartialEq, Eq)]
pub struct Genre {
    pub name: String,
    pub id: String,
}

impl DeepView for Genre {
    /// The name, then the identifier.
    type V = (Seq<char>, Seq<char>);

    open spec fn deep_view(&self) -> (Seq<char>, Seq<char>) {
        (self.name@, self.id@)
    }
}

} // verus!

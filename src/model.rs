//! The request and response models: the wire values of the service's enumerations,
//! the three requests with their builders, and the records that answers carry.

use vstd::prelude::*;

use crate::text::same_text;
use crate::trusted::{format_rfc3339, rfc3339_of};

verus! {

/// The order in which search results come back.
#[derive(Debug, Clone, Copy, PartialEq, Eq, Structural)]
pub enum ArticleSortBy {
    PublishedAt,
    Relevancy,
    Popularity,
}

impl ArticleSortBy {
    /// The wire form of each value.
    pub open spec fn wire(self) -> Seq<char> {
        match self {
            ArticleSortBy::PublishedAt => "publishedAt"@,
            ArticleSortBy::Relevancy => "relevancy"@,
            ArticleSortBy::Popularity => "popularity"@,
        }
    }

    /// The wire form of this value, as the service writes it.
    pub fn as_str(&self) -> (r: &'static str)
        ensures
            r@ == self.wire(),
    {
        match self {
            ArticleSortBy::PublishedAt => "publishedAt",
            ArticleSortBy::Relevancy => "relevancy",
            ArticleSortBy::Popularity => "popularity",
        }
    }

    /// The value whose wire form is `s`, if any.
    pub fn from_wire(s: &str) -> (r: Option<Self>)
        ensures
            r matches Some(v) ==> v.wire() == s@,
            r is None ==> forall|v: Self| #[trigger] v.wire() != s@,
    {
        if same_text(s, "publishedAt") {
            Some(ArticleSortBy::PublishedAt)
        } else if same_text(s, "relevancy") {
            Some(ArticleSortBy::Relevancy)
        } else if same_text(s, "popularity") {
            Some(ArticleSortBy::Popularity)
        } else {
            None
        }
    }
}

/// A part of an article that a search may be restricted to.
#[derive(Debug, Clone, Copy, PartialEq, Eq, Structural)]
pub enum SearchInOption {
    Title,
    Description,
    Content,
}

impl SearchInOption {
    /// The wire form of each value.
    pub open spec fn wire(self) -> Seq<char> {
        match self {
            SearchInOption::Title => "title"@,
            SearchInOption::Description => "description"@,
            SearchInOption::Content => "content"@,
        }
    }

    /// The wire form of this value, as the service writes it.
    pub fn as_str(&self) -> (r: &'static str)
        ensures
            r@ == self.wire(),
    {
        match self {
            SearchInOption::Title => "title",
            SearchInOption::Description => "description",
            SearchInOption::Content => "content",
        }
    }

    /// The value whose wire form is `s`, if any.
    pub fn from_wire(s: &str) -> (r: Option<Self>)
        ensures
            r matches Some(v) ==> v.wire() == s@,
            r is None ==> forall|v: Self| #[trigger] v.wire() != s@,
    {
        if same_text(s, "title") {
            Some(SearchInOption::Title)
        } else if same_text(s, "description") {
            Some(SearchInOption::Description)
        } else if same_text(s, "content") {
            Some(SearchInOption::Content)
        } else {
            None
        }
    }
}

/// A news category.
#[derive(Debug, Clone, Copy, PartialEq, Eq, Structural)]
pub enum NewsCategory {
    Business,
    Entertainment,
    General,
    Health,
    Science,
    Sports,
    Technology,
}

impl NewsCategory {
    /// The wire form of each value.
    pub open spec fn wire(self) -> Seq<char> {
        match self {
            NewsCategory::Business => "business"@,
            NewsCategory::Entertainment => "entertainment"@,
            NewsCategory::General => "general"@,
            NewsCategory::Health => "health"@,
            NewsCategory::Science => "science"@,
            NewsCategory::Sports => "sports"@,
            NewsCategory::Technology => "technology"@,
        }
    }

    /// The wire form of this value, as the service writes it.
    pub fn as_str(&self) -> (r: &'static str)
        ensures
            r@ == self.wire(),
    {
        match self {
            NewsCategory::Business => "business",
            NewsCategory::Entertainment => "entertainment",
            NewsCategory::General => "general",
            NewsCategory::Health => "health",
            NewsCategory::Science => "science",
            NewsCategory::Sports => "sports",
            NewsCategory::Technology => "technology",
        }
    }

    /// The value whose wire form is `s`, if any.
    pub fn from_wire(s: &str) -> (r: Option<Self>)
        ensures
            r matches Some(v) ==> v.wire() == s@,
            r is None ==> forall|v: Self| #[trigger] v.wire() != s@,
    {
        if same_text(s, "business") {
            Some(NewsCategory::Business)
        } else if same_text(s, "entertainment") {
            Some(NewsCategory::Entertainment)
        } else if same_text(s, "general") {
            Some(NewsCategory::General)
        } else if same_text(s, "health") {
            Some(NewsCategory::Health)
        } else if same_text(s, "science") {
            Some(NewsCategory::Science)
        } else if same_text(s, "sports") {
            Some(NewsCategory::Sports)
        } else if same_text(s, "technology") {
            Some(NewsCategory::Technology)
        } else {
            None
        }
    }
}

/// A country, by its two-letter code.
#[derive(Debug, Clone, Copy, PartialEq, Eq, Structural)]
pub enum Country {
    AE,
    AR,
    AT,
    AU,
    BE,
    BG,
    BR,
    CA,
    CH,
    CN,
    CO,
    CU,
    CZ,
    DE,
    EG,
    FR,
    GB,
    GR,
    HK,
    HU,
    ID,
    IE,
    IL,
    IN,
    IT,
    JP,
    KR,
    LT,
    LV,
    MA,
    MX,
    MY,
    NG,
    NL,
    NO,
    NZ,
    PH,
    PL,
    PT,
    RO,
    RS,
    RU,
    SA,
    SE,
    SG,
    SI,
    SK,
    TH,
    TR,
    TW,
    UA,
    US,
    VE,
    ZA,
}

impl Country {
    /// The wire form of each value.
    pub open spec fn wire(self) -> Seq<char> {
        match self {
            Country::AE => "ae"@,
            Country::AR => "ar"@,
            Country::AT => "at"@,
            Country::AU => "au"@,
            Country::BE => "be"@,
            Country::BG => "bg"@,
            Country::BR => "br"@,
            Country::CA => "ca"@,
            Country::CH => "ch"@,
            Country::CN => "cn"@,
            Country::CO => "co"@,
            Country::CU => "cu"@,
            Country::CZ => "cz"@,
            Country::DE => "de"@,
            Country::EG => "eg"@,
            Country::FR => "fr"@,
            Country::GB => "gb"@,
            Country::GR => "gr"@,
            Country::HK => "hk"@,
            Country::HU => "hu"@,
            Country::ID => "id"@,
            Country::IE => "ie"@,
            Country::IL => "il"@,
            Country::IN => "in"@,
            Country::IT => "it"@,
            Country::JP => "jp"@,
            Country::KR => "kr"@,
            Country::LT => "lt"@,
            Country::LV => "lv"@,
            Country::MA => "ma"@,
            Country::MX => "mx"@,
            Country::MY => "my"@,
            Country::NG => "ng"@,
            Country::NL => "nl"@,
            Country::NO => "no"@,
            Country::NZ => "nz"@,
            Country::PH => "ph"@,
            Country::PL => "pl"@,
            Country::PT => "pt"@,
            Country::RO => "ro"@,
            Country::RS => "rs"@,
            Country::RU => "ru"@,
            Country::SA => "sa"@,
            Country::SE => "se"@,
            Country::SG => "sg"@,
            Country::SI => "si"@,
            Country::SK => "sk"@,
            Country::TH => "th"@,
            Country::TR => "tr"@,
            Country::TW => "tw"@,
            Country::UA => "ua"@,
            Country::US => "us"@,
            Country::VE => "ve"@,
            Country::ZA => "za"@,
        }
    }

    /// The wire form of this value, as the service writes it.
    pub fn as_str(&self) -> (r: &'static str)
        ensures
            r@ == self.wire(),
    {
        match self {
            Country::AE => "ae",
            Country::AR => "ar",
            Country::AT => "at",
            Country::AU => "au",
            Country::BE => "be",
            Country::BG => "bg",
            Country::BR => "br",
            Country::CA => "ca",
            Country::CH => "ch",
            Country::CN => "cn",
            Country::CO => "co",
            Country::CU => "cu",
            Country::CZ => "cz",
            Country::DE => "de",
            Country::EG => "eg",
            Country::FR => "fr",
            Country::GB => "gb",
            Country::GR => "gr",
            Country::HK => "hk",
            Country::HU => "hu",
            Country::ID => "id",
            Country::IE => "ie",
            Country::IL => "il",
            Country::IN => "in",
            Country::IT => "it",
            Country::JP => "jp",
            Country::KR => "kr",
            Country::LT => "lt",
            Country::LV => "lv",
            Country::MA => "ma",
            Country::MX => "mx",
            Country::MY => "my",
            Country::NG => "ng",
            Country::NL => "nl",
            Country::NO => "no",
            Country::NZ => "nz",
            Country::PH => "ph",
            Country::PL => "pl",
            Country::PT => "pt",
            Country::RO => "ro",
            Country::RS => "rs",
            Country::RU => "ru",
            Country::SA => "sa",
            Country::SE => "se",
            Country::SG => "sg",
            Country::SI => "si",
            Country::SK => "sk",
            Country::TH => "th",
            Country::TR => "tr",
            Country::TW => "tw",
            Country::UA => "ua",
            Country::US => "us",
            Country::VE => "ve",
            Country::ZA => "za",
        }
    }

    /// The value whose wire form is `s`, if any.
    pub fn from_wire(s: &str) -> (r: Option<Self>)
        ensures
            r matches Some(v) ==> v.wire() == s@,
            r is None ==> forall|v: Self| #[trigger] v.wire() != s@,
    {
        if same_text(s, "ae") {
            Some(Country::AE)
        } else if same_text(s, "ar") {
            Some(Country::AR)
        } else if same_text(s, "at") {
            Some(Country::AT)
        } else if same_text(s, "au") {
            Some(Country::AU)
        } else if same_text(s, "be") {
            Some(Country::BE)
        } else if same_text(s, "bg") {
            Some(Country::BG)
        } else if same_text(s, "br") {
            Some(Country::BR)
        } else if same_text(s, "ca") {
            Some(Country::CA)
        } else if same_text(s, "ch") {
            Some(Country::CH)
        } else if same_text(s, "cn") {
            Some(Country::CN)
        } else if same_text(s, "co") {
            Some(Country::CO)
        } else if same_text(s, "cu") {
            Some(Country::CU)
        } else if same_text(s, "cz") {
            Some(Country::CZ)
        } else if same_text(s, "de") {
            Some(Country::DE)
        } else if same_text(s, "eg") {
            Some(Country::EG)
        } else if same_text(s, "fr") {
            Some(Country::FR)
        } else if same_text(s, "gb") {
            Some(Country::GB)
        } else if same_text(s, "gr") {
            Some(Country::GR)
        } else if same_text(s, "hk") {
            Some(Country::HK)
        } else if same_text(s, "hu") {
            Some(Country::HU)
        } else if same_text(s, "id") {
            Some(Country::ID)
        } else if same_text(s, "ie") {
            Some(Country::IE)
        } else if same_text(s, "il") {
            Some(Country::IL)
        } else if same_text(s, "in") {
            Some(Country::IN)
        } else if same_text(s, "it") {
            Some(Country::IT)
        } else if same_text(s, "jp") {
            Some(Country::JP)
        } else if same_text(s, "kr") {
            Some(Country::KR)
        } else if same_text(s, "lt") {
            Some(Country::LT)
        } else if same_text(s, "lv") {
            Some(Country::LV)
        } else if same_text(s, "ma") {
            Some(Country::MA)
        } else if same_text(s, "mx") {
            Some(Country::MX)
        } else if same_text(s, "my") {
            Some(Country::MY)
        } else if same_text(s, "ng") {
            Some(Country::NG)
        } else if same_text(s, "nl") {
            Some(Country::NL)
        } else if same_text(s, "no") {
            Some(Country::NO)
        } else if same_text(s, "nz") {
            Some(Country::NZ)
        } else if same_text(s, "ph") {
            Some(Country::PH)
        } else if same_text(s, "pl") {
            Some(Country::PL)
        } else if same_text(s, "pt") {
            Some(Country::PT)
        } else if same_text(s, "ro") {
            Some(Country::RO)
        } else if same_text(s, "rs") {
            Some(Country::RS)
        } else if same_text(s, "ru") {
            Some(Country::RU)
        } else if same_text(s, "sa") {
            Some(Country::SA)
        } else if same_text(s, "se") {
            Some(Country::SE)
        } else if same_text(s, "sg") {
            Some(Country::SG)
        } else if same_text(s, "si") {
            Some(Country::SI)
        } else if same_text(s, "sk") {
            Some(Country::SK)
        } else if same_text(s, "th") {
            Some(Country::TH)
        } else if same_text(s, "tr") {
            Some(Country::TR)
        } else if same_text(s, "tw") {
            Some(Country::TW)
        } else if same_text(s, "ua") {
            Some(Country::UA)
        } else if same_text(s, "us") {
            Some(Country::US)
        } else if same_text(s, "ve") {
            Some(Country::VE)
        } else if same_text(s, "za") {
            Some(Country::ZA)
        } else {
            None
        }
    }
}

/// A language, by its two-letter code.
#[derive(Debug, Clone, Copy, PartialEq, Eq, Structural)]
pub enum Language {
    AR,
    DE,
    EN,
    ES,
    FR,
    HE,
    IT,
    NL,
    NO,
    PT,
    RU,
    SV,
    UD,
    ZH,
}

impl Language {
    /// The wire form of each value.
    pub open spec fn wire(self) -> Seq<char> {
        match self {
            Language::AR => "ar"@,
            Language::DE => "de"@,
            Language::EN => "en"@,
            Language::ES => "es"@,
            Language::FR => "fr"@,
            Language::HE => "he"@,
            Language::IT => "it"@,
            Language::NL => "nl"@,
            Language::NO => "no"@,
            Language::PT => "pt"@,
            Language::RU => "ru"@,
            Language::SV => "sv"@,
            Language::UD => "ud"@,
            Language::ZH => "zh"@,
        }
    }

    /// The wire form of this value, as the service writes it.
    pub fn as_str(&self) -> (r: &'static str)
        ensures
            r@ == self.wire(),
    {
        match self {
            Language::AR => "ar",
            Language::DE => "de",
            Language::EN => "en",
            Language::ES => "es",
            Language::FR => "fr",
            Language::HE => "he",
            Language::IT => "it",
            Language::NL => "nl",
            Language::NO => "no",
            Language::PT => "pt",
            Language::RU => "ru",
            Language::SV => "sv",
            Language::UD => "ud",
            Language::ZH => "zh",
        }
    }

    /// The value whose wire form is `s`, if any.
    pub fn from_wire(s: &str) -> (r: Option<Self>)
        ensures
            r matches Some(v) ==> v.wire() == s@,
            r is None ==> forall|v: Self| #[trigger] v.wire() != s@,
    {
        if same_text(s, "ar") {
            Some(Language::AR)
        } else if same_text(s, "de") {
            Some(Language::DE)
        } else if same_text(s, "en") {
            Some(Language::EN)
        } else if same_text(s, "es") {
            Some(Language::ES)
        } else if same_text(s, "fr") {
            Some(Language::FR)
        } else if same_text(s, "he") {
            Some(Language::HE)
        } else if same_text(s, "it") {
            Some(Language::IT)
        } else if same_text(s, "nl") {
            Some(Language::NL)
        } else if same_text(s, "no") {
            Some(Language::NO)
        } else if same_text(s, "pt") {
            Some(Language::PT)
        } else if same_text(s, "ru") {
            Some(Language::RU)
        } else if same_text(s, "sv") {
            Some(Language::SV)
        } else if same_text(s, "ud") {
            Some(Language::UD)
        } else if same_text(s, "zh") {
            Some(Language::ZH)
        } else {
            None
        }
    }
}

/// The page size a request starts with.
pub fn default_page_size() -> (r: i32)
    ensures
        r == 1,
{
    1
}

/// The page number a request starts with.
pub fn default_page() -> (r: i32)
    ensures
        r == 1,
{
    1
}

/// A point in time in UTC, as seconds and nanoseconds since the Unix epoch, within
/// the range that chrono can render.
#[derive(Debug, Clone, Copy)]
pub struct UtcTimestamp {
    seconds: i64,
    nanos: u32,
}

impl UtcTimestamp {
    #[verifier::type_invariant]
    spec fn renderable(self) -> bool {
        rfc3339_of(self.seconds, self.nanos) is Some
    }

    pub closed spec fn spec_seconds(self) -> i64 {
        self.seconds
    }

    pub closed spec fn spec_nanos(self) -> u32 {
        self.nanos
    }

    /// The RFC 3339 text of this point in time.
    pub closed spec fn rfc3339(self) -> Seq<char> {
        rfc3339_of(self.seconds, self.nanos)->0
    }

    /// The point `seconds` seconds and `nanos` nanoseconds after the Unix epoch;
    /// `None` when chrono cannot represent it.
    pub fn from_timestamp(seconds: i64, nanos: u32) -> (r: Option<Self>)
        ensures
            r is Some <==> rfc3339_of(seconds, nanos) is Some,
            r matches Some(t) ==> t.spec_seconds() == seconds && t.spec_nanos() == nanos
                && t.rfc3339() == rfc3339_of(seconds, nanos)->0,
    {
        match format_rfc3339(seconds, nanos) {
            Some(_) => Some(UtcTimestamp { seconds, nanos }),
            None => None,
        }
    }

    pub fn seconds(&self) -> (r: i64)
        ensures
            r == self.spec_seconds(),
    {
        self.seconds
    }

    pub fn nanos(&self) -> (r: u32)
        ensures
            r == self.spec_nanos(),
    {
        self.nanos
    }

    /// This point in time as RFC 3339 text, for example `2023-01-01T00:00:00+00:00`.
    pub fn to_rfc3339(&self) -> (r: String)
        ensures
            r@ == self.rfc3339(),
    {
        proof {
            use_type_invariant(self);
        }
        match format_rfc3339(self.seconds, self.nanos) {
            Some(text) => text,
            None => {
                proof {
                    assert(false);
                }
                String::new()
            },
        }
    }
}

/// Message with which a top-headlines request naming both sources and a country or
/// category is refused.
pub const CONFLICTING_FILTERS_MESSAGE: &'static str =
    "Cannot specify sources with country or category";

/// A top-headlines request, or its builder, as plain values.
pub struct TopHeadlinesFields {
    pub country: Option<Country>,
    pub category: Option<NewsCategory>,
    pub sources: Option<Seq<char>>,
    pub search_term: Seq<char>,
    pub page_size: i32,
    pub page: i32,
}

/// The service refuses `sources` together with `country` or `category`.
pub open spec fn conflicting_filters(f: TopHeadlinesFields) -> bool {
    f.sources is Some && (f.country is Some || f.category is Some)
}

/// The fields every builder starts from: no filters, empty search term, first page
/// of one result.
pub open spec fn default_top_headlines() -> TopHeadlinesFields {
    TopHeadlinesFields {
        country: None,
        category: None,
        sources: None,
        search_term: Seq::empty(),
        page_size: 1,
        page: 1,
    }
}

/// A request for the top headlines. Never names both sources and a country or category.
#[derive(Debug, Clone)]
pub struct GetTopHeadlinesRequest {
    country: Option<Country>,
    category: Option<NewsCategory>,
    sources: Option<String>,
    search_term: String,
    page_size: i32,
    page: i32,
}

impl View for GetTopHeadlinesRequest {
    type V = TopHeadlinesFields;

    closed spec fn view(&self) -> TopHeadlinesFields {
        TopHeadlinesFields {
            country: self.country,
            category: self.category,
            sources: self.sources.deep_view(),
            search_term: self.search_term@,
            page_size: self.page_size,
            page: self.page,
        }
    }
}

impl GetTopHeadlinesRequest {
    /// A builder holding the default fields.
    pub fn builder() -> (r: GetTopHeadlinesRequestBuilder)
        ensures
            r@ == default_top_headlines(),
    {
        GetTopHeadlinesRequestBuilder::new()
    }

    pub fn get_country(&self) -> (r: &Option<Country>)
        ensures
            *r == self@.country,
    {
        &self.country
    }

    pub fn get_category(&self) -> (r: &Option<NewsCategory>)
        ensures
            *r == self@.category,
    {
        &self.category
    }

    pub fn get_sources(&self) -> (r: &Option<String>)
        ensures
            r.deep_view() == self@.sources,
    {
        &self.sources
    }

    pub fn get_search_term(&self) -> (r: &String)
        ensures
            r@ == self@.search_term,
    {
        &self.search_term
    }

    pub fn get_page_size(&self) -> (r: &i32)
        ensures
            *r == self@.page_size,
    {
        &self.page_size
    }

    pub fn get_page(&self) -> (r: &i32)
        ensures
            *r == self@.page,
    {
        &self.page
    }
}

/// Builds a `GetTopHeadlinesRequest` field by field.
pub struct GetTopHeadlinesRequestBuilder {
    country: Option<Country>,
    category: Option<NewsCategory>,
    sources: Option<String>,
    search_term: String,
    page_size: i32,
    page: i32,
}

impl View for GetTopHeadlinesRequestBuilder {
    type V = TopHeadlinesFields;

    closed spec fn view(&self) -> TopHeadlinesFields {
        TopHeadlinesFields {
            country: self.country,
            category: self.category,
            sources: self.sources.deep_view(),
            search_term: self.search_term@,
            page_size: self.page_size,
            page: self.page,
        }
    }
}

impl GetTopHeadlinesRequestBuilder {
    /// A builder holding the default fields.
    pub fn new() -> (r: Self)
        ensures
            r@ == default_top_headlines(),
    {
        GetTopHeadlinesRequestBuilder {
            country: None,
            category: None,
            sources: None,
            search_term: String::new(),
            page_size: default_page_size(),
            page: default_page(),
        }
    }

    pub fn country(self, country: Country) -> (r: Self)
        ensures
            r@ == (TopHeadlinesFields { country: Some(country), ..self@ }),
    {
        GetTopHeadlinesRequestBuilder { country: Some(country), ..self }
    }

    pub fn category(self, category: NewsCategory) -> (r: Self)
        ensures
            r@ == (TopHeadlinesFields { category: Some(category), ..self@ }),
    {
        GetTopHeadlinesRequestBuilder { category: Some(category), ..self }
    }

    /// Comma-separated source identifiers.
    pub fn sources(self, sources: String) -> (r: Self)
        ensures
            r@ == (TopHeadlinesFields { sources: Some(sources@), ..self@ }),
    {
        GetTopHeadlinesRequestBuilder { sources: Some(sources), ..self }
    }

    pub fn search_term(self, search_term: String) -> (r: Self)
        ensures
            r@ == (TopHeadlinesFields { search_term: search_term@, ..self@ }),
    {
        GetTopHeadlinesRequestBuilder { search_term, ..self }
    }

    pub fn page_size(self, page_size: i32) -> (r: Self)
        ensures
            r@ == (TopHeadlinesFields { page_size, ..self@ }),
    {
        GetTopHeadlinesRequestBuilder { page_size, ..self }
    }

    pub fn page(self, page: i32) -> (r: Self)
        ensures
            r@ == (TopHeadlinesFields { page, ..self@ }),
    {
        GetTopHeadlinesRequestBuilder { page, ..self }
    }

    /// The request, unless it names both sources and a country or category.
    pub fn build(self) -> (r: Result<GetTopHeadlinesRequest, &'static str>)
        ensures
            r is Err <==> conflicting_filters(self@),
            r matches Ok(req) ==> req@ == self@,
            r matches Err(e) ==> e@ == CONFLICTING_FILTERS_MESSAGE@,
    {
        if self.sources.is_some() && (self.country.is_some() || self.category.is_some()) {
            return Err(CONFLICTING_FILTERS_MESSAGE);
        }
        Ok(
            GetTopHeadlinesRequest {
                country: self.country,
                category: self.category,
                sources: self.sources,
                search_term: self.search_term,
                page_size: self.page_size,
                page: self.page,
            },
        )
    }
}

/// A search request, or its builder, as plain values.
pub struct EverythingFields {
    pub search_term: Seq<char>,
    pub search_in: Seq<SearchInOption>,
    pub sources: Option<Seq<char>>,
    pub domains: Option<Seq<char>>,
    pub exclude_domains: Option<Seq<char>>,
    pub start_date: Option<UtcTimestamp>,
    pub end_date: Option<UtcTimestamp>,
    pub language: Option<Language>,
    pub sort_by: Option<Seq<char>>,
    pub page_size: i32,
    pub page: i32,
}

/// The fields every search builder starts from.
pub open spec fn default_everything() -> EverythingFields {
    EverythingFields {
        search_term: Seq::empty(),
        search_in: Seq::empty(),
        sources: None,
        domains: None,
        exclude_domains: None,
        start_date: None,
        end_date: None,
        language: None,
        sort_by: None,
        page_size: 1,
        page: 1,
    }
}

/// The wire form of an optional sort order.
pub open spec fn sort_wire(s: Option<ArticleSortBy>) -> Option<Seq<char>> {
    match s {
        Some(v) => Some(v.wire()),
        None => None,
    }
}

/// A full-text search request.
#[derive(Debug, Clone)]
pub struct GetEverythingRequest {
    search_term: String,
    search_in: Vec<SearchInOption>,
    sources: Option<String>,
    domains: Option<String>,
    exclude_domains: Option<String>,
    start_date: Option<UtcTimestamp>,
    end_date: Option<UtcTimestamp>,
    language: Option<Language>,
    sort_by: Option<String>,
    page_size: i32,
    page: i32,
}

impl View for GetEverythingRequest {
    type V = EverythingFields;

    closed spec fn view(&self) -> EverythingFields {
        EverythingFields {
            search_term: self.search_term@,
            search_in: self.search_in@,
            sources: self.sources.deep_view(),
            domains: self.domains.deep_view(),
            exclude_domains: self.exclude_domains.deep_view(),
            start_date: self.start_date,
            end_date: self.end_date,
            language: self.language,
            sort_by: self.sort_by.deep_view(),
            page_size: self.page_size,
            page: self.page,
        }
    }
}

impl GetEverythingRequest {
    /// A builder holding the default fields.
    pub fn builder() -> (r: GetEverythingRequestBuilder)
        ensures
            r@ == default_everything(),
    {
        GetEverythingRequestBuilder::new()
    }

    pub fn get_search_term(&self) -> (r: &String)
        ensures
            r@ == self@.search_term,
    {
        &self.search_term
    }

    pub fn get_search_in(&self) -> (r: &Vec<SearchInOption>)
        ensures
            r@ == self@.search_in,
    {
        &self.search_in
    }

    pub fn get_sources(&self) -> (r: &Option<String>)
        ensures
            r.deep_view() == self@.sources,
    {
        &self.sources
    }

    pub fn get_domains(&self) -> (r: &Option<String>)
        ensures
            r.deep_view() == self@.domains,
    {
        &self.domains
    }

    pub fn get_exclude_domains(&self) -> (r: &Option<String>)
        ensures
            r.deep_view() == self@.exclude_domains,
    {
        &self.exclude_domains
    }

    pub fn get_start_date(&self) -> (r: &Option<UtcTimestamp>)
        ensures
            *r == self@.start_date,
    {
        &self.start_date
    }

    pub fn get_end_date(&self) -> (r: &Option<UtcTimestamp>)
        ensures
            *r == self@.end_date,
    {
        &self.end_date
    }

    pub fn get_language(&self) -> (r: &Option<Language>)
        ensures
            *r == self@.language,
    {
        &self.language
    }

    /// The sort order's wire form, when one was chosen.
    pub fn get_sort_by(&self) -> (r: &Option<String>)
        ensures
            r.deep_view() == self@.sort_by,
    {
        &self.sort_by
    }

    pub fn get_page_size(&self) -> (r: &i32)
        ensures
            *r == self@.page_size,
    {
        &self.page_size
    }

    pub fn get_page(&self) -> (r: &i32)
        ensures
            *r == self@.page,
    {
        &self.page
    }
}

/// Builds a `GetEverythingRequest` field by field.
pub struct GetEverythingRequestBuilder {
    search_term: String,
    search_in: Vec<SearchInOption>,
    sources: Option<String>,
    domains: Option<String>,
    exclude_domains: Option<String>,
    start_date: Option<UtcTimestamp>,
    end_date: Option<UtcTimestamp>,
    language: Option<Language>,
    sort_by: Option<ArticleSortBy>,
    page_size: i32,
    page: i32,
}

impl View for GetEverythingRequestBuilder {
    type V = EverythingFields;

    closed spec fn view(&self) -> EverythingFields {
        EverythingFields {
            search_term: self.search_term@,
            search_in: self.search_in@,
            sources: self.sources.deep_view(),
            domains: self.domains.deep_view(),
            exclude_domains: self.exclude_domains.deep_view(),
            start_date: self.start_date,
            end_date: self.end_date,
            language: self.language,
            sort_by: sort_wire(self.sort_by),
            page_size: self.page_size,
            page: self.page,
        }
    }
}

impl GetEverythingRequestBuilder {
    /// A builder holding the default fields.
    pub fn new() -> (r: Self)
        ensures
            r@ == default_everything(),
    {
        let r = GetEverythingRequestBuilder {
            search_term: String::new(),
            search_in: Vec::new(),
            sources: None,
            domains: None,
            exclude_domains: None,
            start_date: None,
            end_date: None,
            language: None,
            sort_by: None,
            page_size: default_page_size(),
            page: default_page(),
        };
        assert(r@.search_in =~= Seq::<SearchInOption>::empty());
        r
    }

    pub fn search_term(self, search_term: String) -> (r: Self)
        ensures
            r@ == (EverythingFields { search_term: search_term@, ..self@ }),
    {
        GetEverythingRequestBuilder { search_term, ..self }
    }

    pub fn search_in(self, search_in: Vec<SearchInOption>) -> (r: Self)
        ensures
            r@ == (EverythingFields { search_in: search_in@, ..self@ }),
    {
        GetEverythingRequestBuilder { search_in, ..self }
    }

    /// Comma-separated source identifiers.
    pub fn sources(self, sources: String) -> (r: Self)
        ensures
            r@ == (EverythingFields { sources: Some(sources@), ..self@ }),
    {
        GetEverythingRequestBuilder { sources: Some(sources), ..self }
    }

    /// Comma-separated domains to search.
    pub fn domains(self, domains: String) -> (r: Self)
        ensures
            r@ == (EverythingFields { domains: Some(domains@), ..self@ }),
    {
        GetEverythingRequestBuilder { domains: Some(domains), ..self }
    }

    /// Comma-separated domains to leave out.
    pub fn exclude_domains(self, exclude_domains: String) -> (r: Self)
        ensures
            r@ == (EverythingFields { exclude_domains: Some(exclude_domains@), ..self@ }),
    {
        GetEverythingRequestBuilder { exclude_domains: Some(exclude_domains), ..self }
    }

    pub fn start_date(self, start_date: UtcTimestamp) -> (r: Self)
        ensures
            r@ == (EverythingFields { start_date: Some(start_date), ..self@ }),
    {
        GetEverythingRequestBuilder { start_date: Some(start_date), ..self }
    }

    pub fn end_date(self, end_date: UtcTimestamp) -> (r: Self)
        ensures
            r@ == (EverythingFields { end_date: Some(end_date), ..self@ }),
    {
        GetEverythingRequestBuilder { end_date: Some(end_date), ..self }
    }

    pub fn language(self, language: Language) -> (r: Self)
        ensures
            r@ == (EverythingFields { language: Some(language), ..self@ }),
    {
        GetEverythingRequestBuilder { language: Some(language), ..self }
    }

    pub fn sort_by(self, sort_by: ArticleSortBy) -> (r: Self)
        ensures
            r@ == (EverythingFields { sort_by: Some(sort_by.wire()), ..self@ }),
    {
        GetEverythingRequestBuilder { sort_by: Some(sort_by), ..self }
    }

    pub fn page_size(self, page_size: i32) -> (r: Self)
        ensures
            r@ == (EverythingFields { page_size, ..self@ }),
    {
        GetEverythingRequestBuilder { page_size, ..self }
    }

    pub fn page(self, page: i32) -> (r: Self)
        ensures
            r@ == (EverythingFields { page, ..self@ }),
    {
        GetEverythingRequestBuilder { page, ..self }
    }

    /// The request; the sort order is kept in its wire form.
    pub fn build(self) -> (r: GetEverythingRequest)
        ensures
            r@ == self@,
    {
        let sort_by = match self.sort_by {
            Some(s) => Some(String::from_str(s.as_str())),
            None => None,
        };
        GetEverythingRequest {
            search_term: self.search_term,
            search_in: self.search_in,
            sources: self.sources,
            domains: self.domains,
            exclude_domains: self.exclude_domains,
            start_date: self.start_date,
            end_date: self.end_date,
            language: self.language,
            sort_by,
            page_size: self.page_size,
            page: self.page,
        }
    }
}

/// A source-listing request, or its builder, as plain values.
pub struct SourcesFields {
    pub category: Option<NewsCategory>,
    pub language: Option<Language>,
    pub country: Option<Country>,
}

/// A request for the list of sources.
#[derive(Debug, Clone, Copy)]
pub struct GetSourcesRequest {
    category: Option<NewsCategory>,
    language: Option<Language>,
    country: Option<Country>,
}

impl View for GetSourcesRequest {
    type V = SourcesFields;

    closed spec fn view(&self) -> SourcesFields {
        SourcesFields { category: self.category, language: self.language, country: self.country }
    }
}

impl GetSourcesRequest {
    /// A builder with no filter.
    pub fn builder() -> (r: GetSourcesRequestBuilder)
        ensures
            r@ == (SourcesFields { category: None, language: None, country: None }),
    {
        GetSourcesRequestBuilder::new()
    }

    pub fn get_category(&self) -> (r: &Option<NewsCategory>)
        ensures
            *r == self@.category,
    {
        &self.category
    }

    pub fn get_language(&self) -> (r: &Option<Language>)
        ensures
            *r == self@.language,
    {
        &self.language
    }

    pub fn get_country(&self) -> (r: &Option<Country>)
        ensures
            *r == self@.country,
    {
        &self.country
    }
}

/// Builds a `GetSourcesRequest` filter by filter.
pub struct GetSourcesRequestBuilder {
    category: Option<NewsCategory>,
    language: Option<Language>,
    country: Option<Country>,
}

impl View for GetSourcesRequestBuilder {
    type V = SourcesFields;

    closed spec fn view(&self) -> SourcesFields {
        SourcesFields { category: self.category, language: self.language, country: self.country }
    }
}

impl GetSourcesRequestBuilder {
    /// A builder with no filter.
    pub fn new() -> (r: Self)
        ensures
            r@ == (SourcesFields { category: None, language: None, country: None }),
    {
        GetSourcesRequestBuilder { category: None, language: None, country: None }
    }

    pub fn category(self, category: NewsCategory) -> (r: Self)
        ensures
            r@ == (SourcesFields { category: Some(category), ..self@ }),
    {
        GetSourcesRequestBuilder { category: Some(category), ..self }
    }

    pub fn language(self, language: Language) -> (r: Self)
        ensures
            r@ == (SourcesFields { language: Some(language), ..self@ }),
    {
        GetSourcesRequestBuilder { language: Some(language), ..self }
    }

    pub fn country(self, country: Country) -> (r: Self)
        ensures
            r@ == (SourcesFields { country: Some(country), ..self@ }),
    {
        GetSourcesRequestBuilder { country: Some(country), ..self }
    }

    /// The request; any combination of filters is accepted.
    pub fn build(self) -> (r: GetSourcesRequest)
        ensures
            r@ == self@,
    {
        GetSourcesRequest { category: self.category, language: self.language, country: self.country }
    }
}

/// The outlet an article comes from.
#[derive(Debug)]
pub struct Source {
    pub id: Option<String>,
    pub name: String,
}

impl Source {
    /// The outlet's identifier, when it has one.
    pub fn get_id(&self) -> (r: &Option<String>)
        ensures
            *r == self.id,
    {
        &self.id
    }

    /// The outlet's display name.
    pub fn get_name(&self) -> (r: &String)
        ensures
            *r == self.name,
    {
        &self.name
    }

}

/// One article of a result page.
#[derive(Debug)]
pub struct Article {
    pub source: Source,
    pub author: Option<String>,
    pub title: String,
    pub description: Option<String>,
    pub url: String,
    pub url_to_image: Option<String>,
    pub published_at: String,
    pub content: Option<String>,
}

impl Article {
    /// The outlet the article comes from.
    pub fn get_source(&self) -> (r: &Source)
        ensures
            *r == self.source,
    {
        &self.source
    }

    /// The author, when known.
    pub fn get_author(&self) -> (r: &Option<String>)
        ensures
            *r == self.author,
    {
        &self.author
    }

    /// The headline.
    pub fn get_title(&self) -> (r: &String)
        ensures
            *r == self.title,
    {
        &self.title
    }

    /// A short description, when given.
    pub fn get_description(&self) -> (r: &Option<String>)
        ensures
            *r == self.description,
    {
        &self.description
    }

    /// Where the article is published.
    pub fn get_url(&self) -> (r: &String)
        ensures
            *r == self.url,
    {
        &self.url
    }

    /// An image for the article, when given.
    pub fn get_url_to_image(&self) -> (r: &Option<String>)
        ensures
            *r == self.url_to_image,
    {
        &self.url_to_image
    }

    /// The publication time, as the service wrote it.
    pub fn get_published_at(&self) -> (r: &String)
        ensures
            *r == self.published_at,
    {
        &self.published_at
    }

    /// The start of the article's text, when given.
    pub fn get_content(&self) -> (r: &Option<String>)
        ensures
            *r == self.content,
    {
        &self.content
    }

}

/// One outlet of the source listing.
#[derive(Debug)]
pub struct NewsSource {
    pub id: Option<String>,
    pub name: String,
    pub description: Option<String>,
    pub url: Option<String>,
    pub category: Option<String>,
    pub language: Option<String>,
    pub country: Option<String>,
}

impl NewsSource {
    /// The outlet's identifier, when it has one.
    pub fn get_id(&self) -> (r: &Option<String>)
        ensures
            *r == self.id,
    {
        &self.id
    }

    /// The outlet's display name.
    pub fn get_name(&self) -> (r: &String)
        ensures
            *r == self.name,
    {
        &self.name
    }

    /// A description of the outlet, when given.
    pub fn get_description(&self) -> (r: &Option<String>)
        ensures
            *r == self.description,
    {
        &self.description
    }

    /// The outlet's home page, when given.
    pub fn get_url(&self) -> (r: &Option<String>)
        ensures
            *r == self.url,
    {
        &self.url
    }

    /// The outlet's category, when given.
    pub fn get_category(&self) -> (r: &Option<String>)
        ensures
            *r == self.category,
    {
        &self.category
    }

    /// The outlet's language, when given.
    pub fn get_language(&self) -> (r: &Option<String>)
        ensures
            *r == self.language,
    {
        &self.language
    }

    /// The outlet's country, when given.
    pub fn get_country(&self) -> (r: &Option<String>)
        ensures
            *r == self.country,
    {
        &self.country
    }

}

/// A page of top headlines.
#[derive(Debug)]
pub struct TopHeadlinesResponse {
    pub status: String,
    pub total_results: i32,
    pub articles: Vec<Article>,
}

impl TopHeadlinesResponse {
    /// The status tag of the answer.
    pub fn get_status(&self) -> (r: &String)
        ensures
            *r == self.status,
    {
        &self.status
    }

    /// How many articles match in all.
    pub fn get_total_results(&self) -> (r: &i32)
        ensures
            *r == self.total_results,
    {
        &self.total_results
    }

    /// The articles of this page, in order.
    pub fn get_articles(&self) -> (r: &Vec<Article>)
        ensures
            *r == self.articles,
    {
        &self.articles
    }

}

/// A page of search results.
#[derive(Debug)]
pub struct GetEverythingResponse {
    pub status: String,
    pub total_results: i32,
    pub articles: Vec<Article>,
}

impl GetEverythingResponse {
    /// The status tag of the answer.
    pub fn get_status(&self) -> (r: &String)
        ensures
            *r == self.status,
    {
        &self.status
    }

    /// How many articles match in all.
    pub fn get_total_results(&self) -> (r: &i32)
        ensures
            *r == self.total_results,
    {
        &self.total_results
    }

    /// The articles of this page, in order.
    pub fn get_articles(&self) -> (r: &Vec<Article>)
        ensures
            *r == self.articles,
    {
        &self.articles
    }

}

/// The source listing.
#[derive(Debug)]
pub struct GetSourcesResponse {
    pub status: String,
    pub sources: Vec<NewsSource>,
}

impl GetSourcesResponse {
    /// The status tag of the answer.
    pub fn get_status(&self) -> (r: &String)
        ensures
            *r == self.status,
    {
        &self.status
    }

    /// The outlets, in order.
    pub fn get_sources(&self) -> (r: &Vec<NewsSource>)
        ensures
            *r == self.sources,
    {
        &self.sources
    }

}

} // verus!

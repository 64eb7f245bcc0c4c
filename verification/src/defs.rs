//! The closed parameter sets the engine understands, each with its
//! command-line token.
//!
//! Every set is an enum, and every mapping from a member to its token or
//! version is a `match` without a fallback arm, so a member cannot exist
//! without its token.

use vstd::prelude::*;

verus! {

/// Anything that belongs to exactly one major version.
pub trait Versioned {
    /// The version this value belongs to.
    spec fn version_of(&self) -> Version;

    fn version(&self) -> (v: Version)
        ensures
            v == self.version_of(),
    ;
}

/// Anything with a fixed command-line token.
pub trait AsStr {
    /// The token, exactly as the engine expects it on its command line.
    spec fn token(&self) -> Seq<char>;

    fn as_str(&self) -> (s: &str)
        ensures
            s@ == self.token(),
    ;
}

/// What the engine is asked to do.
#[derive(Debug, Clone, Copy, PartialEq, Eq, Structural, Hash, PartialOrd, Ord)]
pub enum Action {
    ExtractXmlFromPdf,
    A3Only,
    CombineXmlAndPdf,
    Ubl,
    Upgrade,
    Validate,
    XmlToHtml,
    XmlToPdf,
}

/// The document family a combined document is written as.
#[derive(Debug, Clone, Copy, PartialEq, Eq, Structural, Hash, PartialOrd, Ord)]
pub enum Format {
    FacturX,
    Zugferd,
    OrderX,
    CrossIndustryDespatchAdvice,
}

/// A major version of the invoice standard.
#[derive(Debug, Clone, Copy, PartialEq, Eq, Structural, Hash, PartialOrd, Ord)]
pub enum Version {
    V1,
    V2,
}

/// The profiles of version 1, from least to most permissive.
#[derive(Debug, Clone, Copy, PartialEq, Eq, Structural, Hash, PartialOrd, Ord)]
pub enum ProfileV1 {
    BASIC,
    COMFORT,
    EXTENDED,
}

/// The profiles of version 2, from least to most permissive.
#[derive(Debug, Clone, Copy, PartialEq, Eq, Structural, Hash, PartialOrd, Ord)]
pub enum ProfileV2 {
    MINIMUM,
    BasicWl,
    BASIC,
    CIUS,
    EN16931,
    XRechnung,
    EXTENDED,
}

/// The one profile of a cross-industry despatch advice.
#[derive(Debug, Clone, Copy, PartialEq, Eq, Structural, Hash, PartialOrd, Ord)]
pub enum ProfileCrossIndustryDespatchAdvice {
    Pilot,
}

/// The language of a rendered view.
#[derive(Debug, Clone, Copy, PartialEq, Eq, Structural, Hash, PartialOrd, Ord)]
pub enum Language {
    En,
    Fr,
    De,
}

/// A profile together with the family it is a profile of.
///
/// The version is not stored: each variant admits only the profiles of one
/// version, so a profile can never be paired with the other version.
#[derive(Debug, Clone, Copy, PartialEq, Eq, Structural, Hash, PartialOrd, Ord)]
#[allow(inconsistent_fields)]
pub enum Config {
    ZugferdV1 { profile: ProfileV1 },
    FacturXOrZugferdV2 { profile: ProfileV2 },
    OrderX { profile: ProfileV1 },
    CrossIndustryDespatchAdvice { profile: ProfileCrossIndustryDespatchAdvice },
}

impl Versioned for ProfileV1 {
    open spec fn version_of(&self) -> Version {
        Version::V1
    }

    fn version(&self) -> (v: Version) {
        Version::V1
    }
}

impl Versioned for ProfileV2 {
    open spec fn version_of(&self) -> Version {
        Version::V2
    }

    fn version(&self) -> (v: Version) {
        Version::V2
    }
}

impl Versioned for ProfileCrossIndustryDespatchAdvice {
    /// The engine accepts the pilot profile under version 1 only.
    open spec fn version_of(&self) -> Version {
        Version::V1
    }

    fn version(&self) -> (v: Version) {
        Version::V1
    }
}

impl Versioned for Config {
    open spec fn version_of(&self) -> Version {
        match self {
            Config::ZugferdV1 { profile } => profile.version_of(),
            Config::FacturXOrZugferdV2 { profile } => profile.version_of(),
            Config::OrderX { profile } => profile.version_of(),
            Config::CrossIndustryDespatchAdvice { profile } => profile.version_of(),
        }
    }

    fn version(&self) -> (v: Version) {
        match self {
            Self::ZugferdV1 { profile } => profile.version(),
            Self::FacturXOrZugferdV2 { profile } => profile.version(),
            Self::OrderX { profile } => profile.version(),
            Self::CrossIndustryDespatchAdvice { profile } => profile.version(),
        }
    }
}

impl Config {
    /// The token of the wrapped profile.
    pub open spec fn profile_token(&self) -> Seq<char> {
        match self {
            Config::ZugferdV1 { profile } => profile.token(),
            Config::FacturXOrZugferdV2 { profile } => profile.token(),
            Config::OrderX { profile } => profile.token(),
            Config::CrossIndustryDespatchAdvice { profile } => profile.token(),
        }
    }

    /// Whether the wrapped profile is one of the version-2 profiles.
    pub open spec fn holds_v2_profile(&self) -> bool {
        self is FacturXOrZugferdV2
    }

    pub fn profile_as_str(&self) -> (s: &str)
        ensures
            s@ == self.profile_token(),
    {
        match self {
            Self::ZugferdV1 { profile } => profile.as_str(),
            Self::FacturXOrZugferdV2 { profile } => profile.as_str(),
            Self::OrderX { profile } => profile.as_str(),
            Self::CrossIndustryDespatchAdvice { profile } => profile.as_str(),
        }
    }
}

/// The version of a configuration is fixed by the family of the profile it
/// wraps: version 2 exactly for the version-2 profiles, version 1 for all
/// others.
pub proof fn lemma_config_version_follows_profile(config: Config)
    ensures
        config.holds_v2_profile() <==> config.version_of() == Version::V2,
        !config.holds_v2_profile() <==> config.version_of() == Version::V1,
        config matches Config::ZugferdV1 { profile } ==> config.version_of()
            == profile.version_of(),
        config matches Config::FacturXOrZugferdV2 { profile } ==> config.version_of()
            == profile.version_of(),
        config matches Config::OrderX { profile } ==> config.version_of() == profile.version_of(),
        config matches Config::CrossIndustryDespatchAdvice { profile } ==> config.version_of()
            == profile.version_of(),
{
}

impl AsStr for ProfileV2 {
    open spec fn token(&self) -> Seq<char> {
        match self {
            ProfileV2::MINIMUM => "M"@,
            ProfileV2::BasicWl => "W"@,
            ProfileV2::BASIC => "B"@,
            ProfileV2::CIUS => "C"@,
            ProfileV2::EN16931 => "E"@,
            ProfileV2::XRechnung => "X"@,
            ProfileV2::EXTENDED => "T"@,
        }
    }

    fn as_str(&self) -> (s: &str) {
        match self {
            Self::MINIMUM => "M",
            Self::BasicWl => "W",
            Self::BASIC => "B",
            Self::CIUS => "C",
            Self::EN16931 => "E",
            Self::XRechnung => "X",
            Self::EXTENDED => "T",
        }
    }
}

impl AsStr for Language {
    open spec fn token(&self) -> Seq<char> {
        match self {
            Language::En => "en"@,
            Language::Fr => "fr"@,
            Language::De => "de"@,
        }
    }

    fn as_str(&self) -> (s: &str) {
        match self {
            Self::En => "en",
            Self::Fr => "fr",
            Self::De => "de",
        }
    }
}

impl AsStr for ProfileV1 {
    open spec fn token(&self) -> Seq<char> {
        match self {
            ProfileV1::BASIC => "B"@,
            ProfileV1::COMFORT => "C"@,
            ProfileV1::EXTENDED => "T"@,
        }
    }

    fn as_str(&self) -> (s: &str) {
        match self {
            Self::BASIC => "B",
            Self::COMFORT => "C",
            Self::EXTENDED => "T",
        }
    }
}

impl AsStr for Version {
    open spec fn token(&self) -> Seq<char> {
        match self {
            Version::V1 => "1"@,
            Version::V2 => "2"@,
        }
    }

    fn as_str(&self) -> (s: &str) {
        match self {
            Self::V1 => "1",
            Self::V2 => "2",
        }
    }
}

impl AsStr for ProfileCrossIndustryDespatchAdvice {
    open spec fn token(&self) -> Seq<char> {
        match self {
            ProfileCrossIndustryDespatchAdvice::Pilot => "P"@,
        }
    }

    fn as_str(&self) -> (s: &str) {
        match self {
            Self::Pilot => "P",
        }
    }
}

impl AsStr for Action {
    open spec fn token(&self) -> Seq<char> {
        match self {
            Action::ExtractXmlFromPdf => "extract"@,
            Action::A3Only => "a3only"@,
            Action::CombineXmlAndPdf => "combine"@,
            Action::Ubl => "ubl"@,
            Action::Upgrade => "upgrade"@,
            Action::Validate => "validate"@,
            Action::XmlToHtml => "visualize"@,
            Action::XmlToPdf => "pdf"@,
        }
    }

    fn as_str(&self) -> (s: &str) {
        match self {
            Self::ExtractXmlFromPdf => "extract",
            Self::A3Only => "a3only",
            Self::CombineXmlAndPdf => "combine",
            Self::Ubl => "ubl",
            Self::Upgrade => "upgrade",
            Self::Validate => "validate",
            Self::XmlToHtml => "visualize",
            Self::XmlToPdf => "pdf",
        }
    }
}

impl AsStr for Format {
    open spec fn token(&self) -> Seq<char> {
        match self {
            Format::FacturX => "fx"@,
            Format::Zugferd => "zf"@,
            Format::OrderX => "ox"@,
            Format::CrossIndustryDespatchAdvice => "da"@,
        }
    }

    fn as_str(&self) -> (s: &str) {
        match self {
            Self::FacturX => "fx",
            Self::Zugferd => "zf",
            Self::OrderX => "ox",
            Self::CrossIndustryDespatchAdvice => "da",
        }
    }
}

/// Every token is present and short: no member of any set maps to the
/// empty text, and none to more than nine characters.
pub proof fn lemma_tokens_are_short(
    action: Action,
    format: Format,
    version: Version,
    v1: ProfileV1,
    v2: ProfileV2,
    advice: ProfileCrossIndustryDespatchAdvice,
    language: Language,
)
    ensures
        0 < action.token().len() <= 9,
        format.token().len() == 2,
        version.token().len() == 1,
        v1.token().len() == 1,
        v2.token().len() == 1,
        advice.token().len() == 1,
        language.token().len() == 2,
{
    reveal_action_tokens();
    reveal_format_tokens();
    reveal_version_tokens();
    reveal_profile_tokens();
    reveal_language_tokens();
}

/// Two actions with the same token are the same action.
pub proof fn lemma_action_tokens_differ(a: Action, b: Action)
    requires
        a.token() == b.token(),
    ensures
        a == b,
{
    reveal_action_tokens();
    assert(a.token()[0] == b.token()[0]);
}

/// Two formats with the same token are the same format.
pub proof fn lemma_format_tokens_differ(a: Format, b: Format)
    requires
        a.token() == b.token(),
    ensures
        a == b,
{
    reveal_format_tokens();
    assert(a.token()[0] == b.token()[0]);
}

/// Two versions with the same token are the same version.
pub proof fn lemma_version_tokens_differ(a: Version, b: Version)
    requires
        a.token() == b.token(),
    ensures
        a == b,
{
    reveal_version_tokens();
    assert(a.token()[0] == b.token()[0]);
}

/// Two profiles of version 1 with the same token are the same profile, and
/// so are two profiles of version 2.
pub proof fn lemma_profile_tokens_differ(a1: ProfileV1, b1: ProfileV1, a2: ProfileV2, b2: ProfileV2)
    ensures
        a1.token() == b1.token() ==> a1 == b1,
        a2.token() == b2.token() ==> a2 == b2,
{
    reveal_profile_tokens();
    if a1.token() == b1.token() {
        assert(a1.token()[0] == b1.token()[0]);
    }
    if a2.token() == b2.token() {
        assert(a2.token()[0] == b2.token()[0]);
    }
}

/// Two languages with the same token are the same language.
pub proof fn lemma_language_tokens_differ(a: Language, b: Language)
    requires
        a.token() == b.token(),
    ensures
        a == b,
{
    reveal_language_tokens();
    assert(a.token()[0] == b.token()[0]);
}

/// What the tokens of the actions are, character by character.
proof fn reveal_action_tokens()
    ensures
        "extract"@.len() == 7 && "extract"@[0] == 'e',
        "a3only"@.len() == 6 && "a3only"@[0] == 'a',
        "combine"@.len() == 7 && "combine"@[0] == 'c',
        "ubl"@.len() == 3 && "ubl"@[0] == 'u',
        "upgrade"@.len() == 7 && "upgrade"@[0] == 'u',
        "validate"@.len() == 8 && "validate"@[0] == 'v',
        "visualize"@.len() == 9 && "visualize"@[0] == 'v',
        "pdf"@.len() == 3 && "pdf"@[0] == 'p',
{
    reveal_strlit("extract");
    reveal_strlit("a3only");
    reveal_strlit("combine");
    reveal_strlit("ubl");
    reveal_strlit("upgrade");
    reveal_strlit("validate");
    reveal_strlit("visualize");
    reveal_strlit("pdf");
}

/// What the tokens of the formats are, character by character.
proof fn reveal_format_tokens()
    ensures
        "fx"@.len() == 2 && "fx"@[0] == 'f',
        "zf"@.len() == 2 && "zf"@[0] == 'z',
        "ox"@.len() == 2 && "ox"@[0] == 'o',
        "da"@.len() == 2 && "da"@[0] == 'd',
{
    reveal_strlit("fx");
    reveal_strlit("zf");
    reveal_strlit("ox");
    reveal_strlit("da");
}

/// What the tokens of the versions are, character by character.
proof fn reveal_version_tokens()
    ensures
        "1"@.len() == 1 && "1"@[0] == '1',
        "2"@.len() == 1 && "2"@[0] == '2',
{
    reveal_strlit("1");
    reveal_strlit("2");
}

/// What the tokens of the profiles are, character by character.
proof fn reveal_profile_tokens()
    ensures
        "M"@.len() == 1 && "M"@[0] == 'M',
        "W"@.len() == 1 && "W"@[0] == 'W',
        "B"@.len() == 1 && "B"@[0] == 'B',
        "C"@.len() == 1 && "C"@[0] == 'C',
        "E"@.len() == 1 && "E"@[0] == 'E',
        "X"@.len() == 1 && "X"@[0] == 'X',
        "T"@.len() == 1 && "T"@[0] == 'T',
        "P"@.len() == 1 && "P"@[0] == 'P',
{
    reveal_strlit("M");
    reveal_strlit("W");
    reveal_strlit("B");
    reveal_strlit("C");
    reveal_strlit("E");
    reveal_strlit("X");
    reveal_strlit("T");
    reveal_strlit("P");
}

/// What the tokens of the languages are, character by character.
proof fn reveal_language_tokens()
    ensures
        "en"@.len() == 2 && "en"@[0] == 'e',
        "fr"@.len() == 2 && "fr"@[0] == 'f',
        "de"@.len() == 2 && "de"@[0] == 'd',
{
    reveal_strlit("en");
    reveal_strlit("fr");
    reveal_strlit("de");
}

} // verus!

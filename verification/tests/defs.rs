use mustang_cli::defs::{
    Action, AsStr, Config, Format, Language, ProfileCrossIndustryDespatchAdvice, ProfileV1,
    ProfileV2, Version, Versioned,
};

#[test]
fn action_tokens() {
    assert_eq!(Action::ExtractXmlFromPdf.as_str(), "extract");
    assert_eq!(Action::A3Only.as_str(), "a3only");
    assert_eq!(Action::CombineXmlAndPdf.as_str(), "combine");
    assert_eq!(Action::Ubl.as_str(), "ubl");
    assert_eq!(Action::Upgrade.as_str(), "upgrade");
    assert_eq!(Action::Validate.as_str(), "validate");
    assert_eq!(Action::XmlToHtml.as_str(), "visualize");
    assert_eq!(Action::XmlToPdf.as_str(), "pdf");
}

#[test]
fn format_tokens() {
    assert_eq!(Format::FacturX.as_str(), "fx");
    assert_eq!(Format::Zugferd.as_str(), "zf");
    assert_eq!(Format::OrderX.as_str(), "ox");
    assert_eq!(Format::CrossIndustryDespatchAdvice.as_str(), "da");
}

#[test]
fn version_tokens() {
    assert_eq!(Version::V1.as_str(), "1");
    assert_eq!(Version::V2.as_str(), "2");
}

#[test]
fn language_tokens() {
    assert_eq!(Language::En.as_str(), "en");
    assert_eq!(Language::Fr.as_str(), "fr");
    assert_eq!(Language::De.as_str(), "de");
}

#[test]
fn profile_v1_tokens() {
    assert_eq!(ProfileV1::BASIC.as_str(), "B");
    assert_eq!(ProfileV1::COMFORT.as_str(), "C");
    assert_eq!(ProfileV1::EXTENDED.as_str(), "T");
}

#[test]
fn profile_v2_tokens() {
    assert_eq!(ProfileV2::MINIMUM.as_str(), "M");
    assert_eq!(ProfileV2::BasicWl.as_str(), "W");
    assert_eq!(ProfileV2::BASIC.as_str(), "B");
    assert_eq!(ProfileV2::CIUS.as_str(), "C");
    assert_eq!(ProfileV2::EN16931.as_str(), "E");
    assert_eq!(ProfileV2::XRechnung.as_str(), "X");
    assert_eq!(ProfileV2::EXTENDED.as_str(), "T");
}

#[test]
fn despatch_advice_profile_token() {
    assert_eq!(ProfileCrossIndustryDespatchAdvice::Pilot.as_str(), "P");
}

#[test]
fn profiles_know_their_version() {
    for profile in [ProfileV1::BASIC, ProfileV1::COMFORT, ProfileV1::EXTENDED] {
        assert_eq!(profile.version(), Version::V1);
    }
    for profile in all_v2_profiles() {
        assert_eq!(profile.version(), Version::V2);
    }
    assert_eq!(ProfileCrossIndustryDespatchAdvice::Pilot.version(), Version::V1);
}

fn all_v2_profiles() -> [ProfileV2; 7] {
    [
        ProfileV2::MINIMUM,
        ProfileV2::BasicWl,
        ProfileV2::BASIC,
        ProfileV2::CIUS,
        ProfileV2::EN16931,
        ProfileV2::XRechnung,
        ProfileV2::EXTENDED,
    ]
}

#[test]
fn config_version_is_the_version_of_its_profile() {
    for profile in [ProfileV1::BASIC, ProfileV1::COMFORT, ProfileV1::EXTENDED] {
        assert_eq!(Config::ZugferdV1 { profile }.version(), Version::V1);
        assert_eq!(Config::ZugferdV1 { profile }.version(), profile.version());
        assert_eq!(Config::OrderX { profile }.version(), Version::V1);
        assert_eq!(Config::OrderX { profile }.version(), profile.version());
    }
    for profile in all_v2_profiles() {
        assert_eq!(Config::FacturXOrZugferdV2 { profile }.version(), Version::V2);
        assert_eq!(Config::FacturXOrZugferdV2 { profile }.version(), profile.version());
    }
    let pilot = ProfileCrossIndustryDespatchAdvice::Pilot;
    assert_eq!(Config::CrossIndustryDespatchAdvice { profile: pilot }.version(), Version::V1);
}

#[test]
fn config_profile_token_is_the_token_of_its_profile() {
    assert_eq!(Config::ZugferdV1 { profile: ProfileV1::COMFORT }.profile_as_str(), "C");
    assert_eq!(Config::OrderX { profile: ProfileV1::EXTENDED }.profile_as_str(), "T");
    assert_eq!(Config::FacturXOrZugferdV2 { profile: ProfileV2::EN16931 }.profile_as_str(), "E");
    assert_eq!(Config::FacturXOrZugferdV2 { profile: ProfileV2::BasicWl }.profile_as_str(), "W");
    assert_eq!(
        Config::CrossIndustryDespatchAdvice { profile: ProfileCrossIndustryDespatchAdvice::Pilot }
            .profile_as_str(),
        "P"
    );
    for profile in all_v2_profiles() {
        assert_eq!(Config::FacturXOrZugferdV2 { profile }.profile_as_str(), profile.as_str());
    }
}

#[test]
fn profiles_are_ordered_from_least_to_most_permissive() {
    assert!(ProfileV1::BASIC < ProfileV1::COMFORT);
    assert!(ProfileV1::COMFORT < ProfileV1::EXTENDED);
    let v2 = all_v2_profiles();
    for pair in v2.windows(2) {
        assert!(pair[0] < pair[1]);
    }
    assert!(Version::V1 < Version::V2);
}

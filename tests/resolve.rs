use haproxy_geoip2::asn::lookup_asn;
use haproxy_geoip2::city::{lookup_city, lookup_country};
use haproxy_geoip2::path::{parse_index, seg_is};
use haproxy_geoip2::record::{
    AsnRecord, CityName, CityRecord, Continent, Country, LocalName, Location, Postal, Subdivision,
    Traits,
};
use haproxy_geoip2::value::GeoValue;

fn names(pairs: &[(&str, &str)]) -> Vec<LocalName> {
    pairs
        .iter()
        .map(|(l, n)| LocalName { lang: l.to_string(), name: n.to_string() })
        .collect()
}

fn path(segs: &[&str]) -> Vec<String> {
    segs.iter().map(|s| s.to_string()).collect()
}

fn milton() -> CityRecord {
    CityRecord {
        city: CityName { names: names(&[("en", "Milton"), ("de", "Milton DE")]) },
        continent: Continent {
            code: Some("NA".to_string()),
            names: names(&[("en", "North America"), ("fr", "Amérique du Nord")]),
        },
        country: Country {
            iso_code: Some("US".to_string()),
            names: names(&[("en", "United States")]),
            is_in_european_union: Some(false),
        },
        registered_country: Country {
            iso_code: Some("SE".to_string()),
            names: names(&[("en", "Sweden")]),
            is_in_european_union: Some(true),
        },
        location: Location {
            latitude_bits: Some(47.2513f64.to_bits()),
            longitude_bits: Some((-122.3149f64).to_bits()),
            time_zone: Some("America/Los_Angeles".to_string()),
            metro_code: Some(819),
        },
        postal: Postal { code: Some("98354".to_string()) },
        subdivisions: vec![
            Subdivision { iso_code: Some("WA".to_string()), names: names(&[("en", "Washington")]) },
            Subdivision { iso_code: None, names: names(&[("en", "Pierce")]) },
        ],
        traits: Traits {
            is_anonymous_proxy: Some(false),
            is_anycast: Some(true),
            is_satellite_provider: None,
        },
    }
}

fn empty_city() -> CityRecord {
    CityRecord {
        city: CityName { names: vec![] },
        continent: Continent { code: None, names: vec![] },
        country: Country { iso_code: None, names: vec![], is_in_european_union: None },
        registered_country: Country { iso_code: None, names: vec![], is_in_european_union: None },
        location: Location {
            latitude_bits: None,
            longitude_bits: None,
            time_zone: None,
            metro_code: None,
        },
        postal: Postal { code: None },
        subdivisions: vec![],
        traits: Traits { is_anonymous_proxy: None, is_anycast: None, is_satellite_provider: None },
    }
}

fn as_str(v: Option<GeoValue>) -> Option<String> {
    match v {
        Some(GeoValue::Str(s)) => Some(s),
        _ => None,
    }
}

#[test]
fn city_default_name_is_english() {
    assert_eq!(as_str(lookup_city(&milton(), &path(&["city"]))), Some("Milton".to_string()));
}

#[test]
fn city_names_by_language() {
    let c = milton();
    assert_eq!(as_str(lookup_city(&c, &path(&["city", "names", "de"]))), Some("Milton DE".to_string()));
    assert!(lookup_city(&c, &path(&["city", "names", "ja"])).is_none());
    assert!(lookup_city(&c, &path(&["city", "names"])).is_none());
    assert!(lookup_city(&c, &path(&["city", "code"])).is_none());
}

#[test]
fn country_iso_code() {
    let c = milton();
    assert_eq!(as_str(lookup_city(&c, &path(&["country", "iso_code"]))), Some("US".to_string()));
    assert_eq!(as_str(lookup_city(&c, &path(&["country"]))), Some("US".to_string()));
    assert_eq!(as_str(lookup_city(&c, &path(&["registered_country"]))), Some("SE".to_string()));
}

#[test]
fn country_names_and_eu_flag() {
    let c = milton();
    assert_eq!(
        as_str(lookup_city(&c, &path(&["country", "names", "en"]))),
        Some("United States".to_string())
    );
    assert!(matches!(
        lookup_city(&c, &path(&["registered_country", "is_in_european_union"])),
        Some(GeoValue::Bool(true))
    ));
    assert!(matches!(
        lookup_city(&c, &path(&["country", "is_in_european_union"])),
        Some(GeoValue::Bool(false))
    ));
    assert!(lookup_city(&c, &path(&["country", "capital"])).is_none());
}

#[test]
fn country_from_offset() {
    let c = milton();
    let p = path(&["x", "y", "names", "en"]);
    assert_eq!(as_str(lookup_country(&c.country, &p, 2)), Some("United States".to_string()));
    assert_eq!(as_str(lookup_country(&c.country, &p, 4)), Some("US".to_string()));
}

#[test]
fn location_fields() {
    let c = milton();
    match lookup_city(&c, &path(&["location", "latitude"])) {
        Some(GeoValue::FloatBits(b)) => assert_eq!(f64::from_bits(b), 47.2513),
        _ => panic!("latitude"),
    }
    match lookup_city(&c, &path(&["location", "longitude"])) {
        Some(GeoValue::FloatBits(b)) => assert_eq!(f64::from_bits(b), -122.3149),
        _ => panic!("longitude"),
    }
    assert_eq!(
        as_str(lookup_city(&c, &path(&["location", "timezone"]))),
        Some("America/Los_Angeles".to_string())
    );
    assert!(matches!(lookup_city(&c, &path(&["location", "metro_code"])), Some(GeoValue::UInt(819))));
    assert!(lookup_city(&c, &path(&["location"])).is_none());
}

#[test]
fn postal_and_continent() {
    let c = milton();
    assert_eq!(as_str(lookup_city(&c, &path(&["postal"]))), Some("98354".to_string()));
    assert_eq!(as_str(lookup_city(&c, &path(&["postal", "code"]))), Some("98354".to_string()));
    assert!(lookup_city(&c, &path(&["postal", "zip"])).is_none());
    assert_eq!(as_str(lookup_city(&c, &path(&["continent"]))), Some("NA".to_string()));
    assert_eq!(
        as_str(lookup_city(&c, &path(&["continent", "names", "fr"]))),
        Some("Amérique du Nord".to_string())
    );
}

#[test]
fn subdivision_by_index() {
    let c = milton();
    assert_eq!(as_str(lookup_city(&c, &path(&["subdivision", "0", "iso_code"]))), Some("WA".to_string()));
    assert_eq!(as_str(lookup_city(&c, &path(&["subdivision", "0"]))), Some("WA".to_string()));
    assert_eq!(
        as_str(lookup_city(&c, &path(&["subdivision", "1", "names", "en"]))),
        Some("Pierce".to_string())
    );
    assert!(lookup_city(&c, &path(&["subdivision", "1"])).is_none());
    assert!(lookup_city(&c, &path(&["subdivision", "abc"])).is_none());
}

#[test]
fn subdivision_bad_indices() {
    let c = milton();
    assert!(lookup_city(&c, &path(&["subdivision", "2"])).is_none());
    assert!(lookup_city(&c, &path(&["subdivision", "-1"])).is_none());
    assert!(lookup_city(&c, &path(&["subdivision", ""])).is_none());
    assert!(lookup_city(&c, &path(&["subdivision", "99999999999999999999999"])).is_none());
    assert!(lookup_city(&c, &path(&["subdivision"])).is_none());
    assert_eq!(as_str(lookup_city(&c, &path(&["subdivision", "+0"]))), Some("WA".to_string()));
}

#[test]
fn traits_flags() {
    let c = milton();
    assert!(matches!(lookup_city(&c, &path(&["traits", "is_anycast"])), Some(GeoValue::Bool(true))));
    assert!(matches!(
        lookup_city(&c, &path(&["traits", "is_anonymous_proxy"])),
        Some(GeoValue::Bool(false))
    ));
    assert!(lookup_city(&c, &path(&["traits", "is_satellite_provider"])).is_none());
}

#[test]
fn paths_outside_grammar_are_not_found() {
    let c = milton();
    assert!(lookup_city(&c, &path(&[])).is_none());
    assert!(lookup_city(&c, &path(&["City"])).is_none());
    assert!(lookup_city(&c, &path(&[" city"])).is_none());
    assert!(lookup_city(&c, &path(&["asn"])).is_none());
    assert!(lookup_city(&c, &path(&["traits"])).is_none());
}

#[test]
fn absent_fields_are_not_found() {
    let c = empty_city();
    for p in [
        vec!["city"],
        vec!["country"],
        vec!["location", "latitude"],
        vec!["postal"],
        vec!["continent"],
        vec!["subdivision", "0"],
        vec!["traits", "is_anycast"],
    ] {
        assert!(lookup_city(&c, &path(&p)).is_none());
    }
}

#[test]
fn asn_number_and_organization() {
    let a = AsnRecord {
        autonomous_system_number: Some(209),
        autonomous_system_organization: Some("CenturyLink".to_string()),
    };
    assert!(matches!(lookup_asn(&a, &path(&["asn"])), Some(GeoValue::UInt(209))));
    assert!(matches!(lookup_asn(&a, &path(&["autonomous_system_number"])), Some(GeoValue::UInt(209))));
    assert_eq!(
        as_str(lookup_asn(&a, &path(&["autonomous_system_organization"]))),
        Some("CenturyLink".to_string())
    );
    assert!(lookup_asn(&a, &path(&["city"])).is_none());
    assert!(lookup_asn(&a, &path(&[])).is_none());
    let empty = AsnRecord { autonomous_system_number: None, autonomous_system_organization: None };
    assert!(lookup_asn(&empty, &path(&["asn"])).is_none());
}

#[test]
fn falsy_values_are_found() {
    let a = AsnRecord {
        autonomous_system_number: Some(0),
        autonomous_system_organization: Some(String::new()),
    };
    assert!(matches!(lookup_asn(&a, &path(&["asn"])), Some(GeoValue::UInt(0))));
    assert_eq!(as_str(lookup_asn(&a, &path(&["autonomous_system_organization"]))), Some(String::new()));
}

#[test]
fn index_parsing() {
    assert_eq!(parse_index(&"0".to_string()), Some(0));
    assert_eq!(parse_index(&"42".to_string()), Some(42));
    assert_eq!(parse_index(&"+7".to_string()), Some(7));
    assert_eq!(parse_index(&"007".to_string()), Some(7));
    assert_eq!(parse_index(&usize::MAX.to_string()), Some(usize::MAX));
    assert_eq!(parse_index(&"18446744073709551616".to_string()), None);
    assert_eq!(parse_index(&"+".to_string()), None);
    assert_eq!(parse_index(&"".to_string()), None);
    assert_eq!(parse_index(&"1a".to_string()), None);
    assert_eq!(parse_index(&"-0".to_string()), None);
    assert_eq!(parse_index(&" 1".to_string()), None);
}

#[test]
fn segments_match_exactly() {
    assert!(seg_is(&"city".to_string(), "city"));
    assert!(!seg_is(&"City".to_string(), "city"));
    assert!(!seg_is(&"cit".to_string(), "city"));
}

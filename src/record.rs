use vstd::prelude::*;

verus! {

/// One localized name: a language code (`"en"`, `"pt-BR"`) and the name in it.
#[derive(Debug, Clone)]
pub struct LocalName {
    pub lang: String,
    pub name: String,
}

/// The name that a list of localized names gives for a language: the first
/// entry whose language code is exactly `lang`.
pub open spec fn name_in(names: Seq<LocalName>, lang: Seq<char>) -> Option<Seq<char>>
    decreases names.len(),
{
    if names.len() == 0 {
        None
    } else if names[0].lang@ == lang {
        Some(names[0].name@)
    } else {
        name_in(names.drop_first(), lang)
    }
}

#[derive(Debug, Clone)]
pub struct Country {
    pub iso_code: Option<String>,
    pub names: Vec<LocalName>,
    pub is_in_european_union: Option<bool>,
}

#[derive(Debug, Clone)]
pub struct Continent {
    pub code: Option<String>,
    pub names: Vec<LocalName>,
}

#[derive(Debug, Clone)]
pub struct CityName {
    pub names: Vec<LocalName>,
}

/// Location of a record; the coordinates are the bit patterns of `f64` degrees.
#[derive(Debug, Clone)]
pub struct Location {
    pub latitude_bits: Option<u64>,
    pub longitude_bits: Option<u64>,
    pub time_zone: Option<String>,
    pub metro_code: Option<u16>,
}

#[derive(Debug, Clone)]
pub struct Postal {
    pub code: Option<String>,
}

#[derive(Debug, Clone)]
pub struct Subdivision {
    pub iso_code: Option<String>,
    pub names: Vec<LocalName>,
}

#[derive(Debug, Clone)]
pub struct Traits {
    pub is_anonymous_proxy: Option<bool>,
    pub is_anycast: Option<bool>,
    pub is_satellite_provider: Option<bool>,
}

/// A record of the City schema. A part that the database leaves out is
/// represented with all of its fields absent.
#[derive(Debug, Clone)]
pub struct CityRecord {
    pub city: CityName,
    pub continent: Continent,
    pub country: Country,
    pub registered_country: Country,
    pub location: Location,
    pub postal: Postal,
    pub subdivisions: Vec<Subdivision>,
    pub traits: Traits,
}

/// A record of the ASN schema.
#[derive(Debug, Clone)]
pub struct AsnRecord {
    pub autonomous_system_number: Option<u32>,
    pub autonomous_system_organization: Option<String>,
}

} // verus!

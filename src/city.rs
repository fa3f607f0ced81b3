use vstd::prelude::*;
use crate::path::{index_value, parse_index, seg, seg_at_is, seg_is, segments, find_name};
use crate::record::{name_in, CityRecord, Country, LocalName, Location, Subdivision, Traits};
use crate::value::{bool_field, bool_value, float_field, float_value, found_view, str_field, str_value, GeoValue, ValueView};

verus! {

/// The name in a language, as a value.
pub open spec fn name_value(names: Seq<LocalName>, lang: Seq<char>) -> Option<ValueView> {
    match name_in(names, lang) {
        Some(n) => Some(ValueView::Str(n)),
        None => None,
    }
}

/// The localized name that segment `k` of the path names, if it is there.
pub open spec fn name_at(names: Seq<LocalName>, p: Seq<Seq<char>>, k: int) -> Option<ValueView> {
    match seg(p, k) {
        Some(lang) => name_value(names, lang),
        None => None,
    }
}

/// What a country resolves to, for the path from segment `k` on:
/// nothing or `iso_code` gives the code, `names`,`<lang>` the localized name,
/// `is_in_european_union` the flag.
pub open spec fn country_value(c: Country, p: Seq<Seq<char>>, k: int) -> Option<ValueView> {
    match seg(p, k) {
        None => str_field(c.iso_code),
        Some(s) => if s == "iso_code"@ {
            str_field(c.iso_code)
        } else if s == "names"@ {
            name_at(c.names@, p, k + 1)
        } else if s == "is_in_european_union"@ {
            bool_field(c.is_in_european_union)
        } else {
            None
        },
    }
}

pub open spec fn location_value(l: Location, p: Seq<Seq<char>>) -> Option<ValueView> {
    match seg(p, 1) {
        Some(s) => if s == "latitude"@ {
            float_field(l.latitude_bits)
        } else if s == "longitude"@ {
            float_field(l.longitude_bits)
        } else if s == "timezone"@ {
            str_field(l.time_zone)
        } else if s == "metro_code"@ {
            match l.metro_code {
                Some(m) => Some(ValueView::UInt(m as u32)),
                None => None,
            }
        } else {
            None
        },
        None => None,
    }
}

pub open spec fn subdivision_value(d: Subdivision, p: Seq<Seq<char>>) -> Option<ValueView> {
    match seg(p, 2) {
        None => str_field(d.iso_code),
        Some(s) => if s == "iso_code"@ {
            str_field(d.iso_code)
        } else if s == "names"@ {
            name_at(d.names@, p, 3)
        } else {
            None
        },
    }
}

pub open spec fn traits_value(t: Traits, p: Seq<Seq<char>>) -> Option<ValueView> {
    match seg(p, 1) {
        Some(s) => if s == "is_anonymous_proxy"@ {
            bool_field(t.is_anonymous_proxy)
        } else if s == "is_anycast"@ {
            bool_field(t.is_anycast)
        } else if s == "is_satellite_provider"@ {
            bool_field(t.is_satellite_provider)
        } else {
            None
        },
        None => None,
    }
}

/// What a property path resolves to on a City record; `None` is not-found.
pub open spec fn city_value(c: CityRecord, p: Seq<Seq<char>>) -> Option<ValueView> {
    match seg(p, 0) {
        None => None,
        Some(s) => if s == "city"@ {
            match seg(p, 1) {
                None => name_value(c.city.names@, "en"@),
                Some(s1) => if s1 == "names"@ {
                    name_at(c.city.names@, p, 2)
                } else {
                    None
                },
            }
        } else if s == "country"@ {
            country_value(c.country, p, 1)
        } else if s == "registered_country"@ {
            country_value(c.registered_country, p, 1)
        } else if s == "location"@ {
            location_value(c.location, p)
        } else if s == "postal"@ {
            match seg(p, 1) {
                None => str_field(c.postal.code),
                Some(s1) => if s1 == "code"@ {
                    str_field(c.postal.code)
                } else {
                    None
                },
            }
        } else if s == "continent"@ {
            match seg(p, 1) {
                None => str_field(c.continent.code),
                Some(s1) => if s1 == "code"@ {
                    str_field(c.continent.code)
                } else if s1 == "names"@ {
                    name_at(c.continent.names@, p, 2)
                } else {
                    None
                },
            }
        } else if s == "subdivision"@ {
            match seg(p, 1) {
                Some(s1) => match index_value(s1) {
                    Some(i) => if i < c.subdivisions@.len() {
                        subdivision_value(c.subdivisions@[i as int], p)
                    } else {
                        None
                    },
                    None => None,
                },
                None => None,
            }
        } else if s == "traits"@ {
            traits_value(c.traits, p)
        } else {
            None
        },
    }
}

/// Whether segment `k` is one of the words of a country path.
pub open spec fn country_path(p: Seq<Seq<char>>, k: int) -> bool {
    match seg(p, k) {
        None => true,
        Some(s) => s == "iso_code"@ || s == "is_in_european_union"@ || (s == "names"@ && seg(p, k + 1) is Some),
    }
}

/// The City grammar: the paths that can resolve on some record. Segments past
/// a complete path are not read.
pub open spec fn city_path(p: Seq<Seq<char>>) -> bool {
    match seg(p, 0) {
        None => false,
        Some(s) => (s == "city"@ && (seg(p, 1) is None || (seg(p, 1) == Some("names"@) && seg(p, 2) is Some)))
            || ((s == "country"@ || s == "registered_country"@) && country_path(p, 1))
            || (s == "location"@ && (seg(p, 1) == Some("latitude"@) || seg(p, 1) == Some("longitude"@)
                || seg(p, 1) == Some("timezone"@) || seg(p, 1) == Some("metro_code"@)))
            || (s == "postal"@ && (seg(p, 1) is None || seg(p, 1) == Some("code"@)))
            || (s == "continent"@ && (seg(p, 1) is None || seg(p, 1) == Some("code"@)
                || (seg(p, 1) == Some("names"@) && seg(p, 2) is Some)))
            || (s == "subdivision"@ && p.len() >= 2 && index_value(p[1]) is Some && (seg(p, 2) is None
                || seg(p, 2) == Some("iso_code"@) || (seg(p, 2) == Some("names"@) && seg(p, 3) is Some)))
            || (s == "traits"@ && (seg(p, 1) == Some("is_anonymous_proxy"@) || seg(p, 1) == Some("is_anycast"@)
                || seg(p, 1) == Some("is_satellite_provider"@))),
    }
}

/// A path outside the City grammar resolves to not-found on every record.
pub proof fn lemma_city_outside_grammar(c: CityRecord, p: Seq<Seq<char>>)
    requires
        !city_path(p),
    ensures
        city_value(c, p) is None,
{
}

/// A subdivision path whose index segment is not a non-negative integer, or
/// is past the record's last subdivision, resolves to not-found.
pub proof fn lemma_subdivision_bad_index(c: CityRecord, p: Seq<Seq<char>>)
    requires
        p.len() >= 2,
        p[0] == "subdivision"@,
        !(index_value(p[1]) matches Some(i) && i < c.subdivisions@.len()),
    ensures
        city_value(c, p) is None,
{
    reveal_strlit("subdivision");
    reveal_strlit("city");
    reveal_strlit("country");
    reveal_strlit("registered_country");
    reveal_strlit("location");
    reveal_strlit("postal");
    reveal_strlit("continent");
    assert(seg(p, 0) == Some(p[0]));
    assert("subdivision"@.len() == 11);
    assert("city"@.len() == 4 && "country"@.len() == 7 && "registered_country"@.len() == 18);
    assert("location"@.len() == 8 && "postal"@.len() == 6 && "continent"@.len() == 9);
}

/// The localized name that segment `k` of the path asks for.
fn name_lookup(names: &Vec<LocalName>, props: &[String], k: usize) -> (r: Option<GeoValue>)
    ensures
        found_view(r) == name_at(names@, segments(props@), k as int),
{
    if k < props.len() {
        match find_name(names, &props[k]) {
            Some(n) => Some(GeoValue::Str(n)),
            None => None,
        }
    } else {
        None
    }
}

/// Resolves the path from segment `start` on against a country.
pub fn lookup_country(country: &Country, props: &[String], start: usize) -> (r: Option<GeoValue>)
    ensures
        found_view(r) == country_value(*country, segments(props@), start as int),
{
    if start >= props.len() {
        return str_value(&country.iso_code);
    }
    let s = &props[start];
    if seg_is(s, "iso_code") {
        str_value(&country.iso_code)
    } else if seg_is(s, "names") {
        name_lookup(&country.names, props, start + 1)
    } else if seg_is(s, "is_in_european_union") {
        bool_value(country.is_in_european_union)
    } else {
        None
    }
}

fn lookup_location(location: &Location, props: &[String]) -> (r: Option<GeoValue>)
    ensures
        found_view(r) == location_value(*location, segments(props@)),
{
    if seg_at_is(props, 1, "latitude") {
        float_value(location.latitude_bits)
    } else if seg_at_is(props, 1, "longitude") {
        float_value(location.longitude_bits)
    } else if seg_at_is(props, 1, "timezone") {
        str_value(&location.time_zone)
    } else if seg_at_is(props, 1, "metro_code") {
        match location.metro_code {
            Some(m) => Some(GeoValue::UInt(m as u32)),
            None => None,
        }
    } else {
        None
    }
}

fn lookup_subdivision(sub: &Subdivision, props: &[String]) -> (r: Option<GeoValue>)
    ensures
        found_view(r) == subdivision_value(*sub, segments(props@)),
{
    if props.len() <= 2 || seg_is(&props[2], "iso_code") {
        str_value(&sub.iso_code)
    } else if seg_is(&props[2], "names") {
        name_lookup(&sub.names, props, 3)
    } else {
        None
    }
}

fn lookup_traits(traits: &Traits, props: &[String]) -> (r: Option<GeoValue>)
    ensures
        found_view(r) == traits_value(*traits, segments(props@)),
{
    if seg_at_is(props, 1, "is_anonymous_proxy") {
        bool_value(traits.is_anonymous_proxy)
    } else if seg_at_is(props, 1, "is_anycast") {
        bool_value(traits.is_anycast)
    } else if seg_at_is(props, 1, "is_satellite_provider") {
        bool_value(traits.is_satellite_provider)
    } else {
        None
    }
}

/// Resolves a property path against a City record. Paths outside the City
/// grammar, and fields that the record lacks, resolve to `None`.
pub fn lookup_city(city: &CityRecord, props: &[String]) -> (r: Option<GeoValue>)
    ensures
        found_view(r) == city_value(*city, segments(props@)),
{
    if props.len() == 0 {
        return None;
    }
    let s = &props[0];
    if seg_is(s, "city") {
        if props.len() == 1 {
            let en: String = "en".to_owned();
            match find_name(&city.city.names, &en) {
                Some(n) => Some(GeoValue::Str(n)),
                None => None,
            }
        } else if seg_is(&props[1], "names") {
            name_lookup(&city.city.names, props, 2)
        } else {
            None
        }
    } else if seg_is(s, "country") {
        lookup_country(&city.country, props, 1)
    } else if seg_is(s, "registered_country") {
        lookup_country(&city.registered_country, props, 1)
    } else if seg_is(s, "location") {
        lookup_location(&city.location, props)
    } else if seg_is(s, "postal") {
        if props.len() == 1 || seg_is(&props[1], "code") {
            str_value(&city.postal.code)
        } else {
            None
        }
    } else if seg_is(s, "continent") {
        if props.len() == 1 || seg_is(&props[1], "code") {
            str_value(&city.continent.code)
        } else if seg_is(&props[1], "names") {
            name_lookup(&city.continent.names, props, 2)
        } else {
            None
        }
    } else if seg_is(s, "subdivision") {
        if props.len() < 2 {
            return None;
        }
        match parse_index(&props[1]) {
            Some(i) => if i < city.subdivisions.len() {
                lookup_subdivision(&city.subdivisions[i], props)
            } else {
                None
            },
            None => None,
        }
    } else if seg_is(s, "traits") {
        lookup_traits(&city.traits, props)
    } else {
        None
    }
}

} // verus!

use vstd::prelude::*;
use crate::path::{seg, seg_is, segments};
use crate::record::AsnRecord;
use crate::value::{found_view, str_field, str_value, uint_field, uint_value, GeoValue, ValueView};

verus! {

/// What a property path resolves to on an ASN record: `autonomous_system_number`
/// or `asn` gives the AS number, `autonomous_system_organization` the
/// organization; anything else is not-found.
pub open spec fn asn_value(a: AsnRecord, p: Seq<Seq<char>>) -> Option<ValueView> {
    match seg(p, 0) {
        Some(s) => if s == "autonomous_system_number"@ || s == "asn"@ {
            uint_field(a.autonomous_system_number)
        } else if s == "autonomous_system_organization"@ {
            str_field(a.autonomous_system_organization)
        } else {
            None
        },
        None => None,
    }
}

/// The ASN grammar: a first segment naming the AS number or the organization.
pub open spec fn asn_path(p: Seq<Seq<char>>) -> bool {
    seg(p, 0) == Some("autonomous_system_number"@) || seg(p, 0) == Some("asn"@)
        || seg(p, 0) == Some("autonomous_system_organization"@)
}

/// A path outside the ASN grammar resolves to not-found on every record.
pub proof fn lemma_asn_outside_grammar(a: AsnRecord, p: Seq<Seq<char>>)
    requires
        !asn_path(p),
    ensures
        asn_value(a, p) is None,
{
}

/// Resolves a property path against an ASN record.
pub fn lookup_asn(asn: &AsnRecord, props: &[String]) -> (r: Option<GeoValue>)
    ensures
        found_view(r) == asn_value(*asn, segments(props@)),
{
    if props.len() == 0 {
        return None;
    }
    let s = &props[0];
    if seg_is(s, "autonomous_system_number") || seg_is(s, "asn") {
        uint_value(asn.autonomous_system_number)
    } else if seg_is(s, "autonomous_system_organization") {
        str_value(&asn.autonomous_system_organization)
    } else {
        None
    }
}

} // verus!

//! GeoIP2 property lookups for HAProxy: the resolver that turns a property
//! path into a value of a City or ASN record, and the lock-free status
//! machine that governs loading and hot-reloading a database.

pub mod asn;
pub mod city;
pub mod db;
pub mod path;
pub mod record;
pub mod status;
pub mod value;

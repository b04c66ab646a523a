//! The records of the IP geolocation service's answer: where an address is,
//! which provider serves it, and the currency and time zone of its country.

use vstd::prelude::*;

verus! {

/// A currency.
#[derive(Debug, Clone, PartialEq, Eq)]
pub struct Currency {
    /// The currency code, e.g. "USD".
    pub code: String,
    /// The currency's name, e.g. "US Dollar".
    pub name: String,
    /// The currency's symbol, e.g. "$".
    pub symbol: String,
}

/// A time zone, as it stood when the request was answered.
#[derive(Debug, Clone, PartialEq, Eq)]
pub struct TimeZone {
    /// The zone's name, e.g. "America/Los_Angeles".
    pub name: String,
    /// The offset from UTC, in hours.
    pub offset: i8,
    /// The local time in the zone, as the service writes it.
    pub current_time: String,
    /// The Unix time of the answer, in milliseconds.
    pub current_time_unix_ms: i64,
    /// Whether daylight saving time is in effect.
    pub is_dst: bool,
    /// The daylight saving shift, 0 or 1.
    pub dst_savings: u8,
}

/// An IP address with its geographic location and internet service provider.
#[derive(Debug, Clone, PartialEq, Eq)]
pub struct IpAddress {
    /// The address, e.g. "8.8.8.8".
    pub ip: String,
    /// The host name, where known, e.g. "dns.google".
    pub hostname: Option<String>,
    /// The continent code, e.g. "NA".
    pub continent_code: String,
    /// The continent's name, e.g. "North America".
    pub continent_name: String,
    /// The two-letter country code, e.g. "US".
    pub country_code2: String,
    /// The three-letter country code, e.g. "USA".
    pub country_code3: String,
    /// The country's name, e.g. "United States".
    pub country_name: String,
    /// The country's capital, e.g. "Washington D.C.".
    pub country_capital: String,
    /// The state or province, e.g. "California".
    pub state_prov: String,
    /// The district within the state or province, e.g. "Santa Clara".
    pub district: String,
    /// The city, e.g. "Mountain View".
    pub city: String,
    /// The postal code, e.g. "94043-1351".
    pub zipcode: String,
    /// The latitude in decimal text, e.g. "37.42240".
    pub latitude: String,
    /// The longitude in decimal text, e.g. "-122.08421".
    pub longitude: String,
    /// Whether the country belongs to the European Union.
    pub is_eu: bool,
    /// The country's calling code, e.g. "+1".
    pub calling_code: String,
    /// The country's top-level domain, e.g. ".us".
    pub country_tld: String,
    /// The country's common languages, e.g. "en-US,es-US,haw,fr".
    pub languages: String,
    /// A link to an image of the country's flag.
    pub country_flag: String,
    /// The geoname identifier, e.g. "6301403".
    pub geoname_id: String,
    /// The internet service provider, e.g. "Google LLC".
    pub isp: String,
    /// The connection type.
    pub connection_type: String,
    /// The organization, e.g. "Google LLC".
    pub organization: String,
    /// The autonomous system number, where known, e.g. "AS15169".
    pub asn: Option<String>,
    /// The country's currency.
    pub currency: Currency,
    /// The location's time zone.
    pub time_zone: TimeZone,
}

} // verus!

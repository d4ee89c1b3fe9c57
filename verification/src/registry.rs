//! The profile registry: for each identity, the fully composed settings
//! bundle, combining the family header scaffold with version-specific
//! header overrides, version-accurate HTTP/2 parameters, the TLS shaping
//! handle and the compression capability flags.

use vstd::prelude::*;
use crate::profile::{Impersonate, ClientProfile, spec_profile};
use crate::http2::Http2Data;
use crate::headers::{
    HeaderTemplate, has_name, header_value_of, find_name, find_name_upto,
};
use crate::strutil::lemma_seq_neq_at;
use crate::httpmap::{is_simple_header_name, is_simple_header_value, template_installable};

verus! {

/// Opaque stand-in for the TLS collaborator's connector handle: shaped
/// once for one identity, shareable, never mutated afterwards.
#[derive(Clone, Copy, Debug, PartialEq, Eq, Structural)]
pub struct TlsConnector {
    pub shaped_for: Impersonate,
}

impl TlsConnector {
    /// A connector handle shaped for one identity.
    pub fn new(shaped_for: Impersonate) -> (c: TlsConnector)
        ensures
            c.shaped_for == shaped_for,
    {
        TlsConnector { shaped_for }
    }
}

/// The fully composed, per-identity configuration bundle.
pub struct ImpersonateSettings {
    pub tls_connector: TlsConnector,
    pub http2: Http2Data,
    pub headers: HeaderTemplate,
    pub gzip: bool,
    pub brotli: bool,
}

/// Whether a family's header convention includes client-hint headers.
pub open spec fn family_sends_client_hints(p: ClientProfile) -> bool {
    p == ClientProfile::Chrome || p == ClientProfile::Edge
}

/// The HTTP/2 parameter set of each identity, by family; the values are
/// the ones the real clients send in their SETTINGS frames.
pub open spec fn spec_http2_of(id: Impersonate) -> Http2Data {
    match spec_profile(id) {
        ClientProfile::Chrome | ClientProfile::Edge => Http2Data {
            initial_stream_window_size: Some(6291456u32),
            initial_connection_window_size: Some(15728640u32),
            max_concurrent_streams: Some(1000u32),
            max_header_list_size: Some(262144u32),
            header_table_size: Some(65536u32),
            enable_push: Some(false),
        },
        ClientProfile::Safari => Http2Data {
            initial_stream_window_size: Some(2097152u32),
            initial_connection_window_size: Some(10485760u32),
            max_concurrent_streams: Some(100u32),
            max_header_list_size: None,
            header_table_size: None,
            enable_push: Some(false),
        },
        ClientProfile::OkHttp => Http2Data {
            initial_stream_window_size: Some(16777216u32),
            initial_connection_window_size: Some(16777216u32),
            max_concurrent_streams: None,
            max_header_list_size: None,
            header_table_size: None,
            enable_push: None,
        },
        ClientProfile::Firefox => Http2Data {
            initial_stream_window_size: Some(131072u32),
            initial_connection_window_size: Some(12517377u32),
            max_concurrent_streams: None,
            max_header_list_size: None,
            header_table_size: Some(65536u32),
            enable_push: None,
        },
    }
}

/// Whether the identity advertises gzip response decoding.
pub open spec fn spec_gzip(id: Impersonate) -> bool {
    true
}

/// Whether the identity advertises brotli response decoding; OkHttp does
/// not.
pub open spec fn spec_brotli(id: Impersonate) -> bool {
    spec_profile(id) != ClientProfile::OkHttp
}

/// The user-agent string of each identity.
pub open spec fn spec_user_agent(id: Impersonate) -> Seq<char> {
    match id {
        Impersonate::Chrome100 => "Mozilla/5.0 (Windows NT 10.0; Win64; x64) AppleWebKit/537.36 (KHTML, like Gecko) Chrome/100.0.0.0 Safari/537.36"@,
        Impersonate::Chrome101 => "Mozilla/5.0 (Windows NT 10.0; Win64; x64) AppleWebKit/537.36 (KHTML, like Gecko) Chrome/101.0.0.0 Safari/537.36"@,
        Impersonate::Chrome104 => "Mozilla/5.0 (Windows NT 10.0; Win64; x64) AppleWebKit/537.36 (KHTML, like Gecko) Chrome/104.0.0.0 Safari/537.36"@,
        Impersonate::Chrome105 => "Mozilla/5.0 (Windows NT 10.0; Win64; x64) AppleWebKit/537.36 (KHTML, like Gecko) Chrome/105.0.0.0 Safari/537.36"@,
        Impersonate::Chrome106 => "Mozilla/5.0 (Windows NT 10.0; Win64; x64) AppleWebKit/537.36 (KHTML, like Gecko) Chrome/106.0.0.0 Safari/537.36"@,
        Impersonate::Chrome107 => "Mozilla/5.0 (Windows NT 10.0; Win64; x64) AppleWebKit/537.36 (KHTML, like Gecko) Chrome/107.0.0.0 Safari/537.36"@,
        Impersonate::Chrome108 => "Mozilla/5.0 (Windows NT 10.0; Win64; x64) AppleWebKit/537.36 (KHTML, like Gecko) Chrome/108.0.0.0 Safari/537.36"@,
        Impersonate::Chrome109 => "Mozilla/5.0 (Windows NT 10.0; Win64; x64) AppleWebKit/537.36 (KHTML, like Gecko) Chrome/109.0.0.0 Safari/537.36"@,
        Impersonate::Chrome114 => "Mozilla/5.0 (Windows NT 10.0; Win64; x64) AppleWebKit/537.36 (KHTML, like Gecko) Chrome/114.0.0.0 Safari/537.36"@,
        Impersonate::Chrome116 => "Mozilla/5.0 (Windows NT 10.0; Win64; x64) AppleWebKit/537.36 (KHTML, like Gecko) Chrome/116.0.0.0 Safari/537.36"@,
        Impersonate::Chrome117 => "Mozilla/5.0 (Windows NT 10.0; Win64; x64) AppleWebKit/537.36 (KHTML, like Gecko) Chrome/117.0.0.0 Safari/537.36"@,
        Impersonate::Chrome118 => "Mozilla/5.0 (Windows NT 10.0; Win64; x64) AppleWebKit/537.36 (KHTML, like Gecko) Chrome/118.0.0.0 Safari/537.36"@,
        Impersonate::Chrome119 => "Mozilla/5.0 (Windows NT 10.0; Win64; x64) AppleWebKit/537.36 (KHTML, like Gecko) Chrome/119.0.0.0 Safari/537.36"@,
        Impersonate::Chrome120 => "Mozilla/5.0 (Windows NT 10.0; Win64; x64) AppleWebKit/537.36 (KHTML, like Gecko) Chrome/120.0.0.0 Safari/537.36"@,
        Impersonate::Chrome123 => "Mozilla/5.0 (Windows NT 10.0; Win64; x64) AppleWebKit/537.36 (KHTML, like Gecko) Chrome/123.0.0.0 Safari/537.36"@,
        Impersonate::Chrome124 => "Mozilla/5.0 (Windows NT 10.0; Win64; x64) AppleWebKit/537.36 (KHTML, like Gecko) Chrome/124.0.0.0 Safari/537.36"@,
        Impersonate::Chrome126 => "Mozilla/5.0 (Windows NT 10.0; Win64; x64) AppleWebKit/537.36 (KHTML, like Gecko) Chrome/126.0.0.0 Safari/537.36"@,
        Impersonate::SafariIos17_2 => "Mozilla/5.0 (iPhone; CPU iPhone OS 17_2 like Mac OS X) AppleWebKit/605.1.15 (KHTML, like Gecko) Version/17.2 Mobile/15E148 Safari/604.1"@,
        Impersonate::SafariIos17_4_1 => "Mozilla/5.0 (iPhone; CPU iPhone OS 17_4_1 like Mac OS X) AppleWebKit/605.1.15 (KHTML, like Gecko) Version/17.4.1 Mobile/15E148 Safari/604.1"@,
        Impersonate::SafariIos16_5 => "Mozilla/5.0 (iPhone; CPU iPhone OS 16_5 like Mac OS X) AppleWebKit/605.1.15 (KHTML, like Gecko) Version/16.5 Mobile/15E148 Safari/604.1"@,
        Impersonate::Safari15_3 => "Mozilla/5.0 (Macintosh; Intel Mac OS X 10_15_7) AppleWebKit/605.1.15 (KHTML, like Gecko) Version/15.3 Safari/605.1.15"@,
        Impersonate::Safari15_5 => "Mozilla/5.0 (Macintosh; Intel Mac OS X 10_15_7) AppleWebKit/605.1.15 (KHTML, like Gecko) Version/15.5 Safari/605.1.15"@,
        Impersonate::Safari15_6_1 => "Mozilla/5.0 (Macintosh; Intel Mac OS X 10_15_7) AppleWebKit/605.1.15 (KHTML, like Gecko) Version/15.6.1 Safari/605.1.15"@,
        Impersonate::Safari16 => "Mozilla/5.0 (Macintosh; Intel Mac OS X 10_15_7) AppleWebKit/605.1.15 (KHTML, like Gecko) Version/16.0 Safari/605.1.15"@,
        Impersonate::Safari16_5 => "Mozilla/5.0 (Macintosh; Intel Mac OS X 10_15_7) AppleWebKit/605.1.15 (KHTML, like Gecko) Version/16.5 Safari/605.1.15"@,
        Impersonate::Safari17_2_1 => "Mozilla/5.0 (Macintosh; Intel Mac OS X 10_15_7) AppleWebKit/605.1.15 (KHTML, like Gecko) Version/17.2.1 Safari/605.1.15"@,
        Impersonate::Safari17_4_1 => "Mozilla/5.0 (Macintosh; Intel Mac OS X 10_15_7) AppleWebKit/605.1.15 (KHTML, like Gecko) Version/17.4.1 Safari/605.1.15"@,
        Impersonate::Safari17_5 => "Mozilla/5.0 (Macintosh; Intel Mac OS X 10_15_7) AppleWebKit/605.1.15 (KHTML, like Gecko) Version/17.5 Safari/605.1.15"@,
        Impersonate::OkHttp3_9 => "okhttp/3.9.0"@,
        Impersonate::OkHttp3_11 => "okhttp/3.11.0"@,
        Impersonate::OkHttp3_13 => "okhttp/3.13.1"@,
        Impersonate::OkHttp3_14 => "okhttp/3.14.9"@,
        Impersonate::OkHttp4_9 => "okhttp/4.9.3"@,
        Impersonate::OkHttp4_10 => "okhttp/4.10.0"@,
        Impersonate::OkHttp5 => "okhttp/5.0.0"@,
        Impersonate::Edge99 => "Mozilla/5.0 (Windows NT 10.0; Win64; x64) AppleWebKit/537.36 (KHTML, like Gecko) Chrome/99.0.4844.51 Safari/537.36 Edg/99.0.1150.36"@,
        Impersonate::Edge101 => "Mozilla/5.0 (Windows NT 10.0; Win64; x64) AppleWebKit/537.36 (KHTML, like Gecko) Chrome/101.0.4951.64 Safari/537.36 Edg/101.0.1210.47"@,
        Impersonate::Edge122 => "Mozilla/5.0 (Windows NT 10.0; Win64; x64) AppleWebKit/537.36 (KHTML, like Gecko) Chrome/122.0.0.0 Safari/537.36 Edg/122.0.2365.59"@,
    }
}

/// The version-specific client-hint brand list of each identity; empty
/// for families that send no client hints.
pub open spec fn spec_sec_ch_ua(id: Impersonate) -> Seq<char> {
    match id {
        Impersonate::Chrome100 => "\" Not A;Brand\";v=\"99\", \"Chromium\";v=\"100\", \"Google Chrome\";v=\"100\""@,
        Impersonate::Chrome101 => "\" Not A;Brand\";v=\"99\", \"Chromium\";v=\"101\", \"Google Chrome\";v=\"101\""@,
        Impersonate::Chrome104 => "\" Not A;Brand\";v=\"99\", \"Chromium\";v=\"104\", \"Google Chrome\";v=\"104\""@,
        Impersonate::Chrome105 => "\" Not A;Brand\";v=\"99\", \"Chromium\";v=\"105\", \"Google Chrome\";v=\"105\""@,
        Impersonate::Chrome106 => "\" Not A;Brand\";v=\"99\", \"Chromium\";v=\"106\", \"Google Chrome\";v=\"106\""@,
        Impersonate::Chrome107 => "\" Not A;Brand\";v=\"99\", \"Chromium\";v=\"107\", \"Google Chrome\";v=\"107\""@,
        Impersonate::Chrome108 => "\" Not A;Brand\";v=\"99\", \"Chromium\";v=\"108\", \"Google Chrome\";v=\"108\""@,
        Impersonate::Chrome109 => "\" Not A;Brand\";v=\"99\", \"Chromium\";v=\"109\", \"Google Chrome\";v=\"109\""@,
        Impersonate::Chrome114 => "\" Not A;Brand\";v=\"99\", \"Chromium\";v=\"114\", \"Google Chrome\";v=\"114\""@,
        Impersonate::Chrome116 => "\" Not A;Brand\";v=\"99\", \"Chromium\";v=\"116\", \"Google Chrome\";v=\"116\""@,
        Impersonate::Chrome117 => "\" Not A;Brand\";v=\"99\", \"Chromium\";v=\"117\", \"Google Chrome\";v=\"117\""@,
        Impersonate::Chrome118 => "\" Not A;Brand\";v=\"99\", \"Chromium\";v=\"118\", \"Google Chrome\";v=\"118\""@,
        Impersonate::Chrome119 => "\" Not A;Brand\";v=\"99\", \"Chromium\";v=\"119\", \"Google Chrome\";v=\"119\""@,
        Impersonate::Chrome120 => "\" Not A;Brand\";v=\"99\", \"Chromium\";v=\"120\", \"Google Chrome\";v=\"120\""@,
        Impersonate::Chrome123 => "\" Not A;Brand\";v=\"99\", \"Chromium\";v=\"123\", \"Google Chrome\";v=\"123\""@,
        Impersonate::Chrome124 => "\" Not A;Brand\";v=\"99\", \"Chromium\";v=\"124\", \"Google Chrome\";v=\"124\""@,
        Impersonate::Chrome126 => "\" Not A;Brand\";v=\"99\", \"Chromium\";v=\"126\", \"Google Chrome\";v=\"126\""@,
        Impersonate::Edge99 => "\" Not A;Brand\";v=\"99\", \"Chromium\";v=\"99\", \"Microsoft Edge\";v=\"99\""@,
        Impersonate::Edge101 => "\" Not A;Brand\";v=\"99\", \"Chromium\";v=\"101\", \"Microsoft Edge\";v=\"101\""@,
        Impersonate::Edge122 => "\" Not A;Brand\";v=\"99\", \"Chromium\";v=\"122\", \"Microsoft Edge\";v=\"122\""@,
        Impersonate::SafariIos17_2
        | Impersonate::SafariIos17_4_1
        | Impersonate::SafariIos16_5
        | Impersonate::Safari15_3
        | Impersonate::Safari15_5
        | Impersonate::Safari15_6_1
        | Impersonate::Safari16
        | Impersonate::Safari16_5
        | Impersonate::Safari17_2_1
        | Impersonate::Safari17_4_1
        | Impersonate::Safari17_5
        | Impersonate::OkHttp3_9
        | Impersonate::OkHttp3_11
        | Impersonate::OkHttp3_13
        | Impersonate::OkHttp3_14
        | Impersonate::OkHttp4_9
        | Impersonate::OkHttp4_10
        | Impersonate::OkHttp5 => ""@,
    }
}

/// The user-agent string of the given identity.
pub fn user_agent_of(id: Impersonate) -> (r: &'static str)
    ensures
        r@ == spec_user_agent(id),
{
    match id {
        Impersonate::Chrome100 => "Mozilla/5.0 (Windows NT 10.0; Win64; x64) AppleWebKit/537.36 (KHTML, like Gecko) Chrome/100.0.0.0 Safari/537.36",
        Impersonate::Chrome101 => "Mozilla/5.0 (Windows NT 10.0; Win64; x64) AppleWebKit/537.36 (KHTML, like Gecko) Chrome/101.0.0.0 Safari/537.36",
        Impersonate::Chrome104 => "Mozilla/5.0 (Windows NT 10.0; Win64; x64) AppleWebKit/537.36 (KHTML, like Gecko) Chrome/104.0.0.0 Safari/537.36",
        Impersonate::Chrome105 => "Mozilla/5.0 (Windows NT 10.0; Win64; x64) AppleWebKit/537.36 (KHTML, like Gecko) Chrome/105.0.0.0 Safari/537.36",
        Impersonate::Chrome106 => "Mozilla/5.0 (Windows NT 10.0; Win64; x64) AppleWebKit/537.36 (KHTML, like Gecko) Chrome/106.0.0.0 Safari/537.36",
        Impersonate::Chrome107 => "Mozilla/5.0 (Windows NT 10.0; Win64; x64) AppleWebKit/537.36 (KHTML, like Gecko) Chrome/107.0.0.0 Safari/537.36",
        Impersonate::Chrome108 => "Mozilla/5.0 (Windows NT 10.0; Win64; x64) AppleWebKit/537.36 (KHTML, like Gecko) Chrome/108.0.0.0 Safari/537.36",
        Impersonate::Chrome109 => "Mozilla/5.0 (Windows NT 10.0; Win64; x64) AppleWebKit/537.36 (KHTML, like Gecko) Chrome/109.0.0.0 Safari/537.36",
        Impersonate::Chrome114 => "Mozilla/5.0 (Windows NT 10.0; Win64; x64) AppleWebKit/537.36 (KHTML, like Gecko) Chrome/114.0.0.0 Safari/537.36",
        Impersonate::Chrome116 => "Mozilla/5.0 (Windows NT 10.0; Win64; x64) AppleWebKit/537.36 (KHTML, like Gecko) Chrome/116.0.0.0 Safari/537.36",
        Impersonate::Chrome117 => "Mozilla/5.0 (Windows NT 10.0; Win64; x64) AppleWebKit/537.36 (KHTML, like Gecko) Chrome/117.0.0.0 Safari/537.36",
        Impersonate::Chrome118 => "Mozilla/5.0 (Windows NT 10.0; Win64; x64) AppleWebKit/537.36 (KHTML, like Gecko) Chrome/118.0.0.0 Safari/537.36",
        Impersonate::Chrome119 => "Mozilla/5.0 (Windows NT 10.0; Win64; x64) AppleWebKit/537.36 (KHTML, like Gecko) Chrome/119.0.0.0 Safari/537.36",
        Impersonate::Chrome120 => "Mozilla/5.0 (Windows NT 10.0; Win64; x64) AppleWebKit/537.36 (KHTML, like Gecko) Chrome/120.0.0.0 Safari/537.36",
        Impersonate::Chrome123 => "Mozilla/5.0 (Windows NT 10.0; Win64; x64) AppleWebKit/537.36 (KHTML, like Gecko) Chrome/123.0.0.0 Safari/537.36",
        Impersonate::Chrome124 => "Mozilla/5.0 (Windows NT 10.0; Win64; x64) AppleWebKit/537.36 (KHTML, like Gecko) Chrome/124.0.0.0 Safari/537.36",
        Impersonate::Chrome126 => "Mozilla/5.0 (Windows NT 10.0; Win64; x64) AppleWebKit/537.36 (KHTML, like Gecko) Chrome/126.0.0.0 Safari/537.36",
        Impersonate::SafariIos17_2 => "Mozilla/5.0 (iPhone; CPU iPhone OS 17_2 like Mac OS X) AppleWebKit/605.1.15 (KHTML, like Gecko) Version/17.2 Mobile/15E148 Safari/604.1",
        Impersonate::SafariIos17_4_1 => "Mozilla/5.0 (iPhone; CPU iPhone OS 17_4_1 like Mac OS X) AppleWebKit/605.1.15 (KHTML, like Gecko) Version/17.4.1 Mobile/15E148 Safari/604.1",
        Impersonate::SafariIos16_5 => "Mozilla/5.0 (iPhone; CPU iPhone OS 16_5 like Mac OS X) AppleWebKit/605.1.15 (KHTML, like Gecko) Version/16.5 Mobile/15E148 Safari/604.1",
        Impersonate::Safari15_3 => "Mozilla/5.0 (Macintosh; Intel Mac OS X 10_15_7) AppleWebKit/605.1.15 (KHTML, like Gecko) Version/15.3 Safari/605.1.15",
        Impersonate::Safari15_5 => "Mozilla/5.0 (Macintosh; Intel Mac OS X 10_15_7) AppleWebKit/605.1.15 (KHTML, like Gecko) Version/15.5 Safari/605.1.15",
        Impersonate::Safari15_6_1 => "Mozilla/5.0 (Macintosh; Intel Mac OS X 10_15_7) AppleWebKit/605.1.15 (KHTML, like Gecko) Version/15.6.1 Safari/605.1.15",
        Impersonate::Safari16 => "Mozilla/5.0 (Macintosh; Intel Mac OS X 10_15_7) AppleWebKit/605.1.15 (KHTML, like Gecko) Version/16.0 Safari/605.1.15",
        Impersonate::Safari16_5 => "Mozilla/5.0 (Macintosh; Intel Mac OS X 10_15_7) AppleWebKit/605.1.15 (KHTML, like Gecko) Version/16.5 Safari/605.1.15",
        Impersonate::Safari17_2_1 => "Mozilla/5.0 (Macintosh; Intel Mac OS X 10_15_7) AppleWebKit/605.1.15 (KHTML, like Gecko) Version/17.2.1 Safari/605.1.15",
        Impersonate::Safari17_4_1 => "Mozilla/5.0 (Macintosh; Intel Mac OS X 10_15_7) AppleWebKit/605.1.15 (KHTML, like Gecko) Version/17.4.1 Safari/605.1.15",
        Impersonate::Safari17_5 => "Mozilla/5.0 (Macintosh; Intel Mac OS X 10_15_7) AppleWebKit/605.1.15 (KHTML, like Gecko) Version/17.5 Safari/605.1.15",
        Impersonate::OkHttp3_9 => "okhttp/3.9.0",
        Impersonate::OkHttp3_11 => "okhttp/3.11.0",
        Impersonate::OkHttp3_13 => "okhttp/3.13.1",
        Impersonate::OkHttp3_14 => "okhttp/3.14.9",
        Impersonate::OkHttp4_9 => "okhttp/4.9.3",
        Impersonate::OkHttp4_10 => "okhttp/4.10.0",
        Impersonate::OkHttp5 => "okhttp/5.0.0",
        Impersonate::Edge99 => "Mozilla/5.0 (Windows NT 10.0; Win64; x64) AppleWebKit/537.36 (KHTML, like Gecko) Chrome/99.0.4844.51 Safari/537.36 Edg/99.0.1150.36",
        Impersonate::Edge101 => "Mozilla/5.0 (Windows NT 10.0; Win64; x64) AppleWebKit/537.36 (KHTML, like Gecko) Chrome/101.0.4951.64 Safari/537.36 Edg/101.0.1210.47",
        Impersonate::Edge122 => "Mozilla/5.0 (Windows NT 10.0; Win64; x64) AppleWebKit/537.36 (KHTML, like Gecko) Chrome/122.0.0.0 Safari/537.36 Edg/122.0.2365.59",
    }
}

/// The version-specific client-hint brand list of the given identity.
pub fn sec_ch_ua_of(id: Impersonate) -> (r: &'static str)
    ensures
        r@ == spec_sec_ch_ua(id),
{
    match id {
        Impersonate::Chrome100 => "\" Not A;Brand\";v=\"99\", \"Chromium\";v=\"100\", \"Google Chrome\";v=\"100\"",
        Impersonate::Chrome101 => "\" Not A;Brand\";v=\"99\", \"Chromium\";v=\"101\", \"Google Chrome\";v=\"101\"",
        Impersonate::Chrome104 => "\" Not A;Brand\";v=\"99\", \"Chromium\";v=\"104\", \"Google Chrome\";v=\"104\"",
        Impersonate::Chrome105 => "\" Not A;Brand\";v=\"99\", \"Chromium\";v=\"105\", \"Google Chrome\";v=\"105\"",
        Impersonate::Chrome106 => "\" Not A;Brand\";v=\"99\", \"Chromium\";v=\"106\", \"Google Chrome\";v=\"106\"",
        Impersonate::Chrome107 => "\" Not A;Brand\";v=\"99\", \"Chromium\";v=\"107\", \"Google Chrome\";v=\"107\"",
        Impersonate::Chrome108 => "\" Not A;Brand\";v=\"99\", \"Chromium\";v=\"108\", \"Google Chrome\";v=\"108\"",
        Impersonate::Chrome109 => "\" Not A;Brand\";v=\"99\", \"Chromium\";v=\"109\", \"Google Chrome\";v=\"109\"",
        Impersonate::Chrome114 => "\" Not A;Brand\";v=\"99\", \"Chromium\";v=\"114\", \"Google Chrome\";v=\"114\"",
        Impersonate::Chrome116 => "\" Not A;Brand\";v=\"99\", \"Chromium\";v=\"116\", \"Google Chrome\";v=\"116\"",
        Impersonate::Chrome117 => "\" Not A;Brand\";v=\"99\", \"Chromium\";v=\"117\", \"Google Chrome\";v=\"117\"",
        Impersonate::Chrome118 => "\" Not A;Brand\";v=\"99\", \"Chromium\";v=\"118\", \"Google Chrome\";v=\"118\"",
        Impersonate::Chrome119 => "\" Not A;Brand\";v=\"99\", \"Chromium\";v=\"119\", \"Google Chrome\";v=\"119\"",
        Impersonate::Chrome120 => "\" Not A;Brand\";v=\"99\", \"Chromium\";v=\"120\", \"Google Chrome\";v=\"120\"",
        Impersonate::Chrome123 => "\" Not A;Brand\";v=\"99\", \"Chromium\";v=\"123\", \"Google Chrome\";v=\"123\"",
        Impersonate::Chrome124 => "\" Not A;Brand\";v=\"99\", \"Chromium\";v=\"124\", \"Google Chrome\";v=\"124\"",
        Impersonate::Chrome126 => "\" Not A;Brand\";v=\"99\", \"Chromium\";v=\"126\", \"Google Chrome\";v=\"126\"",
        Impersonate::Edge99 => "\" Not A;Brand\";v=\"99\", \"Chromium\";v=\"99\", \"Microsoft Edge\";v=\"99\"",
        Impersonate::Edge101 => "\" Not A;Brand\";v=\"99\", \"Chromium\";v=\"101\", \"Microsoft Edge\";v=\"101\"",
        Impersonate::Edge122 => "\" Not A;Brand\";v=\"99\", \"Chromium\";v=\"122\", \"Microsoft Edge\";v=\"122\"",
        Impersonate::SafariIos17_2
        | Impersonate::SafariIos17_4_1
        | Impersonate::SafariIos16_5
        | Impersonate::Safari15_3
        | Impersonate::Safari15_5
        | Impersonate::Safari15_6_1
        | Impersonate::Safari16
        | Impersonate::Safari16_5
        | Impersonate::Safari17_2_1
        | Impersonate::Safari17_4_1
        | Impersonate::Safari17_5
        | Impersonate::OkHttp3_9
        | Impersonate::OkHttp3_11
        | Impersonate::OkHttp3_13
        | Impersonate::OkHttp3_14
        | Impersonate::OkHttp4_9
        | Impersonate::OkHttp4_10
        | Impersonate::OkHttp5 => "",
    }
}

/// The header sequence of the Chrome/Edge convention: client hints, then
/// the navigation headers, in the order the real clients send them.
pub open spec fn chromium_headers(hint: Seq<char>, platform: Seq<char>, ua: Seq<char>) -> Seq<
    (Seq<char>, Seq<char>),
> {
    seq![
        (("sec-ch-ua")@, hint),
        (("sec-ch-ua-mobile")@, ("?0")@),
        (("sec-ch-ua-platform")@, platform),
        (("upgrade-insecure-requests")@, ("1")@),
        (("user-agent")@, ua),
        (("accept")@, ("text/html,application/xhtml+xml,application/xml;q=0.9,image/webp,image/apng,*/*;q=0.8,application/signed-exchange;v=b3;q=0.9")@),
        (("sec-fetch-site")@, ("none")@),
        (("sec-fetch-mode")@, ("navigate")@),
        (("sec-fetch-user")@, ("?1")@),
        (("sec-fetch-dest")@, ("document")@),
        (("accept-encoding")@, ("gzip, deflate, br")@),
        (("accept-language")@, ("en-US,en;q=0.9")@),
    ]
}

/// The header sequence of the Safari convention: no client hints.
pub open spec fn safari_headers(ua: Seq<char>) -> Seq<(Seq<char>, Seq<char>)> {
    seq![
        (("user-agent")@, ua),
        (("accept")@, ("text/html,application/xhtml+xml,application/xml;q=0.9,*/*;q=0.8")@),
        (("accept-language")@, ("en-US,en;q=0.9")@),
        (("accept-encoding")@, ("gzip, deflate, br")@),
    ]
}

/// The header sequence of the OkHttp convention: no client hints, and no
/// brotli in the advertised encodings.
pub open spec fn okhttp_headers(ua: Seq<char>) -> Seq<(Seq<char>, Seq<char>)> {
    seq![
        (("user-agent")@, ua),
        (("accept")@, ("*/*")@),
        (("accept-encoding")@, ("gzip")@),
    ]
}

/// The header sequence of the Firefox convention: no client hints.
pub open spec fn firefox_headers(ua: Seq<char>) -> Seq<(Seq<char>, Seq<char>)> {
    seq![
        (("user-agent")@, ua),
        (("accept")@, ("text/html,application/xhtml+xml,application/xml;q=0.9,image/avif,image/webp,*/*;q=0.8")@),
        (("accept-language")@, ("en-US,en;q=0.5")@),
        (("accept-encoding")@, ("gzip, deflate, br")@),
    ]
}

/// The family-level header scaffold: the client-hint header of the
/// family's convention, whose value every version overlay replaces;
/// families without client hints start from an empty template.
pub open spec fn spec_profile_headers(p: ClientProfile) -> Seq<(Seq<char>, Seq<char>)> {
    match p {
        ClientProfile::Chrome => seq![(("sec-ch-ua")@, ("\"Chromium\";v=\"99\"")@)],
        ClientProfile::Edge => seq![(("sec-ch-ua")@, ("\"Chromium\";v=\"99\", \"Microsoft Edge\";v=\"99\"")@)],
        ClientProfile::Safari | ClientProfile::OkHttp | ClientProfile::Firefox => Seq::empty(),
    }
}

/// The finished header template of each identity: the family scaffold
/// merged with the version-specific overrides.
pub open spec fn spec_headers_of(id: Impersonate) -> Seq<(Seq<char>, Seq<char>)> {
    match spec_profile(id) {
        ClientProfile::Chrome | ClientProfile::Edge => chromium_headers(
            spec_sec_ch_ua(id),
            ("\"Windows\"")@,
            spec_user_agent(id),
        ),
        ClientProfile::Safari => safari_headers(spec_user_agent(id)),
        ClientProfile::OkHttp => okhttp_headers(spec_user_agent(id)),
        ClientProfile::Firefox => firefox_headers(spec_user_agent(id)),
    }
}

/// Create the family header scaffold for the given profile.
pub fn create_profile_headers(profile: ClientProfile) -> (t: HeaderTemplate)
    ensures
        t.wf(),
        t@ == spec_profile_headers(profile),
{
    let mut t = HeaderTemplate::new();
    match profile {
        ClientProfile::Chrome => {
            t.insert("sec-ch-ua", "\"Chromium\";v=\"99\"");
            proof {
                assert(t@ =~= spec_profile_headers(profile));
            }
        },
        ClientProfile::Edge => {
            t.insert("sec-ch-ua", "\"Chromium\";v=\"99\", \"Microsoft Edge\";v=\"99\"");
            proof {
                assert(t@ =~= spec_profile_headers(profile));
            }
        },
        ClientProfile::Safari | ClientProfile::OkHttp | ClientProfile::Firefox => {
            proof {
                assert(t@ =~= spec_profile_headers(profile));
            }
        },
    }
    t
}

/// Overlay the Chrome/Edge version-specific headers onto the family
/// scaffold, replacing the scaffold's client-hint value in place.
fn apply_chromium_overlay(t: &mut HeaderTemplate, hint: &str, platform: &str, ua: &str)
    requires
        old(t).wf(),
        old(t)@.len() == 1,
        old(t)@[0].0 == ("sec-ch-ua")@,
    ensures
        final(t).wf(),
        final(t)@ == chromium_headers(hint@, platform@, ua@),
{
    t.insert("sec-ch-ua", hint);
    t.insert("sec-ch-ua-mobile", "?0");
    t.insert("sec-ch-ua-platform", platform);
    t.insert("upgrade-insecure-requests", "1");
    t.insert("user-agent", ua);
    t.insert("accept", "text/html,application/xhtml+xml,application/xml;q=0.9,image/webp,image/apng,*/*;q=0.8,application/signed-exchange;v=b3;q=0.9");
    t.insert("sec-fetch-site", "none");
    t.insert("sec-fetch-mode", "navigate");
    t.insert("sec-fetch-user", "?1");
    t.insert("sec-fetch-dest", "document");
    t.insert("accept-encoding", "gzip, deflate, br");
    t.insert("accept-language", "en-US,en;q=0.9");
    proof {
        reveal_with_fuel(find_name_upto, 16);
        reveal_strlit("sec-ch-ua");
        reveal_strlit("sec-ch-ua-mobile");
        reveal_strlit("sec-ch-ua-platform");
        reveal_strlit("upgrade-insecure-requests");
        reveal_strlit("user-agent");
        reveal_strlit("accept");
        reveal_strlit("sec-fetch-site");
        reveal_strlit("sec-fetch-mode");
        reveal_strlit("sec-fetch-user");
        reveal_strlit("sec-fetch-dest");
        reveal_strlit("accept-encoding");
        reveal_strlit("accept-language");
        assert(("sec-ch-ua"@).len() == 9);
        assert(("sec-ch-ua-mobile"@).len() == 16);
        assert(("sec-ch-ua-platform"@).len() == 18);
        assert(("upgrade-insecure-requests"@).len() == 25);
        assert(("user-agent"@).len() == 10);
        assert(("accept"@).len() == 6);
        assert(("sec-fetch-site"@).len() == 14);
        assert(("sec-fetch-mode"@).len() == 14);
        assert(("sec-fetch-user"@).len() == 14);
        assert(("sec-fetch-dest"@).len() == 14);
        assert(("accept-encoding"@).len() == 15);
        assert(("accept-language"@).len() == 15);
        lemma_seq_neq_at(("sec-fetch-site")@, ("sec-fetch-mode")@, 10);
        lemma_seq_neq_at(("sec-fetch-site")@, ("sec-fetch-user")@, 10);
        lemma_seq_neq_at(("sec-fetch-site")@, ("sec-fetch-dest")@, 10);
        lemma_seq_neq_at(("sec-fetch-mode")@, ("sec-fetch-user")@, 10);
        lemma_seq_neq_at(("sec-fetch-mode")@, ("sec-fetch-dest")@, 10);
        lemma_seq_neq_at(("sec-fetch-user")@, ("sec-fetch-dest")@, 10);
        lemma_seq_neq_at(("accept-encoding")@, ("accept-language")@, 7);
        assert(t@ =~= chromium_headers(hint@, platform@, ua@));
    }
}

/// Overlay the Safari version-specific headers onto the empty scaffold.
fn apply_safari_overlay(t: &mut HeaderTemplate, ua: &str)
    requires
        old(t).wf(),
        old(t)@.len() == 0,
    ensures
        final(t).wf(),
        final(t)@ == safari_headers(ua@),
{
    t.insert("user-agent", ua);
    t.insert("accept", "text/html,application/xhtml+xml,application/xml;q=0.9,*/*;q=0.8");
    t.insert("accept-language", "en-US,en;q=0.9");
    t.insert("accept-encoding", "gzip, deflate, br");
    proof {
        reveal_with_fuel(find_name_upto, 8);
        reveal_strlit("user-agent");
        reveal_strlit("accept");
        reveal_strlit("accept-language");
        reveal_strlit("accept-encoding");
        assert(("user-agent"@).len() == 10);
        assert(("accept"@).len() == 6);
        assert(("accept-language"@).len() == 15);
        assert(("accept-encoding"@).len() == 15);
        lemma_seq_neq_at(("accept-encoding")@, ("accept-language")@, 7);
        assert(t@ =~= safari_headers(ua@));
    }
}

/// Overlay the OkHttp version-specific headers onto the empty scaffold.
fn apply_okhttp_overlay(t: &mut HeaderTemplate, ua: &str)
    requires
        old(t).wf(),
        old(t)@.len() == 0,
    ensures
        final(t).wf(),
        final(t)@ == okhttp_headers(ua@),
{
    t.insert("user-agent", ua);
    t.insert("accept", "*/*");
    t.insert("accept-encoding", "gzip");
    proof {
        reveal_with_fuel(find_name_upto, 8);
        reveal_strlit("user-agent");
        reveal_strlit("accept");
        reveal_strlit("accept-encoding");
        assert(("user-agent"@).len() == 10);
        assert(("accept"@).len() == 6);
        assert(("accept-encoding"@).len() == 15);
        assert(t@ =~= okhttp_headers(ua@));
    }
}

/// Overlay the Firefox version-specific headers onto the empty scaffold.
fn apply_firefox_overlay(t: &mut HeaderTemplate, ua: &str)
    requires
        old(t).wf(),
        old(t)@.len() == 0,
    ensures
        final(t).wf(),
        final(t)@ == firefox_headers(ua@),
{
    t.insert("user-agent", ua);
    t.insert("accept", "text/html,application/xhtml+xml,application/xml;q=0.9,image/avif,image/webp,*/*;q=0.8");
    t.insert("accept-language", "en-US,en;q=0.5");
    t.insert("accept-encoding", "gzip, deflate, br");
    proof {
        reveal_with_fuel(find_name_upto, 8);
        reveal_strlit("user-agent");
        reveal_strlit("accept");
        reveal_strlit("accept-language");
        reveal_strlit("accept-encoding");
        assert(("user-agent"@).len() == 10);
        assert(("accept"@).len() == 6);
        assert(("accept-language"@).len() == 15);
        assert(("accept-encoding"@).len() == 15);
        lemma_seq_neq_at(("accept-encoding")@, ("accept-language")@, 7);
        assert(t@ =~= firefox_headers(ua@));
    }
}

/// The HTTP/2 parameters of the given identity, version-accurate and
/// within protocol range.
pub fn http2_of(id: Impersonate) -> (h: Http2Data)
    ensures
        h == spec_http2_of(id),
        h.valid(),
{
    match id.profile() {
        ClientProfile::Chrome | ClientProfile::Edge => Http2Data {
            initial_stream_window_size: Some(6291456u32),
            initial_connection_window_size: Some(15728640u32),
            max_concurrent_streams: Some(1000u32),
            max_header_list_size: Some(262144u32),
            header_table_size: Some(65536u32),
            enable_push: Some(false),
        },
        ClientProfile::Safari => Http2Data {
            initial_stream_window_size: Some(2097152u32),
            initial_connection_window_size: Some(10485760u32),
            max_concurrent_streams: Some(100u32),
            max_header_list_size: None,
            header_table_size: None,
            enable_push: Some(false),
        },
        ClientProfile::OkHttp => Http2Data {
            initial_stream_window_size: Some(16777216u32),
            initial_connection_window_size: Some(16777216u32),
            max_concurrent_streams: None,
            max_header_list_size: None,
            header_table_size: None,
            enable_push: None,
        },
        ClientProfile::Firefox => Http2Data {
            initial_stream_window_size: Some(131072u32),
            initial_connection_window_size: Some(12517377u32),
            max_concurrent_streams: None,
            max_header_list_size: None,
            header_table_size: Some(65536u32),
            enable_push: None,
        },
    }
}

/// Get the settings for the given impersonate version: the total,
/// exhaustive dispatch from identity to its composed bundle. It cannot
/// fail: every identity yields a well-formed bundle with in-range HTTP/2
/// values.
pub fn get_settings(ver: Impersonate) -> (s: ImpersonateSettings)
    ensures
        s.tls_connector.shaped_for == ver,
        s.http2 == spec_http2_of(ver),
        s.http2.valid(),
        s.headers.wf(),
        s.headers@ == spec_headers_of(ver),
        s.gzip == spec_gzip(ver),
        s.brotli == spec_brotli(ver),
{
    let profile = ver.profile();
    let mut headers = create_profile_headers(profile);
    match profile {
        ClientProfile::Chrome | ClientProfile::Edge => {
            apply_chromium_overlay(
                &mut headers,
                sec_ch_ua_of(ver),
                "\"Windows\"",
                user_agent_of(ver),
            );
        },
        ClientProfile::Safari => {
            apply_safari_overlay(&mut headers, user_agent_of(ver));
        },
        ClientProfile::OkHttp => {
            apply_okhttp_overlay(&mut headers, user_agent_of(ver));
        },
        ClientProfile::Firefox => {
            apply_firefox_overlay(&mut headers, user_agent_of(ver));
        },
    }
    let brotli = match profile {
        ClientProfile::OkHttp => false,
        ClientProfile::Chrome | ClientProfile::Edge | ClientProfile::Safari
        | ClientProfile::Firefox => true,
    };
    ImpersonateSettings {
        tls_connector: TlsConnector::new(ver),
        http2: http2_of(ver),
        headers,
        gzip: true,
        brotli,
    }
}

/// In the Chrome/Edge header shape, the client-hint entry stands first
/// and the user-agent entry fifth, with the given values.
proof fn lemma_chromium_shape(hint: Seq<char>, platform: Seq<char>, ua: Seq<char>)
    ensures
        find_name(chromium_headers(hint, platform, ua), ("sec-ch-ua")@) == 0,
        header_value_of(chromium_headers(hint, platform, ua), ("sec-ch-ua")@) == hint,
        find_name(chromium_headers(hint, platform, ua), ("user-agent")@) == 4,
        header_value_of(chromium_headers(hint, platform, ua), ("user-agent")@) == ua,
{
    reveal_with_fuel(find_name_upto, 16);
    reveal_strlit("sec-ch-ua");
    reveal_strlit("sec-ch-ua-mobile");
    reveal_strlit("sec-ch-ua-platform");
    reveal_strlit("upgrade-insecure-requests");
    reveal_strlit("user-agent");
    reveal_strlit("accept");
    reveal_strlit("sec-fetch-site");
    reveal_strlit("sec-fetch-mode");
    reveal_strlit("sec-fetch-user");
    reveal_strlit("sec-fetch-dest");
    reveal_strlit("accept-encoding");
    reveal_strlit("accept-language");
    assert(("sec-ch-ua"@).len() == 9);
    assert(("sec-ch-ua-mobile"@).len() == 16);
    assert(("sec-ch-ua-platform"@).len() == 18);
    assert(("upgrade-insecure-requests"@).len() == 25);
    assert(("user-agent"@).len() == 10);
    assert(("accept"@).len() == 6);
    assert(("sec-fetch-site"@).len() == 14);
    assert(("sec-fetch-mode"@).len() == 14);
    assert(("sec-fetch-user"@).len() == 14);
    assert(("sec-fetch-dest"@).len() == 14);
    assert(("accept-encoding"@).len() == 15);
    assert(("accept-language"@).len() == 15);
    lemma_seq_neq_at(("sec-fetch-site")@, ("sec-fetch-mode")@, 10);
    lemma_seq_neq_at(("sec-fetch-site")@, ("sec-fetch-user")@, 10);
    lemma_seq_neq_at(("sec-fetch-site")@, ("sec-fetch-dest")@, 10);
    lemma_seq_neq_at(("sec-fetch-mode")@, ("sec-fetch-user")@, 10);
    lemma_seq_neq_at(("sec-fetch-mode")@, ("sec-fetch-dest")@, 10);
    lemma_seq_neq_at(("sec-fetch-user")@, ("sec-fetch-dest")@, 10);
    lemma_seq_neq_at(("accept-encoding")@, ("accept-language")@, 7);
}

/// In the Safari header shape there is no client-hint entry, and the
/// user-agent entry stands first with the given value.
proof fn lemma_safari_shape(ua: Seq<char>)
    ensures
        !has_name(safari_headers(ua), ("sec-ch-ua")@),
        find_name(safari_headers(ua), ("user-agent")@) == 0,
        header_value_of(safari_headers(ua), ("user-agent")@) == ua,
{
    reveal_with_fuel(find_name_upto, 8);
    reveal_strlit("sec-ch-ua");
    reveal_strlit("user-agent");
    reveal_strlit("accept");
    reveal_strlit("accept-language");
    reveal_strlit("accept-encoding");
    assert(("sec-ch-ua"@).len() == 9);
    assert(("user-agent"@).len() == 10);
    assert(("accept"@).len() == 6);
    assert(("accept-language"@).len() == 15);
    assert(("accept-encoding"@).len() == 15);
    lemma_seq_neq_at(("accept-encoding")@, ("accept-language")@, 7);
}

/// In the OkHttp header shape there is no client-hint entry, and the
/// user-agent entry stands first with the given value.
proof fn lemma_okhttp_shape(ua: Seq<char>)
    ensures
        !has_name(okhttp_headers(ua), ("sec-ch-ua")@),
        find_name(okhttp_headers(ua), ("user-agent")@) == 0,
        header_value_of(okhttp_headers(ua), ("user-agent")@) == ua,
{
    reveal_with_fuel(find_name_upto, 8);
    reveal_strlit("sec-ch-ua");
    reveal_strlit("user-agent");
    reveal_strlit("accept");
    reveal_strlit("accept-encoding");
    assert(("sec-ch-ua"@).len() == 9);
    assert(("user-agent"@).len() == 10);
    assert(("accept"@).len() == 6);
    assert(("accept-encoding"@).len() == 15);
}

/// Law: every identity's header template carries a non-empty user-agent
/// header; for families that send client hints the template carries a
/// non-empty client-hint header, and for families that do not, no
/// client-hint header is present.
#[verifier::rlimit(60)]
pub proof fn lemma_header_invariants(id: Impersonate)
    ensures
        has_name(spec_headers_of(id), ("user-agent")@),
        header_value_of(spec_headers_of(id), ("user-agent")@).len() > 0,
        family_sends_client_hints(spec_profile(id)) ==> has_name(
            spec_headers_of(id),
            ("sec-ch-ua")@,
        ) && header_value_of(spec_headers_of(id), ("sec-ch-ua")@).len() > 0,
        !family_sends_client_hints(spec_profile(id)) ==> !has_name(
            spec_headers_of(id),
            ("sec-ch-ua")@,
        ),
{
    match id {
        Impersonate::Chrome100 => {
            reveal_strlit("Mozilla/5.0 (Windows NT 10.0; Win64; x64) AppleWebKit/537.36 (KHTML, like Gecko) Chrome/100.0.0.0 Safari/537.36");
            reveal_strlit("\" Not A;Brand\";v=\"99\", \"Chromium\";v=\"100\", \"Google Chrome\";v=\"100\"");
            lemma_chromium_shape(spec_sec_ch_ua(id), ("\"Windows\"")@, spec_user_agent(id));
        },
        Impersonate::Chrome101 => {
            reveal_strlit("Mozilla/5.0 (Windows NT 10.0; Win64; x64) AppleWebKit/537.36 (KHTML, like Gecko) Chrome/101.0.0.0 Safari/537.36");
            reveal_strlit("\" Not A;Brand\";v=\"99\", \"Chromium\";v=\"101\", \"Google Chrome\";v=\"101\"");
            lemma_chromium_shape(spec_sec_ch_ua(id), ("\"Windows\"")@, spec_user_agent(id));
        },
        Impersonate::Chrome104 => {
            reveal_strlit("Mozilla/5.0 (Windows NT 10.0; Win64; x64) AppleWebKit/537.36 (KHTML, like Gecko) Chrome/104.0.0.0 Safari/537.36");
            reveal_strlit("\" Not A;Brand\";v=\"99\", \"Chromium\";v=\"104\", \"Google Chrome\";v=\"104\"");
            lemma_chromium_shape(spec_sec_ch_ua(id), ("\"Windows\"")@, spec_user_agent(id));
        },
        Impersonate::Chrome105 => {
            reveal_strlit("Mozilla/5.0 (Windows NT 10.0; Win64; x64) AppleWebKit/537.36 (KHTML, like Gecko) Chrome/105.0.0.0 Safari/537.36");
            reveal_strlit("\" Not A;Brand\";v=\"99\", \"Chromium\";v=\"105\", \"Google Chrome\";v=\"105\"");
            lemma_chromium_shape(spec_sec_ch_ua(id), ("\"Windows\"")@, spec_user_agent(id));
        },
        Impersonate::Chrome106 => {
            reveal_strlit("Mozilla/5.0 (Windows NT 10.0; Win64; x64) AppleWebKit/537.36 (KHTML, like Gecko) Chrome/106.0.0.0 Safari/537.36");
            reveal_strlit("\" Not A;Brand\";v=\"99\", \"Chromium\";v=\"106\", \"Google Chrome\";v=\"106\"");
            lemma_chromium_shape(spec_sec_ch_ua(id), ("\"Windows\"")@, spec_user_agent(id));
        },
        Impersonate::Chrome107 => {
            reveal_strlit("Mozilla/5.0 (Windows NT 10.0; Win64; x64) AppleWebKit/537.36 (KHTML, like Gecko) Chrome/107.0.0.0 Safari/537.36");
            reveal_strlit("\" Not A;Brand\";v=\"99\", \"Chromium\";v=\"107\", \"Google Chrome\";v=\"107\"");
            lemma_chromium_shape(spec_sec_ch_ua(id), ("\"Windows\"")@, spec_user_agent(id));
        },
        Impersonate::Chrome108 => {
            reveal_strlit("Mozilla/5.0 (Windows NT 10.0; Win64; x64) AppleWebKit/537.36 (KHTML, like Gecko) Chrome/108.0.0.0 Safari/537.36");
            reveal_strlit("\" Not A;Brand\";v=\"99\", \"Chromium\";v=\"108\", \"Google Chrome\";v=\"108\"");
            lemma_chromium_shape(spec_sec_ch_ua(id), ("\"Windows\"")@, spec_user_agent(id));
        },
        Impersonate::Chrome109 => {
            reveal_strlit("Mozilla/5.0 (Windows NT 10.0; Win64; x64) AppleWebKit/537.36 (KHTML, like Gecko) Chrome/109.0.0.0 Safari/537.36");
            reveal_strlit("\" Not A;Brand\";v=\"99\", \"Chromium\";v=\"109\", \"Google Chrome\";v=\"109\"");
            lemma_chromium_shape(spec_sec_ch_ua(id), ("\"Windows\"")@, spec_user_agent(id));
        },
        Impersonate::Chrome114 => {
            reveal_strlit("Mozilla/5.0 (Windows NT 10.0; Win64; x64) AppleWebKit/537.36 (KHTML, like Gecko) Chrome/114.0.0.0 Safari/537.36");
            reveal_strlit("\" Not A;Brand\";v=\"99\", \"Chromium\";v=\"114\", \"Google Chrome\";v=\"114\"");
            lemma_chromium_shape(spec_sec_ch_ua(id), ("\"Windows\"")@, spec_user_agent(id));
        },
        Impersonate::Chrome116 => {
            reveal_strlit("Mozilla/5.0 (Windows NT 10.0; Win64; x64) AppleWebKit/537.36 (KHTML, like Gecko) Chrome/116.0.0.0 Safari/537.36");
            reveal_strlit("\" Not A;Brand\";v=\"99\", \"Chromium\";v=\"116\", \"Google Chrome\";v=\"116\"");
            lemma_chromium_shape(spec_sec_ch_ua(id), ("\"Windows\"")@, spec_user_agent(id));
        },
        Impersonate::Chrome117 => {
            reveal_strlit("Mozilla/5.0 (Windows NT 10.0; Win64; x64) AppleWebKit/537.36 (KHTML, like Gecko) Chrome/117.0.0.0 Safari/537.36");
            reveal_strlit("\" Not A;Brand\";v=\"99\", \"Chromium\";v=\"117\", \"Google Chrome\";v=\"117\"");
            lemma_chromium_shape(spec_sec_ch_ua(id), ("\"Windows\"")@, spec_user_agent(id));
        },
        Impersonate::Chrome118 => {
            reveal_strlit("Mozilla/5.0 (Windows NT 10.0; Win64; x64) AppleWebKit/537.36 (KHTML, like Gecko) Chrome/118.0.0.0 Safari/537.36");
            reveal_strlit("\" Not A;Brand\";v=\"99\", \"Chromium\";v=\"118\", \"Google Chrome\";v=\"118\"");
            lemma_chromium_shape(spec_sec_ch_ua(id), ("\"Windows\"")@, spec_user_agent(id));
        },
        Impersonate::Chrome119 => {
            reveal_strlit("Mozilla/5.0 (Windows NT 10.0; Win64; x64) AppleWebKit/537.36 (KHTML, like Gecko) Chrome/119.0.0.0 Safari/537.36");
            reveal_strlit("\" Not A;Brand\";v=\"99\", \"Chromium\";v=\"119\", \"Google Chrome\";v=\"119\"");
            lemma_chromium_shape(spec_sec_ch_ua(id), ("\"Windows\"")@, spec_user_agent(id));
        },
        Impersonate::Chrome120 => {
            reveal_strlit("Mozilla/5.0 (Windows NT 10.0; Win64; x64) AppleWebKit/537.36 (KHTML, like Gecko) Chrome/120.0.0.0 Safari/537.36");
            reveal_strlit("\" Not A;Brand\";v=\"99\", \"Chromium\";v=\"120\", \"Google Chrome\";v=\"120\"");
            lemma_chromium_shape(spec_sec_ch_ua(id), ("\"Windows\"")@, spec_user_agent(id));
        },
        Impersonate::Chrome123 => {
            reveal_strlit("Mozilla/5.0 (Windows NT 10.0; Win64; x64) AppleWebKit/537.36 (KHTML, like Gecko) Chrome/123.0.0.0 Safari/537.36");
            reveal_strlit("\" Not A;Brand\";v=\"99\", \"Chromium\";v=\"123\", \"Google Chrome\";v=\"123\"");
            lemma_chromium_shape(spec_sec_ch_ua(id), ("\"Windows\"")@, spec_user_agent(id));
        },
        Impersonate::Chrome124 => {
            reveal_strlit("Mozilla/5.0 (Windows NT 10.0; Win64; x64) AppleWebKit/537.36 (KHTML, like Gecko) Chrome/124.0.0.0 Safari/537.36");
            reveal_strlit("\" Not A;Brand\";v=\"99\", \"Chromium\";v=\"124\", \"Google Chrome\";v=\"124\"");
            lemma_chromium_shape(spec_sec_ch_ua(id), ("\"Windows\"")@, spec_user_agent(id));
        },
        Impersonate::Chrome126 => {
            reveal_strlit("Mozilla/5.0 (Windows NT 10.0; Win64; x64) AppleWebKit/537.36 (KHTML, like Gecko) Chrome/126.0.0.0 Safari/537.36");
            reveal_strlit("\" Not A;Brand\";v=\"99\", \"Chromium\";v=\"126\", \"Google Chrome\";v=\"126\"");
            lemma_chromium_shape(spec_sec_ch_ua(id), ("\"Windows\"")@, spec_user_agent(id));
        },
        Impersonate::SafariIos17_2 => {
            reveal_strlit("Mozilla/5.0 (iPhone; CPU iPhone OS 17_2 like Mac OS X) AppleWebKit/605.1.15 (KHTML, like Gecko) Version/17.2 Mobile/15E148 Safari/604.1");
            lemma_safari_shape(spec_user_agent(id));
        },
        Impersonate::SafariIos17_4_1 => {
            reveal_strlit("Mozilla/5.0 (iPhone; CPU iPhone OS 17_4_1 like Mac OS X) AppleWebKit/605.1.15 (KHTML, like Gecko) Version/17.4.1 Mobile/15E148 Safari/604.1");
            lemma_safari_shape(spec_user_agent(id));
        },
        Impersonate::SafariIos16_5 => {
            reveal_strlit("Mozilla/5.0 (iPhone; CPU iPhone OS 16_5 like Mac OS X) AppleWebKit/605.1.15 (KHTML, like Gecko) Version/16.5 Mobile/15E148 Safari/604.1");
            lemma_safari_shape(spec_user_agent(id));
        },
        Impersonate::Safari15_3 => {
            reveal_strlit("Mozilla/5.0 (Macintosh; Intel Mac OS X 10_15_7) AppleWebKit/605.1.15 (KHTML, like Gecko) Version/15.3 Safari/605.1.15");
            lemma_safari_shape(spec_user_agent(id));
        },
        Impersonate::Safari15_5 => {
            reveal_strlit("Mozilla/5.0 (Macintosh; Intel Mac OS X 10_15_7) AppleWebKit/605.1.15 (KHTML, like Gecko) Version/15.5 Safari/605.1.15");
            lemma_safari_shape(spec_user_agent(id));
        },
        Impersonate::Safari15_6_1 => {
            reveal_strlit("Mozilla/5.0 (Macintosh; Intel Mac OS X 10_15_7) AppleWebKit/605.1.15 (KHTML, like Gecko) Version/15.6.1 Safari/605.1.15");
            lemma_safari_shape(spec_user_agent(id));
        },
        Impersonate::Safari16 => {
            reveal_strlit("Mozilla/5.0 (Macintosh; Intel Mac OS X 10_15_7) AppleWebKit/605.1.15 (KHTML, like Gecko) Version/16.0 Safari/605.1.15");
            lemma_safari_shape(spec_user_agent(id));
        },
        Impersonate::Safari16_5 => {
            reveal_strlit("Mozilla/5.0 (Macintosh; Intel Mac OS X 10_15_7) AppleWebKit/605.1.15 (KHTML, like Gecko) Version/16.5 Safari/605.1.15");
            lemma_safari_shape(spec_user_agent(id));
        },
        Impersonate::Safari17_2_1 => {
            reveal_strlit("Mozilla/5.0 (Macintosh; Intel Mac OS X 10_15_7) AppleWebKit/605.1.15 (KHTML, like Gecko) Version/17.2.1 Safari/605.1.15");
            lemma_safari_shape(spec_user_agent(id));
        },
        Impersonate::Safari17_4_1 => {
            reveal_strlit("Mozilla/5.0 (Macintosh; Intel Mac OS X 10_15_7) AppleWebKit/605.1.15 (KHTML, like Gecko) Version/17.4.1 Safari/605.1.15");
            lemma_safari_shape(spec_user_agent(id));
        },
        Impersonate::Safari17_5 => {
            reveal_strlit("Mozilla/5.0 (Macintosh; Intel Mac OS X 10_15_7) AppleWebKit/605.1.15 (KHTML, like Gecko) Version/17.5 Safari/605.1.15");
            lemma_safari_shape(spec_user_agent(id));
        },
        Impersonate::OkHttp3_9 => {
            reveal_strlit("okhttp/3.9.0");
            lemma_okhttp_shape(spec_user_agent(id));
        },
        Impersonate::OkHttp3_11 => {
            reveal_strlit("okhttp/3.11.0");
            lemma_okhttp_shape(spec_user_agent(id));
        },
        Impersonate::OkHttp3_13 => {
            reveal_strlit("okhttp/3.13.1");
            lemma_okhttp_shape(spec_user_agent(id));
        },
        Impersonate::OkHttp3_14 => {
            reveal_strlit("okhttp/3.14.9");
            lemma_okhttp_shape(spec_user_agent(id));
        },
        Impersonate::OkHttp4_9 => {
            reveal_strlit("okhttp/4.9.3");
            lemma_okhttp_shape(spec_user_agent(id));
        },
        Impersonate::OkHttp4_10 => {
            reveal_strlit("okhttp/4.10.0");
            lemma_okhttp_shape(spec_user_agent(id));
        },
        Impersonate::OkHttp5 => {
            reveal_strlit("okhttp/5.0.0");
            lemma_okhttp_shape(spec_user_agent(id));
        },
        Impersonate::Edge99 => {
            reveal_strlit("Mozilla/5.0 (Windows NT 10.0; Win64; x64) AppleWebKit/537.36 (KHTML, like Gecko) Chrome/99.0.4844.51 Safari/537.36 Edg/99.0.1150.36");
            reveal_strlit("\" Not A;Brand\";v=\"99\", \"Chromium\";v=\"99\", \"Microsoft Edge\";v=\"99\"");
            lemma_chromium_shape(spec_sec_ch_ua(id), ("\"Windows\"")@, spec_user_agent(id));
        },
        Impersonate::Edge101 => {
            reveal_strlit("Mozilla/5.0 (Windows NT 10.0; Win64; x64) AppleWebKit/537.36 (KHTML, like Gecko) Chrome/101.0.4951.64 Safari/537.36 Edg/101.0.1210.47");
            reveal_strlit("\" Not A;Brand\";v=\"99\", \"Chromium\";v=\"101\", \"Microsoft Edge\";v=\"101\"");
            lemma_chromium_shape(spec_sec_ch_ua(id), ("\"Windows\"")@, spec_user_agent(id));
        },
        Impersonate::Edge122 => {
            reveal_strlit("Mozilla/5.0 (Windows NT 10.0; Win64; x64) AppleWebKit/537.36 (KHTML, like Gecko) Chrome/122.0.0.0 Safari/537.36 Edg/122.0.2365.59");
            reveal_strlit("\" Not A;Brand\";v=\"99\", \"Chromium\";v=\"122\", \"Microsoft Edge\";v=\"122\"");
            lemma_chromium_shape(spec_sec_ch_ua(id), ("\"Windows\"")@, spec_user_agent(id));
        },
    }
}


/// Every entry of the Chrome/Edge header shape is one the collaborator
/// accepts, given acceptable hint, platform and user-agent values.
proof fn lemma_chromium_installable(hint: Seq<char>, platform: Seq<char>, ua: Seq<char>)
    requires
        is_simple_header_value(hint),
        is_simple_header_value(platform),
        is_simple_header_value(ua),
    ensures
        template_installable(chromium_headers(hint, platform, ua)),
        chromium_headers(hint, platform, ua).len() <= 0x1000,
{
    reveal_strlit("sec-ch-ua");
    reveal_strlit("sec-ch-ua-mobile");
    reveal_strlit("sec-ch-ua-platform");
    reveal_strlit("upgrade-insecure-requests");
    reveal_strlit("user-agent");
    reveal_strlit("accept");
    reveal_strlit("sec-fetch-site");
    reveal_strlit("sec-fetch-mode");
    reveal_strlit("sec-fetch-user");
    reveal_strlit("sec-fetch-dest");
    reveal_strlit("accept-encoding");
    reveal_strlit("accept-language");
    reveal_strlit("?0");
    reveal_strlit("1");
    reveal_strlit("text/html,application/xhtml+xml,application/xml;q=0.9,image/webp,image/apng,*/*;q=0.8,application/signed-exchange;v=b3;q=0.9");
    reveal_strlit("none");
    reveal_strlit("navigate");
    reveal_strlit("?1");
    reveal_strlit("document");
    reveal_strlit("gzip, deflate, br");
    reveal_strlit("en-US,en;q=0.9");
    assert(is_simple_header_name(("sec-ch-ua")@));
    assert(is_simple_header_name(("sec-ch-ua-mobile")@));
    assert(is_simple_header_name(("sec-ch-ua-platform")@));
    assert(is_simple_header_name(("upgrade-insecure-requests")@));
    assert(is_simple_header_name(("user-agent")@));
    assert(is_simple_header_name(("accept")@));
    assert(is_simple_header_name(("sec-fetch-site")@));
    assert(is_simple_header_name(("sec-fetch-mode")@));
    assert(is_simple_header_name(("sec-fetch-user")@));
    assert(is_simple_header_name(("sec-fetch-dest")@));
    assert(is_simple_header_name(("accept-encoding")@));
    assert(is_simple_header_name(("accept-language")@));
    assert(is_simple_header_value(("?0")@));
    assert(is_simple_header_value(("1")@));
    assert(is_simple_header_value(("text/html,application/xhtml+xml,application/xml;q=0.9,image/webp,image/apng,*/*;q=0.8,application/signed-exchange;v=b3;q=0.9")@));
    assert(is_simple_header_value(("none")@));
    assert(is_simple_header_value(("navigate")@));
    assert(is_simple_header_value(("?1")@));
    assert(is_simple_header_value(("document")@));
    assert(is_simple_header_value(("gzip, deflate, br")@));
    assert(is_simple_header_value(("en-US,en;q=0.9")@));
}

/// Every entry of the Safari header shape is one the collaborator
/// accepts, given an acceptable user-agent value.
proof fn lemma_safari_installable(ua: Seq<char>)
    requires
        is_simple_header_value(ua),
    ensures
        template_installable(safari_headers(ua)),
        safari_headers(ua).len() <= 0x1000,
{
    reveal_strlit("user-agent");
    reveal_strlit("accept");
    reveal_strlit("accept-language");
    reveal_strlit("accept-encoding");
    reveal_strlit("text/html,application/xhtml+xml,application/xml;q=0.9,*/*;q=0.8");
    reveal_strlit("en-US,en;q=0.9");
    reveal_strlit("gzip, deflate, br");
    assert(is_simple_header_name(("user-agent")@));
    assert(is_simple_header_name(("accept")@));
    assert(is_simple_header_name(("accept-language")@));
    assert(is_simple_header_name(("accept-encoding")@));
    assert(is_simple_header_value(("text/html,application/xhtml+xml,application/xml;q=0.9,*/*;q=0.8")@));
    assert(is_simple_header_value(("en-US,en;q=0.9")@));
    assert(is_simple_header_value(("gzip, deflate, br")@));
}

/// Every entry of the OkHttp header shape is one the collaborator
/// accepts, given an acceptable user-agent value.
proof fn lemma_okhttp_installable(ua: Seq<char>)
    requires
        is_simple_header_value(ua),
    ensures
        template_installable(okhttp_headers(ua)),
        okhttp_headers(ua).len() <= 0x1000,
{
    reveal_strlit("user-agent");
    reveal_strlit("accept");
    reveal_strlit("accept-encoding");
    reveal_strlit("*/*");
    reveal_strlit("gzip");
    assert(is_simple_header_name(("user-agent")@));
    assert(is_simple_header_name(("accept")@));
    assert(is_simple_header_name(("accept-encoding")@));
    assert(is_simple_header_value(("*/*")@));
    assert(is_simple_header_value(("gzip")@));
}

/// Law: every identity's finished header template is acceptable to the
/// HTTP collaborator in full, and fits its capacity: applying a bundle
/// can never fail on its headers.
#[verifier::rlimit(60)]
pub proof fn lemma_template_installable(id: Impersonate)
    ensures
        template_installable(spec_headers_of(id)),
        spec_headers_of(id).len() <= 0x1000,
{
    reveal_strlit("\"Windows\"");
    assert(is_simple_header_value(("\"Windows\"")@));
    match id {
        Impersonate::Chrome100 => {
            reveal_strlit("Mozilla/5.0 (Windows NT 10.0; Win64; x64) AppleWebKit/537.36 (KHTML, like Gecko) Chrome/100.0.0.0 Safari/537.36");
            assert(is_simple_header_value(spec_user_agent(id)));
            reveal_strlit("\" Not A;Brand\";v=\"99\", \"Chromium\";v=\"100\", \"Google Chrome\";v=\"100\"");
            assert(is_simple_header_value(spec_sec_ch_ua(id)));
            lemma_chromium_installable(spec_sec_ch_ua(id), ("\"Windows\"")@, spec_user_agent(id));
        },
        Impersonate::Chrome101 => {
            reveal_strlit("Mozilla/5.0 (Windows NT 10.0; Win64; x64) AppleWebKit/537.36 (KHTML, like Gecko) Chrome/101.0.0.0 Safari/537.36");
            assert(is_simple_header_value(spec_user_agent(id)));
            reveal_strlit("\" Not A;Brand\";v=\"99\", \"Chromium\";v=\"101\", \"Google Chrome\";v=\"101\"");
            assert(is_simple_header_value(spec_sec_ch_ua(id)));
            lemma_chromium_installable(spec_sec_ch_ua(id), ("\"Windows\"")@, spec_user_agent(id));
        },
        Impersonate::Chrome104 => {
            reveal_strlit("Mozilla/5.0 (Windows NT 10.0; Win64; x64) AppleWebKit/537.36 (KHTML, like Gecko) Chrome/104.0.0.0 Safari/537.36");
            assert(is_simple_header_value(spec_user_agent(id)));
            reveal_strlit("\" Not A;Brand\";v=\"99\", \"Chromium\";v=\"104\", \"Google Chrome\";v=\"104\"");
            assert(is_simple_header_value(spec_sec_ch_ua(id)));
            lemma_chromium_installable(spec_sec_ch_ua(id), ("\"Windows\"")@, spec_user_agent(id));
        },
        Impersonate::Chrome105 => {
            reveal_strlit("Mozilla/5.0 (Windows NT 10.0; Win64; x64) AppleWebKit/537.36 (KHTML, like Gecko) Chrome/105.0.0.0 Safari/537.36");
            assert(is_simple_header_value(spec_user_agent(id)));
            reveal_strlit("\" Not A;Brand\";v=\"99\", \"Chromium\";v=\"105\", \"Google Chrome\";v=\"105\"");
            assert(is_simple_header_value(spec_sec_ch_ua(id)));
            lemma_chromium_installable(spec_sec_ch_ua(id), ("\"Windows\"")@, spec_user_agent(id));
        },
        Impersonate::Chrome106 => {
            reveal_strlit("Mozilla/5.0 (Windows NT 10.0; Win64; x64) AppleWebKit/537.36 (KHTML, like Gecko) Chrome/106.0.0.0 Safari/537.36");
            assert(is_simple_header_value(spec_user_agent(id)));
            reveal_strlit("\" Not A;Brand\";v=\"99\", \"Chromium\";v=\"106\", \"Google Chrome\";v=\"106\"");
            assert(is_simple_header_value(spec_sec_ch_ua(id)));
            lemma_chromium_installable(spec_sec_ch_ua(id), ("\"Windows\"")@, spec_user_agent(id));
        },
        Impersonate::Chrome107 => {
            reveal_strlit("Mozilla/5.0 (Windows NT 10.0; Win64; x64) AppleWebKit/537.36 (KHTML, like Gecko) Chrome/107.0.0.0 Safari/537.36");
            assert(is_simple_header_value(spec_user_agent(id)));
            reveal_strlit("\" Not A;Brand\";v=\"99\", \"Chromium\";v=\"107\", \"Google Chrome\";v=\"107\"");
            assert(is_simple_header_value(spec_sec_ch_ua(id)));
            lemma_chromium_installable(spec_sec_ch_ua(id), ("\"Windows\"")@, spec_user_agent(id));
        },
        Impersonate::Chrome108 => {
            reveal_strlit("Mozilla/5.0 (Windows NT 10.0; Win64; x64) AppleWebKit/537.36 (KHTML, like Gecko) Chrome/108.0.0.0 Safari/537.36");
            assert(is_simple_header_value(spec_user_agent(id)));
            reveal_strlit("\" Not A;Brand\";v=\"99\", \"Chromium\";v=\"108\", \"Google Chrome\";v=\"108\"");
            assert(is_simple_header_value(spec_sec_ch_ua(id)));
            lemma_chromium_installable(spec_sec_ch_ua(id), ("\"Windows\"")@, spec_user_agent(id));
        },
        Impersonate::Chrome109 => {
            reveal_strlit("Mozilla/5.0 (Windows NT 10.0; Win64; x64) AppleWebKit/537.36 (KHTML, like Gecko) Chrome/109.0.0.0 Safari/537.36");
            assert(is_simple_header_value(spec_user_agent(id)));
            reveal_strlit("\" Not A;Brand\";v=\"99\", \"Chromium\";v=\"109\", \"Google Chrome\";v=\"109\"");
            assert(is_simple_header_value(spec_sec_ch_ua(id)));
            lemma_chromium_installable(spec_sec_ch_ua(id), ("\"Windows\"")@, spec_user_agent(id));
        },
        Impersonate::Chrome114 => {
            reveal_strlit("Mozilla/5.0 (Windows NT 10.0; Win64; x64) AppleWebKit/537.36 (KHTML, like Gecko) Chrome/114.0.0.0 Safari/537.36");
            assert(is_simple_header_value(spec_user_agent(id)));
            reveal_strlit("\" Not A;Brand\";v=\"99\", \"Chromium\";v=\"114\", \"Google Chrome\";v=\"114\"");
            assert(is_simple_header_value(spec_sec_ch_ua(id)));
            lemma_chromium_installable(spec_sec_ch_ua(id), ("\"Windows\"")@, spec_user_agent(id));
        },
        Impersonate::Chrome116 => {
            reveal_strlit("Mozilla/5.0 (Windows NT 10.0; Win64; x64) AppleWebKit/537.36 (KHTML, like Gecko) Chrome/116.0.0.0 Safari/537.36");
            assert(is_simple_header_value(spec_user_agent(id)));
            reveal_strlit("\" Not A;Brand\";v=\"99\", \"Chromium\";v=\"116\", \"Google Chrome\";v=\"116\"");
            assert(is_simple_header_value(spec_sec_ch_ua(id)));
            lemma_chromium_installable(spec_sec_ch_ua(id), ("\"Windows\"")@, spec_user_agent(id));
        },
        Impersonate::Chrome117 => {
            reveal_strlit("Mozilla/5.0 (Windows NT 10.0; Win64; x64) AppleWebKit/537.36 (KHTML, like Gecko) Chrome/117.0.0.0 Safari/537.36");
            assert(is_simple_header_value(spec_user_agent(id)));
            reveal_strlit("\" Not A;Brand\";v=\"99\", \"Chromium\";v=\"117\", \"Google Chrome\";v=\"117\"");
            assert(is_simple_header_value(spec_sec_ch_ua(id)));
            lemma_chromium_installable(spec_sec_ch_ua(id), ("\"Windows\"")@, spec_user_agent(id));
        },
        Impersonate::Chrome118 => {
            reveal_strlit("Mozilla/5.0 (Windows NT 10.0; Win64; x64) AppleWebKit/537.36 (KHTML, like Gecko) Chrome/118.0.0.0 Safari/537.36");
            assert(is_simple_header_value(spec_user_agent(id)));
            reveal_strlit("\" Not A;Brand\";v=\"99\", \"Chromium\";v=\"118\", \"Google Chrome\";v=\"118\"");
            assert(is_simple_header_value(spec_sec_ch_ua(id)));
            lemma_chromium_installable(spec_sec_ch_ua(id), ("\"Windows\"")@, spec_user_agent(id));
        },
        Impersonate::Chrome119 => {
            reveal_strlit("Mozilla/5.0 (Windows NT 10.0; Win64; x64) AppleWebKit/537.36 (KHTML, like Gecko) Chrome/119.0.0.0 Safari/537.36");
            assert(is_simple_header_value(spec_user_agent(id)));
            reveal_strlit("\" Not A;Brand\";v=\"99\", \"Chromium\";v=\"119\", \"Google Chrome\";v=\"119\"");
            assert(is_simple_header_value(spec_sec_ch_ua(id)));
            lemma_chromium_installable(spec_sec_ch_ua(id), ("\"Windows\"")@, spec_user_agent(id));
        },
        Impersonate::Chrome120 => {
            reveal_strlit("Mozilla/5.0 (Windows NT 10.0; Win64; x64) AppleWebKit/537.36 (KHTML, like Gecko) Chrome/120.0.0.0 Safari/537.36");
            assert(is_simple_header_value(spec_user_agent(id)));
            reveal_strlit("\" Not A;Brand\";v=\"99\", \"Chromium\";v=\"120\", \"Google Chrome\";v=\"120\"");
            assert(is_simple_header_value(spec_sec_ch_ua(id)));
            lemma_chromium_installable(spec_sec_ch_ua(id), ("\"Windows\"")@, spec_user_agent(id));
        },
        Impersonate::Chrome123 => {
            reveal_strlit("Mozilla/5.0 (Windows NT 10.0; Win64; x64) AppleWebKit/537.36 (KHTML, like Gecko) Chrome/123.0.0.0 Safari/537.36");
            assert(is_simple_header_value(spec_user_agent(id)));
            reveal_strlit("\" Not A;Brand\";v=\"99\", \"Chromium\";v=\"123\", \"Google Chrome\";v=\"123\"");
            assert(is_simple_header_value(spec_sec_ch_ua(id)));
            lemma_chromium_installable(spec_sec_ch_ua(id), ("\"Windows\"")@, spec_user_agent(id));
        },
        Impersonate::Chrome124 => {
            reveal_strlit("Mozilla/5.0 (Windows NT 10.0; Win64; x64) AppleWebKit/537.36 (KHTML, like Gecko) Chrome/124.0.0.0 Safari/537.36");
            assert(is_simple_header_value(spec_user_agent(id)));
            reveal_strlit("\" Not A;Brand\";v=\"99\", \"Chromium\";v=\"124\", \"Google Chrome\";v=\"124\"");
            assert(is_simple_header_value(spec_sec_ch_ua(id)));
            lemma_chromium_installable(spec_sec_ch_ua(id), ("\"Windows\"")@, spec_user_agent(id));
        },
        Impersonate::Chrome126 => {
            reveal_strlit("Mozilla/5.0 (Windows NT 10.0; Win64; x64) AppleWebKit/537.36 (KHTML, like Gecko) Chrome/126.0.0.0 Safari/537.36");
            assert(is_simple_header_value(spec_user_agent(id)));
            reveal_strlit("\" Not A;Brand\";v=\"99\", \"Chromium\";v=\"126\", \"Google Chrome\";v=\"126\"");
            assert(is_simple_header_value(spec_sec_ch_ua(id)));
            lemma_chromium_installable(spec_sec_ch_ua(id), ("\"Windows\"")@, spec_user_agent(id));
        },
        Impersonate::SafariIos17_2 => {
            reveal_strlit("Mozilla/5.0 (iPhone; CPU iPhone OS 17_2 like Mac OS X) AppleWebKit/605.1.15 (KHTML, like Gecko) Version/17.2 Mobile/15E148 Safari/604.1");
            assert(is_simple_header_value(spec_user_agent(id)));
            lemma_safari_installable(spec_user_agent(id));
        },
        Impersonate::SafariIos17_4_1 => {
            reveal_strlit("Mozilla/5.0 (iPhone; CPU iPhone OS 17_4_1 like Mac OS X) AppleWebKit/605.1.15 (KHTML, like Gecko) Version/17.4.1 Mobile/15E148 Safari/604.1");
            assert(is_simple_header_value(spec_user_agent(id)));
            lemma_safari_installable(spec_user_agent(id));
        },
        Impersonate::SafariIos16_5 => {
            reveal_strlit("Mozilla/5.0 (iPhone; CPU iPhone OS 16_5 like Mac OS X) AppleWebKit/605.1.15 (KHTML, like Gecko) Version/16.5 Mobile/15E148 Safari/604.1");
            assert(is_simple_header_value(spec_user_agent(id)));
            lemma_safari_installable(spec_user_agent(id));
        },
        Impersonate::Safari15_3 => {
            reveal_strlit("Mozilla/5.0 (Macintosh; Intel Mac OS X 10_15_7) AppleWebKit/605.1.15 (KHTML, like Gecko) Version/15.3 Safari/605.1.15");
            assert(is_simple_header_value(spec_user_agent(id)));
            lemma_safari_installable(spec_user_agent(id));
        },
        Impersonate::Safari15_5 => {
            reveal_strlit("Mozilla/5.0 (Macintosh; Intel Mac OS X 10_15_7) AppleWebKit/605.1.15 (KHTML, like Gecko) Version/15.5 Safari/605.1.15");
            assert(is_simple_header_value(spec_user_agent(id)));
            lemma_safari_installable(spec_user_agent(id));
        },
        Impersonate::Safari15_6_1 => {
            reveal_strlit("Mozilla/5.0 (Macintosh; Intel Mac OS X 10_15_7) AppleWebKit/605.1.15 (KHTML, like Gecko) Version/15.6.1 Safari/605.1.15");
            assert(is_simple_header_value(spec_user_agent(id)));
            lemma_safari_installable(spec_user_agent(id));
        },
        Impersonate::Safari16 => {
            reveal_strlit("Mozilla/5.0 (Macintosh; Intel Mac OS X 10_15_7) AppleWebKit/605.1.15 (KHTML, like Gecko) Version/16.0 Safari/605.1.15");
            assert(is_simple_header_value(spec_user_agent(id)));
            lemma_safari_installable(spec_user_agent(id));
        },
        Impersonate::Safari16_5 => {
            reveal_strlit("Mozilla/5.0 (Macintosh; Intel Mac OS X 10_15_7) AppleWebKit/605.1.15 (KHTML, like Gecko) Version/16.5 Safari/605.1.15");
            assert(is_simple_header_value(spec_user_agent(id)));
            lemma_safari_installable(spec_user_agent(id));
        },
        Impersonate::Safari17_2_1 => {
            reveal_strlit("Mozilla/5.0 (Macintosh; Intel Mac OS X 10_15_7) AppleWebKit/605.1.15 (KHTML, like Gecko) Version/17.2.1 Safari/605.1.15");
            assert(is_simple_header_value(spec_user_agent(id)));
            lemma_safari_installable(spec_user_agent(id));
        },
        Impersonate::Safari17_4_1 => {
            reveal_strlit("Mozilla/5.0 (Macintosh; Intel Mac OS X 10_15_7) AppleWebKit/605.1.15 (KHTML, like Gecko) Version/17.4.1 Safari/605.1.15");
            assert(is_simple_header_value(spec_user_agent(id)));
            lemma_safari_installable(spec_user_agent(id));
        },
        Impersonate::Safari17_5 => {
            reveal_strlit("Mozilla/5.0 (Macintosh; Intel Mac OS X 10_15_7) AppleWebKit/605.1.15 (KHTML, like Gecko) Version/17.5 Safari/605.1.15");
            assert(is_simple_header_value(spec_user_agent(id)));
            lemma_safari_installable(spec_user_agent(id));
        },
        Impersonate::OkHttp3_9 => {
            reveal_strlit("okhttp/3.9.0");
            assert(is_simple_header_value(spec_user_agent(id)));
            lemma_okhttp_installable(spec_user_agent(id));
        },
        Impersonate::OkHttp3_11 => {
            reveal_strlit("okhttp/3.11.0");
            assert(is_simple_header_value(spec_user_agent(id)));
            lemma_okhttp_installable(spec_user_agent(id));
        },
        Impersonate::OkHttp3_13 => {
            reveal_strlit("okhttp/3.13.1");
            assert(is_simple_header_value(spec_user_agent(id)));
            lemma_okhttp_installable(spec_user_agent(id));
        },
        Impersonate::OkHttp3_14 => {
            reveal_strlit("okhttp/3.14.9");
            assert(is_simple_header_value(spec_user_agent(id)));
            lemma_okhttp_installable(spec_user_agent(id));
        },
        Impersonate::OkHttp4_9 => {
            reveal_strlit("okhttp/4.9.3");
            assert(is_simple_header_value(spec_user_agent(id)));
            lemma_okhttp_installable(spec_user_agent(id));
        },
        Impersonate::OkHttp4_10 => {
            reveal_strlit("okhttp/4.10.0");
            assert(is_simple_header_value(spec_user_agent(id)));
            lemma_okhttp_installable(spec_user_agent(id));
        },
        Impersonate::OkHttp5 => {
            reveal_strlit("okhttp/5.0.0");
            assert(is_simple_header_value(spec_user_agent(id)));
            lemma_okhttp_installable(spec_user_agent(id));
        },
        Impersonate::Edge99 => {
            reveal_strlit("Mozilla/5.0 (Windows NT 10.0; Win64; x64) AppleWebKit/537.36 (KHTML, like Gecko) Chrome/99.0.4844.51 Safari/537.36 Edg/99.0.1150.36");
            assert(is_simple_header_value(spec_user_agent(id)));
            reveal_strlit("\" Not A;Brand\";v=\"99\", \"Chromium\";v=\"99\", \"Microsoft Edge\";v=\"99\"");
            assert(is_simple_header_value(spec_sec_ch_ua(id)));
            lemma_chromium_installable(spec_sec_ch_ua(id), ("\"Windows\"")@, spec_user_agent(id));
        },
        Impersonate::Edge101 => {
            reveal_strlit("Mozilla/5.0 (Windows NT 10.0; Win64; x64) AppleWebKit/537.36 (KHTML, like Gecko) Chrome/101.0.4951.64 Safari/537.36 Edg/101.0.1210.47");
            assert(is_simple_header_value(spec_user_agent(id)));
            reveal_strlit("\" Not A;Brand\";v=\"99\", \"Chromium\";v=\"101\", \"Microsoft Edge\";v=\"101\"");
            assert(is_simple_header_value(spec_sec_ch_ua(id)));
            lemma_chromium_installable(spec_sec_ch_ua(id), ("\"Windows\"")@, spec_user_agent(id));
        },
        Impersonate::Edge122 => {
            reveal_strlit("Mozilla/5.0 (Windows NT 10.0; Win64; x64) AppleWebKit/537.36 (KHTML, like Gecko) Chrome/122.0.0.0 Safari/537.36 Edg/122.0.2365.59");
            assert(is_simple_header_value(spec_user_agent(id)));
            reveal_strlit("\" Not A;Brand\";v=\"99\", \"Chromium\";v=\"122\", \"Microsoft Edge\";v=\"122\"");
            assert(is_simple_header_value(spec_sec_ch_ua(id)));
            lemma_chromium_installable(spec_sec_ch_ua(id), ("\"Windows\"")@, spec_user_agent(id));
        },
    }
}

/// Law: selecting any identity yields a configuration that builds with
/// no failure: its HTTP/2 values are within protocol range and its
/// header template is accepted whole by the collaborator.
pub proof fn lemma_impersonate_builds(ver: Impersonate)
    ensures
        spec_http2_of(ver).valid(),
        template_installable(spec_headers_of(ver)),
        spec_headers_of(ver).len() <= 0x1000,
{
    lemma_template_installable(ver);
}


} // verus!

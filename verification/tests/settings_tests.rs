use impersonate::profile::{ClientProfile, Impersonate};
use impersonate::registry::get_settings;

fn all_identities() -> Vec<Impersonate> {
    let tokens = vec![
        "chrome_100",
        "chrome_101",
        "chrome_104",
        "chrome_105",
        "chrome_106",
        "chrome_107",
        "chrome_108",
        "chrome_109",
        "chrome_114",
        "chrome_116",
        "chrome_117",
        "chrome_118",
        "chrome_119",
        "chrome_120",
        "chrome_123",
        "chrome_124",
        "chrome_126",
        "safari_ios_17.2",
        "safari_ios_17.4.1",
        "safari_ios_16.5",
        "safari_15.3",
        "safari_15.5",
        "safari_15.6.1",
        "safari_16",
        "safari_16.5",
        "safari_17.2.1",
        "safari_17.4.1",
        "safari_17.5",
        "okhttp_3.9",
        "okhttp_3.11",
        "okhttp_3.13",
        "okhttp_3.14",
        "okhttp_4.9",
        "okhttp_4.10",
        "okhttp_5",
        "edge_99",
        "edge_101",
        "edge_122",
    ];
    tokens
        .into_iter()
        .map(|t| Impersonate::from_str(t).expect("canonical token"))
        .collect()
}

#[test]
fn every_identity_yields_a_bundle() {
    for id in all_identities() {
        let settings = get_settings(id);
        assert_eq!(settings.tls_connector.shaped_for, id);
        assert!(settings.http2.initial_stream_window_size.is_some());
        assert!(settings.headers.len() > 0);
        assert!(settings.gzip);
    }
}

#[test]
fn edge_101_http2_literals_are_exact() {
    let settings = get_settings(Impersonate::Edge101);
    let h = settings.http2;
    assert_eq!(h.initial_stream_window_size, Some(6291456));
    assert_eq!(h.initial_connection_window_size, Some(15728640));
    assert_eq!(h.max_concurrent_streams, Some(1000));
    assert_eq!(h.max_header_list_size, Some(262144));
    assert_eq!(h.header_table_size, Some(65536));
    assert_eq!(h.enable_push, Some(false));
}

#[test]
fn edge_101_headers_carry_the_documented_literals() {
    let settings = get_settings(Impersonate::Edge101);
    let t = settings.headers;
    assert_eq!(
        t.get("sec-ch-ua").unwrap().as_str(),
        r#"" Not A;Brand";v="99", "Chromium";v="101", "Microsoft Edge";v="101""#
    );
    assert_eq!(
        t.get("user-agent").unwrap().as_str(),
        "Mozilla/5.0 (Windows NT 10.0; Win64; x64) AppleWebKit/537.36 (KHTML, like Gecko) Chrome/101.0.4951.64 Safari/537.36 Edg/101.0.1210.47"
    );
    assert_eq!(t.get("sec-ch-ua-mobile").unwrap().as_str(), "?0");
    assert_eq!(t.get("sec-ch-ua-platform").unwrap().as_str(), "\"Windows\"");
    assert_eq!(t.get("upgrade-insecure-requests").unwrap().as_str(), "1");
    assert_eq!(t.get("accept-encoding").unwrap().as_str(), "gzip, deflate, br");
}

#[test]
fn header_order_follows_the_client_hint_scheme() {
    let settings = get_settings(Impersonate::Chrome126);
    let t = settings.headers;
    assert_eq!(t.name_at(0).unwrap().as_str(), "sec-ch-ua");
    assert_eq!(t.name_at(4).unwrap().as_str(), "user-agent");
    assert_eq!(t.name_at(11).unwrap().as_str(), "accept-language");
    assert_eq!(t.len(), 12);
}

#[test]
fn client_hint_families_carry_hints_and_others_do_not() {
    for id in all_identities() {
        let family = id.profile();
        let settings = get_settings(id);
        let t = settings.headers;
        let ua = t.get("user-agent").expect("user-agent is always present");
        assert!(!ua.is_empty());
        match family {
            ClientProfile::Chrome | ClientProfile::Edge => {
                let hint = t.get("sec-ch-ua").expect("client-hint header expected");
                assert!(!hint.is_empty());
            }
            _ => {
                assert!(t.get("sec-ch-ua").is_none());
            }
        }
    }
}

#[test]
fn okhttp_does_not_advertise_brotli() {
    let settings = get_settings(Impersonate::OkHttp4_10);
    assert!(settings.gzip);
    assert!(!settings.brotli);
    assert_eq!(settings.headers.get("accept-encoding").unwrap().as_str(), "gzip");

    let chrome = get_settings(Impersonate::Chrome126);
    assert!(chrome.brotli);
}

#[test]
fn template_override_replaces_in_place() {
    let mut t = impersonate::headers::HeaderTemplate::new();
    t.insert("accept", "*/*");
    t.insert("user-agent", "first");
    t.insert("accept", "text/html");
    assert_eq!(t.len(), 2);
    assert_eq!(t.name_at(0).unwrap().as_str(), "accept");
    assert_eq!(t.value_at(0).unwrap().as_str(), "text/html");
    assert_eq!(t.name_at(1).unwrap().as_str(), "user-agent");
    assert!(t.contains("accept"));
    assert!(!t.contains("accept-language"));
}

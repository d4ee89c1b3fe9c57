use impersonate::builder::ClientBuilder;
use impersonate::profile::Impersonate;
use impersonate::error::Error;
use impersonate::proxy::{Proxy, ProxyScheme};

const CHROME_126_UA: &str = "Mozilla/5.0 (Windows NT 10.0; Win64; x64) AppleWebKit/537.36 (KHTML, like Gecko) Chrome/126.0.0.0 Safari/537.36";

#[test]
fn chrome_126_scenario_builds_a_matching_client() {
    let client = ClientBuilder::new()
        .impersonate_token("chrome_126")
        .expect("chrome_126 is canonical")
        .enable_ech_grease()
        .permute_extensions()
        .build()
        .expect("build must succeed");

    assert!(client.ech_grease());
    assert!(client.permute_extensions());
    assert_eq!(client.tls_shaped_for(), Some(Impersonate::Chrome126));

    let h = client.http2();
    assert_eq!(h.initial_stream_window_size, Some(6291456));
    assert_eq!(h.initial_connection_window_size, Some(15728640));
    assert_eq!(h.max_concurrent_streams, Some(1000));
    assert_eq!(h.max_header_list_size, Some(262144));
    assert_eq!(h.header_table_size, Some(65536));
    assert_eq!(h.enable_push, Some(false));

    let ua = client.headers().get("user-agent").expect("user-agent present");
    assert_eq!(ua.as_str(), CHROME_126_UA);

    let map = client.default_headers();
    let installed = map.get("user-agent").expect("installed in the header map");
    assert_eq!(installed.to_str().unwrap(), CHROME_126_UA);
    assert!(map.get("sec-ch-ua").is_some());
    assert_eq!(map.get("sec-fetch-mode").unwrap().to_str().unwrap(), "navigate");
}

#[test]
fn unknown_token_fails_with_a_selection_error() {
    let r = ClientBuilder::new().impersonate_token("chrome_999");
    assert!(matches!(r, Err(Error::Selection)));
}

#[test]
fn out_of_range_http2_value_is_rejected_at_build() {
    let r = ClientBuilder::new()
        .impersonate(Impersonate::Chrome126)
        .http2_initial_stream_window_size(Some(0x8000_0000))
        .build();
    assert!(matches!(r, Err(Error::ParameterRejection)));

    let ok = ClientBuilder::new()
        .impersonate(Impersonate::Chrome126)
        .http2_initial_stream_window_size(Some(0x7fff_ffff))
        .build();
    assert!(ok.is_ok());
}

#[test]
fn proxy_descriptor_parsing_accepts_supported_schemes() {
    let p = Proxy::parse("http://127.0.0.1:8080").unwrap();
    assert_eq!(p.scheme, ProxyScheme::Http);
    assert_eq!(p.target, "127.0.0.1:8080");

    let p = Proxy::parse("https://proxy.example:443").unwrap();
    assert_eq!(p.scheme, ProxyScheme::Https);

    let p = Proxy::parse("socks5://10.0.0.1:1080").unwrap();
    assert_eq!(p.scheme, ProxyScheme::Socks5);

    let p = Proxy::parse("socks5h://10.0.0.1:1080").unwrap();
    assert_eq!(p.scheme, ProxyScheme::Socks5h);
    assert_eq!(p.target, "10.0.0.1:1080");
}

#[test]
fn proxy_descriptor_parsing_rejects_malformed_urls() {
    assert_eq!(Proxy::parse("ftp://host"), Err(Error::ProxyDescriptor));
    assert_eq!(Proxy::parse("http://"), Err(Error::ProxyDescriptor));
    assert_eq!(Proxy::parse("host:8080"), Err(Error::ProxyDescriptor));
    assert_eq!(Proxy::parse(""), Err(Error::ProxyDescriptor));
    assert_eq!(Error::ProxyDescriptor.message(), "unsupported or malformed proxy url");
    assert_eq!(Error::Selection.message(), "invalid impersonate selection token");
    assert_eq!(Error::ParameterRejection.message(), "http2 parameter out of protocol range");
    assert_eq!(Error::Collaborator.message(), "collaborator rejected the configuration");
}

#[test]
fn proxy_swap_is_whole_list_and_leaves_the_fingerprint_alone() {
    let mut client = ClientBuilder::new()
        .impersonate(Impersonate::Edge101)
        .build()
        .expect("build must succeed");

    let old_list = vec![Proxy::parse("http://old.proxy:3128").unwrap()];
    client.set_proxies(old_list.clone());

    // a connection that begins now captures the old list in full
    let before = client.proxy_snapshot();
    assert_eq!(before, old_list);

    let new_list = vec![
        Proxy::parse("socks5://new.proxy:1080").unwrap(),
        Proxy::parse("https://backup.proxy:443").unwrap(),
    ];
    client.set_proxies(new_list.clone());

    // the earlier connection keeps its captured list; a new one sees the
    // new list, whole
    assert_eq!(before, old_list);
    let after = client.proxy_snapshot();
    assert_eq!(after, new_list);

    // the fingerprint is untouched by the swap
    let h = client.http2();
    assert_eq!(h.initial_stream_window_size, Some(6291456));
    assert_eq!(
        client.headers().get("user-agent").unwrap().as_str(),
        "Mozilla/5.0 (Windows NT 10.0; Win64; x64) AppleWebKit/537.36 (KHTML, like Gecko) Chrome/101.0.4951.64 Safari/537.36 Edg/101.0.1210.47"
    );
    assert!(client.default_headers().get("user-agent").is_some());
}

#[test]
fn cookie_store_toggle_is_delegated() {
    let client = ClientBuilder::new()
        .impersonate(Impersonate::Safari17_5)
        .cookie_store(true)
        .build()
        .expect("build must succeed");
    assert_eq!(client.compression(), (true, true));
    assert!(client.default_headers().get("sec-ch-ua").is_none());
}

#[test]
fn installed_header_map_reflects_the_template_not_the_input() {
    // if installation handed names through unparsed, an uppercase or
    // otherwise foreign name would slip in; the collaborator's map holds
    // exactly the template's lowercase names
    let client = ClientBuilder::new()
        .impersonate(Impersonate::OkHttp4_10)
        .build()
        .expect("build must succeed");
    let map = client.default_headers();
    assert_eq!(map.len(), 3);
    assert_eq!(map.get("user-agent").unwrap().to_str().unwrap(), "okhttp/4.10.0");
    assert_eq!(map.get("accept-encoding").unwrap().to_str().unwrap(), "gzip");
}

#[test]
fn unacceptable_header_value_is_a_collaborator_failure() {
    let mut b = ClientBuilder::new().impersonate(Impersonate::Chrome126);
    b.headers.insert("x-custom", "bad\u{0}value");
    assert!(matches!(b.build(), Err(Error::Collaborator)));
}

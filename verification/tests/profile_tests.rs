use impersonate::profile::{ClientProfile, Impersonate};

fn all_identities() -> Vec<Impersonate> {
    vec![
        Impersonate::Chrome100,
        Impersonate::Chrome101,
        Impersonate::Chrome104,
        Impersonate::Chrome105,
        Impersonate::Chrome106,
        Impersonate::Chrome107,
        Impersonate::Chrome108,
        Impersonate::Chrome109,
        Impersonate::Chrome114,
        Impersonate::Chrome116,
        Impersonate::Chrome117,
        Impersonate::Chrome118,
        Impersonate::Chrome119,
        Impersonate::Chrome120,
        Impersonate::Chrome123,
        Impersonate::Chrome124,
        Impersonate::Chrome126,
        Impersonate::SafariIos17_2,
        Impersonate::SafariIos17_4_1,
        Impersonate::SafariIos16_5,
        Impersonate::Safari15_3,
        Impersonate::Safari15_5,
        Impersonate::Safari15_6_1,
        Impersonate::Safari16,
        Impersonate::Safari16_5,
        Impersonate::Safari17_2_1,
        Impersonate::Safari17_4_1,
        Impersonate::Safari17_5,
        Impersonate::OkHttp3_9,
        Impersonate::OkHttp3_11,
        Impersonate::OkHttp3_13,
        Impersonate::OkHttp3_14,
        Impersonate::OkHttp4_9,
        Impersonate::OkHttp4_10,
        Impersonate::OkHttp5,
        Impersonate::Edge99,
        Impersonate::Edge101,
        Impersonate::Edge122,
    ]
}

#[test]
fn token_round_trip_for_every_identity() {
    let ids = all_identities();
    assert_eq!(ids.len(), 38);
    for id in ids {
        let token = id.token();
        let parsed = Impersonate::from_str(token).expect("canonical token must parse");
        assert_eq!(parsed, id);
    }
}

#[test]
fn tokens_are_pairwise_distinct() {
    let ids = all_identities();
    for (i, a) in ids.iter().enumerate() {
        for (j, b) in ids.iter().enumerate() {
            if i != j {
                assert_ne!(a.token(), b.token());
            }
        }
    }
}

#[test]
fn known_tokens_parse_to_expected_identities() {
    assert_eq!(Impersonate::from_str("chrome_126"), Ok(Impersonate::Chrome126));
    assert_eq!(Impersonate::from_str("safari_17.5"), Ok(Impersonate::Safari17_5));
    assert_eq!(Impersonate::from_str("safari_ios_16.5"), Ok(Impersonate::SafariIos16_5));
    assert_eq!(Impersonate::from_str("okhttp_4.10"), Ok(Impersonate::OkHttp4_10));
    assert_eq!(Impersonate::from_str("edge_101"), Ok(Impersonate::Edge101));
}

#[test]
fn unknown_tokens_are_rejected() {
    assert_eq!(
        Impersonate::from_str("chrome_999"),
        Err("Invalid impersonate version")
    );
    assert!(Impersonate::from_str("").is_err());
    assert!(Impersonate::from_str("CHROME_126").is_err());
    assert!(Impersonate::from_str("chrome_126 ").is_err());
    assert!(Impersonate::from_str("firefox_115").is_err());
}

#[test]
fn families_match_the_documented_table() {
    for id in all_identities() {
        let token = id.token();
        let family = id.profile();
        if token.starts_with("chrome_") {
            assert_eq!(family, ClientProfile::Chrome);
        } else if token.starts_with("safari_") {
            assert_eq!(family, ClientProfile::Safari);
        } else if token.starts_with("okhttp_") {
            assert_eq!(family, ClientProfile::OkHttp);
        } else if token.starts_with("edge_") {
            assert_eq!(family, ClientProfile::Edge);
        } else {
            panic!("unexpected token family");
        }
    }
}

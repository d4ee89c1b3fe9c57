//! The closed set of impersonation targets, their canonical string tokens,
//! and the family classifier.

use vstd::prelude::*;
use crate::strutil::str_eq;
use crate::strutil::lemma_seq_neq_at;

verus! {

/// A specific browser/runtime version that the client can present itself as.
#[derive(Clone, Copy, Debug, PartialEq, Eq, Structural)]
pub enum Impersonate {
    Chrome100,
    Chrome101,
    Chrome104,
    Chrome105,
    Chrome106,
    Chrome107,
    Chrome108,
    Chrome109,
    Chrome114,
    Chrome116,
    Chrome117,
    Chrome118,
    Chrome119,
    Chrome120,
    Chrome123,
    Chrome124,
    Chrome126,
    SafariIos17_2,
    SafariIos17_4_1,
    SafariIos16_5,
    Safari15_3,
    Safari15_5,
    Safari15_6_1,
    Safari16,
    Safari16_5,
    Safari17_2_1,
    Safari17_4_1,
    Safari17_5,
    OkHttp3_9,
    OkHttp3_11,
    OkHttp3_13,
    OkHttp3_14,
    OkHttp4_9,
    OkHttp4_10,
    OkHttp5,
    Edge99,
    Edge101,
    Edge122,
}

/// The coarse client family sharing one header-naming convention.
#[derive(Clone, Copy, Debug, PartialEq, Eq, Structural)]
pub enum ClientProfile {
    /// Chrome impersonate client profile
    Chrome,
    /// OkHttp impersonate client profile
    OkHttp,
    /// Safari impersonate client profile
    Safari,
    /// Firefox impersonate client profile
    Firefox,
    /// Edge impersonate client profile
    Edge,
}

/// The one canonical string token of each identity.
pub open spec fn token_of(id: Impersonate) -> Seq<char> {
    match id {
        Impersonate::Chrome100 => "chrome_100"@,
        Impersonate::Chrome101 => "chrome_101"@,
        Impersonate::Chrome104 => "chrome_104"@,
        Impersonate::Chrome105 => "chrome_105"@,
        Impersonate::Chrome106 => "chrome_106"@,
        Impersonate::Chrome107 => "chrome_107"@,
        Impersonate::Chrome108 => "chrome_108"@,
        Impersonate::Chrome109 => "chrome_109"@,
        Impersonate::Chrome114 => "chrome_114"@,
        Impersonate::Chrome116 => "chrome_116"@,
        Impersonate::Chrome117 => "chrome_117"@,
        Impersonate::Chrome118 => "chrome_118"@,
        Impersonate::Chrome119 => "chrome_119"@,
        Impersonate::Chrome120 => "chrome_120"@,
        Impersonate::Chrome123 => "chrome_123"@,
        Impersonate::Chrome124 => "chrome_124"@,
        Impersonate::Chrome126 => "chrome_126"@,
        Impersonate::SafariIos17_2 => "safari_ios_17.2"@,
        Impersonate::SafariIos17_4_1 => "safari_ios_17.4.1"@,
        Impersonate::SafariIos16_5 => "safari_ios_16.5"@,
        Impersonate::Safari15_3 => "safari_15.3"@,
        Impersonate::Safari15_5 => "safari_15.5"@,
        Impersonate::Safari15_6_1 => "safari_15.6.1"@,
        Impersonate::Safari16 => "safari_16"@,
        Impersonate::Safari16_5 => "safari_16.5"@,
        Impersonate::Safari17_2_1 => "safari_17.2.1"@,
        Impersonate::Safari17_4_1 => "safari_17.4.1"@,
        Impersonate::Safari17_5 => "safari_17.5"@,
        Impersonate::OkHttp3_9 => "okhttp_3.9"@,
        Impersonate::OkHttp3_11 => "okhttp_3.11"@,
        Impersonate::OkHttp3_13 => "okhttp_3.13"@,
        Impersonate::OkHttp3_14 => "okhttp_3.14"@,
        Impersonate::OkHttp4_9 => "okhttp_4.9"@,
        Impersonate::OkHttp4_10 => "okhttp_4.10"@,
        Impersonate::OkHttp5 => "okhttp_5"@,
        Impersonate::Edge99 => "edge_99"@,
        Impersonate::Edge101 => "edge_101"@,
        Impersonate::Edge122 => "edge_122"@,
    }
}

/// Which identity, if any, a string selects: exactly the canonical tokens
/// are accepted, everything else is rejected.
pub open spec fn spec_parse(s: Seq<char>) -> Option<Impersonate> {
    if s == "chrome_100"@ { Some(Impersonate::Chrome100) }
    else if s == "chrome_101"@ { Some(Impersonate::Chrome101) }
    else if s == "chrome_104"@ { Some(Impersonate::Chrome104) }
    else if s == "chrome_105"@ { Some(Impersonate::Chrome105) }
    else if s == "chrome_106"@ { Some(Impersonate::Chrome106) }
    else if s == "chrome_107"@ { Some(Impersonate::Chrome107) }
    else if s == "chrome_108"@ { Some(Impersonate::Chrome108) }
    else if s == "chrome_109"@ { Some(Impersonate::Chrome109) }
    else if s == "chrome_114"@ { Some(Impersonate::Chrome114) }
    else if s == "chrome_116"@ { Some(Impersonate::Chrome116) }
    else if s == "chrome_117"@ { Some(Impersonate::Chrome117) }
    else if s == "chrome_118"@ { Some(Impersonate::Chrome118) }
    else if s == "chrome_119"@ { Some(Impersonate::Chrome119) }
    else if s == "chrome_120"@ { Some(Impersonate::Chrome120) }
    else if s == "chrome_123"@ { Some(Impersonate::Chrome123) }
    else if s == "chrome_124"@ { Some(Impersonate::Chrome124) }
    else if s == "chrome_126"@ { Some(Impersonate::Chrome126) }
    else if s == "safari_ios_17.2"@ { Some(Impersonate::SafariIos17_2) }
    else if s == "safari_ios_17.4.1"@ { Some(Impersonate::SafariIos17_4_1) }
    else if s == "safari_15.3"@ { Some(Impersonate::Safari15_3) }
    else if s == "safari_15.5"@ { Some(Impersonate::Safari15_5) }
    else if s == "safari_15.6.1"@ { Some(Impersonate::Safari15_6_1) }
    else if s == "safari_16"@ { Some(Impersonate::Safari16) }
    else if s == "safari_16.5"@ { Some(Impersonate::Safari16_5) }
    else if s == "safari_ios_16.5"@ { Some(Impersonate::SafariIos16_5) }
    else if s == "safari_17.2.1"@ { Some(Impersonate::Safari17_2_1) }
    else if s == "safari_17.4.1"@ { Some(Impersonate::Safari17_4_1) }
    else if s == "safari_17.5"@ { Some(Impersonate::Safari17_5) }
    else if s == "okhttp_3.9"@ { Some(Impersonate::OkHttp3_9) }
    else if s == "okhttp_3.11"@ { Some(Impersonate::OkHttp3_11) }
    else if s == "okhttp_3.13"@ { Some(Impersonate::OkHttp3_13) }
    else if s == "okhttp_3.14"@ { Some(Impersonate::OkHttp3_14) }
    else if s == "okhttp_4.9"@ { Some(Impersonate::OkHttp4_9) }
    else if s == "okhttp_4.10"@ { Some(Impersonate::OkHttp4_10) }
    else if s == "okhttp_5"@ { Some(Impersonate::OkHttp5) }
    else if s == "edge_99"@ { Some(Impersonate::Edge99) }
    else if s == "edge_101"@ { Some(Impersonate::Edge101) }
    else if s == "edge_122"@ { Some(Impersonate::Edge122) }
    else { None }
}

/// The family documented for each identity: Chrome-numbered identities are
/// Chrome, Safari-numbered ones Safari, OkHttp-numbered ones OkHttp and
/// Edge-numbered ones Edge.
pub open spec fn spec_profile(id: Impersonate) -> ClientProfile {
    match id {
        Impersonate::Chrome100
        | Impersonate::Chrome101
        | Impersonate::Chrome104
        | Impersonate::Chrome105
        | Impersonate::Chrome106
        | Impersonate::Chrome107
        | Impersonate::Chrome108
        | Impersonate::Chrome109
        | Impersonate::Chrome114
        | Impersonate::Chrome116
        | Impersonate::Chrome117
        | Impersonate::Chrome118
        | Impersonate::Chrome119
        | Impersonate::Chrome120
        | Impersonate::Chrome123
        | Impersonate::Chrome124
        | Impersonate::Chrome126 => ClientProfile::Chrome,
        Impersonate::SafariIos17_2
        | Impersonate::SafariIos17_4_1
        | Impersonate::SafariIos16_5
        | Impersonate::Safari15_3
        | Impersonate::Safari15_5
        | Impersonate::Safari15_6_1
        | Impersonate::Safari16
        | Impersonate::Safari16_5
        | Impersonate::Safari17_2_1
        | Impersonate::Safari17_4_1
        | Impersonate::Safari17_5 => ClientProfile::Safari,
        Impersonate::OkHttp3_9
        | Impersonate::OkHttp3_11
        | Impersonate::OkHttp3_13
        | Impersonate::OkHttp3_14
        | Impersonate::OkHttp4_9
        | Impersonate::OkHttp4_10
        | Impersonate::OkHttp5 => ClientProfile::OkHttp,
        Impersonate::Edge99 | Impersonate::Edge101 | Impersonate::Edge122 => ClientProfile::Edge,
    }
}

impl Impersonate {
    /// Parse a canonical token; unrecognized tokens are rejected, not
    /// defaulted.
    pub fn from_str(s: &str) -> (r: Result<Impersonate, &'static str>)
        ensures
            spec_parse(s@) matches Some(id) ==> r == Ok::<Impersonate, &'static str>(id),
            spec_parse(s@) is None ==> r is Err && (r->Err_0)@ == "Invalid impersonate version"@,
    {
        if str_eq(s, "chrome_100") { Ok(Impersonate::Chrome100) }
        else if str_eq(s, "chrome_101") { Ok(Impersonate::Chrome101) }
        else if str_eq(s, "chrome_104") { Ok(Impersonate::Chrome104) }
        else if str_eq(s, "chrome_105") { Ok(Impersonate::Chrome105) }
        else if str_eq(s, "chrome_106") { Ok(Impersonate::Chrome106) }
        else if str_eq(s, "chrome_107") { Ok(Impersonate::Chrome107) }
        else if str_eq(s, "chrome_108") { Ok(Impersonate::Chrome108) }
        else if str_eq(s, "chrome_109") { Ok(Impersonate::Chrome109) }
        else if str_eq(s, "chrome_114") { Ok(Impersonate::Chrome114) }
        else if str_eq(s, "chrome_116") { Ok(Impersonate::Chrome116) }
        else if str_eq(s, "chrome_117") { Ok(Impersonate::Chrome117) }
        else if str_eq(s, "chrome_118") { Ok(Impersonate::Chrome118) }
        else if str_eq(s, "chrome_119") { Ok(Impersonate::Chrome119) }
        else if str_eq(s, "chrome_120") { Ok(Impersonate::Chrome120) }
        else if str_eq(s, "chrome_123") { Ok(Impersonate::Chrome123) }
        else if str_eq(s, "chrome_124") { Ok(Impersonate::Chrome124) }
        else if str_eq(s, "chrome_126") { Ok(Impersonate::Chrome126) }
        else if str_eq(s, "safari_ios_17.2") { Ok(Impersonate::SafariIos17_2) }
        else if str_eq(s, "safari_ios_17.4.1") { Ok(Impersonate::SafariIos17_4_1) }
        else if str_eq(s, "safari_15.3") { Ok(Impersonate::Safari15_3) }
        else if str_eq(s, "safari_15.5") { Ok(Impersonate::Safari15_5) }
        else if str_eq(s, "safari_15.6.1") { Ok(Impersonate::Safari15_6_1) }
        else if str_eq(s, "safari_16") { Ok(Impersonate::Safari16) }
        else if str_eq(s, "safari_16.5") { Ok(Impersonate::Safari16_5) }
        else if str_eq(s, "safari_ios_16.5") { Ok(Impersonate::SafariIos16_5) }
        else if str_eq(s, "safari_17.2.1") { Ok(Impersonate::Safari17_2_1) }
        else if str_eq(s, "safari_17.4.1") { Ok(Impersonate::Safari17_4_1) }
        else if str_eq(s, "safari_17.5") { Ok(Impersonate::Safari17_5) }
        else if str_eq(s, "okhttp_3.9") { Ok(Impersonate::OkHttp3_9) }
        else if str_eq(s, "okhttp_3.11") { Ok(Impersonate::OkHttp3_11) }
        else if str_eq(s, "okhttp_3.13") { Ok(Impersonate::OkHttp3_13) }
        else if str_eq(s, "okhttp_3.14") { Ok(Impersonate::OkHttp3_14) }
        else if str_eq(s, "okhttp_4.9") { Ok(Impersonate::OkHttp4_9) }
        else if str_eq(s, "okhttp_4.10") { Ok(Impersonate::OkHttp4_10) }
        else if str_eq(s, "okhttp_5") { Ok(Impersonate::OkHttp5) }
        else if str_eq(s, "edge_99") { Ok(Impersonate::Edge99) }
        else if str_eq(s, "edge_101") { Ok(Impersonate::Edge101) }
        else if str_eq(s, "edge_122") { Ok(Impersonate::Edge122) }
        else { Err("Invalid impersonate version") }
    }

    /// The canonical token of this identity.
    pub fn token(&self) -> (t: &'static str)
        ensures
            t@ == token_of(*self),
    {
        match self {
            Impersonate::Chrome100 => "chrome_100",
            Impersonate::Chrome101 => "chrome_101",
            Impersonate::Chrome104 => "chrome_104",
            Impersonate::Chrome105 => "chrome_105",
            Impersonate::Chrome106 => "chrome_106",
            Impersonate::Chrome107 => "chrome_107",
            Impersonate::Chrome108 => "chrome_108",
            Impersonate::Chrome109 => "chrome_109",
            Impersonate::Chrome114 => "chrome_114",
            Impersonate::Chrome116 => "chrome_116",
            Impersonate::Chrome117 => "chrome_117",
            Impersonate::Chrome118 => "chrome_118",
            Impersonate::Chrome119 => "chrome_119",
            Impersonate::Chrome120 => "chrome_120",
            Impersonate::Chrome123 => "chrome_123",
            Impersonate::Chrome124 => "chrome_124",
            Impersonate::Chrome126 => "chrome_126",
            Impersonate::SafariIos17_2 => "safari_ios_17.2",
            Impersonate::SafariIos17_4_1 => "safari_ios_17.4.1",
            Impersonate::SafariIos16_5 => "safari_ios_16.5",
            Impersonate::Safari15_3 => "safari_15.3",
            Impersonate::Safari15_5 => "safari_15.5",
            Impersonate::Safari15_6_1 => "safari_15.6.1",
            Impersonate::Safari16 => "safari_16",
            Impersonate::Safari16_5 => "safari_16.5",
            Impersonate::Safari17_2_1 => "safari_17.2.1",
            Impersonate::Safari17_4_1 => "safari_17.4.1",
            Impersonate::Safari17_5 => "safari_17.5",
            Impersonate::OkHttp3_9 => "okhttp_3.9",
            Impersonate::OkHttp3_11 => "okhttp_3.11",
            Impersonate::OkHttp3_13 => "okhttp_3.13",
            Impersonate::OkHttp3_14 => "okhttp_3.14",
            Impersonate::OkHttp4_9 => "okhttp_4.9",
            Impersonate::OkHttp4_10 => "okhttp_4.10",
            Impersonate::OkHttp5 => "okhttp_5",
            Impersonate::Edge99 => "edge_99",
            Impersonate::Edge101 => "edge_101",
            Impersonate::Edge122 => "edge_122",
        }
    }

    /// Get the client profile (family) for the given impersonate version.
    /// Total: every identity has exactly one family.
    pub fn profile(&self) -> (p: ClientProfile)
        ensures
            p == spec_profile(*self),
    {
        match self {
            Impersonate::Chrome100
            | Impersonate::Chrome101
            | Impersonate::Chrome104
            | Impersonate::Chrome105
            | Impersonate::Chrome106
            | Impersonate::Chrome107
            | Impersonate::Chrome108
            | Impersonate::Chrome109
            | Impersonate::Chrome114
            | Impersonate::Chrome116
            | Impersonate::Chrome117
            | Impersonate::Chrome118
            | Impersonate::Chrome119
            | Impersonate::Chrome120
            | Impersonate::Chrome123
            | Impersonate::Chrome124
            | Impersonate::Chrome126 => ClientProfile::Chrome,
            Impersonate::SafariIos17_2
            | Impersonate::SafariIos16_5
            | Impersonate::SafariIos17_4_1
            | Impersonate::Safari15_3
            | Impersonate::Safari15_5
            | Impersonate::Safari15_6_1
            | Impersonate::Safari16
            | Impersonate::Safari16_5
            | Impersonate::Safari17_2_1
            | Impersonate::Safari17_4_1
            | Impersonate::Safari17_5 => ClientProfile::Safari,
            Impersonate::OkHttp3_9
            | Impersonate::OkHttp3_11
            | Impersonate::OkHttp3_13
            | Impersonate::OkHttp3_14
            | Impersonate::OkHttp4_9
            | Impersonate::OkHttp4_10
            | Impersonate::OkHttp5 => ClientProfile::OkHttp,
            Impersonate::Edge99 | Impersonate::Edge101 | Impersonate::Edge122 => {
                ClientProfile::Edge
            },
        }
    }
}

/// Law: parsing the canonical token of any identity yields that identity
/// back (one direction of the token bijection).
#[verifier::rlimit(100)]
pub proof fn lemma_token_round_trip(id: Impersonate)
    ensures
        spec_parse(token_of(id)) == Some(id),
{
    reveal_strlit("chrome_100");
    reveal_strlit("chrome_101");
    reveal_strlit("chrome_104");
    reveal_strlit("chrome_105");
    reveal_strlit("chrome_106");
    reveal_strlit("chrome_107");
    reveal_strlit("chrome_108");
    reveal_strlit("chrome_109");
    reveal_strlit("chrome_114");
    reveal_strlit("chrome_116");
    reveal_strlit("chrome_117");
    reveal_strlit("chrome_118");
    reveal_strlit("chrome_119");
    reveal_strlit("chrome_120");
    reveal_strlit("chrome_123");
    reveal_strlit("chrome_124");
    reveal_strlit("chrome_126");
    reveal_strlit("safari_ios_17.2");
    reveal_strlit("safari_ios_17.4.1");
    reveal_strlit("safari_ios_16.5");
    reveal_strlit("safari_15.3");
    reveal_strlit("safari_15.5");
    reveal_strlit("safari_15.6.1");
    reveal_strlit("safari_16");
    reveal_strlit("safari_16.5");
    reveal_strlit("safari_17.2.1");
    reveal_strlit("safari_17.4.1");
    reveal_strlit("safari_17.5");
    reveal_strlit("okhttp_3.9");
    reveal_strlit("okhttp_3.11");
    reveal_strlit("okhttp_3.13");
    reveal_strlit("okhttp_3.14");
    reveal_strlit("okhttp_4.9");
    reveal_strlit("okhttp_4.10");
    reveal_strlit("okhttp_5");
    reveal_strlit("edge_99");
    reveal_strlit("edge_101");
    reveal_strlit("edge_122");
    assert(("chrome_100"@).len() == 10);
    assert(("chrome_101"@).len() == 10);
    assert(("chrome_104"@).len() == 10);
    assert(("chrome_105"@).len() == 10);
    assert(("chrome_106"@).len() == 10);
    assert(("chrome_107"@).len() == 10);
    assert(("chrome_108"@).len() == 10);
    assert(("chrome_109"@).len() == 10);
    assert(("chrome_114"@).len() == 10);
    assert(("chrome_116"@).len() == 10);
    assert(("chrome_117"@).len() == 10);
    assert(("chrome_118"@).len() == 10);
    assert(("chrome_119"@).len() == 10);
    assert(("chrome_120"@).len() == 10);
    assert(("chrome_123"@).len() == 10);
    assert(("chrome_124"@).len() == 10);
    assert(("chrome_126"@).len() == 10);
    assert(("safari_ios_17.2"@).len() == 15);
    assert(("safari_ios_17.4.1"@).len() == 17);
    assert(("safari_15.3"@).len() == 11);
    assert(("safari_15.5"@).len() == 11);
    assert(("safari_15.6.1"@).len() == 13);
    assert(("safari_16"@).len() == 9);
    assert(("safari_16.5"@).len() == 11);
    assert(("safari_ios_16.5"@).len() == 15);
    assert(("safari_17.2.1"@).len() == 13);
    assert(("safari_17.4.1"@).len() == 13);
    assert(("safari_17.5"@).len() == 11);
    assert(("okhttp_3.9"@).len() == 10);
    assert(("okhttp_3.11"@).len() == 11);
    assert(("okhttp_3.13"@).len() == 11);
    assert(("okhttp_3.14"@).len() == 11);
    assert(("okhttp_4.9"@).len() == 10);
    assert(("okhttp_4.10"@).len() == 11);
    assert(("okhttp_5"@).len() == 8);
    assert(("edge_99"@).len() == 7);
    assert(("edge_101"@).len() == 8);
    assert(("edge_122"@).len() == 8);
    lemma_seq_neq_at("chrome_100"@, "chrome_101"@, 9);
    lemma_seq_neq_at("chrome_100"@, "chrome_104"@, 9);
    lemma_seq_neq_at("chrome_100"@, "chrome_105"@, 9);
    lemma_seq_neq_at("chrome_100"@, "chrome_106"@, 9);
    lemma_seq_neq_at("chrome_100"@, "chrome_107"@, 9);
    lemma_seq_neq_at("chrome_100"@, "chrome_108"@, 9);
    lemma_seq_neq_at("chrome_100"@, "chrome_109"@, 9);
    lemma_seq_neq_at("chrome_100"@, "chrome_114"@, 8);
    lemma_seq_neq_at("chrome_100"@, "chrome_116"@, 8);
    lemma_seq_neq_at("chrome_100"@, "chrome_117"@, 8);
    lemma_seq_neq_at("chrome_100"@, "chrome_118"@, 8);
    lemma_seq_neq_at("chrome_100"@, "chrome_119"@, 8);
    lemma_seq_neq_at("chrome_100"@, "chrome_120"@, 8);
    lemma_seq_neq_at("chrome_100"@, "chrome_123"@, 8);
    lemma_seq_neq_at("chrome_100"@, "chrome_124"@, 8);
    lemma_seq_neq_at("chrome_100"@, "chrome_126"@, 8);
    lemma_seq_neq_at("chrome_100"@, "okhttp_3.9"@, 0);
    lemma_seq_neq_at("chrome_100"@, "okhttp_4.9"@, 0);
    lemma_seq_neq_at("chrome_101"@, "chrome_104"@, 9);
    lemma_seq_neq_at("chrome_101"@, "chrome_105"@, 9);
    lemma_seq_neq_at("chrome_101"@, "chrome_106"@, 9);
    lemma_seq_neq_at("chrome_101"@, "chrome_107"@, 9);
    lemma_seq_neq_at("chrome_101"@, "chrome_108"@, 9);
    lemma_seq_neq_at("chrome_101"@, "chrome_109"@, 9);
    lemma_seq_neq_at("chrome_101"@, "chrome_114"@, 8);
    lemma_seq_neq_at("chrome_101"@, "chrome_116"@, 8);
    lemma_seq_neq_at("chrome_101"@, "chrome_117"@, 8);
    lemma_seq_neq_at("chrome_101"@, "chrome_118"@, 8);
    lemma_seq_neq_at("chrome_101"@, "chrome_119"@, 8);
    lemma_seq_neq_at("chrome_101"@, "chrome_120"@, 8);
    lemma_seq_neq_at("chrome_101"@, "chrome_123"@, 8);
    lemma_seq_neq_at("chrome_101"@, "chrome_124"@, 8);
    lemma_seq_neq_at("chrome_101"@, "chrome_126"@, 8);
    lemma_seq_neq_at("chrome_101"@, "okhttp_3.9"@, 0);
    lemma_seq_neq_at("chrome_101"@, "okhttp_4.9"@, 0);
    lemma_seq_neq_at("chrome_104"@, "chrome_105"@, 9);
    lemma_seq_neq_at("chrome_104"@, "chrome_106"@, 9);
    lemma_seq_neq_at("chrome_104"@, "chrome_107"@, 9);
    lemma_seq_neq_at("chrome_104"@, "chrome_108"@, 9);
    lemma_seq_neq_at("chrome_104"@, "chrome_109"@, 9);
    lemma_seq_neq_at("chrome_104"@, "chrome_114"@, 8);
    lemma_seq_neq_at("chrome_104"@, "chrome_116"@, 8);
    lemma_seq_neq_at("chrome_104"@, "chrome_117"@, 8);
    lemma_seq_neq_at("chrome_104"@, "chrome_118"@, 8);
    lemma_seq_neq_at("chrome_104"@, "chrome_119"@, 8);
    lemma_seq_neq_at("chrome_104"@, "chrome_120"@, 8);
    lemma_seq_neq_at("chrome_104"@, "chrome_123"@, 8);
    lemma_seq_neq_at("chrome_104"@, "chrome_124"@, 8);
    lemma_seq_neq_at("chrome_104"@, "chrome_126"@, 8);
    lemma_seq_neq_at("chrome_104"@, "okhttp_3.9"@, 0);
    lemma_seq_neq_at("chrome_104"@, "okhttp_4.9"@, 0);
    lemma_seq_neq_at("chrome_105"@, "chrome_106"@, 9);
    lemma_seq_neq_at("chrome_105"@, "chrome_107"@, 9);
    lemma_seq_neq_at("chrome_105"@, "chrome_108"@, 9);
    lemma_seq_neq_at("chrome_105"@, "chrome_109"@, 9);
    lemma_seq_neq_at("chrome_105"@, "chrome_114"@, 8);
    lemma_seq_neq_at("chrome_105"@, "chrome_116"@, 8);
    lemma_seq_neq_at("chrome_105"@, "chrome_117"@, 8);
    lemma_seq_neq_at("chrome_105"@, "chrome_118"@, 8);
    lemma_seq_neq_at("chrome_105"@, "chrome_119"@, 8);
    lemma_seq_neq_at("chrome_105"@, "chrome_120"@, 8);
    lemma_seq_neq_at("chrome_105"@, "chrome_123"@, 8);
    lemma_seq_neq_at("chrome_105"@, "chrome_124"@, 8);
    lemma_seq_neq_at("chrome_105"@, "chrome_126"@, 8);
    lemma_seq_neq_at("chrome_105"@, "okhttp_3.9"@, 0);
    lemma_seq_neq_at("chrome_105"@, "okhttp_4.9"@, 0);
    lemma_seq_neq_at("chrome_106"@, "chrome_107"@, 9);
    lemma_seq_neq_at("chrome_106"@, "chrome_108"@, 9);
    lemma_seq_neq_at("chrome_106"@, "chrome_109"@, 9);
    lemma_seq_neq_at("chrome_106"@, "chrome_114"@, 8);
    lemma_seq_neq_at("chrome_106"@, "chrome_116"@, 8);
    lemma_seq_neq_at("chrome_106"@, "chrome_117"@, 8);
    lemma_seq_neq_at("chrome_106"@, "chrome_118"@, 8);
    lemma_seq_neq_at("chrome_106"@, "chrome_119"@, 8);
    lemma_seq_neq_at("chrome_106"@, "chrome_120"@, 8);
    lemma_seq_neq_at("chrome_106"@, "chrome_123"@, 8);
    lemma_seq_neq_at("chrome_106"@, "chrome_124"@, 8);
    lemma_seq_neq_at("chrome_106"@, "chrome_126"@, 8);
    lemma_seq_neq_at("chrome_106"@, "okhttp_3.9"@, 0);
    lemma_seq_neq_at("chrome_106"@, "okhttp_4.9"@, 0);
    lemma_seq_neq_at("chrome_107"@, "chrome_108"@, 9);
    lemma_seq_neq_at("chrome_107"@, "chrome_109"@, 9);
    lemma_seq_neq_at("chrome_107"@, "chrome_114"@, 8);
    lemma_seq_neq_at("chrome_107"@, "chrome_116"@, 8);
    lemma_seq_neq_at("chrome_107"@, "chrome_117"@, 8);
    lemma_seq_neq_at("chrome_107"@, "chrome_118"@, 8);
    lemma_seq_neq_at("chrome_107"@, "chrome_119"@, 8);
    lemma_seq_neq_at("chrome_107"@, "chrome_120"@, 8);
    lemma_seq_neq_at("chrome_107"@, "chrome_123"@, 8);
    lemma_seq_neq_at("chrome_107"@, "chrome_124"@, 8);
    lemma_seq_neq_at("chrome_107"@, "chrome_126"@, 8);
    lemma_seq_neq_at("chrome_107"@, "okhttp_3.9"@, 0);
    lemma_seq_neq_at("chrome_107"@, "okhttp_4.9"@, 0);
    lemma_seq_neq_at("chrome_108"@, "chrome_109"@, 9);
    lemma_seq_neq_at("chrome_108"@, "chrome_114"@, 8);
    lemma_seq_neq_at("chrome_108"@, "chrome_116"@, 8);
    lemma_seq_neq_at("chrome_108"@, "chrome_117"@, 8);
    lemma_seq_neq_at("chrome_108"@, "chrome_118"@, 8);
    lemma_seq_neq_at("chrome_108"@, "chrome_119"@, 8);
    lemma_seq_neq_at("chrome_108"@, "chrome_120"@, 8);
    lemma_seq_neq_at("chrome_108"@, "chrome_123"@, 8);
    lemma_seq_neq_at("chrome_108"@, "chrome_124"@, 8);
    lemma_seq_neq_at("chrome_108"@, "chrome_126"@, 8);
    lemma_seq_neq_at("chrome_108"@, "okhttp_3.9"@, 0);
    lemma_seq_neq_at("chrome_108"@, "okhttp_4.9"@, 0);
    lemma_seq_neq_at("chrome_109"@, "chrome_114"@, 8);
    lemma_seq_neq_at("chrome_109"@, "chrome_116"@, 8);
    lemma_seq_neq_at("chrome_109"@, "chrome_117"@, 8);
    lemma_seq_neq_at("chrome_109"@, "chrome_118"@, 8);
    lemma_seq_neq_at("chrome_109"@, "chrome_119"@, 8);
    lemma_seq_neq_at("chrome_109"@, "chrome_120"@, 8);
    lemma_seq_neq_at("chrome_109"@, "chrome_123"@, 8);
    lemma_seq_neq_at("chrome_109"@, "chrome_124"@, 8);
    lemma_seq_neq_at("chrome_109"@, "chrome_126"@, 8);
    lemma_seq_neq_at("chrome_109"@, "okhttp_3.9"@, 0);
    lemma_seq_neq_at("chrome_109"@, "okhttp_4.9"@, 0);
    lemma_seq_neq_at("chrome_114"@, "chrome_116"@, 9);
    lemma_seq_neq_at("chrome_114"@, "chrome_117"@, 9);
    lemma_seq_neq_at("chrome_114"@, "chrome_118"@, 9);
    lemma_seq_neq_at("chrome_114"@, "chrome_119"@, 9);
    lemma_seq_neq_at("chrome_114"@, "chrome_120"@, 8);
    lemma_seq_neq_at("chrome_114"@, "chrome_123"@, 8);
    lemma_seq_neq_at("chrome_114"@, "chrome_124"@, 8);
    lemma_seq_neq_at("chrome_114"@, "chrome_126"@, 8);
    lemma_seq_neq_at("chrome_114"@, "okhttp_3.9"@, 0);
    lemma_seq_neq_at("chrome_114"@, "okhttp_4.9"@, 0);
    lemma_seq_neq_at("chrome_116"@, "chrome_117"@, 9);
    lemma_seq_neq_at("chrome_116"@, "chrome_118"@, 9);
    lemma_seq_neq_at("chrome_116"@, "chrome_119"@, 9);
    lemma_seq_neq_at("chrome_116"@, "chrome_120"@, 8);
    lemma_seq_neq_at("chrome_116"@, "chrome_123"@, 8);
    lemma_seq_neq_at("chrome_116"@, "chrome_124"@, 8);
    lemma_seq_neq_at("chrome_116"@, "chrome_126"@, 8);
    lemma_seq_neq_at("chrome_116"@, "okhttp_3.9"@, 0);
    lemma_seq_neq_at("chrome_116"@, "okhttp_4.9"@, 0);
    lemma_seq_neq_at("chrome_117"@, "chrome_118"@, 9);
    lemma_seq_neq_at("chrome_117"@, "chrome_119"@, 9);
    lemma_seq_neq_at("chrome_117"@, "chrome_120"@, 8);
    lemma_seq_neq_at("chrome_117"@, "chrome_123"@, 8);
    lemma_seq_neq_at("chrome_117"@, "chrome_124"@, 8);
    lemma_seq_neq_at("chrome_117"@, "chrome_126"@, 8);
    lemma_seq_neq_at("chrome_117"@, "okhttp_3.9"@, 0);
    lemma_seq_neq_at("chrome_117"@, "okhttp_4.9"@, 0);
    lemma_seq_neq_at("chrome_118"@, "chrome_119"@, 9);
    lemma_seq_neq_at("chrome_118"@, "chrome_120"@, 8);
    lemma_seq_neq_at("chrome_118"@, "chrome_123"@, 8);
    lemma_seq_neq_at("chrome_118"@, "chrome_124"@, 8);
    lemma_seq_neq_at("chrome_118"@, "chrome_126"@, 8);
    lemma_seq_neq_at("chrome_118"@, "okhttp_3.9"@, 0);
    lemma_seq_neq_at("chrome_118"@, "okhttp_4.9"@, 0);
    lemma_seq_neq_at("chrome_119"@, "chrome_120"@, 8);
    lemma_seq_neq_at("chrome_119"@, "chrome_123"@, 8);
    lemma_seq_neq_at("chrome_119"@, "chrome_124"@, 8);
    lemma_seq_neq_at("chrome_119"@, "chrome_126"@, 8);
    lemma_seq_neq_at("chrome_119"@, "okhttp_3.9"@, 0);
    lemma_seq_neq_at("chrome_119"@, "okhttp_4.9"@, 0);
    lemma_seq_neq_at("chrome_120"@, "chrome_123"@, 9);
    lemma_seq_neq_at("chrome_120"@, "chrome_124"@, 9);
    lemma_seq_neq_at("chrome_120"@, "chrome_126"@, 9);
    lemma_seq_neq_at("chrome_120"@, "okhttp_3.9"@, 0);
    lemma_seq_neq_at("chrome_120"@, "okhttp_4.9"@, 0);
    lemma_seq_neq_at("chrome_123"@, "chrome_124"@, 9);
    lemma_seq_neq_at("chrome_123"@, "chrome_126"@, 9);
    lemma_seq_neq_at("chrome_123"@, "okhttp_3.9"@, 0);
    lemma_seq_neq_at("chrome_123"@, "okhttp_4.9"@, 0);
    lemma_seq_neq_at("chrome_124"@, "chrome_126"@, 9);
    lemma_seq_neq_at("chrome_124"@, "okhttp_3.9"@, 0);
    lemma_seq_neq_at("chrome_124"@, "okhttp_4.9"@, 0);
    lemma_seq_neq_at("chrome_126"@, "okhttp_3.9"@, 0);
    lemma_seq_neq_at("chrome_126"@, "okhttp_4.9"@, 0);
    lemma_seq_neq_at("safari_ios_17.2"@, "safari_ios_16.5"@, 12);
    lemma_seq_neq_at("safari_15.3"@, "safari_15.5"@, 10);
    lemma_seq_neq_at("safari_15.3"@, "safari_16.5"@, 8);
    lemma_seq_neq_at("safari_15.3"@, "safari_17.5"@, 8);
    lemma_seq_neq_at("safari_15.3"@, "okhttp_3.11"@, 0);
    lemma_seq_neq_at("safari_15.3"@, "okhttp_3.13"@, 0);
    lemma_seq_neq_at("safari_15.3"@, "okhttp_3.14"@, 0);
    lemma_seq_neq_at("safari_15.3"@, "okhttp_4.10"@, 0);
    lemma_seq_neq_at("safari_15.5"@, "safari_16.5"@, 8);
    lemma_seq_neq_at("safari_15.5"@, "safari_17.5"@, 8);
    lemma_seq_neq_at("safari_15.5"@, "okhttp_3.11"@, 0);
    lemma_seq_neq_at("safari_15.5"@, "okhttp_3.13"@, 0);
    lemma_seq_neq_at("safari_15.5"@, "okhttp_3.14"@, 0);
    lemma_seq_neq_at("safari_15.5"@, "okhttp_4.10"@, 0);
    lemma_seq_neq_at("safari_15.6.1"@, "safari_17.2.1"@, 8);
    lemma_seq_neq_at("safari_15.6.1"@, "safari_17.4.1"@, 8);
    lemma_seq_neq_at("safari_16.5"@, "safari_17.5"@, 8);
    lemma_seq_neq_at("safari_16.5"@, "okhttp_3.11"@, 0);
    lemma_seq_neq_at("safari_16.5"@, "okhttp_3.13"@, 0);
    lemma_seq_neq_at("safari_16.5"@, "okhttp_3.14"@, 0);
    lemma_seq_neq_at("safari_16.5"@, "okhttp_4.10"@, 0);
    lemma_seq_neq_at("safari_17.2.1"@, "safari_17.4.1"@, 10);
    lemma_seq_neq_at("safari_17.5"@, "okhttp_3.11"@, 0);
    lemma_seq_neq_at("safari_17.5"@, "okhttp_3.13"@, 0);
    lemma_seq_neq_at("safari_17.5"@, "okhttp_3.14"@, 0);
    lemma_seq_neq_at("safari_17.5"@, "okhttp_4.10"@, 0);
    lemma_seq_neq_at("okhttp_3.9"@, "okhttp_4.9"@, 7);
    lemma_seq_neq_at("okhttp_3.11"@, "okhttp_3.13"@, 10);
    lemma_seq_neq_at("okhttp_3.11"@, "okhttp_3.14"@, 10);
    lemma_seq_neq_at("okhttp_3.11"@, "okhttp_4.10"@, 7);
    lemma_seq_neq_at("okhttp_3.13"@, "okhttp_3.14"@, 10);
    lemma_seq_neq_at("okhttp_3.13"@, "okhttp_4.10"@, 7);
    lemma_seq_neq_at("okhttp_3.14"@, "okhttp_4.10"@, 7);
    lemma_seq_neq_at("okhttp_5"@, "edge_101"@, 0);
    lemma_seq_neq_at("okhttp_5"@, "edge_122"@, 0);
    lemma_seq_neq_at("edge_101"@, "edge_122"@, 6);
    match id {
        Impersonate::Chrome100 => {
            assert(spec_parse(token_of(id)) == Some(id));
        },
        Impersonate::Chrome101 => {
            assert(spec_parse(token_of(id)) == Some(id));
        },
        Impersonate::Chrome104 => {
            assert(spec_parse(token_of(id)) == Some(id));
        },
        Impersonate::Chrome105 => {
            assert(spec_parse(token_of(id)) == Some(id));
        },
        Impersonate::Chrome106 => {
            assert(spec_parse(token_of(id)) == Some(id));
        },
        Impersonate::Chrome107 => {
            assert(spec_parse(token_of(id)) == Some(id));
        },
        Impersonate::Chrome108 => {
            assert(spec_parse(token_of(id)) == Some(id));
        },
        Impersonate::Chrome109 => {
            assert(spec_parse(token_of(id)) == Some(id));
        },
        Impersonate::Chrome114 => {
            assert(spec_parse(token_of(id)) == Some(id));
        },
        Impersonate::Chrome116 => {
            assert(spec_parse(token_of(id)) == Some(id));
        },
        Impersonate::Chrome117 => {
            assert(spec_parse(token_of(id)) == Some(id));
        },
        Impersonate::Chrome118 => {
            assert(spec_parse(token_of(id)) == Some(id));
        },
        Impersonate::Chrome119 => {
            assert(spec_parse(token_of(id)) == Some(id));
        },
        Impersonate::Chrome120 => {
            assert(spec_parse(token_of(id)) == Some(id));
        },
        Impersonate::Chrome123 => {
            assert(spec_parse(token_of(id)) == Some(id));
        },
        Impersonate::Chrome124 => {
            assert(spec_parse(token_of(id)) == Some(id));
        },
        Impersonate::Chrome126 => {
            assert(spec_parse(token_of(id)) == Some(id));
        },
        Impersonate::SafariIos17_2 => {
            assert(spec_parse(token_of(id)) == Some(id));
        },
        Impersonate::SafariIos17_4_1 => {
            assert(spec_parse(token_of(id)) == Some(id));
        },
        Impersonate::SafariIos16_5 => {
            assert(spec_parse(token_of(id)) == Some(id));
        },
        Impersonate::Safari15_3 => {
            assert(spec_parse(token_of(id)) == Some(id));
        },
        Impersonate::Safari15_5 => {
            assert(spec_parse(token_of(id)) == Some(id));
        },
        Impersonate::Safari15_6_1 => {
            assert(spec_parse(token_of(id)) == Some(id));
        },
        Impersonate::Safari16 => {
            assert(spec_parse(token_of(id)) == Some(id));
        },
        Impersonate::Safari16_5 => {
            assert(spec_parse(token_of(id)) == Some(id));
        },
        Impersonate::Safari17_2_1 => {
            assert(spec_parse(token_of(id)) == Some(id));
        },
        Impersonate::Safari17_4_1 => {
            assert(spec_parse(token_of(id)) == Some(id));
        },
        Impersonate::Safari17_5 => {
            assert(spec_parse(token_of(id)) == Some(id));
        },
        Impersonate::OkHttp3_9 => {
            assert(spec_parse(token_of(id)) == Some(id));
        },
        Impersonate::OkHttp3_11 => {
            assert(spec_parse(token_of(id)) == Some(id));
        },
        Impersonate::OkHttp3_13 => {
            assert(spec_parse(token_of(id)) == Some(id));
        },
        Impersonate::OkHttp3_14 => {
            assert(spec_parse(token_of(id)) == Some(id));
        },
        Impersonate::OkHttp4_9 => {
            assert(spec_parse(token_of(id)) == Some(id));
        },
        Impersonate::OkHttp4_10 => {
            assert(spec_parse(token_of(id)) == Some(id));
        },
        Impersonate::OkHttp5 => {
            assert(spec_parse(token_of(id)) == Some(id));
        },
        Impersonate::Edge99 => {
            assert(spec_parse(token_of(id)) == Some(id));
        },
        Impersonate::Edge101 => {
            assert(spec_parse(token_of(id)) == Some(id));
        },
        Impersonate::Edge122 => {
            assert(spec_parse(token_of(id)) == Some(id));
        },
    }
}

/// Law: a string accepted by the parser equals the canonical token of the
/// identity it selects (the other direction of the token bijection: no two
/// tokens select one identity).
pub proof fn lemma_parse_injective(s: Seq<char>, id: Impersonate)
    requires
        spec_parse(s) == Some(id),
    ensures
        s == token_of(id),
{
}

} // verus!

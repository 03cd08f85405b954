//! Laws of the catalog of known ACME certificate authorities: how a CA
//! name is normalized, and that every name, CAA domain and alias in the
//! catalog identifies its own CA.  The second is proved by working out the
//! normalized form of every catalog key and the first catalog entry it
//! matches.
use vstd::prelude::*;
use crate::cloudflare::{
    ca_matches, ca_name_chars, first_ca_match_from, is_ca_name_char, known_acme_ca_table,
    normalized_ca_name,
};
use crate::text::{
    ascii_lower, is_ascii_text, is_white_space, lemma_trim_end_at, lemma_trim_keeps_ascii,
    lemma_trim_start_at, trim,
};

verus! {

/// The ASCII letters, digits and dots of `s` after lowering `A`-`Z`.
pub open spec fn ca_key_chars(s: Seq<char>) -> Seq<char>
    decreases s.len(),
{
    if s.len() == 0 {
        seq![]
    } else if is_ca_name_char(ascii_lower(s.last())) {
        ca_key_chars(s.drop_last()).push(ascii_lower(s.last()))
    } else {
        ca_key_chars(s.drop_last())
    }
}

proof fn lemma_ca_key_chars(s: Seq<char>)
    ensures
        ca_name_chars(s.map_values(|c: char| ascii_lower(c))) == ca_key_chars(s),
    decreases s.len(),
{
    if s.len() > 0 {
        let m = s.map_values(|c: char| ascii_lower(c));
        assert(m.drop_last() =~= s.drop_last().map_values(|c: char| ascii_lower(c)));
        lemma_ca_key_chars(s.drop_last());
    }
}

/// On ASCII text, a CA name is compared without its outer white space, with
/// `A`-`Z` lowered and with everything but letters, digits and dots dropped.
pub proof fn lemma_ascii_ca_name_ignores_case_and_punctuation(v: Seq<char>)
    requires
        is_ascii_text(v),
    ensures
        normalized_ca_name(v) == ca_key_chars(trim(v)),
{
    lemma_trim_keeps_ascii(v);
    lemma_ca_key_chars(trim(v));
}

/// Every character of `s` is ASCII (checked from the end).
pub open spec fn ascii_from_end(s: Seq<char>) -> bool
    decreases s.len(),
{
    s.len() == 0 || ((s.last() as u32) < 128 && ascii_from_end(s.drop_last()))
}

proof fn lemma_ascii_from_end(s: Seq<char>)
    requires
        ascii_from_end(s),
    ensures
        is_ascii_text(s),
    decreases s.len(),
{
    if s.len() > 0 {
        lemma_ascii_from_end(s.drop_last());
        assert forall|i: int| 0 <= i < s.len() implies (#[trigger] s[i] as u32) < 128 by {
            if i < s.len() - 1 {
                assert(s[i] == s.drop_last()[i]);
            }
        }
    }
}

/// A catalog key without outer white space is normalized by its ASCII
/// letters, digits and dots, lowered.
proof fn lemma_key_normalized(k: Seq<char>)
    requires
        k.len() > 0,
        ascii_from_end(k),
        !is_white_space(k[0]),
        !is_white_space(k.last()),
    ensures
        normalized_ca_name(k) == ca_key_chars(k),
{
    lemma_ascii_from_end(k);
    lemma_trim_start_at(k, 0);
    assert(k.subrange(0, k.len() as int) =~= k);
    lemma_trim_end_at(k, k.len() as int);
    assert(trim(k) == k);
    lemma_ca_key_chars(k);
}

/// `k` is the name, the CAA domain or an alias of `ca`.
pub open spec fn is_catalog_key(ca: (Seq<char>, Seq<char>, Seq<Seq<char>>), k: Seq<char>) -> bool {
    k == ca.0 || k == ca.1 || ca.2.contains(k)
}

/// Every name, CAA domain and alias of a catalog entry identifies a CA with
/// that entry's CAA domain: the entry itself, or an earlier one that shares
/// its CAA domain.
pub proof fn lemma_catalog_keys_identify_their_ca(i: int, k: Seq<char>)
    requires
        0 <= i < known_acme_ca_table().len(),
        is_catalog_key(known_acme_ca_table()[i], k),
    ensures
        first_ca_match_from(known_acme_ca_table(), normalized_ca_name(k), 0) matches Some(j) && 0 <= j
            <= i && known_acme_ca_table()[j].1 == known_acme_ca_table()[i].1,
{
    if i == 0 {
        lemma_keys_identify_ca_0(k);
    } else if i == 1 {
        lemma_keys_identify_ca_1(k);
    } else if i == 2 {
        lemma_keys_identify_ca_2(k);
    } else if i == 3 {
        lemma_keys_identify_ca_3(k);
    } else if i == 4 {
        lemma_keys_identify_ca_4(k);
    } else if i == 5 {
        lemma_keys_identify_ca_5(k);
    } else if i == 6 {
        lemma_keys_identify_ca_6(k);
    } else {
        lemma_keys_identify_ca_7(k);
    }
}

// ----- The normalized form of every catalog key, entry by entry -----

proof fn lemma_ca_keys_normalized_0()
    ensures
        normalized_ca_name("Let's Encrypt"@) == "letsencrypt"@,
        normalized_ca_name("letsencrypt.org"@) == "letsencrypt.org"@,
        normalized_ca_name("lets encrypt"@) == "letsencrypt"@,
        normalized_ca_name("letsencrypt"@) == "letsencrypt"@,
        normalized_ca_name("let's encrypt"@) == "letsencrypt"@,
        normalized_ca_name("le"@) == "le"@,
{
    reveal_strlit("Let's Encrypt");
    reveal_strlit("letsencrypt");
    reveal_strlit("letsencrypt.org");
    reveal_strlit("lets encrypt");
    reveal_strlit("let's encrypt");
    reveal_strlit("le");
    reveal_with_fuel(ascii_from_end, 16);
    reveal_with_fuel(ca_key_chars, 16);
    assert(ca_key_chars("Let's Encrypt"@) =~= "letsencrypt"@);
    lemma_key_normalized("Let's Encrypt"@);
    assert(ca_key_chars("letsencrypt.org"@) =~= "letsencrypt.org"@);
    lemma_key_normalized("letsencrypt.org"@);
    assert(ca_key_chars("lets encrypt"@) =~= "letsencrypt"@);
    lemma_key_normalized("lets encrypt"@);
    assert(ca_key_chars("letsencrypt"@) =~= "letsencrypt"@);
    lemma_key_normalized("letsencrypt"@);
    assert(ca_key_chars("let's encrypt"@) =~= "letsencrypt"@);
    lemma_key_normalized("let's encrypt"@);
    assert(ca_key_chars("le"@) =~= "le"@);
    lemma_key_normalized("le"@);
}

proof fn lemma_ca_keys_normalized_1()
    ensures
        normalized_ca_name("Google Trust Services"@) == "googletrustservices"@,
        normalized_ca_name("pki.goog"@) == "pki.goog"@,
        normalized_ca_name("google"@) == "google"@,
        normalized_ca_name("google trust services"@) == "googletrustservices"@,
        normalized_ca_name("google public ca"@) == "googlepublicca"@,
        normalized_ca_name("gts"@) == "gts"@,
{
    reveal_strlit("Google Trust Services");
    reveal_strlit("googletrustservices");
    reveal_strlit("pki.goog");
    reveal_strlit("google");
    reveal_strlit("google trust services");
    reveal_strlit("google public ca");
    reveal_strlit("googlepublicca");
    reveal_strlit("gts");
    reveal_with_fuel(ascii_from_end, 22);
    reveal_with_fuel(ca_key_chars, 22);
    assert(ca_key_chars("Google Trust Services"@) =~= "googletrustservices"@);
    lemma_key_normalized("Google Trust Services"@);
    assert(ca_key_chars("pki.goog"@) =~= "pki.goog"@);
    lemma_key_normalized("pki.goog"@);
    assert(ca_key_chars("google"@) =~= "google"@);
    lemma_key_normalized("google"@);
    assert(ca_key_chars("google trust services"@) =~= "googletrustservices"@);
    lemma_key_normalized("google trust services"@);
    assert(ca_key_chars("google public ca"@) =~= "googlepublicca"@);
    lemma_key_normalized("google public ca"@);
    assert(ca_key_chars("gts"@) =~= "gts"@);
    lemma_key_normalized("gts"@);
}

proof fn lemma_ca_keys_normalized_2()
    ensures
        normalized_ca_name("Sectigo"@) == "sectigo"@,
        normalized_ca_name("sectigo.com"@) == "sectigo.com"@,
        normalized_ca_name("sectigo"@) == "sectigo"@,
        normalized_ca_name("comodo"@) == "comodo"@,
        normalized_ca_name("usertrust"@) == "usertrust"@,
        normalized_ca_name("trust-provider"@) == "trustprovider"@,
{
    reveal_strlit("Sectigo");
    reveal_strlit("sectigo");
    reveal_strlit("sectigo.com");
    reveal_strlit("comodo");
    reveal_strlit("usertrust");
    reveal_strlit("trust-provider");
    reveal_strlit("trustprovider");
    reveal_with_fuel(ascii_from_end, 15);
    reveal_with_fuel(ca_key_chars, 15);
    assert(ca_key_chars("Sectigo"@) =~= "sectigo"@);
    lemma_key_normalized("Sectigo"@);
    assert(ca_key_chars("sectigo.com"@) =~= "sectigo.com"@);
    lemma_key_normalized("sectigo.com"@);
    assert(ca_key_chars("sectigo"@) =~= "sectigo"@);
    lemma_key_normalized("sectigo"@);
    assert(ca_key_chars("comodo"@) =~= "comodo"@);
    lemma_key_normalized("comodo"@);
    assert(ca_key_chars("usertrust"@) =~= "usertrust"@);
    lemma_key_normalized("usertrust"@);
    assert(ca_key_chars("trust-provider"@) =~= "trustprovider"@);
    lemma_key_normalized("trust-provider"@);
}

proof fn lemma_ca_keys_normalized_3()
    ensures
        normalized_ca_name("ZeroSSL"@) == "zerossl"@,
        normalized_ca_name("sectigo.com"@) == "sectigo.com"@,
        normalized_ca_name("zerossl"@) == "zerossl"@,
        normalized_ca_name("zero ssl"@) == "zerossl"@,
{
    reveal_strlit("ZeroSSL");
    reveal_strlit("zerossl");
    reveal_strlit("sectigo.com");
    reveal_strlit("zero ssl");
    reveal_with_fuel(ascii_from_end, 12);
    reveal_with_fuel(ca_key_chars, 12);
    assert(ca_key_chars("ZeroSSL"@) =~= "zerossl"@);
    lemma_key_normalized("ZeroSSL"@);
    assert(ca_key_chars("sectigo.com"@) =~= "sectigo.com"@);
    lemma_key_normalized("sectigo.com"@);
    assert(ca_key_chars("zerossl"@) =~= "zerossl"@);
    lemma_key_normalized("zerossl"@);
    assert(ca_key_chars("zero ssl"@) =~= "zerossl"@);
    lemma_key_normalized("zero ssl"@);
}

proof fn lemma_ca_keys_normalized_4()
    ensures
        normalized_ca_name("DigiCert"@) == "digicert"@,
        normalized_ca_name("digicert.com"@) == "digicert.com"@,
        normalized_ca_name("digicert"@) == "digicert"@,
        normalized_ca_name("rapidssl"@) == "rapidssl"@,
        normalized_ca_name("geotrust"@) == "geotrust"@,
        normalized_ca_name("thawte"@) == "thawte"@,
{
    reveal_strlit("DigiCert");
    reveal_strlit("digicert");
    reveal_strlit("digicert.com");
    reveal_strlit("rapidssl");
    reveal_strlit("geotrust");
    reveal_strlit("thawte");
    reveal_with_fuel(ascii_from_end, 13);
    reveal_with_fuel(ca_key_chars, 13);
    assert(ca_key_chars("DigiCert"@) =~= "digicert"@);
    lemma_key_normalized("DigiCert"@);
    assert(ca_key_chars("digicert.com"@) =~= "digicert.com"@);
    lemma_key_normalized("digicert.com"@);
    assert(ca_key_chars("digicert"@) =~= "digicert"@);
    lemma_key_normalized("digicert"@);
    assert(ca_key_chars("rapidssl"@) =~= "rapidssl"@);
    lemma_key_normalized("rapidssl"@);
    assert(ca_key_chars("geotrust"@) =~= "geotrust"@);
    lemma_key_normalized("geotrust"@);
    assert(ca_key_chars("thawte"@) =~= "thawte"@);
    lemma_key_normalized("thawte"@);
}

proof fn lemma_ca_keys_normalized_5()
    ensures
        normalized_ca_name("GlobalSign"@) == "globalsign"@,
        normalized_ca_name("globalsign.com"@) == "globalsign.com"@,
        normalized_ca_name("globalsign"@) == "globalsign"@,
        normalized_ca_name("global sign"@) == "globalsign"@,
{
    reveal_strlit("GlobalSign");
    reveal_strlit("globalsign");
    reveal_strlit("globalsign.com");
    reveal_strlit("global sign");
    reveal_with_fuel(ascii_from_end, 15);
    reveal_with_fuel(ca_key_chars, 15);
    assert(ca_key_chars("GlobalSign"@) =~= "globalsign"@);
    lemma_key_normalized("GlobalSign"@);
    assert(ca_key_chars("globalsign.com"@) =~= "globalsign.com"@);
    lemma_key_normalized("globalsign.com"@);
    assert(ca_key_chars("globalsign"@) =~= "globalsign"@);
    lemma_key_normalized("globalsign"@);
    assert(ca_key_chars("global sign"@) =~= "globalsign"@);
    lemma_key_normalized("global sign"@);
}

proof fn lemma_ca_keys_normalized_6()
    ensures
        normalized_ca_name("SSL.com"@) == "ssl.com"@,
        normalized_ca_name("ssl.com"@) == "ssl.com"@,
        normalized_ca_name("sslcom"@) == "sslcom"@,
{
    reveal_strlit("SSL.com");
    reveal_strlit("ssl.com");
    reveal_strlit("sslcom");
    reveal_with_fuel(ascii_from_end, 8);
    reveal_with_fuel(ca_key_chars, 8);
    assert(ca_key_chars("SSL.com"@) =~= "ssl.com"@);
    lemma_key_normalized("SSL.com"@);
    assert(ca_key_chars("ssl.com"@) =~= "ssl.com"@);
    lemma_key_normalized("ssl.com"@);
    assert(ca_key_chars("sslcom"@) =~= "sslcom"@);
    lemma_key_normalized("sslcom"@);
}

proof fn lemma_ca_keys_normalized_7()
    ensures
        normalized_ca_name("Buypass"@) == "buypass"@,
        normalized_ca_name("buypass.com"@) == "buypass.com"@,
        normalized_ca_name("buypass"@) == "buypass"@,
        normalized_ca_name("buypass go ssl"@) == "buypassgossl"@,
{
    reveal_strlit("Buypass");
    reveal_strlit("buypass");
    reveal_strlit("buypass.com");
    reveal_strlit("buypass go ssl");
    reveal_strlit("buypassgossl");
    reveal_with_fuel(ascii_from_end, 15);
    reveal_with_fuel(ca_key_chars, 15);
    assert(ca_key_chars("Buypass"@) =~= "buypass"@);
    lemma_key_normalized("Buypass"@);
    assert(ca_key_chars("buypass.com"@) =~= "buypass.com"@);
    lemma_key_normalized("buypass.com"@);
    assert(ca_key_chars("buypass"@) =~= "buypass"@);
    lemma_key_normalized("buypass"@);
    assert(ca_key_chars("buypass go ssl"@) =~= "buypassgossl"@);
    lemma_key_normalized("buypass go ssl"@);
}

// ----- The first entry that each normalized key matches -----

proof fn lemma_first_match_letsencrypt()
    ensures
        first_ca_match_from(known_acme_ca_table(), "letsencrypt"@, 0) == Some(0int),
{
    lemma_ca_keys_normalized_0();
    reveal_strlit("le");
    reveal_strlit("letsencrypt");
    reveal_strlit("letsencrypt.org");
    let t = known_acme_ca_table();


    assert(ca_matches(t[0], "letsencrypt"@));
    reveal_with_fuel(first_ca_match_from, 2);
}

proof fn lemma_first_match_letsencrypt_dot_org()
    ensures
        first_ca_match_from(known_acme_ca_table(), "letsencrypt.org"@, 0) == Some(0int),
{
    lemma_ca_keys_normalized_0();
    reveal_strlit("le");
    reveal_strlit("letsencrypt");
    reveal_strlit("letsencrypt.org");
    let t = known_acme_ca_table();


    assert(ca_matches(t[0], "letsencrypt.org"@));
    reveal_with_fuel(first_ca_match_from, 2);
}

proof fn lemma_first_match_le()
    ensures
        first_ca_match_from(known_acme_ca_table(), "le"@, 0) == Some(0int),
{
    lemma_ca_keys_normalized_0();
    reveal_strlit("le");
    reveal_strlit("letsencrypt");
    reveal_strlit("letsencrypt.org");
    let t = known_acme_ca_table();

    assert(t[0].2[3] == "le"@);
    assert(normalized_ca_name(t[0].2[3]) == "le"@);

    assert(ca_matches(t[0], "le"@));
    reveal_with_fuel(first_ca_match_from, 2);
}

proof fn lemma_first_match_googletrustservices()
    ensures
        first_ca_match_from(known_acme_ca_table(), "googletrustservices"@, 0) == Some(1int),
{
    lemma_ca_keys_normalized_0();
    lemma_ca_keys_normalized_1();
    reveal_strlit("google");
    reveal_strlit("googlepublicca");
    reveal_strlit("googletrustservices");
    reveal_strlit("gts");
    reveal_strlit("le");
    reveal_strlit("letsencrypt");
    reveal_strlit("letsencrypt.org");
    reveal_strlit("pki.goog");
    let t = known_acme_ca_table();
    assert forall|x: int| 0 <= x < t[0].2.len() implies normalized_ca_name(#[trigger] t[0].2[x]) != "googletrustservices"@ by {
        if x == 0 {
            assert(t[0].2[0] == "lets encrypt"@); assert("letsencrypt"@.len() != "googletrustservices"@.len());
        } else if x == 1 {
            assert(t[0].2[1] == "letsencrypt"@); assert("letsencrypt"@.len() != "googletrustservices"@.len());
        } else if x == 2 {
            assert(t[0].2[2] == "let's encrypt"@); assert("letsencrypt"@.len() != "googletrustservices"@.len());
        } else if x == 3 {
            assert(t[0].2[3] == "le"@); assert("le"@.len() != "googletrustservices"@.len());
        }
    }
    assert(!ca_matches(t[0], "googletrustservices"@));

    assert(ca_matches(t[1], "googletrustservices"@));
    reveal_with_fuel(first_ca_match_from, 3);
}

proof fn lemma_first_match_pki_dot_goog()
    ensures
        first_ca_match_from(known_acme_ca_table(), "pki.goog"@, 0) == Some(1int),
{
    lemma_ca_keys_normalized_0();
    lemma_ca_keys_normalized_1();
    reveal_strlit("google");
    reveal_strlit("googlepublicca");
    reveal_strlit("googletrustservices");
    reveal_strlit("gts");
    reveal_strlit("le");
    reveal_strlit("letsencrypt");
    reveal_strlit("letsencrypt.org");
    reveal_strlit("pki.goog");
    let t = known_acme_ca_table();
    assert forall|x: int| 0 <= x < t[0].2.len() implies normalized_ca_name(#[trigger] t[0].2[x]) != "pki.goog"@ by {
        if x == 0 {
            assert(t[0].2[0] == "lets encrypt"@); assert("letsencrypt"@.len() != "pki.goog"@.len());
        } else if x == 1 {
            assert(t[0].2[1] == "letsencrypt"@); assert("letsencrypt"@.len() != "pki.goog"@.len());
        } else if x == 2 {
            assert(t[0].2[2] == "let's encrypt"@); assert("letsencrypt"@.len() != "pki.goog"@.len());
        } else if x == 3 {
            assert(t[0].2[3] == "le"@); assert("le"@.len() != "pki.goog"@.len());
        }
    }
    assert(!ca_matches(t[0], "pki.goog"@));

    assert(ca_matches(t[1], "pki.goog"@));
    reveal_with_fuel(first_ca_match_from, 3);
}

proof fn lemma_first_match_google()
    ensures
        first_ca_match_from(known_acme_ca_table(), "google"@, 0) == Some(1int),
{
    lemma_ca_keys_normalized_0();
    lemma_ca_keys_normalized_1();
    reveal_strlit("google");
    reveal_strlit("googlepublicca");
    reveal_strlit("googletrustservices");
    reveal_strlit("gts");
    reveal_strlit("le");
    reveal_strlit("letsencrypt");
    reveal_strlit("letsencrypt.org");
    reveal_strlit("pki.goog");
    let t = known_acme_ca_table();
    assert forall|x: int| 0 <= x < t[0].2.len() implies normalized_ca_name(#[trigger] t[0].2[x]) != "google"@ by {
        if x == 0 {
            assert(t[0].2[0] == "lets encrypt"@); assert("letsencrypt"@.len() != "google"@.len());
        } else if x == 1 {
            assert(t[0].2[1] == "letsencrypt"@); assert("letsencrypt"@.len() != "google"@.len());
        } else if x == 2 {
            assert(t[0].2[2] == "let's encrypt"@); assert("letsencrypt"@.len() != "google"@.len());
        } else if x == 3 {
            assert(t[0].2[3] == "le"@); assert("le"@.len() != "google"@.len());
        }
    }
    assert(!ca_matches(t[0], "google"@));
    assert(t[1].2[0] == "google"@);
    assert(normalized_ca_name(t[1].2[0]) == "google"@);

    assert(ca_matches(t[1], "google"@));
    reveal_with_fuel(first_ca_match_from, 3);
}

proof fn lemma_first_match_googlepublicca()
    ensures
        first_ca_match_from(known_acme_ca_table(), "googlepublicca"@, 0) == Some(1int),
{
    lemma_ca_keys_normalized_0();
    lemma_ca_keys_normalized_1();
    reveal_strlit("google");
    reveal_strlit("googlepublicca");
    reveal_strlit("googletrustservices");
    reveal_strlit("gts");
    reveal_strlit("le");
    reveal_strlit("letsencrypt");
    reveal_strlit("letsencrypt.org");
    reveal_strlit("pki.goog");
    let t = known_acme_ca_table();
    assert forall|x: int| 0 <= x < t[0].2.len() implies normalized_ca_name(#[trigger] t[0].2[x]) != "googlepublicca"@ by {
        if x == 0 {
            assert(t[0].2[0] == "lets encrypt"@); assert("letsencrypt"@.len() != "googlepublicca"@.len());
        } else if x == 1 {
            assert(t[0].2[1] == "letsencrypt"@); assert("letsencrypt"@.len() != "googlepublicca"@.len());
        } else if x == 2 {
            assert(t[0].2[2] == "let's encrypt"@); assert("letsencrypt"@.len() != "googlepublicca"@.len());
        } else if x == 3 {
            assert(t[0].2[3] == "le"@); assert("le"@.len() != "googlepublicca"@.len());
        }
    }
    assert(!ca_matches(t[0], "googlepublicca"@));
    assert(t[1].2[2] == "google public ca"@);
    assert(normalized_ca_name(t[1].2[2]) == "googlepublicca"@);

    assert(ca_matches(t[1], "googlepublicca"@));
    reveal_with_fuel(first_ca_match_from, 3);
}

proof fn lemma_first_match_gts()
    ensures
        first_ca_match_from(known_acme_ca_table(), "gts"@, 0) == Some(1int),
{
    lemma_ca_keys_normalized_0();
    lemma_ca_keys_normalized_1();
    reveal_strlit("google");
    reveal_strlit("googlepublicca");
    reveal_strlit("googletrustservices");
    reveal_strlit("gts");
    reveal_strlit("le");
    reveal_strlit("letsencrypt");
    reveal_strlit("letsencrypt.org");
    reveal_strlit("pki.goog");
    let t = known_acme_ca_table();
    assert forall|x: int| 0 <= x < t[0].2.len() implies normalized_ca_name(#[trigger] t[0].2[x]) != "gts"@ by {
        if x == 0 {
            assert(t[0].2[0] == "lets encrypt"@); assert("letsencrypt"@.len() != "gts"@.len());
        } else if x == 1 {
            assert(t[0].2[1] == "letsencrypt"@); assert("letsencrypt"@.len() != "gts"@.len());
        } else if x == 2 {
            assert(t[0].2[2] == "let's encrypt"@); assert("letsencrypt"@.len() != "gts"@.len());
        } else if x == 3 {
            assert(t[0].2[3] == "le"@); assert("le"@.len() != "gts"@.len());
        }
    }
    assert(!ca_matches(t[0], "gts"@));
    assert(t[1].2[3] == "gts"@);
    assert(normalized_ca_name(t[1].2[3]) == "gts"@);

    assert(ca_matches(t[1], "gts"@));
    reveal_with_fuel(first_ca_match_from, 3);
}

proof fn lemma_first_match_sectigo()
    ensures
        first_ca_match_from(known_acme_ca_table(), "sectigo"@, 0) == Some(2int),
{
    lemma_ca_keys_normalized_0();
    lemma_ca_keys_normalized_1();
    lemma_ca_keys_normalized_2();
    reveal_strlit("comodo");
    reveal_strlit("google");
    reveal_strlit("googlepublicca");
    reveal_strlit("googletrustservices");
    reveal_strlit("gts");
    reveal_strlit("le");
    reveal_strlit("letsencrypt");
    reveal_strlit("letsencrypt.org");
    reveal_strlit("pki.goog");
    reveal_strlit("sectigo");
    reveal_strlit("sectigo.com");
    reveal_strlit("trustprovider");
    reveal_strlit("usertrust");
    let t = known_acme_ca_table();
    assert forall|x: int| 0 <= x < t[0].2.len() implies normalized_ca_name(#[trigger] t[0].2[x]) != "sectigo"@ by {
        if x == 0 {
            assert(t[0].2[0] == "lets encrypt"@); assert("letsencrypt"@.len() != "sectigo"@.len());
        } else if x == 1 {
            assert(t[0].2[1] == "letsencrypt"@); assert("letsencrypt"@.len() != "sectigo"@.len());
        } else if x == 2 {
            assert(t[0].2[2] == "let's encrypt"@); assert("letsencrypt"@.len() != "sectigo"@.len());
        } else if x == 3 {
            assert(t[0].2[3] == "le"@); assert("le"@.len() != "sectigo"@.len());
        }
    }
    assert(!ca_matches(t[0], "sectigo"@));
    assert forall|x: int| 0 <= x < t[1].2.len() implies normalized_ca_name(#[trigger] t[1].2[x]) != "sectigo"@ by {
        if x == 0 {
            assert(t[1].2[0] == "google"@); assert("google"@.len() != "sectigo"@.len());
        } else if x == 1 {
            assert(t[1].2[1] == "google trust services"@); assert("googletrustservices"@.len() != "sectigo"@.len());
        } else if x == 2 {
            assert(t[1].2[2] == "google public ca"@); assert("googlepublicca"@.len() != "sectigo"@.len());
        } else if x == 3 {
            assert(t[1].2[3] == "gts"@); assert("gts"@.len() != "sectigo"@.len());
        } else if x == 4 {
            assert(t[1].2[4] == "pki.goog"@); assert("pki.goog"@.len() != "sectigo"@.len());
        }
    }
    assert(!ca_matches(t[1], "sectigo"@));

    assert(ca_matches(t[2], "sectigo"@));
    reveal_with_fuel(first_ca_match_from, 4);
}

proof fn lemma_first_match_sectigo_dot_com()
    ensures
        first_ca_match_from(known_acme_ca_table(), "sectigo.com"@, 0) == Some(2int),
{
    lemma_ca_keys_normalized_0();
    lemma_ca_keys_normalized_1();
    lemma_ca_keys_normalized_2();
    reveal_strlit("comodo");
    reveal_strlit("google");
    reveal_strlit("googlepublicca");
    reveal_strlit("googletrustservices");
    reveal_strlit("gts");
    reveal_strlit("le");
    reveal_strlit("letsencrypt");
    reveal_strlit("letsencrypt.org");
    reveal_strlit("pki.goog");
    reveal_strlit("sectigo");
    reveal_strlit("sectigo.com");
    reveal_strlit("trustprovider");
    reveal_strlit("usertrust");
    let t = known_acme_ca_table();
    assert forall|x: int| 0 <= x < t[0].2.len() implies normalized_ca_name(#[trigger] t[0].2[x]) != "sectigo.com"@ by {
        if x == 0 {
            assert(t[0].2[0] == "lets encrypt"@); assert("letsencrypt"@[0] != "sectigo.com"@[0]);
        } else if x == 1 {
            assert(t[0].2[1] == "letsencrypt"@); assert("letsencrypt"@[0] != "sectigo.com"@[0]);
        } else if x == 2 {
            assert(t[0].2[2] == "let's encrypt"@); assert("letsencrypt"@[0] != "sectigo.com"@[0]);
        } else if x == 3 {
            assert(t[0].2[3] == "le"@); assert("le"@.len() != "sectigo.com"@.len());
        }
    }
    assert(!ca_matches(t[0], "sectigo.com"@));
    assert forall|x: int| 0 <= x < t[1].2.len() implies normalized_ca_name(#[trigger] t[1].2[x]) != "sectigo.com"@ by {
        if x == 0 {
            assert(t[1].2[0] == "google"@); assert("google"@.len() != "sectigo.com"@.len());
        } else if x == 1 {
            assert(t[1].2[1] == "google trust services"@); assert("googletrustservices"@.len() != "sectigo.com"@.len());
        } else if x == 2 {
            assert(t[1].2[2] == "google public ca"@); assert("googlepublicca"@.len() != "sectigo.com"@.len());
        } else if x == 3 {
            assert(t[1].2[3] == "gts"@); assert("gts"@.len() != "sectigo.com"@.len());
        } else if x == 4 {
            assert(t[1].2[4] == "pki.goog"@); assert("pki.goog"@.len() != "sectigo.com"@.len());
        }
    }
    assert(!ca_matches(t[1], "sectigo.com"@));

    assert(ca_matches(t[2], "sectigo.com"@));
    reveal_with_fuel(first_ca_match_from, 4);
}

proof fn lemma_first_match_comodo()
    ensures
        first_ca_match_from(known_acme_ca_table(), "comodo"@, 0) == Some(2int),
{
    lemma_ca_keys_normalized_0();
    lemma_ca_keys_normalized_1();
    lemma_ca_keys_normalized_2();
    reveal_strlit("comodo");
    reveal_strlit("google");
    reveal_strlit("googlepublicca");
    reveal_strlit("googletrustservices");
    reveal_strlit("gts");
    reveal_strlit("le");
    reveal_strlit("letsencrypt");
    reveal_strlit("letsencrypt.org");
    reveal_strlit("pki.goog");
    reveal_strlit("sectigo");
    reveal_strlit("sectigo.com");
    reveal_strlit("trustprovider");
    reveal_strlit("usertrust");
    let t = known_acme_ca_table();
    assert forall|x: int| 0 <= x < t[0].2.len() implies normalized_ca_name(#[trigger] t[0].2[x]) != "comodo"@ by {
        if x == 0 {
            assert(t[0].2[0] == "lets encrypt"@); assert("letsencrypt"@.len() != "comodo"@.len());
        } else if x == 1 {
            assert(t[0].2[1] == "letsencrypt"@); assert("letsencrypt"@.len() != "comodo"@.len());
        } else if x == 2 {
            assert(t[0].2[2] == "let's encrypt"@); assert("letsencrypt"@.len() != "comodo"@.len());
        } else if x == 3 {
            assert(t[0].2[3] == "le"@); assert("le"@.len() != "comodo"@.len());
        }
    }
    assert(!ca_matches(t[0], "comodo"@));
    assert forall|x: int| 0 <= x < t[1].2.len() implies normalized_ca_name(#[trigger] t[1].2[x]) != "comodo"@ by {
        if x == 0 {
            assert(t[1].2[0] == "google"@); assert("google"@[0] != "comodo"@[0]);
        } else if x == 1 {
            assert(t[1].2[1] == "google trust services"@); assert("googletrustservices"@.len() != "comodo"@.len());
        } else if x == 2 {
            assert(t[1].2[2] == "google public ca"@); assert("googlepublicca"@.len() != "comodo"@.len());
        } else if x == 3 {
            assert(t[1].2[3] == "gts"@); assert("gts"@.len() != "comodo"@.len());
        } else if x == 4 {
            assert(t[1].2[4] == "pki.goog"@); assert("pki.goog"@.len() != "comodo"@.len());
        }
    }
    assert(!ca_matches(t[1], "comodo"@));
    assert(t[2].2[1] == "comodo"@);
    assert(normalized_ca_name(t[2].2[1]) == "comodo"@);

    assert(ca_matches(t[2], "comodo"@));
    reveal_with_fuel(first_ca_match_from, 4);
}

proof fn lemma_first_match_usertrust()
    ensures
        first_ca_match_from(known_acme_ca_table(), "usertrust"@, 0) == Some(2int),
{
    lemma_ca_keys_normalized_0();
    lemma_ca_keys_normalized_1();
    lemma_ca_keys_normalized_2();
    reveal_strlit("comodo");
    reveal_strlit("google");
    reveal_strlit("googlepublicca");
    reveal_strlit("googletrustservices");
    reveal_strlit("gts");
    reveal_strlit("le");
    reveal_strlit("letsencrypt");
    reveal_strlit("letsencrypt.org");
    reveal_strlit("pki.goog");
    reveal_strlit("sectigo");
    reveal_strlit("sectigo.com");
    reveal_strlit("trustprovider");
    reveal_strlit("usertrust");
    let t = known_acme_ca_table();
    assert forall|x: int| 0 <= x < t[0].2.len() implies normalized_ca_name(#[trigger] t[0].2[x]) != "usertrust"@ by {
        if x == 0 {
            assert(t[0].2[0] == "lets encrypt"@); assert("letsencrypt"@.len() != "usertrust"@.len());
        } else if x == 1 {
            assert(t[0].2[1] == "letsencrypt"@); assert("letsencrypt"@.len() != "usertrust"@.len());
        } else if x == 2 {
            assert(t[0].2[2] == "let's encrypt"@); assert("letsencrypt"@.len() != "usertrust"@.len());
        } else if x == 3 {
            assert(t[0].2[3] == "le"@); assert("le"@.len() != "usertrust"@.len());
        }
    }
    assert(!ca_matches(t[0], "usertrust"@));
    assert forall|x: int| 0 <= x < t[1].2.len() implies normalized_ca_name(#[trigger] t[1].2[x]) != "usertrust"@ by {
        if x == 0 {
            assert(t[1].2[0] == "google"@); assert("google"@.len() != "usertrust"@.len());
        } else if x == 1 {
            assert(t[1].2[1] == "google trust services"@); assert("googletrustservices"@.len() != "usertrust"@.len());
        } else if x == 2 {
            assert(t[1].2[2] == "google public ca"@); assert("googlepublicca"@.len() != "usertrust"@.len());
        } else if x == 3 {
            assert(t[1].2[3] == "gts"@); assert("gts"@.len() != "usertrust"@.len());
        } else if x == 4 {
            assert(t[1].2[4] == "pki.goog"@); assert("pki.goog"@.len() != "usertrust"@.len());
        }
    }
    assert(!ca_matches(t[1], "usertrust"@));
    assert(t[2].2[2] == "usertrust"@);
    assert(normalized_ca_name(t[2].2[2]) == "usertrust"@);

    assert(ca_matches(t[2], "usertrust"@));
    reveal_with_fuel(first_ca_match_from, 4);
}

proof fn lemma_first_match_trustprovider()
    ensures
        first_ca_match_from(known_acme_ca_table(), "trustprovider"@, 0) == Some(2int),
{
    lemma_ca_keys_normalized_0();
    lemma_ca_keys_normalized_1();
    lemma_ca_keys_normalized_2();
    reveal_strlit("comodo");
    reveal_strlit("google");
    reveal_strlit("googlepublicca");
    reveal_strlit("googletrustservices");
    reveal_strlit("gts");
    reveal_strlit("le");
    reveal_strlit("letsencrypt");
    reveal_strlit("letsencrypt.org");
    reveal_strlit("pki.goog");
    reveal_strlit("sectigo");
    reveal_strlit("sectigo.com");
    reveal_strlit("trustprovider");
    reveal_strlit("usertrust");
    let t = known_acme_ca_table();
    assert forall|x: int| 0 <= x < t[0].2.len() implies normalized_ca_name(#[trigger] t[0].2[x]) != "trustprovider"@ by {
        if x == 0 {
            assert(t[0].2[0] == "lets encrypt"@); assert("letsencrypt"@.len() != "trustprovider"@.len());
        } else if x == 1 {
            assert(t[0].2[1] == "letsencrypt"@); assert("letsencrypt"@.len() != "trustprovider"@.len());
        } else if x == 2 {
            assert(t[0].2[2] == "let's encrypt"@); assert("letsencrypt"@.len() != "trustprovider"@.len());
        } else if x == 3 {
            assert(t[0].2[3] == "le"@); assert("le"@.len() != "trustprovider"@.len());
        }
    }
    assert(!ca_matches(t[0], "trustprovider"@));
    assert forall|x: int| 0 <= x < t[1].2.len() implies normalized_ca_name(#[trigger] t[1].2[x]) != "trustprovider"@ by {
        if x == 0 {
            assert(t[1].2[0] == "google"@); assert("google"@.len() != "trustprovider"@.len());
        } else if x == 1 {
            assert(t[1].2[1] == "google trust services"@); assert("googletrustservices"@.len() != "trustprovider"@.len());
        } else if x == 2 {
            assert(t[1].2[2] == "google public ca"@); assert("googlepublicca"@.len() != "trustprovider"@.len());
        } else if x == 3 {
            assert(t[1].2[3] == "gts"@); assert("gts"@.len() != "trustprovider"@.len());
        } else if x == 4 {
            assert(t[1].2[4] == "pki.goog"@); assert("pki.goog"@.len() != "trustprovider"@.len());
        }
    }
    assert(!ca_matches(t[1], "trustprovider"@));
    assert(t[2].2[3] == "trust-provider"@);
    assert(normalized_ca_name(t[2].2[3]) == "trustprovider"@);

    assert(ca_matches(t[2], "trustprovider"@));
    reveal_with_fuel(first_ca_match_from, 4);
}

proof fn lemma_first_match_zerossl()
    ensures
        first_ca_match_from(known_acme_ca_table(), "zerossl"@, 0) == Some(3int),
{
    lemma_ca_keys_normalized_0();
    lemma_ca_keys_normalized_1();
    lemma_ca_keys_normalized_2();
    lemma_ca_keys_normalized_3();
    reveal_strlit("comodo");
    reveal_strlit("google");
    reveal_strlit("googlepublicca");
    reveal_strlit("googletrustservices");
    reveal_strlit("gts");
    reveal_strlit("le");
    reveal_strlit("letsencrypt");
    reveal_strlit("letsencrypt.org");
    reveal_strlit("pki.goog");
    reveal_strlit("sectigo");
    reveal_strlit("sectigo.com");
    reveal_strlit("trustprovider");
    reveal_strlit("usertrust");
    reveal_strlit("zerossl");
    let t = known_acme_ca_table();
    assert forall|x: int| 0 <= x < t[0].2.len() implies normalized_ca_name(#[trigger] t[0].2[x]) != "zerossl"@ by {
        if x == 0 {
            assert(t[0].2[0] == "lets encrypt"@); assert("letsencrypt"@.len() != "zerossl"@.len());
        } else if x == 1 {
            assert(t[0].2[1] == "letsencrypt"@); assert("letsencrypt"@.len() != "zerossl"@.len());
        } else if x == 2 {
            assert(t[0].2[2] == "let's encrypt"@); assert("letsencrypt"@.len() != "zerossl"@.len());
        } else if x == 3 {
            assert(t[0].2[3] == "le"@); assert("le"@.len() != "zerossl"@.len());
        }
    }
    assert(!ca_matches(t[0], "zerossl"@));
    assert forall|x: int| 0 <= x < t[1].2.len() implies normalized_ca_name(#[trigger] t[1].2[x]) != "zerossl"@ by {
        if x == 0 {
            assert(t[1].2[0] == "google"@); assert("google"@.len() != "zerossl"@.len());
        } else if x == 1 {
            assert(t[1].2[1] == "google trust services"@); assert("googletrustservices"@.len() != "zerossl"@.len());
        } else if x == 2 {
            assert(t[1].2[2] == "google public ca"@); assert("googlepublicca"@.len() != "zerossl"@.len());
        } else if x == 3 {
            assert(t[1].2[3] == "gts"@); assert("gts"@.len() != "zerossl"@.len());
        } else if x == 4 {
            assert(t[1].2[4] == "pki.goog"@); assert("pki.goog"@.len() != "zerossl"@.len());
        }
    }
    assert(!ca_matches(t[1], "zerossl"@));
    assert forall|x: int| 0 <= x < t[2].2.len() implies normalized_ca_name(#[trigger] t[2].2[x]) != "zerossl"@ by {
        if x == 0 {
            assert(t[2].2[0] == "sectigo"@); assert("sectigo"@[0] != "zerossl"@[0]);
        } else if x == 1 {
            assert(t[2].2[1] == "comodo"@); assert("comodo"@.len() != "zerossl"@.len());
        } else if x == 2 {
            assert(t[2].2[2] == "usertrust"@); assert("usertrust"@.len() != "zerossl"@.len());
        } else if x == 3 {
            assert(t[2].2[3] == "trust-provider"@); assert("trustprovider"@.len() != "zerossl"@.len());
        }
    }
    assert(!ca_matches(t[2], "zerossl"@));

    assert(ca_matches(t[3], "zerossl"@));
    reveal_with_fuel(first_ca_match_from, 5);
}

proof fn lemma_first_match_digicert()
    ensures
        first_ca_match_from(known_acme_ca_table(), "digicert"@, 0) == Some(4int),
{
    lemma_ca_keys_normalized_0();
    lemma_ca_keys_normalized_1();
    lemma_ca_keys_normalized_2();
    lemma_ca_keys_normalized_3();
    lemma_ca_keys_normalized_4();
    reveal_strlit("comodo");
    reveal_strlit("digicert");
    reveal_strlit("digicert.com");
    reveal_strlit("geotrust");
    reveal_strlit("google");
    reveal_strlit("googlepublicca");
    reveal_strlit("googletrustservices");
    reveal_strlit("gts");
    reveal_strlit("le");
    reveal_strlit("letsencrypt");
    reveal_strlit("letsencrypt.org");
    reveal_strlit("pki.goog");
    reveal_strlit("rapidssl");
    reveal_strlit("sectigo");
    reveal_strlit("sectigo.com");
    reveal_strlit("thawte");
    reveal_strlit("trustprovider");
    reveal_strlit("usertrust");
    reveal_strlit("zerossl");
    let t = known_acme_ca_table();
    assert forall|x: int| 0 <= x < t[0].2.len() implies normalized_ca_name(#[trigger] t[0].2[x]) != "digicert"@ by {
        if x == 0 {
            assert(t[0].2[0] == "lets encrypt"@); assert("letsencrypt"@.len() != "digicert"@.len());
        } else if x == 1 {
            assert(t[0].2[1] == "letsencrypt"@); assert("letsencrypt"@.len() != "digicert"@.len());
        } else if x == 2 {
            assert(t[0].2[2] == "let's encrypt"@); assert("letsencrypt"@.len() != "digicert"@.len());
        } else if x == 3 {
            assert(t[0].2[3] == "le"@); assert("le"@.len() != "digicert"@.len());
        }
    }
    assert(!ca_matches(t[0], "digicert"@));
    assert forall|x: int| 0 <= x < t[1].2.len() implies normalized_ca_name(#[trigger] t[1].2[x]) != "digicert"@ by {
        if x == 0 {
            assert(t[1].2[0] == "google"@); assert("google"@.len() != "digicert"@.len());
        } else if x == 1 {
            assert(t[1].2[1] == "google trust services"@); assert("googletrustservices"@.len() != "digicert"@.len());
        } else if x == 2 {
            assert(t[1].2[2] == "google public ca"@); assert("googlepublicca"@.len() != "digicert"@.len());
        } else if x == 3 {
            assert(t[1].2[3] == "gts"@); assert("gts"@.len() != "digicert"@.len());
        } else if x == 4 {
            assert(t[1].2[4] == "pki.goog"@); assert("pki.goog"@[0] != "digicert"@[0]);
        }
    }
    assert(!ca_matches(t[1], "digicert"@));
    assert forall|x: int| 0 <= x < t[2].2.len() implies normalized_ca_name(#[trigger] t[2].2[x]) != "digicert"@ by {
        if x == 0 {
            assert(t[2].2[0] == "sectigo"@); assert("sectigo"@.len() != "digicert"@.len());
        } else if x == 1 {
            assert(t[2].2[1] == "comodo"@); assert("comodo"@.len() != "digicert"@.len());
        } else if x == 2 {
            assert(t[2].2[2] == "usertrust"@); assert("usertrust"@.len() != "digicert"@.len());
        } else if x == 3 {
            assert(t[2].2[3] == "trust-provider"@); assert("trustprovider"@.len() != "digicert"@.len());
        }
    }
    assert(!ca_matches(t[2], "digicert"@));
    assert forall|x: int| 0 <= x < t[3].2.len() implies normalized_ca_name(#[trigger] t[3].2[x]) != "digicert"@ by {
        if x == 0 {
            assert(t[3].2[0] == "zerossl"@); assert("zerossl"@.len() != "digicert"@.len());
        } else if x == 1 {
            assert(t[3].2[1] == "zero ssl"@); assert("zerossl"@.len() != "digicert"@.len());
        }
    }
    assert(!ca_matches(t[3], "digicert"@));

    assert(ca_matches(t[4], "digicert"@));
    reveal_with_fuel(first_ca_match_from, 6);
}

proof fn lemma_first_match_digicert_dot_com()
    ensures
        first_ca_match_from(known_acme_ca_table(), "digicert.com"@, 0) == Some(4int),
{
    lemma_ca_keys_normalized_0();
    lemma_ca_keys_normalized_1();
    lemma_ca_keys_normalized_2();
    lemma_ca_keys_normalized_3();
    lemma_ca_keys_normalized_4();
    reveal_strlit("comodo");
    reveal_strlit("digicert");
    reveal_strlit("digicert.com");
    reveal_strlit("geotrust");
    reveal_strlit("google");
    reveal_strlit("googlepublicca");
    reveal_strlit("googletrustservices");
    reveal_strlit("gts");
    reveal_strlit("le");
    reveal_strlit("letsencrypt");
    reveal_strlit("letsencrypt.org");
    reveal_strlit("pki.goog");
    reveal_strlit("rapidssl");
    reveal_strlit("sectigo");
    reveal_strlit("sectigo.com");
    reveal_strlit("thawte");
    reveal_strlit("trustprovider");
    reveal_strlit("usertrust");
    reveal_strlit("zerossl");
    let t = known_acme_ca_table();
    assert forall|x: int| 0 <= x < t[0].2.len() implies normalized_ca_name(#[trigger] t[0].2[x]) != "digicert.com"@ by {
        if x == 0 {
            assert(t[0].2[0] == "lets encrypt"@); assert("letsencrypt"@.len() != "digicert.com"@.len());
        } else if x == 1 {
            assert(t[0].2[1] == "letsencrypt"@); assert("letsencrypt"@.len() != "digicert.com"@.len());
        } else if x == 2 {
            assert(t[0].2[2] == "let's encrypt"@); assert("letsencrypt"@.len() != "digicert.com"@.len());
        } else if x == 3 {
            assert(t[0].2[3] == "le"@); assert("le"@.len() != "digicert.com"@.len());
        }
    }
    assert(!ca_matches(t[0], "digicert.com"@));
    assert forall|x: int| 0 <= x < t[1].2.len() implies normalized_ca_name(#[trigger] t[1].2[x]) != "digicert.com"@ by {
        if x == 0 {
            assert(t[1].2[0] == "google"@); assert("google"@.len() != "digicert.com"@.len());
        } else if x == 1 {
            assert(t[1].2[1] == "google trust services"@); assert("googletrustservices"@.len() != "digicert.com"@.len());
        } else if x == 2 {
            assert(t[1].2[2] == "google public ca"@); assert("googlepublicca"@.len() != "digicert.com"@.len());
        } else if x == 3 {
            assert(t[1].2[3] == "gts"@); assert("gts"@.len() != "digicert.com"@.len());
        } else if x == 4 {
            assert(t[1].2[4] == "pki.goog"@); assert("pki.goog"@.len() != "digicert.com"@.len());
        }
    }
    assert(!ca_matches(t[1], "digicert.com"@));
    assert forall|x: int| 0 <= x < t[2].2.len() implies normalized_ca_name(#[trigger] t[2].2[x]) != "digicert.com"@ by {
        if x == 0 {
            assert(t[2].2[0] == "sectigo"@); assert("sectigo"@.len() != "digicert.com"@.len());
        } else if x == 1 {
            assert(t[2].2[1] == "comodo"@); assert("comodo"@.len() != "digicert.com"@.len());
        } else if x == 2 {
            assert(t[2].2[2] == "usertrust"@); assert("usertrust"@.len() != "digicert.com"@.len());
        } else if x == 3 {
            assert(t[2].2[3] == "trust-provider"@); assert("trustprovider"@.len() != "digicert.com"@.len());
        }
    }
    assert(!ca_matches(t[2], "digicert.com"@));
    assert forall|x: int| 0 <= x < t[3].2.len() implies normalized_ca_name(#[trigger] t[3].2[x]) != "digicert.com"@ by {
        if x == 0 {
            assert(t[3].2[0] == "zerossl"@); assert("zerossl"@.len() != "digicert.com"@.len());
        } else if x == 1 {
            assert(t[3].2[1] == "zero ssl"@); assert("zerossl"@.len() != "digicert.com"@.len());
        }
    }
    assert(!ca_matches(t[3], "digicert.com"@));

    assert(ca_matches(t[4], "digicert.com"@));
    reveal_with_fuel(first_ca_match_from, 6);
}

proof fn lemma_first_match_rapidssl()
    ensures
        first_ca_match_from(known_acme_ca_table(), "rapidssl"@, 0) == Some(4int),
{
    lemma_ca_keys_normalized_0();
    lemma_ca_keys_normalized_1();
    lemma_ca_keys_normalized_2();
    lemma_ca_keys_normalized_3();
    lemma_ca_keys_normalized_4();
    reveal_strlit("comodo");
    reveal_strlit("digicert");
    reveal_strlit("digicert.com");
    reveal_strlit("geotrust");
    reveal_strlit("google");
    reveal_strlit("googlepublicca");
    reveal_strlit("googletrustservices");
    reveal_strlit("gts");
    reveal_strlit("le");
    reveal_strlit("letsencrypt");
    reveal_strlit("letsencrypt.org");
    reveal_strlit("pki.goog");
    reveal_strlit("rapidssl");
    reveal_strlit("sectigo");
    reveal_strlit("sectigo.com");
    reveal_strlit("thawte");
    reveal_strlit("trustprovider");
    reveal_strlit("usertrust");
    reveal_strlit("zerossl");
    let t = known_acme_ca_table();
    assert forall|x: int| 0 <= x < t[0].2.len() implies normalized_ca_name(#[trigger] t[0].2[x]) != "rapidssl"@ by {
        if x == 0 {
            assert(t[0].2[0] == "lets encrypt"@); assert("letsencrypt"@.len() != "rapidssl"@.len());
        } else if x == 1 {
            assert(t[0].2[1] == "letsencrypt"@); assert("letsencrypt"@.len() != "rapidssl"@.len());
        } else if x == 2 {
            assert(t[0].2[2] == "let's encrypt"@); assert("letsencrypt"@.len() != "rapidssl"@.len());
        } else if x == 3 {
            assert(t[0].2[3] == "le"@); assert("le"@.len() != "rapidssl"@.len());
        }
    }
    assert(!ca_matches(t[0], "rapidssl"@));
    assert forall|x: int| 0 <= x < t[1].2.len() implies normalized_ca_name(#[trigger] t[1].2[x]) != "rapidssl"@ by {
        if x == 0 {
            assert(t[1].2[0] == "google"@); assert("google"@.len() != "rapidssl"@.len());
        } else if x == 1 {
            assert(t[1].2[1] == "google trust services"@); assert("googletrustservices"@.len() != "rapidssl"@.len());
        } else if x == 2 {
            assert(t[1].2[2] == "google public ca"@); assert("googlepublicca"@.len() != "rapidssl"@.len());
        } else if x == 3 {
            assert(t[1].2[3] == "gts"@); assert("gts"@.len() != "rapidssl"@.len());
        } else if x == 4 {
            assert(t[1].2[4] == "pki.goog"@); assert("pki.goog"@[0] != "rapidssl"@[0]);
        }
    }
    assert(!ca_matches(t[1], "rapidssl"@));
    assert forall|x: int| 0 <= x < t[2].2.len() implies normalized_ca_name(#[trigger] t[2].2[x]) != "rapidssl"@ by {
        if x == 0 {
            assert(t[2].2[0] == "sectigo"@); assert("sectigo"@.len() != "rapidssl"@.len());
        } else if x == 1 {
            assert(t[2].2[1] == "comodo"@); assert("comodo"@.len() != "rapidssl"@.len());
        } else if x == 2 {
            assert(t[2].2[2] == "usertrust"@); assert("usertrust"@.len() != "rapidssl"@.len());
        } else if x == 3 {
            assert(t[2].2[3] == "trust-provider"@); assert("trustprovider"@.len() != "rapidssl"@.len());
        }
    }
    assert(!ca_matches(t[2], "rapidssl"@));
    assert forall|x: int| 0 <= x < t[3].2.len() implies normalized_ca_name(#[trigger] t[3].2[x]) != "rapidssl"@ by {
        if x == 0 {
            assert(t[3].2[0] == "zerossl"@); assert("zerossl"@.len() != "rapidssl"@.len());
        } else if x == 1 {
            assert(t[3].2[1] == "zero ssl"@); assert("zerossl"@.len() != "rapidssl"@.len());
        }
    }
    assert(!ca_matches(t[3], "rapidssl"@));
    assert(t[4].2[1] == "rapidssl"@);
    assert(normalized_ca_name(t[4].2[1]) == "rapidssl"@);

    assert(ca_matches(t[4], "rapidssl"@));
    reveal_with_fuel(first_ca_match_from, 6);
}

proof fn lemma_first_match_geotrust()
    ensures
        first_ca_match_from(known_acme_ca_table(), "geotrust"@, 0) == Some(4int),
{
    lemma_ca_keys_normalized_0();
    lemma_ca_keys_normalized_1();
    lemma_ca_keys_normalized_2();
    lemma_ca_keys_normalized_3();
    lemma_ca_keys_normalized_4();
    reveal_strlit("comodo");
    reveal_strlit("digicert");
    reveal_strlit("digicert.com");
    reveal_strlit("geotrust");
    reveal_strlit("google");
    reveal_strlit("googlepublicca");
    reveal_strlit("googletrustservices");
    reveal_strlit("gts");
    reveal_strlit("le");
    reveal_strlit("letsencrypt");
    reveal_strlit("letsencrypt.org");
    reveal_strlit("pki.goog");
    reveal_strlit("rapidssl");
    reveal_strlit("sectigo");
    reveal_strlit("sectigo.com");
    reveal_strlit("thawte");
    reveal_strlit("trustprovider");
    reveal_strlit("usertrust");
    reveal_strlit("zerossl");
    let t = known_acme_ca_table();
    assert forall|x: int| 0 <= x < t[0].2.len() implies normalized_ca_name(#[trigger] t[0].2[x]) != "geotrust"@ by {
        if x == 0 {
            assert(t[0].2[0] == "lets encrypt"@); assert("letsencrypt"@.len() != "geotrust"@.len());
        } else if x == 1 {
            assert(t[0].2[1] == "letsencrypt"@); assert("letsencrypt"@.len() != "geotrust"@.len());
        } else if x == 2 {
            assert(t[0].2[2] == "let's encrypt"@); assert("letsencrypt"@.len() != "geotrust"@.len());
        } else if x == 3 {
            assert(t[0].2[3] == "le"@); assert("le"@.len() != "geotrust"@.len());
        }
    }
    assert(!ca_matches(t[0], "geotrust"@));
    assert forall|x: int| 0 <= x < t[1].2.len() implies normalized_ca_name(#[trigger] t[1].2[x]) != "geotrust"@ by {
        if x == 0 {
            assert(t[1].2[0] == "google"@); assert("google"@.len() != "geotrust"@.len());
        } else if x == 1 {
            assert(t[1].2[1] == "google trust services"@); assert("googletrustservices"@.len() != "geotrust"@.len());
        } else if x == 2 {
            assert(t[1].2[2] == "google public ca"@); assert("googlepublicca"@.len() != "geotrust"@.len());
        } else if x == 3 {
            assert(t[1].2[3] == "gts"@); assert("gts"@.len() != "geotrust"@.len());
        } else if x == 4 {
            assert(t[1].2[4] == "pki.goog"@); assert("pki.goog"@[0] != "geotrust"@[0]);
        }
    }
    assert(!ca_matches(t[1], "geotrust"@));
    assert forall|x: int| 0 <= x < t[2].2.len() implies normalized_ca_name(#[trigger] t[2].2[x]) != "geotrust"@ by {
        if x == 0 {
            assert(t[2].2[0] == "sectigo"@); assert("sectigo"@.len() != "geotrust"@.len());
        } else if x == 1 {
            assert(t[2].2[1] == "comodo"@); assert("comodo"@.len() != "geotrust"@.len());
        } else if x == 2 {
            assert(t[2].2[2] == "usertrust"@); assert("usertrust"@.len() != "geotrust"@.len());
        } else if x == 3 {
            assert(t[2].2[3] == "trust-provider"@); assert("trustprovider"@.len() != "geotrust"@.len());
        }
    }
    assert(!ca_matches(t[2], "geotrust"@));
    assert forall|x: int| 0 <= x < t[3].2.len() implies normalized_ca_name(#[trigger] t[3].2[x]) != "geotrust"@ by {
        if x == 0 {
            assert(t[3].2[0] == "zerossl"@); assert("zerossl"@.len() != "geotrust"@.len());
        } else if x == 1 {
            assert(t[3].2[1] == "zero ssl"@); assert("zerossl"@.len() != "geotrust"@.len());
        }
    }
    assert(!ca_matches(t[3], "geotrust"@));
    assert(t[4].2[2] == "geotrust"@);
    assert(normalized_ca_name(t[4].2[2]) == "geotrust"@);

    assert(ca_matches(t[4], "geotrust"@));
    reveal_with_fuel(first_ca_match_from, 6);
}

proof fn lemma_first_match_thawte()
    ensures
        first_ca_match_from(known_acme_ca_table(), "thawte"@, 0) == Some(4int),
{
    lemma_ca_keys_normalized_0();
    lemma_ca_keys_normalized_1();
    lemma_ca_keys_normalized_2();
    lemma_ca_keys_normalized_3();
    lemma_ca_keys_normalized_4();
    reveal_strlit("comodo");
    reveal_strlit("digicert");
    reveal_strlit("digicert.com");
    reveal_strlit("geotrust");
    reveal_strlit("google");
    reveal_strlit("googlepublicca");
    reveal_strlit("googletrustservices");
    reveal_strlit("gts");
    reveal_strlit("le");
    reveal_strlit("letsencrypt");
    reveal_strlit("letsencrypt.org");
    reveal_strlit("pki.goog");
    reveal_strlit("rapidssl");
    reveal_strlit("sectigo");
    reveal_strlit("sectigo.com");
    reveal_strlit("thawte");
    reveal_strlit("trustprovider");
    reveal_strlit("usertrust");
    reveal_strlit("zerossl");
    let t = known_acme_ca_table();
    assert forall|x: int| 0 <= x < t[0].2.len() implies normalized_ca_name(#[trigger] t[0].2[x]) != "thawte"@ by {
        if x == 0 {
            assert(t[0].2[0] == "lets encrypt"@); assert("letsencrypt"@.len() != "thawte"@.len());
        } else if x == 1 {
            assert(t[0].2[1] == "letsencrypt"@); assert("letsencrypt"@.len() != "thawte"@.len());
        } else if x == 2 {
            assert(t[0].2[2] == "let's encrypt"@); assert("letsencrypt"@.len() != "thawte"@.len());
        } else if x == 3 {
            assert(t[0].2[3] == "le"@); assert("le"@.len() != "thawte"@.len());
        }
    }
    assert(!ca_matches(t[0], "thawte"@));
    assert forall|x: int| 0 <= x < t[1].2.len() implies normalized_ca_name(#[trigger] t[1].2[x]) != "thawte"@ by {
        if x == 0 {
            assert(t[1].2[0] == "google"@); assert("google"@[0] != "thawte"@[0]);
        } else if x == 1 {
            assert(t[1].2[1] == "google trust services"@); assert("googletrustservices"@.len() != "thawte"@.len());
        } else if x == 2 {
            assert(t[1].2[2] == "google public ca"@); assert("googlepublicca"@.len() != "thawte"@.len());
        } else if x == 3 {
            assert(t[1].2[3] == "gts"@); assert("gts"@.len() != "thawte"@.len());
        } else if x == 4 {
            assert(t[1].2[4] == "pki.goog"@); assert("pki.goog"@.len() != "thawte"@.len());
        }
    }
    assert(!ca_matches(t[1], "thawte"@));
    assert forall|x: int| 0 <= x < t[2].2.len() implies normalized_ca_name(#[trigger] t[2].2[x]) != "thawte"@ by {
        if x == 0 {
            assert(t[2].2[0] == "sectigo"@); assert("sectigo"@.len() != "thawte"@.len());
        } else if x == 1 {
            assert(t[2].2[1] == "comodo"@); assert("comodo"@[0] != "thawte"@[0]);
        } else if x == 2 {
            assert(t[2].2[2] == "usertrust"@); assert("usertrust"@.len() != "thawte"@.len());
        } else if x == 3 {
            assert(t[2].2[3] == "trust-provider"@); assert("trustprovider"@.len() != "thawte"@.len());
        }
    }
    assert(!ca_matches(t[2], "thawte"@));
    assert forall|x: int| 0 <= x < t[3].2.len() implies normalized_ca_name(#[trigger] t[3].2[x]) != "thawte"@ by {
        if x == 0 {
            assert(t[3].2[0] == "zerossl"@); assert("zerossl"@.len() != "thawte"@.len());
        } else if x == 1 {
            assert(t[3].2[1] == "zero ssl"@); assert("zerossl"@.len() != "thawte"@.len());
        }
    }
    assert(!ca_matches(t[3], "thawte"@));
    assert(t[4].2[3] == "thawte"@);
    assert(normalized_ca_name(t[4].2[3]) == "thawte"@);

    assert(ca_matches(t[4], "thawte"@));
    reveal_with_fuel(first_ca_match_from, 6);
}

proof fn lemma_first_match_globalsign()
    ensures
        first_ca_match_from(known_acme_ca_table(), "globalsign"@, 0) == Some(5int),
{
    lemma_ca_keys_normalized_0();
    lemma_ca_keys_normalized_1();
    lemma_ca_keys_normalized_2();
    lemma_ca_keys_normalized_3();
    lemma_ca_keys_normalized_4();
    lemma_ca_keys_normalized_5();
    reveal_strlit("comodo");
    reveal_strlit("digicert");
    reveal_strlit("digicert.com");
    reveal_strlit("geotrust");
    reveal_strlit("globalsign");
    reveal_strlit("globalsign.com");
    reveal_strlit("google");
    reveal_strlit("googlepublicca");
    reveal_strlit("googletrustservices");
    reveal_strlit("gts");
    reveal_strlit("le");
    reveal_strlit("letsencrypt");
    reveal_strlit("letsencrypt.org");
    reveal_strlit("pki.goog");
    reveal_strlit("rapidssl");
    reveal_strlit("sectigo");
    reveal_strlit("sectigo.com");
    reveal_strlit("thawte");
    reveal_strlit("trustprovider");
    reveal_strlit("usertrust");
    reveal_strlit("zerossl");
    let t = known_acme_ca_table();
    assert forall|x: int| 0 <= x < t[0].2.len() implies normalized_ca_name(#[trigger] t[0].2[x]) != "globalsign"@ by {
        if x == 0 {
            assert(t[0].2[0] == "lets encrypt"@); assert("letsencrypt"@.len() != "globalsign"@.len());
        } else if x == 1 {
            assert(t[0].2[1] == "letsencrypt"@); assert("letsencrypt"@.len() != "globalsign"@.len());
        } else if x == 2 {
            assert(t[0].2[2] == "let's encrypt"@); assert("letsencrypt"@.len() != "globalsign"@.len());
        } else if x == 3 {
            assert(t[0].2[3] == "le"@); assert("le"@.len() != "globalsign"@.len());
        }
    }
    assert(!ca_matches(t[0], "globalsign"@));
    assert forall|x: int| 0 <= x < t[1].2.len() implies normalized_ca_name(#[trigger] t[1].2[x]) != "globalsign"@ by {
        if x == 0 {
            assert(t[1].2[0] == "google"@); assert("google"@.len() != "globalsign"@.len());
        } else if x == 1 {
            assert(t[1].2[1] == "google trust services"@); assert("googletrustservices"@.len() != "globalsign"@.len());
        } else if x == 2 {
            assert(t[1].2[2] == "google public ca"@); assert("googlepublicca"@.len() != "globalsign"@.len());
        } else if x == 3 {
            assert(t[1].2[3] == "gts"@); assert("gts"@.len() != "globalsign"@.len());
        } else if x == 4 {
            assert(t[1].2[4] == "pki.goog"@); assert("pki.goog"@.len() != "globalsign"@.len());
        }
    }
    assert(!ca_matches(t[1], "globalsign"@));
    assert forall|x: int| 0 <= x < t[2].2.len() implies normalized_ca_name(#[trigger] t[2].2[x]) != "globalsign"@ by {
        if x == 0 {
            assert(t[2].2[0] == "sectigo"@); assert("sectigo"@.len() != "globalsign"@.len());
        } else if x == 1 {
            assert(t[2].2[1] == "comodo"@); assert("comodo"@.len() != "globalsign"@.len());
        } else if x == 2 {
            assert(t[2].2[2] == "usertrust"@); assert("usertrust"@.len() != "globalsign"@.len());
        } else if x == 3 {
            assert(t[2].2[3] == "trust-provider"@); assert("trustprovider"@.len() != "globalsign"@.len());
        }
    }
    assert(!ca_matches(t[2], "globalsign"@));
    assert forall|x: int| 0 <= x < t[3].2.len() implies normalized_ca_name(#[trigger] t[3].2[x]) != "globalsign"@ by {
        if x == 0 {
            assert(t[3].2[0] == "zerossl"@); assert("zerossl"@.len() != "globalsign"@.len());
        } else if x == 1 {
            assert(t[3].2[1] == "zero ssl"@); assert("zerossl"@.len() != "globalsign"@.len());
        }
    }
    assert(!ca_matches(t[3], "globalsign"@));
    assert forall|x: int| 0 <= x < t[4].2.len() implies normalized_ca_name(#[trigger] t[4].2[x]) != "globalsign"@ by {
        if x == 0 {
            assert(t[4].2[0] == "digicert"@); assert("digicert"@.len() != "globalsign"@.len());
        } else if x == 1 {
            assert(t[4].2[1] == "rapidssl"@); assert("rapidssl"@.len() != "globalsign"@.len());
        } else if x == 2 {
            assert(t[4].2[2] == "geotrust"@); assert("geotrust"@.len() != "globalsign"@.len());
        } else if x == 3 {
            assert(t[4].2[3] == "thawte"@); assert("thawte"@.len() != "globalsign"@.len());
        }
    }
    assert(!ca_matches(t[4], "globalsign"@));

    assert(ca_matches(t[5], "globalsign"@));
    reveal_with_fuel(first_ca_match_from, 7);
}

proof fn lemma_first_match_globalsign_dot_com()
    ensures
        first_ca_match_from(known_acme_ca_table(), "globalsign.com"@, 0) == Some(5int),
{
    lemma_ca_keys_normalized_0();
    lemma_ca_keys_normalized_1();
    lemma_ca_keys_normalized_2();
    lemma_ca_keys_normalized_3();
    lemma_ca_keys_normalized_4();
    lemma_ca_keys_normalized_5();
    reveal_strlit("comodo");
    reveal_strlit("digicert");
    reveal_strlit("digicert.com");
    reveal_strlit("geotrust");
    reveal_strlit("globalsign");
    reveal_strlit("globalsign.com");
    reveal_strlit("google");
    reveal_strlit("googlepublicca");
    reveal_strlit("googletrustservices");
    reveal_strlit("gts");
    reveal_strlit("le");
    reveal_strlit("letsencrypt");
    reveal_strlit("letsencrypt.org");
    reveal_strlit("pki.goog");
    reveal_strlit("rapidssl");
    reveal_strlit("sectigo");
    reveal_strlit("sectigo.com");
    reveal_strlit("thawte");
    reveal_strlit("trustprovider");
    reveal_strlit("usertrust");
    reveal_strlit("zerossl");
    let t = known_acme_ca_table();
    assert forall|x: int| 0 <= x < t[0].2.len() implies normalized_ca_name(#[trigger] t[0].2[x]) != "globalsign.com"@ by {
        if x == 0 {
            assert(t[0].2[0] == "lets encrypt"@); assert("letsencrypt"@.len() != "globalsign.com"@.len());
        } else if x == 1 {
            assert(t[0].2[1] == "letsencrypt"@); assert("letsencrypt"@.len() != "globalsign.com"@.len());
        } else if x == 2 {
            assert(t[0].2[2] == "let's encrypt"@); assert("letsencrypt"@.len() != "globalsign.com"@.len());
        } else if x == 3 {
            assert(t[0].2[3] == "le"@); assert("le"@.len() != "globalsign.com"@.len());
        }
    }
    assert(!ca_matches(t[0], "globalsign.com"@));
    assert forall|x: int| 0 <= x < t[1].2.len() implies normalized_ca_name(#[trigger] t[1].2[x]) != "globalsign.com"@ by {
        if x == 0 {
            assert(t[1].2[0] == "google"@); assert("google"@.len() != "globalsign.com"@.len());
        } else if x == 1 {
            assert(t[1].2[1] == "google trust services"@); assert("googletrustservices"@.len() != "globalsign.com"@.len());
        } else if x == 2 {
            assert(t[1].2[2] == "google public ca"@); assert("googlepublicca"@[1] != "globalsign.com"@[1]);
        } else if x == 3 {
            assert(t[1].2[3] == "gts"@); assert("gts"@.len() != "globalsign.com"@.len());
        } else if x == 4 {
            assert(t[1].2[4] == "pki.goog"@); assert("pki.goog"@.len() != "globalsign.com"@.len());
        }
    }
    assert(!ca_matches(t[1], "globalsign.com"@));
    assert forall|x: int| 0 <= x < t[2].2.len() implies normalized_ca_name(#[trigger] t[2].2[x]) != "globalsign.com"@ by {
        if x == 0 {
            assert(t[2].2[0] == "sectigo"@); assert("sectigo"@.len() != "globalsign.com"@.len());
        } else if x == 1 {
            assert(t[2].2[1] == "comodo"@); assert("comodo"@.len() != "globalsign.com"@.len());
        } else if x == 2 {
            assert(t[2].2[2] == "usertrust"@); assert("usertrust"@.len() != "globalsign.com"@.len());
        } else if x == 3 {
            assert(t[2].2[3] == "trust-provider"@); assert("trustprovider"@.len() != "globalsign.com"@.len());
        }
    }
    assert(!ca_matches(t[2], "globalsign.com"@));
    assert forall|x: int| 0 <= x < t[3].2.len() implies normalized_ca_name(#[trigger] t[3].2[x]) != "globalsign.com"@ by {
        if x == 0 {
            assert(t[3].2[0] == "zerossl"@); assert("zerossl"@.len() != "globalsign.com"@.len());
        } else if x == 1 {
            assert(t[3].2[1] == "zero ssl"@); assert("zerossl"@.len() != "globalsign.com"@.len());
        }
    }
    assert(!ca_matches(t[3], "globalsign.com"@));
    assert forall|x: int| 0 <= x < t[4].2.len() implies normalized_ca_name(#[trigger] t[4].2[x]) != "globalsign.com"@ by {
        if x == 0 {
            assert(t[4].2[0] == "digicert"@); assert("digicert"@.len() != "globalsign.com"@.len());
        } else if x == 1 {
            assert(t[4].2[1] == "rapidssl"@); assert("rapidssl"@.len() != "globalsign.com"@.len());
        } else if x == 2 {
            assert(t[4].2[2] == "geotrust"@); assert("geotrust"@.len() != "globalsign.com"@.len());
        } else if x == 3 {
            assert(t[4].2[3] == "thawte"@); assert("thawte"@.len() != "globalsign.com"@.len());
        }
    }
    assert(!ca_matches(t[4], "globalsign.com"@));

    assert(ca_matches(t[5], "globalsign.com"@));
    reveal_with_fuel(first_ca_match_from, 7);
}

proof fn lemma_first_match_ssl_dot_com()
    ensures
        first_ca_match_from(known_acme_ca_table(), "ssl.com"@, 0) == Some(6int),
{
    lemma_ca_keys_normalized_0();
    lemma_ca_keys_normalized_1();
    lemma_ca_keys_normalized_2();
    lemma_ca_keys_normalized_3();
    lemma_ca_keys_normalized_4();
    lemma_ca_keys_normalized_5();
    lemma_ca_keys_normalized_6();
    reveal_strlit("comodo");
    reveal_strlit("digicert");
    reveal_strlit("digicert.com");
    reveal_strlit("geotrust");
    reveal_strlit("globalsign");
    reveal_strlit("globalsign.com");
    reveal_strlit("google");
    reveal_strlit("googlepublicca");
    reveal_strlit("googletrustservices");
    reveal_strlit("gts");
    reveal_strlit("le");
    reveal_strlit("letsencrypt");
    reveal_strlit("letsencrypt.org");
    reveal_strlit("pki.goog");
    reveal_strlit("rapidssl");
    reveal_strlit("sectigo");
    reveal_strlit("sectigo.com");
    reveal_strlit("ssl.com");
    reveal_strlit("sslcom");
    reveal_strlit("thawte");
    reveal_strlit("trustprovider");
    reveal_strlit("usertrust");
    reveal_strlit("zerossl");
    let t = known_acme_ca_table();
    assert forall|x: int| 0 <= x < t[0].2.len() implies normalized_ca_name(#[trigger] t[0].2[x]) != "ssl.com"@ by {
        if x == 0 {
            assert(t[0].2[0] == "lets encrypt"@); assert("letsencrypt"@.len() != "ssl.com"@.len());
        } else if x == 1 {
            assert(t[0].2[1] == "letsencrypt"@); assert("letsencrypt"@.len() != "ssl.com"@.len());
        } else if x == 2 {
            assert(t[0].2[2] == "let's encrypt"@); assert("letsencrypt"@.len() != "ssl.com"@.len());
        } else if x == 3 {
            assert(t[0].2[3] == "le"@); assert("le"@.len() != "ssl.com"@.len());
        }
    }
    assert(!ca_matches(t[0], "ssl.com"@));
    assert forall|x: int| 0 <= x < t[1].2.len() implies normalized_ca_name(#[trigger] t[1].2[x]) != "ssl.com"@ by {
        if x == 0 {
            assert(t[1].2[0] == "google"@); assert("google"@.len() != "ssl.com"@.len());
        } else if x == 1 {
            assert(t[1].2[1] == "google trust services"@); assert("googletrustservices"@.len() != "ssl.com"@.len());
        } else if x == 2 {
            assert(t[1].2[2] == "google public ca"@); assert("googlepublicca"@.len() != "ssl.com"@.len());
        } else if x == 3 {
            assert(t[1].2[3] == "gts"@); assert("gts"@.len() != "ssl.com"@.len());
        } else if x == 4 {
            assert(t[1].2[4] == "pki.goog"@); assert("pki.goog"@.len() != "ssl.com"@.len());
        }
    }
    assert(!ca_matches(t[1], "ssl.com"@));
    assert forall|x: int| 0 <= x < t[2].2.len() implies normalized_ca_name(#[trigger] t[2].2[x]) != "ssl.com"@ by {
        if x == 0 {
            assert(t[2].2[0] == "sectigo"@); assert("sectigo"@[1] != "ssl.com"@[1]);
        } else if x == 1 {
            assert(t[2].2[1] == "comodo"@); assert("comodo"@.len() != "ssl.com"@.len());
        } else if x == 2 {
            assert(t[2].2[2] == "usertrust"@); assert("usertrust"@.len() != "ssl.com"@.len());
        } else if x == 3 {
            assert(t[2].2[3] == "trust-provider"@); assert("trustprovider"@.len() != "ssl.com"@.len());
        }
    }
    assert(!ca_matches(t[2], "ssl.com"@));
    assert forall|x: int| 0 <= x < t[3].2.len() implies normalized_ca_name(#[trigger] t[3].2[x]) != "ssl.com"@ by {
        if x == 0 {
            assert(t[3].2[0] == "zerossl"@); assert("zerossl"@[0] != "ssl.com"@[0]);
        } else if x == 1 {
            assert(t[3].2[1] == "zero ssl"@); assert("zerossl"@[0] != "ssl.com"@[0]);
        }
    }
    assert(!ca_matches(t[3], "ssl.com"@));
    assert forall|x: int| 0 <= x < t[4].2.len() implies normalized_ca_name(#[trigger] t[4].2[x]) != "ssl.com"@ by {
        if x == 0 {
            assert(t[4].2[0] == "digicert"@); assert("digicert"@.len() != "ssl.com"@.len());
        } else if x == 1 {
            assert(t[4].2[1] == "rapidssl"@); assert("rapidssl"@.len() != "ssl.com"@.len());
        } else if x == 2 {
            assert(t[4].2[2] == "geotrust"@); assert("geotrust"@.len() != "ssl.com"@.len());
        } else if x == 3 {
            assert(t[4].2[3] == "thawte"@); assert("thawte"@.len() != "ssl.com"@.len());
        }
    }
    assert(!ca_matches(t[4], "ssl.com"@));
    assert forall|x: int| 0 <= x < t[5].2.len() implies normalized_ca_name(#[trigger] t[5].2[x]) != "ssl.com"@ by {
        if x == 0 {
            assert(t[5].2[0] == "globalsign"@); assert("globalsign"@.len() != "ssl.com"@.len());
        } else if x == 1 {
            assert(t[5].2[1] == "global sign"@); assert("globalsign"@.len() != "ssl.com"@.len());
        }
    }
    assert(!ca_matches(t[5], "ssl.com"@));

    assert(ca_matches(t[6], "ssl.com"@));
    reveal_with_fuel(first_ca_match_from, 8);
}

proof fn lemma_first_match_sslcom()
    ensures
        first_ca_match_from(known_acme_ca_table(), "sslcom"@, 0) == Some(6int),
{
    lemma_ca_keys_normalized_0();
    lemma_ca_keys_normalized_1();
    lemma_ca_keys_normalized_2();
    lemma_ca_keys_normalized_3();
    lemma_ca_keys_normalized_4();
    lemma_ca_keys_normalized_5();
    lemma_ca_keys_normalized_6();
    reveal_strlit("comodo");
    reveal_strlit("digicert");
    reveal_strlit("digicert.com");
    reveal_strlit("geotrust");
    reveal_strlit("globalsign");
    reveal_strlit("globalsign.com");
    reveal_strlit("google");
    reveal_strlit("googlepublicca");
    reveal_strlit("googletrustservices");
    reveal_strlit("gts");
    reveal_strlit("le");
    reveal_strlit("letsencrypt");
    reveal_strlit("letsencrypt.org");
    reveal_strlit("pki.goog");
    reveal_strlit("rapidssl");
    reveal_strlit("sectigo");
    reveal_strlit("sectigo.com");
    reveal_strlit("ssl.com");
    reveal_strlit("sslcom");
    reveal_strlit("thawte");
    reveal_strlit("trustprovider");
    reveal_strlit("usertrust");
    reveal_strlit("zerossl");
    let t = known_acme_ca_table();
    assert forall|x: int| 0 <= x < t[0].2.len() implies normalized_ca_name(#[trigger] t[0].2[x]) != "sslcom"@ by {
        if x == 0 {
            assert(t[0].2[0] == "lets encrypt"@); assert("letsencrypt"@.len() != "sslcom"@.len());
        } else if x == 1 {
            assert(t[0].2[1] == "letsencrypt"@); assert("letsencrypt"@.len() != "sslcom"@.len());
        } else if x == 2 {
            assert(t[0].2[2] == "let's encrypt"@); assert("letsencrypt"@.len() != "sslcom"@.len());
        } else if x == 3 {
            assert(t[0].2[3] == "le"@); assert("le"@.len() != "sslcom"@.len());
        }
    }
    assert(!ca_matches(t[0], "sslcom"@));
    assert forall|x: int| 0 <= x < t[1].2.len() implies normalized_ca_name(#[trigger] t[1].2[x]) != "sslcom"@ by {
        if x == 0 {
            assert(t[1].2[0] == "google"@); assert("google"@[0] != "sslcom"@[0]);
        } else if x == 1 {
            assert(t[1].2[1] == "google trust services"@); assert("googletrustservices"@.len() != "sslcom"@.len());
        } else if x == 2 {
            assert(t[1].2[2] == "google public ca"@); assert("googlepublicca"@.len() != "sslcom"@.len());
        } else if x == 3 {
            assert(t[1].2[3] == "gts"@); assert("gts"@.len() != "sslcom"@.len());
        } else if x == 4 {
            assert(t[1].2[4] == "pki.goog"@); assert("pki.goog"@.len() != "sslcom"@.len());
        }
    }
    assert(!ca_matches(t[1], "sslcom"@));
    assert forall|x: int| 0 <= x < t[2].2.len() implies normalized_ca_name(#[trigger] t[2].2[x]) != "sslcom"@ by {
        if x == 0 {
            assert(t[2].2[0] == "sectigo"@); assert("sectigo"@.len() != "sslcom"@.len());
        } else if x == 1 {
            assert(t[2].2[1] == "comodo"@); assert("comodo"@[0] != "sslcom"@[0]);
        } else if x == 2 {
            assert(t[2].2[2] == "usertrust"@); assert("usertrust"@.len() != "sslcom"@.len());
        } else if x == 3 {
            assert(t[2].2[3] == "trust-provider"@); assert("trustprovider"@.len() != "sslcom"@.len());
        }
    }
    assert(!ca_matches(t[2], "sslcom"@));
    assert forall|x: int| 0 <= x < t[3].2.len() implies normalized_ca_name(#[trigger] t[3].2[x]) != "sslcom"@ by {
        if x == 0 {
            assert(t[3].2[0] == "zerossl"@); assert("zerossl"@.len() != "sslcom"@.len());
        } else if x == 1 {
            assert(t[3].2[1] == "zero ssl"@); assert("zerossl"@.len() != "sslcom"@.len());
        }
    }
    assert(!ca_matches(t[3], "sslcom"@));
    assert forall|x: int| 0 <= x < t[4].2.len() implies normalized_ca_name(#[trigger] t[4].2[x]) != "sslcom"@ by {
        if x == 0 {
            assert(t[4].2[0] == "digicert"@); assert("digicert"@.len() != "sslcom"@.len());
        } else if x == 1 {
            assert(t[4].2[1] == "rapidssl"@); assert("rapidssl"@.len() != "sslcom"@.len());
        } else if x == 2 {
            assert(t[4].2[2] == "geotrust"@); assert("geotrust"@.len() != "sslcom"@.len());
        } else if x == 3 {
            assert(t[4].2[3] == "thawte"@); assert("thawte"@[0] != "sslcom"@[0]);
        }
    }
    assert(!ca_matches(t[4], "sslcom"@));
    assert forall|x: int| 0 <= x < t[5].2.len() implies normalized_ca_name(#[trigger] t[5].2[x]) != "sslcom"@ by {
        if x == 0 {
            assert(t[5].2[0] == "globalsign"@); assert("globalsign"@.len() != "sslcom"@.len());
        } else if x == 1 {
            assert(t[5].2[1] == "global sign"@); assert("globalsign"@.len() != "sslcom"@.len());
        }
    }
    assert(!ca_matches(t[5], "sslcom"@));
    assert(t[6].2[1] == "sslcom"@);
    assert(normalized_ca_name(t[6].2[1]) == "sslcom"@);

    assert(ca_matches(t[6], "sslcom"@));
    reveal_with_fuel(first_ca_match_from, 8);
}

proof fn lemma_first_match_buypass()
    ensures
        first_ca_match_from(known_acme_ca_table(), "buypass"@, 0) == Some(7int),
{
    lemma_ca_keys_normalized_0();
    lemma_ca_keys_normalized_1();
    lemma_ca_keys_normalized_2();
    lemma_ca_keys_normalized_3();
    lemma_ca_keys_normalized_4();
    lemma_ca_keys_normalized_5();
    lemma_ca_keys_normalized_6();
    lemma_ca_keys_normalized_7();
    reveal_strlit("buypass");
    reveal_strlit("buypass.com");
    reveal_strlit("buypassgossl");
    reveal_strlit("comodo");
    reveal_strlit("digicert");
    reveal_strlit("digicert.com");
    reveal_strlit("geotrust");
    reveal_strlit("globalsign");
    reveal_strlit("globalsign.com");
    reveal_strlit("google");
    reveal_strlit("googlepublicca");
    reveal_strlit("googletrustservices");
    reveal_strlit("gts");
    reveal_strlit("le");
    reveal_strlit("letsencrypt");
    reveal_strlit("letsencrypt.org");
    reveal_strlit("pki.goog");
    reveal_strlit("rapidssl");
    reveal_strlit("sectigo");
    reveal_strlit("sectigo.com");
    reveal_strlit("ssl.com");
    reveal_strlit("sslcom");
    reveal_strlit("thawte");
    reveal_strlit("trustprovider");
    reveal_strlit("usertrust");
    reveal_strlit("zerossl");
    let t = known_acme_ca_table();
    assert forall|x: int| 0 <= x < t[0].2.len() implies normalized_ca_name(#[trigger] t[0].2[x]) != "buypass"@ by {
        if x == 0 {
            assert(t[0].2[0] == "lets encrypt"@); assert("letsencrypt"@.len() != "buypass"@.len());
        } else if x == 1 {
            assert(t[0].2[1] == "letsencrypt"@); assert("letsencrypt"@.len() != "buypass"@.len());
        } else if x == 2 {
            assert(t[0].2[2] == "let's encrypt"@); assert("letsencrypt"@.len() != "buypass"@.len());
        } else if x == 3 {
            assert(t[0].2[3] == "le"@); assert("le"@.len() != "buypass"@.len());
        }
    }
    assert(!ca_matches(t[0], "buypass"@));
    assert forall|x: int| 0 <= x < t[1].2.len() implies normalized_ca_name(#[trigger] t[1].2[x]) != "buypass"@ by {
        if x == 0 {
            assert(t[1].2[0] == "google"@); assert("google"@.len() != "buypass"@.len());
        } else if x == 1 {
            assert(t[1].2[1] == "google trust services"@); assert("googletrustservices"@.len() != "buypass"@.len());
        } else if x == 2 {
            assert(t[1].2[2] == "google public ca"@); assert("googlepublicca"@.len() != "buypass"@.len());
        } else if x == 3 {
            assert(t[1].2[3] == "gts"@); assert("gts"@.len() != "buypass"@.len());
        } else if x == 4 {
            assert(t[1].2[4] == "pki.goog"@); assert("pki.goog"@.len() != "buypass"@.len());
        }
    }
    assert(!ca_matches(t[1], "buypass"@));
    assert forall|x: int| 0 <= x < t[2].2.len() implies normalized_ca_name(#[trigger] t[2].2[x]) != "buypass"@ by {
        if x == 0 {
            assert(t[2].2[0] == "sectigo"@); assert("sectigo"@[0] != "buypass"@[0]);
        } else if x == 1 {
            assert(t[2].2[1] == "comodo"@); assert("comodo"@.len() != "buypass"@.len());
        } else if x == 2 {
            assert(t[2].2[2] == "usertrust"@); assert("usertrust"@.len() != "buypass"@.len());
        } else if x == 3 {
            assert(t[2].2[3] == "trust-provider"@); assert("trustprovider"@.len() != "buypass"@.len());
        }
    }
    assert(!ca_matches(t[2], "buypass"@));
    assert forall|x: int| 0 <= x < t[3].2.len() implies normalized_ca_name(#[trigger] t[3].2[x]) != "buypass"@ by {
        if x == 0 {
            assert(t[3].2[0] == "zerossl"@); assert("zerossl"@[0] != "buypass"@[0]);
        } else if x == 1 {
            assert(t[3].2[1] == "zero ssl"@); assert("zerossl"@[0] != "buypass"@[0]);
        }
    }
    assert(!ca_matches(t[3], "buypass"@));
    assert forall|x: int| 0 <= x < t[4].2.len() implies normalized_ca_name(#[trigger] t[4].2[x]) != "buypass"@ by {
        if x == 0 {
            assert(t[4].2[0] == "digicert"@); assert("digicert"@.len() != "buypass"@.len());
        } else if x == 1 {
            assert(t[4].2[1] == "rapidssl"@); assert("rapidssl"@.len() != "buypass"@.len());
        } else if x == 2 {
            assert(t[4].2[2] == "geotrust"@); assert("geotrust"@.len() != "buypass"@.len());
        } else if x == 3 {
            assert(t[4].2[3] == "thawte"@); assert("thawte"@.len() != "buypass"@.len());
        }
    }
    assert(!ca_matches(t[4], "buypass"@));
    assert forall|x: int| 0 <= x < t[5].2.len() implies normalized_ca_name(#[trigger] t[5].2[x]) != "buypass"@ by {
        if x == 0 {
            assert(t[5].2[0] == "globalsign"@); assert("globalsign"@.len() != "buypass"@.len());
        } else if x == 1 {
            assert(t[5].2[1] == "global sign"@); assert("globalsign"@.len() != "buypass"@.len());
        }
    }
    assert(!ca_matches(t[5], "buypass"@));
    assert forall|x: int| 0 <= x < t[6].2.len() implies normalized_ca_name(#[trigger] t[6].2[x]) != "buypass"@ by {
        if x == 0 {
            assert(t[6].2[0] == "ssl.com"@); assert("ssl.com"@[0] != "buypass"@[0]);
        } else if x == 1 {
            assert(t[6].2[1] == "sslcom"@); assert("sslcom"@.len() != "buypass"@.len());
        }
    }
    assert(!ca_matches(t[6], "buypass"@));

    assert(ca_matches(t[7], "buypass"@));
    reveal_with_fuel(first_ca_match_from, 9);
}

proof fn lemma_first_match_buypass_dot_com()
    ensures
        first_ca_match_from(known_acme_ca_table(), "buypass.com"@, 0) == Some(7int),
{
    lemma_ca_keys_normalized_0();
    lemma_ca_keys_normalized_1();
    lemma_ca_keys_normalized_2();
    lemma_ca_keys_normalized_3();
    lemma_ca_keys_normalized_4();
    lemma_ca_keys_normalized_5();
    lemma_ca_keys_normalized_6();
    lemma_ca_keys_normalized_7();
    reveal_strlit("buypass");
    reveal_strlit("buypass.com");
    reveal_strlit("buypassgossl");
    reveal_strlit("comodo");
    reveal_strlit("digicert");
    reveal_strlit("digicert.com");
    reveal_strlit("geotrust");
    reveal_strlit("globalsign");
    reveal_strlit("globalsign.com");
    reveal_strlit("google");
    reveal_strlit("googlepublicca");
    reveal_strlit("googletrustservices");
    reveal_strlit("gts");
    reveal_strlit("le");
    reveal_strlit("letsencrypt");
    reveal_strlit("letsencrypt.org");
    reveal_strlit("pki.goog");
    reveal_strlit("rapidssl");
    reveal_strlit("sectigo");
    reveal_strlit("sectigo.com");
    reveal_strlit("ssl.com");
    reveal_strlit("sslcom");
    reveal_strlit("thawte");
    reveal_strlit("trustprovider");
    reveal_strlit("usertrust");
    reveal_strlit("zerossl");
    let t = known_acme_ca_table();
    assert forall|x: int| 0 <= x < t[0].2.len() implies normalized_ca_name(#[trigger] t[0].2[x]) != "buypass.com"@ by {
        if x == 0 {
            assert(t[0].2[0] == "lets encrypt"@); assert("letsencrypt"@[0] != "buypass.com"@[0]);
        } else if x == 1 {
            assert(t[0].2[1] == "letsencrypt"@); assert("letsencrypt"@[0] != "buypass.com"@[0]);
        } else if x == 2 {
            assert(t[0].2[2] == "let's encrypt"@); assert("letsencrypt"@[0] != "buypass.com"@[0]);
        } else if x == 3 {
            assert(t[0].2[3] == "le"@); assert("le"@.len() != "buypass.com"@.len());
        }
    }
    assert(!ca_matches(t[0], "buypass.com"@));
    assert forall|x: int| 0 <= x < t[1].2.len() implies normalized_ca_name(#[trigger] t[1].2[x]) != "buypass.com"@ by {
        if x == 0 {
            assert(t[1].2[0] == "google"@); assert("google"@.len() != "buypass.com"@.len());
        } else if x == 1 {
            assert(t[1].2[1] == "google trust services"@); assert("googletrustservices"@.len() != "buypass.com"@.len());
        } else if x == 2 {
            assert(t[1].2[2] == "google public ca"@); assert("googlepublicca"@.len() != "buypass.com"@.len());
        } else if x == 3 {
            assert(t[1].2[3] == "gts"@); assert("gts"@.len() != "buypass.com"@.len());
        } else if x == 4 {
            assert(t[1].2[4] == "pki.goog"@); assert("pki.goog"@.len() != "buypass.com"@.len());
        }
    }
    assert(!ca_matches(t[1], "buypass.com"@));
    assert forall|x: int| 0 <= x < t[2].2.len() implies normalized_ca_name(#[trigger] t[2].2[x]) != "buypass.com"@ by {
        if x == 0 {
            assert(t[2].2[0] == "sectigo"@); assert("sectigo"@.len() != "buypass.com"@.len());
        } else if x == 1 {
            assert(t[2].2[1] == "comodo"@); assert("comodo"@.len() != "buypass.com"@.len());
        } else if x == 2 {
            assert(t[2].2[2] == "usertrust"@); assert("usertrust"@.len() != "buypass.com"@.len());
        } else if x == 3 {
            assert(t[2].2[3] == "trust-provider"@); assert("trustprovider"@.len() != "buypass.com"@.len());
        }
    }
    assert(!ca_matches(t[2], "buypass.com"@));
    assert forall|x: int| 0 <= x < t[3].2.len() implies normalized_ca_name(#[trigger] t[3].2[x]) != "buypass.com"@ by {
        if x == 0 {
            assert(t[3].2[0] == "zerossl"@); assert("zerossl"@.len() != "buypass.com"@.len());
        } else if x == 1 {
            assert(t[3].2[1] == "zero ssl"@); assert("zerossl"@.len() != "buypass.com"@.len());
        }
    }
    assert(!ca_matches(t[3], "buypass.com"@));
    assert forall|x: int| 0 <= x < t[4].2.len() implies normalized_ca_name(#[trigger] t[4].2[x]) != "buypass.com"@ by {
        if x == 0 {
            assert(t[4].2[0] == "digicert"@); assert("digicert"@.len() != "buypass.com"@.len());
        } else if x == 1 {
            assert(t[4].2[1] == "rapidssl"@); assert("rapidssl"@.len() != "buypass.com"@.len());
        } else if x == 2 {
            assert(t[4].2[2] == "geotrust"@); assert("geotrust"@.len() != "buypass.com"@.len());
        } else if x == 3 {
            assert(t[4].2[3] == "thawte"@); assert("thawte"@.len() != "buypass.com"@.len());
        }
    }
    assert(!ca_matches(t[4], "buypass.com"@));
    assert forall|x: int| 0 <= x < t[5].2.len() implies normalized_ca_name(#[trigger] t[5].2[x]) != "buypass.com"@ by {
        if x == 0 {
            assert(t[5].2[0] == "globalsign"@); assert("globalsign"@.len() != "buypass.com"@.len());
        } else if x == 1 {
            assert(t[5].2[1] == "global sign"@); assert("globalsign"@.len() != "buypass.com"@.len());
        }
    }
    assert(!ca_matches(t[5], "buypass.com"@));
    assert forall|x: int| 0 <= x < t[6].2.len() implies normalized_ca_name(#[trigger] t[6].2[x]) != "buypass.com"@ by {
        if x == 0 {
            assert(t[6].2[0] == "ssl.com"@); assert("ssl.com"@.len() != "buypass.com"@.len());
        } else if x == 1 {
            assert(t[6].2[1] == "sslcom"@); assert("sslcom"@.len() != "buypass.com"@.len());
        }
    }
    assert(!ca_matches(t[6], "buypass.com"@));

    assert(ca_matches(t[7], "buypass.com"@));
    reveal_with_fuel(first_ca_match_from, 9);
}

proof fn lemma_first_match_buypassgossl()
    ensures
        first_ca_match_from(known_acme_ca_table(), "buypassgossl"@, 0) == Some(7int),
{
    lemma_ca_keys_normalized_0();
    lemma_ca_keys_normalized_1();
    lemma_ca_keys_normalized_2();
    lemma_ca_keys_normalized_3();
    lemma_ca_keys_normalized_4();
    lemma_ca_keys_normalized_5();
    lemma_ca_keys_normalized_6();
    lemma_ca_keys_normalized_7();
    reveal_strlit("buypass");
    reveal_strlit("buypass.com");
    reveal_strlit("buypassgossl");
    reveal_strlit("comodo");
    reveal_strlit("digicert");
    reveal_strlit("digicert.com");
    reveal_strlit("geotrust");
    reveal_strlit("globalsign");
    reveal_strlit("globalsign.com");
    reveal_strlit("google");
    reveal_strlit("googlepublicca");
    reveal_strlit("googletrustservices");
    reveal_strlit("gts");
    reveal_strlit("le");
    reveal_strlit("letsencrypt");
    reveal_strlit("letsencrypt.org");
    reveal_strlit("pki.goog");
    reveal_strlit("rapidssl");
    reveal_strlit("sectigo");
    reveal_strlit("sectigo.com");
    reveal_strlit("ssl.com");
    reveal_strlit("sslcom");
    reveal_strlit("thawte");
    reveal_strlit("trustprovider");
    reveal_strlit("usertrust");
    reveal_strlit("zerossl");
    let t = known_acme_ca_table();
    assert forall|x: int| 0 <= x < t[0].2.len() implies normalized_ca_name(#[trigger] t[0].2[x]) != "buypassgossl"@ by {
        if x == 0 {
            assert(t[0].2[0] == "lets encrypt"@); assert("letsencrypt"@.len() != "buypassgossl"@.len());
        } else if x == 1 {
            assert(t[0].2[1] == "letsencrypt"@); assert("letsencrypt"@.len() != "buypassgossl"@.len());
        } else if x == 2 {
            assert(t[0].2[2] == "let's encrypt"@); assert("letsencrypt"@.len() != "buypassgossl"@.len());
        } else if x == 3 {
            assert(t[0].2[3] == "le"@); assert("le"@.len() != "buypassgossl"@.len());
        }
    }
    assert(!ca_matches(t[0], "buypassgossl"@));
    assert forall|x: int| 0 <= x < t[1].2.len() implies normalized_ca_name(#[trigger] t[1].2[x]) != "buypassgossl"@ by {
        if x == 0 {
            assert(t[1].2[0] == "google"@); assert("google"@.len() != "buypassgossl"@.len());
        } else if x == 1 {
            assert(t[1].2[1] == "google trust services"@); assert("googletrustservices"@.len() != "buypassgossl"@.len());
        } else if x == 2 {
            assert(t[1].2[2] == "google public ca"@); assert("googlepublicca"@.len() != "buypassgossl"@.len());
        } else if x == 3 {
            assert(t[1].2[3] == "gts"@); assert("gts"@.len() != "buypassgossl"@.len());
        } else if x == 4 {
            assert(t[1].2[4] == "pki.goog"@); assert("pki.goog"@.len() != "buypassgossl"@.len());
        }
    }
    assert(!ca_matches(t[1], "buypassgossl"@));
    assert forall|x: int| 0 <= x < t[2].2.len() implies normalized_ca_name(#[trigger] t[2].2[x]) != "buypassgossl"@ by {
        if x == 0 {
            assert(t[2].2[0] == "sectigo"@); assert("sectigo"@.len() != "buypassgossl"@.len());
        } else if x == 1 {
            assert(t[2].2[1] == "comodo"@); assert("comodo"@.len() != "buypassgossl"@.len());
        } else if x == 2 {
            assert(t[2].2[2] == "usertrust"@); assert("usertrust"@.len() != "buypassgossl"@.len());
        } else if x == 3 {
            assert(t[2].2[3] == "trust-provider"@); assert("trustprovider"@.len() != "buypassgossl"@.len());
        }
    }
    assert(!ca_matches(t[2], "buypassgossl"@));
    assert forall|x: int| 0 <= x < t[3].2.len() implies normalized_ca_name(#[trigger] t[3].2[x]) != "buypassgossl"@ by {
        if x == 0 {
            assert(t[3].2[0] == "zerossl"@); assert("zerossl"@.len() != "buypassgossl"@.len());
        } else if x == 1 {
            assert(t[3].2[1] == "zero ssl"@); assert("zerossl"@.len() != "buypassgossl"@.len());
        }
    }
    assert(!ca_matches(t[3], "buypassgossl"@));
    assert forall|x: int| 0 <= x < t[4].2.len() implies normalized_ca_name(#[trigger] t[4].2[x]) != "buypassgossl"@ by {
        if x == 0 {
            assert(t[4].2[0] == "digicert"@); assert("digicert"@.len() != "buypassgossl"@.len());
        } else if x == 1 {
            assert(t[4].2[1] == "rapidssl"@); assert("rapidssl"@.len() != "buypassgossl"@.len());
        } else if x == 2 {
            assert(t[4].2[2] == "geotrust"@); assert("geotrust"@.len() != "buypassgossl"@.len());
        } else if x == 3 {
            assert(t[4].2[3] == "thawte"@); assert("thawte"@.len() != "buypassgossl"@.len());
        }
    }
    assert(!ca_matches(t[4], "buypassgossl"@));
    assert forall|x: int| 0 <= x < t[5].2.len() implies normalized_ca_name(#[trigger] t[5].2[x]) != "buypassgossl"@ by {
        if x == 0 {
            assert(t[5].2[0] == "globalsign"@); assert("globalsign"@.len() != "buypassgossl"@.len());
        } else if x == 1 {
            assert(t[5].2[1] == "global sign"@); assert("globalsign"@.len() != "buypassgossl"@.len());
        }
    }
    assert(!ca_matches(t[5], "buypassgossl"@));
    assert forall|x: int| 0 <= x < t[6].2.len() implies normalized_ca_name(#[trigger] t[6].2[x]) != "buypassgossl"@ by {
        if x == 0 {
            assert(t[6].2[0] == "ssl.com"@); assert("ssl.com"@.len() != "buypassgossl"@.len());
        } else if x == 1 {
            assert(t[6].2[1] == "sslcom"@); assert("sslcom"@.len() != "buypassgossl"@.len());
        }
    }
    assert(!ca_matches(t[6], "buypassgossl"@));
    assert(t[7].2[1] == "buypass go ssl"@);
    assert(normalized_ca_name(t[7].2[1]) == "buypassgossl"@);

    assert(ca_matches(t[7], "buypassgossl"@));
    reveal_with_fuel(first_ca_match_from, 9);
}

// ----- Identification, entry by entry -----

proof fn lemma_keys_identify_ca_0(k: Seq<char>)
    requires
        is_catalog_key(known_acme_ca_table()[0], k),
    ensures
        first_ca_match_from(known_acme_ca_table(), normalized_ca_name(k), 0) matches Some(j) && 0 <= j
            <= 0 && known_acme_ca_table()[j].1 == known_acme_ca_table()[0].1,
{
    lemma_ca_keys_normalized_0();
    let t = known_acme_ca_table();
    if k != t[0].0 && k != t[0].1 {
        let x = choose|x: int| 0 <= x < t[0].2.len() && t[0].2[x] == k;
        assert(t[0].2[x] == k);
    }
    lemma_first_match_letsencrypt();
    lemma_first_match_letsencrypt_dot_org();
    lemma_first_match_le();
}

proof fn lemma_keys_identify_ca_1(k: Seq<char>)
    requires
        is_catalog_key(known_acme_ca_table()[1], k),
    ensures
        first_ca_match_from(known_acme_ca_table(), normalized_ca_name(k), 0) matches Some(j) && 0 <= j
            <= 1 && known_acme_ca_table()[j].1 == known_acme_ca_table()[1].1,
{
    lemma_ca_keys_normalized_1();
    let t = known_acme_ca_table();
    if k != t[1].0 && k != t[1].1 {
        let x = choose|x: int| 0 <= x < t[1].2.len() && t[1].2[x] == k;
        assert(t[1].2[x] == k);
    }
    lemma_first_match_googletrustservices();
    lemma_first_match_pki_dot_goog();
    lemma_first_match_google();
    lemma_first_match_googlepublicca();
    lemma_first_match_gts();
}

proof fn lemma_keys_identify_ca_2(k: Seq<char>)
    requires
        is_catalog_key(known_acme_ca_table()[2], k),
    ensures
        first_ca_match_from(known_acme_ca_table(), normalized_ca_name(k), 0) matches Some(j) && 0 <= j
            <= 2 && known_acme_ca_table()[j].1 == known_acme_ca_table()[2].1,
{
    lemma_ca_keys_normalized_2();
    let t = known_acme_ca_table();
    if k != t[2].0 && k != t[2].1 {
        let x = choose|x: int| 0 <= x < t[2].2.len() && t[2].2[x] == k;
        assert(t[2].2[x] == k);
    }
    lemma_first_match_sectigo();
    lemma_first_match_sectigo_dot_com();
    lemma_first_match_comodo();
    lemma_first_match_usertrust();
    lemma_first_match_trustprovider();
}

proof fn lemma_keys_identify_ca_3(k: Seq<char>)
    requires
        is_catalog_key(known_acme_ca_table()[3], k),
    ensures
        first_ca_match_from(known_acme_ca_table(), normalized_ca_name(k), 0) matches Some(j) && 0 <= j
            <= 3 && known_acme_ca_table()[j].1 == known_acme_ca_table()[3].1,
{
    lemma_ca_keys_normalized_3();
    let t = known_acme_ca_table();
    if k != t[3].0 && k != t[3].1 {
        let x = choose|x: int| 0 <= x < t[3].2.len() && t[3].2[x] == k;
        assert(t[3].2[x] == k);
    }
    lemma_first_match_zerossl();
    lemma_first_match_sectigo_dot_com();
}

proof fn lemma_keys_identify_ca_4(k: Seq<char>)
    requires
        is_catalog_key(known_acme_ca_table()[4], k),
    ensures
        first_ca_match_from(known_acme_ca_table(), normalized_ca_name(k), 0) matches Some(j) && 0 <= j
            <= 4 && known_acme_ca_table()[j].1 == known_acme_ca_table()[4].1,
{
    lemma_ca_keys_normalized_4();
    let t = known_acme_ca_table();
    if k != t[4].0 && k != t[4].1 {
        let x = choose|x: int| 0 <= x < t[4].2.len() && t[4].2[x] == k;
        assert(t[4].2[x] == k);
    }
    lemma_first_match_digicert();
    lemma_first_match_digicert_dot_com();
    lemma_first_match_rapidssl();
    lemma_first_match_geotrust();
    lemma_first_match_thawte();
}

proof fn lemma_keys_identify_ca_5(k: Seq<char>)
    requires
        is_catalog_key(known_acme_ca_table()[5], k),
    ensures
        first_ca_match_from(known_acme_ca_table(), normalized_ca_name(k), 0) matches Some(j) && 0 <= j
            <= 5 && known_acme_ca_table()[j].1 == known_acme_ca_table()[5].1,
{
    lemma_ca_keys_normalized_5();
    let t = known_acme_ca_table();
    if k != t[5].0 && k != t[5].1 {
        let x = choose|x: int| 0 <= x < t[5].2.len() && t[5].2[x] == k;
        assert(t[5].2[x] == k);
    }
    lemma_first_match_globalsign();
    lemma_first_match_globalsign_dot_com();
}

proof fn lemma_keys_identify_ca_6(k: Seq<char>)
    requires
        is_catalog_key(known_acme_ca_table()[6], k),
    ensures
        first_ca_match_from(known_acme_ca_table(), normalized_ca_name(k), 0) matches Some(j) && 0 <= j
            <= 6 && known_acme_ca_table()[j].1 == known_acme_ca_table()[6].1,
{
    lemma_ca_keys_normalized_6();
    let t = known_acme_ca_table();
    if k != t[6].0 && k != t[6].1 {
        let x = choose|x: int| 0 <= x < t[6].2.len() && t[6].2[x] == k;
        assert(t[6].2[x] == k);
    }
    lemma_first_match_ssl_dot_com();
    lemma_first_match_sslcom();
}

proof fn lemma_keys_identify_ca_7(k: Seq<char>)
    requires
        is_catalog_key(known_acme_ca_table()[7], k),
    ensures
        first_ca_match_from(known_acme_ca_table(), normalized_ca_name(k), 0) matches Some(j) && 0 <= j
            <= 7 && known_acme_ca_table()[j].1 == known_acme_ca_table()[7].1,
{
    lemma_ca_keys_normalized_7();
    let t = known_acme_ca_table();
    if k != t[7].0 && k != t[7].1 {
        let x = choose|x: int| 0 <= x < t[7].2.len() && t[7].2[x] == k;
        assert(t[7].2[x] == k);
    }
    lemma_first_match_buypass();
    lemma_first_match_buypass_dot_com();
    lemma_first_match_buypassgossl();
}

} // verus!

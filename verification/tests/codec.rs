use ip3::english_words;
use ip3::in_word_list;
use ip3::ip3_to_ipv4;
use ip3::ipv4_to_ip3;
use ip3::word_to_bytes;
use ip3::Ip3;
use ip3::Ip3Error;
use ip3::Wordlist;

fn dictionary() -> Wordlist {
    Wordlist::new(english_words()).expect("the English dictionary is well-formed")
}

fn triple(w1: &str, w2: &str, w3: &str) -> Ip3 {
    Ip3(w1.to_string(), w2.to_string(), w3.to_string())
}

#[test]
fn test_word_to_bytes() {
    let wl = dictionary();
    assert_eq!(word_to_bytes(&wl, "abandon").unwrap(), 0);
    assert_eq!(word_to_bytes(&wl, "zoo").unwrap(), 2047);
}

#[test]
fn test_words_to_ip() {
    let wl = dictionary();
    assert_eq!(
        ip3_to_ipv4(&wl, &triple("abandon", "abandon", "abandon")).unwrap(),
        u32::from_be_bytes([0, 0, 0, 0])
    );
    assert_eq!(
        ip3_to_ipv4(&wl, &triple("ability", "abandon", "display")).unwrap(),
        u32::from_be_bytes([127, 0, 0, 1])
    );
    assert_eq!(
        ip3_to_ipv4(&wl, &triple("cage", "advice", "above")).unwrap(),
        u32::from_be_bytes([1, 1, 1, 1])
    );
}

#[test]
fn test_ip_to_words() {
    let wl = dictionary();
    assert_eq!(
        ipv4_to_ip3(&wl, u32::from_be_bytes([0, 0, 0, 0])),
        triple("abandon", "abandon", "abandon")
    );
    assert_eq!(
        ipv4_to_ip3(&wl, u32::from_be_bytes([127, 0, 0, 1])),
        triple("ability", "abandon", "display")
    );
    assert_eq!(
        ipv4_to_ip3(&wl, u32::from_be_bytes([1, 1, 1, 1])),
        triple("cage", "advice", "above")
    );
}

#[test]
fn test_address_round_trip() {
    let wl = dictionary();
    for a in [
        0u32,
        1,
        0x7F00_0001,
        0x0101_0101,
        0xDEAD_BEEF,
        0x8000_0000,
        0xFFFF_FFFF,
    ] {
        let words = ipv4_to_ip3(&wl, a);
        assert_eq!(ip3_to_ipv4(&wl, &words), Ok(a));
    }
}

#[test]
fn test_triple_round_trip() {
    let wl = dictionary();
    // Third words sit at positions below 1024, so these triples are exactly
    // the encodings of the addresses they decode to.
    for t in [
        triple("abandon", "abandon", "abandon"),
        triple("zoo", "zebra", "display"),
        triple("ability", "zoo", "cage"),
    ] {
        let a = ip3_to_ipv4(&wl, &t).unwrap();
        assert_eq!(ipv4_to_ip3(&wl, a), t);
    }
}

#[test]
fn test_third_word_high_position_truncates() {
    let wl = dictionary();
    // "zoo" sits at position 2047; as a third word only its low 10 bits
    // (1023) survive, so the triple is not reproduced by a re-encoding.
    let t = triple("abandon", "abandon", "zoo");
    let a = ip3_to_ipv4(&wl, &t).unwrap();
    assert_eq!(a, 1023u32 << 22);
    let back = ipv4_to_ip3(&wl, a);
    assert_eq!(back.2, english_words()[1023]);
    assert_ne!(back, t);
}

#[test]
fn test_decode_word_not_found() {
    let wl = dictionary();
    assert_eq!(
        ip3_to_ipv4(&wl, &triple("notaword", "abandon", "abandon")),
        Err(Ip3Error::WordNotFound("notaword".to_string()))
    );
    assert_eq!(
        ip3_to_ipv4(&wl, &triple("abandon", "zzz", "abandon")),
        Err(Ip3Error::WordNotFound("zzz".to_string()))
    );
    assert_eq!(
        ip3_to_ipv4(&wl, &triple("abandon", "abandon", "Zoo")),
        Err(Ip3Error::WordNotFound("Zoo".to_string()))
    );
}

#[test]
fn test_known_word_agrees_with_index() {
    let wl = dictionary();
    for w in ["abandon", "zoo", "display", "cage", "notaword", "", "Zoo", "zo", "zoos"] {
        assert_eq!(in_word_list(&wl, w), word_to_bytes(&wl, w).is_ok());
    }
}

#[test]
fn test_wordlist_structure() {
    let words = english_words();
    assert_eq!(words.len(), 2048);
    let distinct: std::collections::HashSet<&String> = words.iter().collect();
    assert_eq!(distinct.len(), 2048);
    assert!(words.iter().all(|w| !w.is_empty()));
    assert!(Wordlist::new(words).is_some());
}

#[test]
fn test_wordlist_rejects_bad_shapes() {
    let mut short = english_words();
    short.pop();
    assert!(Wordlist::new(short).is_none());

    let mut dup = english_words();
    dup[1] = "abandon".to_string();
    assert!(Wordlist::new(dup).is_none());

    let mut empty_entry = english_words();
    empty_entry[7] = String::new();
    assert!(Wordlist::new(empty_entry).is_none());
}

#[test]
fn test_wordlist_matches_reference_list() {
    let ours = english_words();
    let reference = bip39::Language::English.word_list();
    for (a, b) in ours.iter().zip(reference.iter()) {
        assert_eq!(a, b);
    }
}

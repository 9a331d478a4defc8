use ip3::english_words;
use ip3::format_ip3;
use ip3::format_ipv4;
use ip3::parse_ip3;
use ip3::parse_ipv4;
use ip3::Ip3;
use ip3::Ip3Error;
use ip3::Wordlist;

fn triple(w1: &str, w2: &str, w3: &str) -> Ip3 {
    Ip3(w1.to_string(), w2.to_string(), w3.to_string())
}

#[test]
fn test_format_ipv4_dotted_quad() {
    assert_eq!(format_ipv4(0), "0.0.0.0");
    assert_eq!(format_ipv4(u32::from_be_bytes([127, 0, 0, 1])), "127.0.0.1");
    assert_eq!(format_ipv4(u32::from_be_bytes([1, 2, 3, 4])), "1.2.3.4");
    assert_eq!(format_ipv4(u32::MAX), "255.255.255.255");
    assert_eq!(format_ipv4(u32::from_be_bytes([10, 0, 42, 200])), "10.0.42.200");
}

#[test]
fn test_parse_ipv4_dotted_quad() {
    assert_eq!(parse_ipv4("0.0.0.0"), Ok(0));
    assert_eq!(parse_ipv4("127.0.0.1"), Ok(u32::from_be_bytes([127, 0, 0, 1])));
    assert_eq!(parse_ipv4("255.255.255.255"), Ok(u32::MAX));
    assert_eq!(parse_ipv4("001.002.003.004"), Ok(u32::from_be_bytes([1, 2, 3, 4])));
}

#[test]
fn test_parse_ipv4_round_trip() {
    for a in [0u32, 1, 0x7F00_0001, 0xDEAD_BEEF, u32::MAX] {
        assert_eq!(parse_ipv4(&format_ipv4(a)), Ok(a));
    }
}

#[test]
fn test_parse_ipv4_malformed() {
    for s in [
        "",
        "1",
        "1.2.3",
        "1.2.3.4.5",
        "1.2.3.256",
        "1.2.3.1234",
        "a.b.c.d",
        "1..2.3",
        "1.2.3.",
        ".1.2.3",
        "1.2.3.4 ",
        "1.2.-3.4",
    ] {
        assert_eq!(parse_ipv4(s), Err(Ip3Error::MalformedInput), "input {:?}", s);
    }
}

#[test]
fn test_format_ip3_joins_with_periods() {
    assert_eq!(
        format_ip3(&triple("ability", "abandon", "display")),
        "ability.abandon.display"
    );
}

#[test]
fn test_parse_ip3_splits_on_periods() {
    assert_eq!(
        parse_ip3("ability.abandon.display"),
        Ok(triple("ability", "abandon", "display"))
    );
    // Splitting does not validate membership: empty words pass here and are
    // rejected by decode.
    assert_eq!(parse_ip3(".."), Ok(triple("", "", "")));
}

#[test]
fn test_parse_ip3_malformed() {
    for s in ["", "ability", "ability.abandon", "a.b.c.d", "..."] {
        assert_eq!(parse_ip3(s), Err(Ip3Error::MalformedInput), "input {:?}", s);
    }
}

#[test]
fn test_ip3_text_round_trip() {
    let t = triple("cage", "advice", "above");
    assert_eq!(parse_ip3(&format_ip3(&t)), Ok(t));
}

#[test]
fn test_empty_word_is_rejected_by_decode() {
    let wl = Wordlist::new(english_words()).expect("the English dictionary is well-formed");
    let t = parse_ip3("..").unwrap();
    assert_eq!(
        ip3::ip3_to_ipv4(&wl, &t),
        Err(Ip3Error::WordNotFound(String::new()))
    );
}

use worker_runtime::codec::add_padding;
use worker_runtime::codec::atob;
use worker_runtime::codec::btoa;
use worker_runtime::protocol::ProtocolError;

#[test]
fn mod_atob_decodes_base64_string() {
    let result = atob(Some("SGVsbG8sIFdvcmxkIQ==")).unwrap();

    assert_eq!(result, "Hello, World!");
}

#[test]
#[should_panic]
fn mod_atob_handles_invalid_characters() {
    let result = atob(Some("SGVsbG8sIFdvcmxkI$Q=")).unwrap();

    assert_eq!(result, "InvalidCharacterError");
}

#[test]
#[should_panic]
fn mod_btoa_handles_non_latin1_characters() {
    let result = btoa(Some("Hello, 世界!")).unwrap();

    assert_eq!(result, "InvalidCharacterError");
}

#[test]
fn mod_atob_should_handle_padding() {
    let expect = "{}";

    assert_eq!(expect, atob(Some("e30")).unwrap());
    assert_eq!(expect, atob(Some("e30=")).unwrap());
}

#[test]
fn add_padding_fills_the_last_group() {
    assert_eq!(add_padding(String::new()), "");
    assert_eq!(add_padding("e".to_string()), "e===");
    assert_eq!(add_padding("e3".to_string()), "e3==");
    assert_eq!(add_padding("e30".to_string()), "e30=");
    assert_eq!(add_padding("e30=".to_string()), "e30=");
    assert_eq!(add_padding("e30=e".to_string()), "e30=e===");
}

#[test]
fn add_padding_counts_bytes() {
    assert_eq!(add_padding("é".to_string()), "é==");
    assert_eq!(add_padding("世".to_string()), "世=");
}

#[test]
fn btoa_encodes_with_padding() {
    assert_eq!(btoa(Some("Hello, World!")).unwrap(), "SGVsbG8sIFdvcmxkIQ==");
    assert_eq!(btoa(Some("{}")).unwrap(), "e30=");
    assert_eq!(btoa(Some("")).unwrap(), "");
    assert_eq!(btoa(Some("a")).unwrap(), "YQ==");
    assert_eq!(btoa(Some("ab")).unwrap(), "YWI=");
    assert_eq!(btoa(Some("abc")).unwrap(), "YWJj");
}

#[test]
fn btoa_uses_the_url_safe_alphabet() {
    assert_eq!(btoa(Some("~~~")).unwrap(), "fn5-");
    assert_eq!(btoa(Some("???")).unwrap(), "Pz8_");
    assert_eq!(atob(Some("fn5-")).unwrap(), "~~~");
    assert_eq!(atob(Some("Pz8_")).unwrap(), "???");
    assert_eq!(atob(Some("fn5+")), Err(ProtocolError::InvalidBase64));
    assert_eq!(atob(Some("Pz8/")), Err(ProtocolError::InvalidBase64));
}

#[test]
fn atob_reads_back_what_btoa_wrote_for_printable_ascii() {
    let mut all = String::new();
    for c in 0x20u8..0x7f {
        let one = (c as char).to_string();
        assert_eq!(atob(Some(&btoa(Some(&one)).unwrap())).unwrap(), one);
        all.push(c as char);
        assert_eq!(atob(Some(&btoa(Some(&all)).unwrap())).unwrap(), all);
    }
}

#[test]
fn atob_reads_back_what_btoa_wrote_for_other_text() {
    let text = "Hello, 世界! é";
    let encoded = btoa(Some(text)).unwrap();
    assert_eq!(encoded, "SGVsbG8sIOS4lueVjCEgw6k=");
    assert_eq!(atob(Some(&encoded)).unwrap(), text);
}

#[test]
fn atob_ignores_missing_padding() {
    for text in ["", "a", "ab", "abc", "abcd", "Hello, World!"] {
        let encoded = btoa(Some(text)).unwrap();
        let bare = encoded.trim_end_matches('=');
        assert_eq!(atob(Some(bare)).unwrap(), text);
        assert_eq!(atob(Some(&encoded)).unwrap(), text);
    }
}

#[test]
fn atob_replaces_bytes_that_are_not_text() {
    assert_eq!(atob(Some("_w==")).unwrap(), "\u{fffd}");
}

#[test]
fn atob_refuses_text_that_is_not_base64() {
    assert_eq!(atob(Some("e")), Err(ProtocolError::InvalidBase64));
    assert_eq!(atob(Some("e30$")), Err(ProtocolError::InvalidBase64));
    assert_eq!(atob(Some("=e30")), Err(ProtocolError::InvalidBase64));
    assert_eq!(atob(Some("世界")), Err(ProtocolError::InvalidBase64));
}

#[test]
fn codec_bindings_need_an_argument() {
    assert_eq!(atob(None), Err(ProtocolError::MissingCodecArgument));
    assert_eq!(btoa(None), Err(ProtocolError::MissingCodecArgument));
    assert_eq!(
        ProtocolError::MissingCodecArgument.message(),
        "1 argument required, but only 0 present"
    );
    assert_eq!(ProtocolError::InvalidBase64.message(), "Invalid base64 input string");
    assert!(!ProtocolError::InvalidBase64.is_type_error());
}

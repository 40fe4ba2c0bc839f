use vhost_static::tenant::{is_decodable, resolve_tenant, DEFAULT_TENANT};

#[test]
fn port_suffix_is_stripped() {
    assert_eq!(resolve_tenant(Some(b"a.com:8080")), "a.com");
    assert_eq!(resolve_tenant(Some(b"a.com")), "a.com");
    assert_eq!(resolve_tenant(Some(b"a.com:8080")), resolve_tenant(Some(b"a.com")));
}

#[test]
fn missing_host_is_default_tenant() {
    assert_eq!(resolve_tenant(None), "default");
    assert_eq!(DEFAULT_TENANT, "default");
}

#[test]
fn empty_host_is_default_tenant() {
    assert_eq!(resolve_tenant(Some(b"")), "default");
}

#[test]
fn undecodable_host_is_default_tenant() {
    assert_eq!(resolve_tenant(Some(&[b'a', 0x80, b'b'])), "default");
    assert_eq!(resolve_tenant(Some(&[0xff])), "default");
    assert_eq!(resolve_tenant(Some(&[b'a', 0x7f])), "default");
    assert_eq!(resolve_tenant(Some(&[b'a', 0x1f])), "default");
    assert_eq!(resolve_tenant(Some(&[b'a', 0x00, b':', b'1'])), "default");
    // The whole value is looked at, the port too.
    assert_eq!(resolve_tenant(Some(&[b'a', b':', 0xc3, 0xa9])), "default");
}

#[test]
fn tab_and_space_are_text() {
    assert_eq!(resolve_tenant(Some(b"a\tb")), "a\tb");
    assert_eq!(resolve_tenant(Some(b" a.com :80")), " a.com ");
    assert_eq!(resolve_tenant(Some(b"~")), "~");
}

#[test]
fn host_is_cut_at_the_first_colon() {
    assert_eq!(resolve_tenant(Some(b"a:b:c")), "a");
    assert_eq!(resolve_tenant(Some(b"[::1]:80")), "[");
    assert_eq!(resolve_tenant(Some(b"a.com:")), "a.com");
}

#[test]
fn host_of_only_a_port_is_the_empty_tenant() {
    assert_eq!(resolve_tenant(Some(b":8080")), "");
    assert_eq!(resolve_tenant(Some(b":")), "");
}

#[test]
fn host_is_not_validated_or_lowercased() {
    assert_eq!(resolve_tenant(Some(b"Example.COM:443")), "Example.COM");
    assert_eq!(resolve_tenant(Some(b"../etc")), "../etc");
    assert_eq!(resolve_tenant(Some(b"/etc")), "/etc");
}

#[test]
fn decodable_means_tab_or_printable_ascii() {
    assert!(is_decodable(b""));
    assert!(is_decodable(b"a.com:8080"));
    assert!(is_decodable(&[9, 32, 126]));
    assert!(!is_decodable(&[31]));
    assert!(!is_decodable(&[127]));
    assert!(!is_decodable(&[10]));
    assert!(!is_decodable(&[b'a', 200]));
    for b in 0u8..=255 {
        let visible = (32..127).contains(&b) || b == 9;
        assert_eq!(is_decodable(&[b]), visible, "byte {}", b);
    }
}

#[test]
fn decodable_agrees_with_header_values() {
    for b in 0u8..=255 {
        for bytes in [vec![b], vec![b'a', b, b'z'], vec![b, b':', b'8', b'0']] {
            if let Ok(value) = hyper::header::HeaderValue::from_bytes(&bytes) {
                assert_eq!(is_decodable(value.as_bytes()), value.to_str().is_ok(), "{:?}", bytes);
            }
        }
    }
}

#[test]
fn tenant_of_a_header_value_is_its_text_before_the_colon() {
    for text in ["a.com", "a.com:8080", "a:b:c", ":80", "x", "a b\tc:1", "[::1]:80", "é.com:1"] {
        let value = hyper::header::HeaderValue::from_bytes(text.as_bytes()).unwrap();
        let expected =
            value.to_str().unwrap_or("default").split(':').next().unwrap_or("default");
        assert_eq!(resolve_tenant(Some(value.as_bytes())), expected, "{:?}", text);
    }
}

use juker::con_info::ConnectionInfo;
use juker::digester::Digester;
use juker::error::JuError;

fn connection(scheme: &str, key: &str) -> ConnectionInfo {
    ConnectionInfo {
        kernel_name: "test".to_string(),
        ip: "127.0.0.1".to_string(),
        control_port: 1,
        shell_port: 2,
        stdin_port: 3,
        hb_port: 4,
        iopub_port: 5,
        key: key.to_string(),
        transport: "tcp".to_string(),
        signature_scheme: scheme.to_string(),
    }
}

#[test]
fn empty_scheme_gives_no_signature() {
    let digester = Digester::new(&connection("", "ignored")).unwrap();
    assert!(matches!(digester, Digester::Unsigned));
    assert_eq!(digester.digest(b"a", b"b", b"c", b"d"), Vec::<u8>::new());
    assert_eq!(digester.digest(b"", b"", b"", b""), Vec::<u8>::new());
}

#[test]
fn hmac_scheme_takes_the_key_bytes() {
    match Digester::new(&connection("hmac-sha256", "k\u{e9}y")).unwrap() {
        Digester::HmacSha256 { key } => assert_eq!(key, "k\u{e9}y".as_bytes().to_vec()),
        other => panic!("another digester: {:?}", other),
    }
}

#[test]
fn unknown_scheme_is_refused_by_name() {
    for name in ["hmac-sha512", "HMAC-SHA256", "hmac-sha256 ", "x"] {
        match Digester::new(&connection(name, "key")) {
            Err(JuError::UnknownDigest(refused)) => assert_eq!(refused, name),
            other => panic!("another result: {:?}", other),
        }
    }
}

#[test]
fn digest_is_the_hex_of_the_tag_of_the_joined_buffers() {
    let digester = Digester::new(&connection("hmac-sha256", "Jefe")).unwrap();
    let signature = digester.digest(b"what ", b"do ya want ", b"", b"for nothing?");
    assert_eq!(
        signature,
        b"5bdcc146bf60754e6a042426089575c75a003f089d2739839dec58b964ec3843".to_vec()
    );
}

#[test]
fn digest_depends_on_its_inputs_alone() {
    let one = Digester::new(&connection("hmac-sha256", "key")).unwrap();
    let two = Digester::new(&connection("hmac-sha256", "key")).unwrap();
    let first = one.digest(b"h", b"p", b"m", b"c");
    assert_eq!(first, one.digest(b"h", b"p", b"m", b"c"));
    assert_eq!(first, two.digest(b"h", b"p", b"m", b"c"));
    assert_eq!(first, one.clone().digest(b"hp", b"", b"m", b"c"));
    assert_ne!(first, one.digest(b"h", b"p", b"m", b"d"));
    let other = Digester::new(&connection("hmac-sha256", "kez")).unwrap();
    assert_ne!(first, other.digest(b"h", b"p", b"m", b"c"));
}

#[test]
fn digest_is_lower_case_hex() {
    let digester = Digester::new(&connection("hmac-sha256", "")).unwrap();
    let signature = digester.digest(b"", b"", b"", b"");
    assert_eq!(
        signature,
        b"b613679a0814d9ec772f95d778c35fc5ff1697c493715653c6c712144292c5ad".to_vec()
    );
}

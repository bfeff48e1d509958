use juker::con_info::ConnectionInfo;
use juker::digester::Digester;
use juker::error::JuError;
use juker::message::JuMessage;
use zeromq::ZmqMessage;

fn connection(scheme: &str, key: &str) -> ConnectionInfo {
    ConnectionInfo {
        kernel_name: "test".to_string(),
        ip: "127.0.0.1".to_string(),
        control_port: 1,
        shell_port: 2,
        stdin_port: 3,
        hb_port: 4,
        iopub_port: 5,
        key: key.to_string(),
        transport: "tcp".to_string(),
        signature_scheme: scheme.to_string(),
    }
}

fn document(text: &str) -> serde_json::Value {
    serde_json::from_str(text).unwrap()
}

fn wire(frames: &[&[u8]]) -> ZmqMessage {
    let mut msg = ZmqMessage::from(frames[0].to_vec());
    for frame in &frames[1..] {
        msg.push_back(frame.to_vec().into());
    }
    msg
}

fn frames_of(msg: &ZmqMessage) -> Vec<Vec<u8>> {
    msg.iter().map(|f| f.to_vec()).collect()
}

fn sample(ids: Vec<Vec<u8>>) -> JuMessage {
    JuMessage {
        zmq_ids: ids,
        header: document(r#"{"msg_type":"execute_request","msg_id":"a","n":[1,-2,"x",null,true]}"#),
        parent_header: document("{}"),
        metadata: document(r#"{"nested":{"k":"v \" \\ é"}}"#),
        content: document(r#"{"code":"2+2"}"#),
    }
}

fn malformed(result: Result<JuMessage, JuError>) -> String {
    match result {
        Err(JuError::MalformedMessage(text)) => text,
        Err(other) => panic!("another error: {:?}", other),
        Ok(_) => panic!("decoded"),
    }
}

#[test]
fn it_works() {}

#[test]
fn lib_it_works() {}

#[test]
fn encode_unsigned_message_frames() {
    let digester = Digester::new(&connection("", "")).unwrap();
    let message = JuMessage {
        zmq_ids: vec![b"peer-1".to_vec(), b"peer-2".to_vec()],
        header: document(r#"{"msg_type":"status","msg_id":"a"}"#),
        parent_header: document("{}"),
        metadata: document("{}"),
        content: document(r#"{"execution_state":"idle"}"#),
    };
    let frames = frames_of(&message.to_zmq_message(&digester));
    assert_eq!(frames.len(), 8);
    assert_eq!(frames[0], b"peer-1".to_vec());
    assert_eq!(frames[1], b"peer-2".to_vec());
    assert_eq!(frames[2], b"<IDS|MSG>".to_vec());
    assert_eq!(frames[3], Vec::<u8>::new());
    assert_eq!(frames[4], br#"{"msg_id":"a","msg_type":"status"}"#.to_vec());
    assert_eq!(frames[5], b"{}".to_vec());
    assert_eq!(frames[6], b"{}".to_vec());
    assert_eq!(frames[7], br#"{"execution_state":"idle"}"#.to_vec());
}

#[test]
fn encode_without_routing_ids_starts_with_delimiter() {
    let digester = Digester::new(&connection("", "")).unwrap();
    let frames = frames_of(&sample(Vec::new()).to_zmq_message(&digester));
    assert_eq!(frames.len(), 6);
    assert_eq!(frames[0], juker::DELIMITER.to_vec());
}

#[test]
fn encode_signs_the_four_document_texts() {
    let digester = Digester::new(&connection("hmac-sha256", "secret")).unwrap();
    let frames = frames_of(&sample(vec![b"id".to_vec()]).to_zmq_message(&digester));
    assert_eq!(frames.len(), 7);
    let again = digester.digest(&frames[3], &frames[4], &frames[5], &frames[6]);
    assert_eq!(frames[2], again);
    assert_eq!(frames[2].len(), 64);
    let mut joined = Vec::new();
    for frame in &frames[3..7] {
        joined.extend_from_slice(frame);
    }
    let tag = hmac_sha256::HMAC::mac(&joined, b"secret");
    assert_eq!(frames[2], hex::encode(tag).into_bytes());
}

#[test]
fn decode_undoes_encode() {
    for (scheme, key) in [("", ""), ("hmac-sha256", "k")] {
        let digester = Digester::new(&connection(scheme, key)).unwrap();
        let ids = vec![b"a".to_vec(), vec![0, 255, 7], Vec::new()];
        let original = sample(ids.clone());
        let decoded = JuMessage::try_from(sample(ids.clone()).to_zmq_message(&digester)).unwrap();
        assert_eq!(decoded.zmq_ids, ids);
        assert_eq!(decoded.header, original.header);
        assert_eq!(decoded.parent_header, original.parent_header);
        assert_eq!(decoded.metadata, original.metadata);
        assert_eq!(decoded.content, original.content);
    }
}

#[test]
fn decode_reads_a_message() {
    let decoded = JuMessage::try_from(wire(&[
        b"route",
        b"<IDS|MSG>",
        b"not checked",
        br#"{"msg_type":"kernel_info_request"}"#,
        b"{}",
        br#" { "a" : 1 } "#,
        b"[1, 2]",
        b"ignored",
    ]))
    .unwrap();
    assert_eq!(decoded.zmq_ids, vec![b"route".to_vec()]);
    assert_eq!(decoded.header, document(r#"{"msg_type":"kernel_info_request"}"#));
    assert_eq!(decoded.parent_header, document("{}"));
    assert_eq!(decoded.metadata, document(r#"{"a":1}"#));
    assert_eq!(decoded.content, document("[1,2]"));
}

#[test]
fn decode_stops_at_the_first_delimiter() {
    let decoded = JuMessage::try_from(wire(&[
        b"<IDS|MSG>",
        b"<IDS|MSG>",
        b"{}",
        b"1",
        b"2",
        b"3",
    ]))
    .unwrap();
    assert!(decoded.zmq_ids.is_empty());
    assert_eq!(decoded.header, document("{}"));
    assert_eq!(decoded.parent_header, document("1"));
    assert_eq!(decoded.metadata, document("2"));
    assert_eq!(decoded.content, document("3"));
}

#[test]
fn decode_without_delimiter_fails() {
    assert_eq!(malformed(JuMessage::try_from(wire(&[b"a", b"{}", b"{}"]))), "no delimiter found");
    assert_eq!(malformed(JuMessage::try_from(wire(&[b"<IDS|MSG"]))), "no delimiter found");
    assert_eq!(malformed(JuMessage::try_from(wire(&[b"<IDS|MSG>>"]))), "no delimiter found");
}

#[test]
fn decode_names_the_first_missing_part() {
    let parts: [&[u8]; 6] = [b"id", b"<IDS|MSG>", b"", b"{}", b"{}", b"{}"];
    assert_eq!(malformed(JuMessage::try_from(wire(&parts[..2]))), "no signature");
    assert_eq!(malformed(JuMessage::try_from(wire(&parts[..3]))), "no header");
    assert_eq!(malformed(JuMessage::try_from(wire(&parts[..4]))), "no parent header");
    assert_eq!(malformed(JuMessage::try_from(wire(&parts[..5]))), "no metadata");
    assert_eq!(malformed(JuMessage::try_from(wire(&parts[..6]))), "no content");
}

#[test]
fn decode_rejects_a_document_that_is_no_json() {
    for bad in 3..7 {
        let mut parts: Vec<&[u8]> = vec![b"id", b"<IDS|MSG>", b"", b"{}", b"{}", b"{}", b"{}"];
        parts[bad] = b"{not json";
        match JuMessage::try_from(wire(&parts)) {
            Err(JuError::JsonError(_)) => {}
            Err(other) => panic!("another error: {:?}", other),
            Ok(_) => panic!("decoded"),
        }
    }
}

#[test]
fn decode_reports_the_earlier_failure() {
    let bad_header: [&[u8]; 4] = [b"<IDS|MSG>", b"", b"nope", b"{}"];
    assert!(matches!(JuMessage::try_from(wire(&bad_header)), Err(JuError::JsonError(_))));
    let bad_later: [&[u8]; 4] = [b"<IDS|MSG>", b"", b"{}", b"nope"];
    assert!(matches!(JuMessage::try_from(wire(&bad_later)), Err(JuError::JsonError(_))));
    let missing_first: [&[u8]; 3] = [b"<IDS|MSG>", b"", b"{}"];
    assert_eq!(malformed(JuMessage::try_from(wire(&missing_first))), "no parent header");
}

#[test]
fn with_content_replaces_only_the_content() {
    let changed = sample(vec![b"id".to_vec()]).with_content(document(r#"{"x":1}"#));
    let original = sample(vec![b"id".to_vec()]);
    assert_eq!(changed.content, document(r#"{"x":1}"#));
    assert_eq!(changed.zmq_ids, original.zmq_ids);
    assert_eq!(changed.header, original.header);
    assert_eq!(changed.parent_header, original.parent_header);
    assert_eq!(changed.metadata, original.metadata);
}

#[test]
fn debug_string_shows_ids_as_text_and_documents_as_json() {
    let message = JuMessage {
        zmq_ids: vec![b"peer".to_vec(), vec![0xff, b'"'], Vec::new()],
        header: document(r#"{"b":1,"a":"x"}"#),
        parent_header: document("{}"),
        metadata: document("null"),
        content: document(r#"[true]"#),
    };
    assert_eq!(
        message.debug_string(),
        "JupyterMessage { zmq_ids: [\"peer\", \"\u{fffd}\\\"\", \"\"], header: {\"a\":\"x\",\"b\":1}, \
         parent_header: {}, metadata: null, content: [true] }"
    );
    let bare = JuMessage { zmq_ids: Vec::new(), ..message };
    assert!(bare.debug_string().starts_with("JupyterMessage { zmq_ids: [], header: "));
}

#[test]
fn error_messages() {
    assert_eq!(
        JuError::UnsupportedMessageType("\"x\"".to_string()).message(),
        "Unsupported Jupyter Message type: \"x\""
    );
    assert_eq!(
        JuError::MalformedMessage("no header".to_string()).message(),
        "Malformed Jupyter Message: no header"
    );
    assert_eq!(JuError::UnknownDigest("md5".to_string()).message(), "Unknown Digest: md5");
    assert_eq!(JuError::NoCode("why".to_string()).message(), "execute_request has no code: why");
    assert_eq!(
        JuError::GeneralJukerError("oops".to_string()).message(),
        "Juker encountered an error: oops"
    );
    let parse = serde_json::from_str::<serde_json::Value>("{").unwrap_err();
    let expected = parse.to_string();
    assert_eq!(JuError::JsonError(parse).message(), expected);
}

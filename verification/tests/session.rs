use juker::con_info::ConnectionInfo;
use juker::digester::Digester;
use juker::error::JuError;
use juker::message::JuMessage;
use juker::server_id::{header_value, reply_type_of, JuServerId};

fn connection(scheme: &str) -> ConnectionInfo {
    ConnectionInfo {
        kernel_name: "test".to_string(),
        ip: "127.0.0.1".to_string(),
        control_port: 1,
        shell_port: 2,
        stdin_port: 3,
        hb_port: 4,
        iopub_port: 5,
        key: "key".to_string(),
        transport: "tcp".to_string(),
        signature_scheme: scheme.to_string(),
    }
}

fn document(text: &str) -> serde_json::Value {
    serde_json::from_str(text).unwrap()
}

fn request(msg_type: &str) -> JuMessage {
    JuMessage {
        zmq_ids: vec![b"client".to_vec(), vec![1, 2, 3]],
        header: document(&format!(
            r#"{{"msg_id":"m1","session":"s1","username":"u","msg_type":"{}","version":"5.3"}}"#,
            msg_type
        )),
        parent_header: document("{}"),
        metadata: document(r#"{"m":1}"#),
        content: document(r#"{"code":"2+2"}"#),
    }
}

fn is_uuid(text: &str) -> bool {
    text.len() == 36
        && text.chars().enumerate().all(|(i, c)| match i {
            8 | 13 | 18 | 23 => c == '-',
            14 => c == '4',
            19 => "89ab".contains(c),
            _ => c.is_ascii_digit() || ('a'..='f').contains(&c),
        })
}

fn assert_header(header: &serde_json::Value, session: &str, msg_type: &str) {
    let members = header.as_object().unwrap();
    assert_eq!(members.len(), 6);
    assert!(is_uuid(members["msg_id"].as_str().unwrap()));
    assert_eq!(members["username"], "kernel");
    assert_eq!(members["session"], session);
    assert_eq!(members["msg_type"], msg_type);
    assert_eq!(members["version"], "5.3");
    let date = members["date"].as_str().unwrap();
    assert!(chrono::DateTime::parse_from_rfc3339(date).is_ok());
}

#[test]
fn new_session_has_a_uuid_and_the_digester_of_the_connection() {
    let unsigned = JuServerId::new(&connection("")).unwrap();
    assert!(is_uuid(&unsigned.session_id));
    assert!(matches!(unsigned.digester, Digester::Unsigned));
    let signed = JuServerId::new(&connection("hmac-sha256")).unwrap();
    assert!(matches!(&signed.digester, Digester::HmacSha256 { key } if key == b"key"));
    assert_ne!(unsigned.session_id, signed.session_id);
}

#[test]
fn new_session_refuses_an_unknown_scheme() {
    match JuServerId::new(&connection("sha1")) {
        Err(JuError::UnknownDigest(name)) => assert_eq!(name, "sha1"),
        Err(other) => panic!("another error: {:?}", other),
        Ok(_) => panic!("accepted"),
    }
}

#[test]
fn header_value_holds_what_it_is_given() {
    let header = header_value("id-1".to_string(), "sess", "status", "2024-01-02T03:04:05Z".to_string());
    assert_eq!(
        header,
        document(
            r#"{"msg_id":"id-1","username":"kernel","session":"sess","msg_type":"status",
                "version":"5.3","date":"2024-01-02T03:04:05Z"}"#
        )
    );
}

#[test]
fn new_header_is_fresh_each_time() {
    let jsi = JuServerId::new(&connection("")).unwrap();
    let one = jsi.new_header("status");
    let two = jsi.new_header("status");
    assert_header(&one, &jsi.session_id, "status");
    assert_header(&two, &jsi.session_id, "status");
    assert_ne!(one["msg_id"], two["msg_id"]);
}

#[test]
fn new_message_answers_to_nothing() {
    let jsi = JuServerId::new(&connection("")).unwrap();
    let message = jsi.new_message("status");
    assert!(message.zmq_ids.is_empty());
    assert_header(&message.header, &jsi.session_id, "status");
    assert_eq!(message.parent_header, document("{}"));
    assert_eq!(message.metadata, document("{}"));
    assert_eq!(message.content, document("{}"));
}

#[test]
fn derived_message_has_the_trigger_as_parent() {
    let jsi = JuServerId::new(&connection("")).unwrap();
    let trigger = request("execute_request");
    let message = jsi.new_derived_message(&trigger, "execute_input");
    assert!(message.zmq_ids.is_empty());
    assert_header(&message.header, &jsi.session_id, "execute_input");
    assert_eq!(message.parent_header, trigger.header);
    assert_eq!(message.metadata, document("{}"));
    assert_eq!(message.content, document("{}"));
}

#[test]
fn reply_to_execute_request_is_execute_reply() {
    let jsi = JuServerId::new(&connection("")).unwrap();
    let trigger = request("execute_request");
    let reply = jsi.new_reply_message(&trigger);
    assert_header(&reply.header, &jsi.session_id, "execute_reply");
    assert_eq!(reply.zmq_ids, trigger.zmq_ids);
    assert_eq!(reply.parent_header, trigger.header);
    assert_eq!(reply.metadata, document("{}"));
    assert_eq!(reply.content, document("{}"));
}

#[test]
fn reply_type_replaces_the_final_request() {
    assert_eq!(reply_type_of(Some("execute_request")), "execute_reply");
    assert_eq!(reply_type_of(Some("kernel_info_request")), "kernel_info_reply");
    assert_eq!(reply_type_of(Some("_request")), "_reply");
    assert_eq!(reply_type_of(Some("caf\u{e9}_request")), "caf\u{e9}_reply");
    assert_eq!(reply_type_of(Some("a_request_b_request")), "a_request_b_reply");
}

#[test]
fn reply_type_without_the_ending_stays() {
    assert_eq!(reply_type_of(Some("status")), "status");
    assert_eq!(reply_type_of(Some("request")), "request");
    assert_eq!(reply_type_of(Some("execute_request ")), "execute_request ");
    assert_eq!(reply_type_of(Some("execute_Request")), "execute_Request");
    assert_eq!(reply_type_of(Some("")), "");
    assert_eq!(reply_type_of(None), "");
}

#[test]
fn reply_to_a_request_without_type_has_the_empty_type() {
    let jsi = JuServerId::new(&connection("")).unwrap();
    let mut trigger = request("x");
    trigger.header = document(r#"{"msg_type":5}"#);
    let reply = jsi.new_reply_message(&trigger);
    assert_header(&reply.header, &jsi.session_id, "");
    trigger.header = document("[]");
    let reply = jsi.new_reply_message(&trigger);
    assert_header(&reply.header, &jsi.session_id, "");
    assert_eq!(reply.parent_header, document("[]"));
}

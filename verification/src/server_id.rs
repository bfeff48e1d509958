//! The session: its identifier and digester, and the headers and messages
//! that the server makes under it.

use vstd::prelude::*;
use crate::con_info::ConnectionInfo;
use crate::digester::{wanted_key, Digester};
use crate::error::{JuError, JuResult};
use crate::json::{as_str, doc_of, empty_object, member, set_member, string_value, Doc};
use crate::message::{frames_view, JuMessage, MessageView};

verus! {

/// Whether `c` is a digit or one of `a` to `f`.
pub open spec fn is_lower_hex(c: char) -> bool {
    (0x30 <= c as u32 <= 0x39) || (0x61 <= c as u32 <= 0x66)
}

/// Whether `c` may stand at place `i` of a hyphenated version 4 UUID:
/// hyphens part the groups of 8, 4, 4, 4 and 12 hex digits, the third group
/// begins with the version, `4`, and the fourth with the variant, one of
/// `8`, `9`, `a` and `b`.
pub open spec fn is_uuid_char(i: int, c: char) -> bool {
    if i == 8 || i == 13 || i == 18 || i == 23 {
        c == '-'
    } else if i == 14 {
        c == '4'
    } else if i == 19 {
        c == '8' || c == '9' || c == 'a' || c == 'b'
    } else {
        is_lower_hex(c)
    }
}

/// Whether `s` has the shape of a hyphenated version 4 UUID in lower case.
pub open spec fn is_uuid_text(s: Seq<char>) -> bool {
    &&& s.len() == 36
    &&& forall|i: int| 0 <= i < 36 ==> is_uuid_char(i, #[trigger] s[i])
}

/// `Uuid::new_v4` and its `Display`: a random UUID of version 4, hyphenated,
/// in lower case. Which one it is depends on chance.
#[verifier::external_body]
fn new_uuid() -> (r: String)
    ensures
        is_uuid_text(r@),
{
    uuid::Uuid::new_v4().to_string()
}

/// `Utc::now` and `DateTime::to_rfc3339`: the present time.
#[verifier::external_body]
fn now_rfc3339() -> (r: String) {
    chrono::Utc::now().to_rfc3339()
}

/// The header of a message: who made it, in which session, of what type and
/// when.
pub open spec fn header_doc(
    msg_id: Seq<char>,
    session: Seq<char>,
    msg_type: Seq<char>,
    date: Seq<char>,
) -> Doc {
    Doc::empty_object().with("msg_id"@, Doc::Str(msg_id)).with(
        "username"@,
        Doc::Str("kernel"@),
    ).with("session"@, Doc::Str(session)).with("msg_type"@, Doc::Str(msg_type)).with(
        "version"@,
        Doc::Str("5.3"@),
    ).with("date"@, Doc::Str(date))
}

/// Whether `h` is a header of the session for a message of the given type,
/// whatever its identifier and date.
pub open spec fn is_header(h: Doc, session: Seq<char>, msg_type: Seq<char>) -> bool {
    exists|msg_id: Seq<char>, date: Seq<char>|
        is_uuid_text(msg_id) && h == #[trigger] header_doc(msg_id, session, msg_type, date)
}

/// The type of the reply to a request: the request's type with its final
/// `_request` replaced by `_reply`. A type without that ending stays as it
/// is, and a request without a type gets the empty type.
pub open spec fn reply_type(trigger: Option<Seq<char>>) -> Seq<char> {
    match trigger {
        None => Seq::empty(),
        Some(t) => if t.len() >= 8 && t.subrange(t.len() - 8, t.len() as int) == "_request"@ {
            t.subrange(0, t.len() - 8) + "_reply"@
        } else {
            t
        },
    }
}

/// A header carries what it was made from: each of its six members is the
/// string that was given for it, the user name is `kernel` and the protocol
/// version `5.3`.
pub proof fn lemma_header_members(
    msg_id: Seq<char>,
    session: Seq<char>,
    msg_type: Seq<char>,
    date: Seq<char>,
)
    ensures
        header_doc(msg_id, session, msg_type, date).member("msg_id"@) == Doc::Str(msg_id),
        header_doc(msg_id, session, msg_type, date).member("username"@) == Doc::Str("kernel"@),
        header_doc(msg_id, session, msg_type, date).member("session"@) == Doc::Str(session),
        header_doc(msg_id, session, msg_type, date).member("msg_type"@) == Doc::Str(msg_type),
        header_doc(msg_id, session, msg_type, date).member("version"@) == Doc::Str("5.3"@),
        header_doc(msg_id, session, msg_type, date).member("date"@) == Doc::Str(date),
{
    reveal_strlit("msg_id");
    reveal_strlit("username");
    reveal_strlit("session");
    reveal_strlit("msg_type");
    reveal_strlit("version");
    reveal_strlit("date");
    assert("msg_id"@.len() == 6 && "date"@.len() == 4);
    assert("username"@.len() == 8 && "msg_type"@.len() == 8);
    assert("session"@.len() == 7 && "version"@.len() == 7);
    assert("username"@[0] != "msg_type"@[0]);
    assert("session"@[0] != "version"@[0]);
}

/// A request type that ends in `_request` has the reply type that ends in
/// `_reply` instead; so the reply to an `execute_request` is an
/// `execute_reply`.
pub proof fn lemma_reply_type(stem: Seq<char>)
    ensures
        reply_type(Some(stem + "_request"@)) == stem + "_reply"@,
        reply_type(Some("execute_request"@)) == "execute_reply"@,
{
    reveal_strlit("_request");
    reveal_strlit("_reply");
    reveal_strlit("execute_request");
    reveal_strlit("execute_reply");
    let t = stem + "_request"@;
    assert(t.subrange(t.len() - 8, t.len() as int) =~= "_request"@);
    assert(t.subrange(0, t.len() - 8) =~= stem);
    let e = "execute_request"@;
    assert(e.subrange(e.len() - 8, e.len() as int) =~= "_request"@);
    assert(e.subrange(0, e.len() - 8) + "_reply"@ =~= "execute_reply"@);
}

/// The reply to an `execute_request` is an `execute_reply` that is routed
/// as the request was and has the request's header as its parent header.
pub proof fn lemma_reply_to_execute_request(
    jsi: JuServerId,
    reply: MessageView,
    trigger: MessageView,
    content: Doc,
)
    requires
        trigger.header.member("msg_type"@) == Doc::Str("execute_request"@),
        jsi.is_reply_message(reply, trigger, content),
    ensures
        reply.header.member("msg_type"@) == Doc::Str("execute_reply"@),
        reply.zmq_ids == trigger.zmq_ids,
        reply.parent_header == trigger.header,
{
    lemma_reply_type(Seq::empty());
    let (msg_id, date) = choose|msg_id: Seq<char>, date: Seq<char>|
        is_uuid_text(msg_id) && reply.header == #[trigger] header_doc(
            msg_id,
            jsi.session_id@,
            "execute_reply"@,
            date,
        );
    lemma_header_members(msg_id, jsi.session_id@, "execute_reply"@, date);
}

/// The header with the given identifier and date.
pub fn header_value(msg_id: String, session: &str, msg_type: &str, date: String) -> (r:
    serde_json::Value)
    ensures
        doc_of(r) == header_doc(msg_id@, session@, msg_type@, date@),
{
    let mut header = empty_object();
    set_member(&mut header, "msg_id", string_value(msg_id));
    set_member(&mut header, "username", string_value("kernel".to_owned()));
    set_member(&mut header, "session", string_value(session.to_owned()));
    set_member(&mut header, "msg_type", string_value(msg_type.to_owned()));
    set_member(&mut header, "version", string_value("5.3".to_owned()));
    set_member(&mut header, "date", string_value(date));
    header
}

/// The type of the reply to a request of type `trigger`.
pub fn reply_type_of(trigger: Option<&str>) -> (r: String)
    ensures
        r@ == reply_type(
            match trigger {
                Some(t) => Some(t@),
                None => None,
            },
        ),
{
    match trigger {
        None => String::new(),
        Some(t) => {
            let n = t.unicode_len();
            if n >= 8 {
                let ending = t.substring_char(n - 8, n).to_owned();
                if ending == "_request".to_owned() {
                    return t.substring_char(0, n - 8).to_owned().concat("_reply");
                }
            }
            t.to_owned()
        },
    }
}

/// One server run's identity.
#[derive(Debug, Clone)]
pub struct JuServerId {
    pub session_id: String,
    pub digester: Digester,
}

impl JuServerId {
    /// A new session for the connection, with the digester that it asks for.
    /// It fails where the connection's signature scheme is unknown.
    pub fn new(ci: &ConnectionInfo) -> (r: JuResult<JuServerId>)
        ensures
            match r {
                Ok(id) => {
                    &&& is_uuid_text(id.session_id@)
                    &&& wanted_key(*ci) == Ok::<Option<Seq<u8>>, Seq<char>>(id.digester.key())
                },
                Err(e) => {
                    &&& e matches JuError::UnknownDigest(name)
                    &&& wanted_key(*ci) == Err::<Option<Seq<u8>>, Seq<char>>(name@)
                },
            },
    {
        match Digester::new(ci) {
            Ok(digester) => Ok(JuServerId { session_id: new_uuid(), digester }),
            Err(e) => Err(e),
        }
    }

    /// A header for a message of the given type, with a new identifier and
    /// the present time.
    pub fn new_header(&self, msg_type: &str) -> (r: serde_json::Value)
        ensures
            is_header(doc_of(r), self.session_id@, msg_type@),
    {
        let msg_id = new_uuid();
        let date = now_rfc3339();
        let ghost id = msg_id@;
        let ghost at = date@;
        let header = header_value(msg_id, self.session_id.as_str(), msg_type, date);
        assert(doc_of(header) == header_doc(id, self.session_id@, msg_type@, at));
        header
    }

    /// A message that answers to nothing: no routing identities, no parent.
    pub fn new_message(&self, msg_type: &str) -> (r: JuMessage)
        ensures
            self.is_new_message(r@, msg_type@, Doc::empty_object()),
    {
        JuMessage {
            zmq_ids: Vec::new(),
            header: self.new_header(msg_type),
            parent_header: empty_object(),
            metadata: empty_object(),
            content: empty_object(),
        }
    }

    /// A message that `msg` caused: its parent header is the header of `msg`.
    pub fn new_derived_message(&self, msg: &JuMessage, msg_type: &str) -> (r: JuMessage)
        ensures
            self.is_derived_message(r@, msg@, msg_type@, Doc::empty_object()),
    {
        let header = self.new_header(msg_type);
        JuMessage {
            zmq_ids: Vec::new(),
            header,
            parent_header: msg.header.clone(),
            metadata: empty_object(),
            content: empty_object(),
        }
    }

    /// The reply to `msg`: routed as `msg` was, of the reply type of the type
    /// of `msg`, with the header of `msg` as its parent header.
    pub fn new_reply_message(&self, msg: &JuMessage) -> (r: JuMessage)
        ensures
            self.is_reply_message(r@, msg@, Doc::empty_object()),
    {
        let msg_type = reply_type_of(as_str(member(&msg.header, "msg_type")));
        let header = self.new_header(msg_type.as_str());
        let mut zmq_ids: Vec<Vec<u8>> = Vec::new();
        let mut i: usize = 0;
        while i < msg.zmq_ids.len()
            invariant
                i <= msg.zmq_ids@.len(),
                frames_view(zmq_ids@) == frames_view(msg.zmq_ids@).subrange(0, i as int),
            decreases msg.zmq_ids@.len() - i,
        {
            let ghost before = zmq_ids@;
            let id = vstd::slice::slice_to_vec(msg.zmq_ids[i].as_slice());
            zmq_ids.push(id);
            i = i + 1;
            assert(frames_view(before) =~= frames_view(zmq_ids@).subrange(0, i - 1));
            assert(frames_view(zmq_ids@) =~= frames_view(msg.zmq_ids@).subrange(0, i as int));
        }
        assert(frames_view(zmq_ids@) =~= frames_view(msg.zmq_ids@));
        JuMessage {
            zmq_ids,
            header,
            parent_header: msg.header.clone(),
            metadata: empty_object(),
            content: empty_object(),
        }
    }

    /// `m` is a message of this session that answers to nothing: no routing
    /// identities, no parent, the given type and content.
    pub open spec fn is_new_message(
        &self,
        m: MessageView,
        msg_type: Seq<char>,
        content: Doc,
    ) -> bool {
        &&& m.zmq_ids.len() == 0
        &&& is_header(m.header, self.session_id@, msg_type)
        &&& m.parent_header == Doc::empty_object()
        &&& m.metadata == Doc::empty_object()
        &&& m.content == content
    }

    /// `m` is a message of this session that `trigger` caused: no routing
    /// identities, the header of `trigger` as its parent, the given type and
    /// content.
    pub open spec fn is_derived_message(
        &self,
        m: MessageView,
        trigger: MessageView,
        msg_type: Seq<char>,
        content: Doc,
    ) -> bool {
        &&& m.zmq_ids.len() == 0
        &&& is_header(m.header, self.session_id@, msg_type)
        &&& m.parent_header == trigger.header
        &&& m.metadata == Doc::empty_object()
        &&& m.content == content
    }

    /// `m` is the reply of this session to `trigger`: routed as `trigger`
    /// was, of the reply type of its type, with its header as parent and the
    /// given content.
    pub open spec fn is_reply_message(
        &self,
        m: MessageView,
        trigger: MessageView,
        content: Doc,
    ) -> bool {
        &&& m.zmq_ids == trigger.zmq_ids
        &&& is_header(
            m.header,
            self.session_id@,
            reply_type(trigger.header.member("msg_type"@).as_str()),
        )
        &&& m.parent_header == trigger.header
        &&& m.metadata == Doc::empty_object()
        &&& m.content == content
    }
}

} // verus!

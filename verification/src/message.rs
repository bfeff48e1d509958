//! The protocol's message, and its form on the wire.
//!
//! On the wire a message is a sequence of frames: the routing identities, the
//! delimiter, the signature, and the four documents as JSON text, in the order
//! header, parent header, metadata, content.

use vstd::prelude::*;
use crate::DELIMITER;
use crate::digester::{signature, Digester};
use crate::error::{JuError, JuResult};
use crate::frames::{frame_at, frame_count, frames_of, push_back, push_front, single_frame};
use crate::json::{doc_of, from_slice, json_parse, json_string, json_text, text_of, to_vec, Doc};

verus! {

/// What an evaluation gave.
pub enum EvalResult {
    Success { results: Vec<EvalValue> },
    Error { ename: serde_json::Value, evalue: serde_json::Value, traceback: Vec<serde_json::Value> },
}

/// One value that an evaluation produced.
pub struct EvalValue {
    pub data: serde_json::Value,
    pub metadata: serde_json::Value,
}

/// Where a message that the server has to handle comes from.
pub enum MsgSource<T> {
    Shell(T),
    Control(T),
    Execution { eval_result: EvalResult, original_msg: JuMessage },
}

/// The unit of exchange. The routing identities are those of the request
/// that a reply answers, and empty on a published message.
pub struct JuMessage {
    pub zmq_ids: Vec<Vec<u8>>,
    pub header: serde_json::Value,
    pub parent_header: serde_json::Value,
    pub metadata: serde_json::Value,
    pub content: serde_json::Value,
}

/// The model of a message.
pub struct MessageView {
    pub zmq_ids: Seq<Seq<u8>>,
    pub header: Doc,
    pub parent_header: Doc,
    pub metadata: Doc,
    pub content: Doc,
}

/// The models of a sequence of frames.
pub open spec fn frames_view(frames: Seq<Vec<u8>>) -> Seq<Seq<u8>> {
    frames.map_values(|f: Vec<u8>| f@)
}

impl View for JuMessage {
    type V = MessageView;

    open spec fn view(&self) -> MessageView {
        MessageView {
            zmq_ids: frames_view(self.zmq_ids@),
            header: doc_of(self.header),
            parent_header: doc_of(self.parent_header),
            metadata: doc_of(self.metadata),
            content: doc_of(self.content),
        }
    }
}

/// The frames of a message that is signed under `key`.
pub open spec fn encode(m: MessageView, key: Option<Seq<u8>>) -> Seq<Seq<u8>> {
    let header = json_text(m.header);
    let parent_header = json_text(m.parent_header);
    let metadata = json_text(m.metadata);
    let content = json_text(m.content);
    m.zmq_ids + seq![
        DELIMITER@,
        signature(key, header, parent_header, metadata, content),
        header,
        parent_header,
        metadata,
        content,
    ]
}

/// A part of a message that follows the delimiter.
pub enum Part {
    Signature,
    Header,
    ParentHeader,
    Metadata,
    Content,
}

/// Why a sequence of frames is no message.
pub enum DecodeFailure {
    /// No frame is the delimiter.
    NoDelimiter,
    /// The frames end before this part.
    Missing(Part),
    /// The frame of this document is no JSON text.
    NotJson(Part),
}

impl DecodeFailure {
    /// What a malformed message is reported with; a document that is no
    /// JSON text is reported with the parser's own error.
    pub open spec fn text(self) -> Option<Seq<char>> {
        match self {
            DecodeFailure::NoDelimiter => Some("no delimiter found"@),
            DecodeFailure::Missing(Part::Signature) => Some("no signature"@),
            DecodeFailure::Missing(Part::Header) => Some("no header"@),
            DecodeFailure::Missing(Part::ParentHeader) => Some("no parent header"@),
            DecodeFailure::Missing(Part::Metadata) => Some("no metadata"@),
            DecodeFailure::Missing(Part::Content) => Some("no content"@),
            DecodeFailure::NotJson(_) => None,
        }
    }

    /// Whether `e` is the error that reports this failure.
    pub open spec fn reported_as(self, e: JuError) -> bool {
        match self.text() {
            Some(text) => e matches JuError::MalformedMessage(t) && t@ == text,
            None => e is JsonError,
        }
    }
}

/// Whether the frame at `at` is the delimiter and no frame before it is.
pub open spec fn is_first_delimiter(frames: Seq<Seq<u8>>, at: int) -> bool {
    &&& 0 <= at < frames.len()
    &&& frames[at] == DELIMITER@
    &&& forall|j: int| 0 <= j < at ==> frames[j] != DELIMITER@
}

/// Whether some frame is the delimiter.
pub open spec fn has_delimiter(frames: Seq<Seq<u8>>) -> bool {
    exists|at: int| is_first_delimiter(frames, at)
}

/// The place of the first delimiter, where there is one.
pub open spec fn delimiter_at(frames: Seq<Seq<u8>>) -> int {
    choose|at: int| is_first_delimiter(frames, at)
}

/// The message that a sequence of frames states, or why it states none.
///
/// The frames before the first delimiter are the routing identities. After
/// it come the signature, which is read and not checked, and the four
/// documents; frames after those are ignored. The parts are taken in their
/// order, so the first one that is missing or no JSON text decides the
/// failure.
pub open spec fn decode(frames: Seq<Seq<u8>>) -> Result<MessageView, DecodeFailure> {
    if !has_delimiter(frames) {
        Err(DecodeFailure::NoDelimiter)
    } else {
        let at = delimiter_at(frames);
        let n = frames.len() - at - 1;
        if n < 1 {
            Err(DecodeFailure::Missing(Part::Signature))
        } else if n < 2 {
            Err(DecodeFailure::Missing(Part::Header))
        } else if json_parse(frames[at + 2]) is None {
            Err(DecodeFailure::NotJson(Part::Header))
        } else if n < 3 {
            Err(DecodeFailure::Missing(Part::ParentHeader))
        } else if json_parse(frames[at + 3]) is None {
            Err(DecodeFailure::NotJson(Part::ParentHeader))
        } else if n < 4 {
            Err(DecodeFailure::Missing(Part::Metadata))
        } else if json_parse(frames[at + 4]) is None {
            Err(DecodeFailure::NotJson(Part::Metadata))
        } else if n < 5 {
            Err(DecodeFailure::Missing(Part::Content))
        } else if json_parse(frames[at + 5]) is None {
            Err(DecodeFailure::NotJson(Part::Content))
        } else {
            Ok(
                MessageView {
                    zmq_ids: frames.subrange(0, at),
                    header: json_parse(frames[at + 2])->0,
                    parent_header: json_parse(frames[at + 3])->0,
                    metadata: json_parse(frames[at + 4])->0,
                    content: json_parse(frames[at + 5])->0,
                },
            )
        }
    }
}

/// A sequence of frames has at most one first delimiter.
pub proof fn lemma_first_delimiter_unique(frames: Seq<Seq<u8>>, at: int)
    requires
        is_first_delimiter(frames, at),
    ensures
        has_delimiter(frames),
        delimiter_at(frames) == at,
{
    let other = delimiter_at(frames);
    assert(is_first_delimiter(frames, other));
    if other < at {
        assert(frames[other] != DELIMITER@);
    } else if at < other {
        assert(frames[at] != DELIMITER@);
    }
}

/// Whether no routing identity is the delimiter.
pub open spec fn routable(zmq_ids: Seq<Seq<u8>>) -> bool {
    forall|i: int| 0 <= i < zmq_ids.len() ==> zmq_ids[i] != DELIMITER@
}

/// Whether a document is read back from its own text.
pub open spec fn reads_back(d: Doc) -> bool {
    json_parse(json_text(d)) == Some(d)
}

/// The part in the `k`-th frame after the delimiter, counted from 0.
pub open spec fn part_at(k: int) -> Part {
    if k <= 0 {
        Part::Signature
    } else if k == 1 {
        Part::Header
    } else if k == 2 {
        Part::ParentHeader
    } else if k == 3 {
        Part::Metadata
    } else {
        Part::Content
    }
}

/// Decoding undoes encoding. For a message whose routing identities are not
/// the delimiter and whose documents are read back from their own text, the
/// frames of the message state that message again, under any key; and the
/// frame after the delimiter is the signature of the four document texts
/// under that key.
pub proof fn lemma_decode_encode(m: MessageView, key: Option<Seq<u8>>)
    requires
        routable(m.zmq_ids),
        reads_back(m.header),
        reads_back(m.parent_header),
        reads_back(m.metadata),
        reads_back(m.content),
    ensures
        decode(encode(m, key)) == Ok::<MessageView, DecodeFailure>(m),
        encode(m, key)[m.zmq_ids.len() as int + 1] == signature(
            key,
            json_text(m.header),
            json_text(m.parent_header),
            json_text(m.metadata),
            json_text(m.content),
        ),
{
    let frames = encode(m, key);
    let at = m.zmq_ids.len() as int;
    assert(frames.len() == at + 6);
    assert(is_first_delimiter(frames, at)) by {
        assert(frames[at] == DELIMITER@);
        assert forall|j: int| 0 <= j < at implies frames[j] != DELIMITER@ by {
            assert(frames[j] == m.zmq_ids[j]);
        }
    }
    lemma_first_delimiter_unique(frames, at);
    assert(frames[at + 2] == json_text(m.header));
    assert(frames[at + 3] == json_text(m.parent_header));
    assert(frames[at + 4] == json_text(m.metadata));
    assert(frames[at + 5] == json_text(m.content));
    assert(frames.subrange(0, at) =~= m.zmq_ids);
}

/// Frames without a delimiter state no message: the failure is that the
/// delimiter is missing.
pub proof fn lemma_decode_no_delimiter(frames: Seq<Seq<u8>>)
    requires
        routable(frames),
    ensures
        decode(frames) == Err::<MessageView, DecodeFailure>(DecodeFailure::NoDelimiter),
{
    if has_delimiter(frames) {
        let at = delimiter_at(frames);
        assert(is_first_delimiter(frames, at));
        assert(frames[at] != DELIMITER@);
    }
}

/// Frames that end too early state no message, and the failure names the
/// first part that is missing. Here `parts` are the frames after the
/// delimiter, fewer than five, and those of them that are documents are JSON
/// text.
pub proof fn lemma_decode_truncated(zmq_ids: Seq<Seq<u8>>, parts: Seq<Seq<u8>>)
    requires
        routable(zmq_ids),
        parts.len() < 5,
        forall|k: int| 1 <= k < parts.len() ==> json_parse(#[trigger] parts[k]) is Some,
    ensures
        decode(zmq_ids + seq![DELIMITER@] + parts) == Err::<MessageView, DecodeFailure>(
            DecodeFailure::Missing(part_at(parts.len() as int)),
        ),
{
    let frames = zmq_ids + seq![DELIMITER@] + parts;
    let at = zmq_ids.len() as int;
    lemma_delimiter_after(zmq_ids, parts);
    if parts.len() > 1 {
        assert(frames[at + 2] == parts[1]);
    }
    if parts.len() > 2 {
        assert(frames[at + 3] == parts[2]);
    }
    if parts.len() > 3 {
        assert(frames[at + 4] == parts[3]);
    }
}

/// Frames with a document that is no JSON text state no message, and the
/// failure names that document. Here `parts` are the frames after the
/// delimiter, the `k`-th of them is the document in question, and the
/// documents before it are JSON text.
pub proof fn lemma_decode_not_json(zmq_ids: Seq<Seq<u8>>, parts: Seq<Seq<u8>>, k: int)
    requires
        routable(zmq_ids),
        1 <= k <= 4,
        k < parts.len(),
        json_parse(parts[k]) is None,
        forall|j: int| 1 <= j < k ==> json_parse(#[trigger] parts[j]) is Some,
    ensures
        decode(zmq_ids + seq![DELIMITER@] + parts) == Err::<MessageView, DecodeFailure>(
            DecodeFailure::NotJson(part_at(k)),
        ),
{
    let frames = zmq_ids + seq![DELIMITER@] + parts;
    let at = zmq_ids.len() as int;
    lemma_delimiter_after(zmq_ids, parts);
    assert(frames[at + 2] == parts[1]);
    if k >= 2 {
        assert(frames[at + 3] == parts[2]);
    }
    if k >= 3 {
        assert(frames[at + 4] == parts[3]);
    }
    if k >= 4 {
        assert(frames[at + 5] == parts[4]);
    }
}

/// Behind routing identities that are not the delimiter, the delimiter is
/// the first one.
proof fn lemma_delimiter_after(zmq_ids: Seq<Seq<u8>>, parts: Seq<Seq<u8>>)
    requires
        routable(zmq_ids),
    ensures
        has_delimiter(zmq_ids + seq![DELIMITER@] + parts),
        delimiter_at(zmq_ids + seq![DELIMITER@] + parts) == zmq_ids.len(),
        (zmq_ids + seq![DELIMITER@] + parts).len() == zmq_ids.len() + 1 + parts.len(),
{
    let frames = zmq_ids + seq![DELIMITER@] + parts;
    let at = zmq_ids.len() as int;
    assert(is_first_delimiter(frames, at)) by {
        assert(frames[at] == DELIMITER@);
        assert forall|j: int| 0 <= j < at implies frames[j] != DELIMITER@ by {
            assert(frames[j] == zmq_ids[j]);
        }
    }
    lemma_first_delimiter_unique(frames, at);
}

/// A routing identity as it is shown: its bytes read as UTF-8, with what is
/// no UTF-8 replaced, quoted and escaped as `Debug` does for a string.
pub uninterp spec fn quoted_lossy(bytes: Seq<u8>) -> Seq<char>;

/// `String::from_utf8_lossy`, formatted with `{:?}`.
#[verifier::external_body]
fn quote_lossy(bytes: &[u8]) -> (r: String)
    ensures
        r@ == quoted_lossy(bytes@),
{
    format!("{:?}", String::from_utf8_lossy(bytes))
}

/// The routing identities as they are shown, parted by `, `.
pub open spec fn shown_ids(zmq_ids: Seq<Seq<u8>>) -> Seq<char>
    decreases zmq_ids.len(),
{
    if zmq_ids.len() == 0 {
        Seq::empty()
    } else if zmq_ids.len() == 1 {
        quoted_lossy(zmq_ids[0])
    } else {
        shown_ids(zmq_ids.drop_last()) + ", "@ + quoted_lossy(zmq_ids.last())
    }
}

/// A message as it is shown in logs: the routing identities as text, the
/// documents as JSON.
pub open spec fn shown(m: MessageView) -> Seq<char> {
    "JupyterMessage { zmq_ids: ["@ + shown_ids(m.zmq_ids) + "], header: "@ + json_string(
        m.header,
    ) + ", parent_header: "@ + json_string(m.parent_header) + ", metadata: "@ + json_string(
        m.metadata,
    ) + ", content: "@ + json_string(m.content) + " }"@
}

impl JuMessage {
    /// The message with its content replaced.
    pub fn with_content(self, content: serde_json::Value) -> (r: JuMessage)
        ensures
            r@ == (MessageView { content: doc_of(content), ..self@ }),
    {
        let mut m = self;
        m.content = content;
        m
    }

    /// The message on the wire, signed by `digester`.
    pub fn to_zmq_message(self, digester: &Digester) -> (r: zeromq::ZmqMessage)
        ensures
            frames_of(r) == encode(self@, digester.key()),
    {
        let mut msg = single_frame(delimiter_frame());
        let ghost ids = frames_view(self.zmq_ids@);
        let mut zmq_ids = self.zmq_ids;
        let mut left: usize = zmq_ids.len();
        while left > 0
            invariant
                left <= ids.len(),
                zmq_ids@.len() == left,
                frames_view(zmq_ids@) == ids.subrange(0, left as int),
                frames_of(msg) == ids.subrange(left as int, ids.len() as int) + seq![DELIMITER@],
            decreases left,
        {
            let ghost before = zmq_ids@;
            let id = zmq_ids.pop().unwrap();
            left = left - 1;
            push_front(&mut msg, id);
            assert(id@ == frames_view(before)[left as int]);
            assert(frames_view(zmq_ids@) =~= ids.subrange(0, left as int)) by {
                assert forall|i: int| 0 <= i < left implies frames_view(zmq_ids@)[i]
                    == ids.subrange(0, left as int)[i] by {
                    assert(frames_view(before)[i] == ids.subrange(0, left + 1)[i]);
                }
            }
            assert(frames_of(msg) =~= ids.subrange(left as int, ids.len() as int) + seq![
                DELIMITER@,
            ]);
        }
        let header = to_vec(&self.header).unwrap();
        let parent_header = to_vec(&self.parent_header).unwrap();
        let metadata = to_vec(&self.metadata).unwrap();
        let content = to_vec(&self.content).unwrap();
        let hmac = digester.digest(
            header.as_slice(),
            parent_header.as_slice(),
            metadata.as_slice(),
            content.as_slice(),
        );
        push_back(&mut msg, hmac);
        push_back(&mut msg, header);
        push_back(&mut msg, parent_header);
        push_back(&mut msg, metadata);
        push_back(&mut msg, content);
        assert(frames_of(msg) =~= encode(self@, digester.key()));
        msg
    }

    /// The message as it is shown in logs.
    pub fn debug_string(&self) -> (r: String)
        ensures
            r@ == shown(self@),
    {
        let ghost ids = frames_view(self.zmq_ids@);
        let mut text = "JupyterMessage { zmq_ids: [".to_owned();
        let ghost head = text@;
        let mut i: usize = 0;
        while i < self.zmq_ids.len()
            invariant
                i <= self.zmq_ids@.len(),
                ids == frames_view(self.zmq_ids@),
                text@ == head + shown_ids(ids.subrange(0, i as int)),
            decreases self.zmq_ids@.len() - i,
        {
            let ghost before = ids.subrange(0, i as int);
            if i > 0 {
                text.append(", ");
            }
            let quoted = quote_lossy(self.zmq_ids[i].as_slice());
            text.append(quoted.as_str());
            i = i + 1;
            assert(ids.subrange(0, i as int).drop_last() =~= before);
            assert(ids.subrange(0, i as int).last() == ids[i - 1]);
            assert(text@ =~= head + shown_ids(ids.subrange(0, i as int)));
        }
        assert(ids.subrange(0, i as int) =~= ids);
        text.append("], header: ");
        text.append(text_of(&self.header).as_str());
        text.append(", parent_header: ");
        text.append(text_of(&self.parent_header).as_str());
        text.append(", metadata: ");
        text.append(text_of(&self.metadata).as_str());
        text.append(", content: ");
        text.append(text_of(&self.content).as_str());
        text.append(" }");
        assert(text@ =~= shown(self@));
        text
    }

    /// The message that the frames of `msg` state.
    pub fn try_from(msg: zeromq::ZmqMessage) -> (r: JuResult<JuMessage>)
        ensures
            match r {
                Ok(m) => decode(frames_of(msg)) == Ok::<MessageView, DecodeFailure>(m@),
                Err(e) => decode(frames_of(msg)) matches Err(f) && f.reported_as(e),
            },
    {
        let ghost frames = frames_of(msg);
        let n = frame_count(&msg);
        let mut zmq_ids: Vec<Vec<u8>> = Vec::new();
        let mut at: usize = 0;
        let mut found = false;
        while at < n && !found
            invariant
                frames == frames_of(msg),
                n == frames.len(),
                at <= n,
                !found ==> frames_view(zmq_ids@) == frames.subrange(0, at as int),
                !found ==> forall|j: int| 0 <= j < at ==> frames[j] != DELIMITER@,
                found ==> is_first_delimiter(frames, at as int),
                found ==> frames_view(zmq_ids@) == frames.subrange(0, at as int),
            decreases n - at + (if found { 0int } else { 1int }),
        {
            let frame = frame_at(&msg, at).unwrap();
            if is_delimiter(frame) {
                found = true;
            } else {
                let ghost before = zmq_ids@;
                zmq_ids.push(vstd::slice::slice_to_vec(frame));
                at = at + 1;
                assert(frames_view(before) =~= frames_view(zmq_ids@).subrange(0, at - 1));
                assert(frames_view(zmq_ids@) =~= frames.subrange(0, at as int));
            }
        }
        if !found {
            assert(!has_delimiter(frames)) by {
                if has_delimiter(frames) {
                    let k = delimiter_at(frames);
                    assert(is_first_delimiter(frames, k));
                }
            }
            return Err(JuError::MalformedMessage("no delimiter found".to_owned()));
        }
        proof {
            lemma_first_delimiter_unique(frames, at as int);
        }
        if frame_at(&msg, at + 1).is_none() {
            return Err(JuError::MalformedMessage("no signature".to_owned()));
        }
        let header = match document_at(&msg, at + 2, "no header") {
            Ok(v) => v,
            Err(e) => { return Err(e); },
        };
        let parent_header = match document_at(&msg, at + 3, "no parent header") {
            Ok(v) => v,
            Err(e) => { return Err(e); },
        };
        let metadata = match document_at(&msg, at + 4, "no metadata") {
            Ok(v) => v,
            Err(e) => { return Err(e); },
        };
        let content = match document_at(&msg, at + 5, "no content") {
            Ok(v) => v,
            Err(e) => { return Err(e); },
        };
        Ok(JuMessage { zmq_ids, header, parent_header, metadata, content })
    }
}

/// Whether a frame is the delimiter.
fn is_delimiter(frame: &[u8]) -> (r: bool)
    ensures
        r == (frame@ == DELIMITER@),
{
    if frame.len() != 9 {
        return false;
    }
    let mut i: usize = 0;
    while i < 9
        invariant
            i <= 9,
            frame@.len() == 9,
            forall|j: int| 0 <= j < i ==> frame@[j] == DELIMITER@[j],
        decreases 9 - i,
    {
        if frame[i] != DELIMITER[i] {
            return false;
        }
        i = i + 1;
    }
    assert(frame@ =~= DELIMITER@);
    true
}

/// The document in the frame at `index`: a malformed message, reported with
/// `missing`, where the frames end before it, and the parser's error where
/// the frame is no JSON text.
fn document_at(msg: &zeromq::ZmqMessage, index: usize, missing: &str) -> (r: JuResult<
    serde_json::Value,
>)
    ensures
        match r {
            Ok(v) => index < frames_of(*msg).len() && json_parse(frames_of(*msg)[index as int])
                == Some(doc_of(v)),
            Err(JuError::MalformedMessage(t)) => index >= frames_of(*msg).len() && t@ == missing@,
            Err(JuError::JsonError(_)) => index < frames_of(*msg).len() && json_parse(
                frames_of(*msg)[index as int],
            ) is None,
            Err(_) => false,
        },
{
    match frame_at(msg, index) {
        None => Err(JuError::MalformedMessage(missing.to_owned())),
        Some(frame) => match from_slice(frame) {
            Ok(v) => Ok(v),
            Err(e) => Err(JuError::JsonError(e)),
        },
    }
}

/// The delimiter, as a frame of its own.
fn delimiter_frame() -> (r: Vec<u8>)
    ensures
        r@ == DELIMITER@,
{
    let mut frame: Vec<u8> = Vec::new();
    let mut i: usize = 0;
    while i < 9
        invariant
            i <= 9,
            frame@ == DELIMITER@.subrange(0, i as int),
        decreases 9 - i,
    {
        frame.push(DELIMITER[i]);
        i = i + 1;
    }
    frame
}

} // verus!

//! The shell channel's rules: one request at a time, each between a busy
//! and an idle notice.
//!
//! The processor is a state machine. The program that owns the sockets and
//! the kernel feeds it what happens and sends what it hands back:
//!
//! ```text
//! new ──▶ Starting ──start──▶ Idle ──receive──▶ Busy ──finish──▶ Idle
//!                               │
//!                               └──shutdown──▶ Stopped
//! ```
//!
//! While the processor is busy, `process_shell_msg` answers the request or
//! asks for an evaluation, whose result `process_eval_result` turns into the
//! reply and the published notices.

use vstd::prelude::*;
use crate::api::{JuKernel, JuKernelInfo};
use crate::content::{
    error_content, error_doc, execute_error_content, execute_error_doc, execute_input_content,
    execute_input_doc, execute_ok_content, execute_ok_doc, execute_result_content,
    execute_result_doc, is_complete_content, is_complete_doc, kernel_info_content,
    kernel_info_doc, status_content, status_doc,
};
use crate::error::{JuError, JuResult};
use crate::json::{as_str, doc_of, docs_of, json_string, member, text_of};
use crate::message::{EvalResult, JuMessage, MessageView};
use crate::server_id::JuServerId;

verus! {

/// Where the processor stands.
#[derive(Debug, Clone, Copy, PartialEq, Eq, Structural)]
pub enum ShellState {
    /// Made, and not yet waiting for requests.
    Starting,
    /// Between requests.
    Idle,
    /// At work on a request.
    Busy,
    /// Shut down; nothing more is served.
    Stopped,
}

/// What a request asks the embedding program to do next.
pub enum ShellStep {
    /// Send this reply on the shell channel; the request is served.
    Reply(JuMessage),
    /// Publish `input`, have the kernel evaluate `code`, and hand the result
    /// to `process_eval_result`.
    Evaluate { input: JuMessage, code: String },
}

/// What follows an evaluation: the reply for the shell channel, to be sent
/// first, and the notices to publish after it, in their order.
pub struct Execution {
    pub reply: JuMessage,
    pub published: Vec<JuMessage>,
}

/// The type of a request, where its header names one.
pub open spec fn request_type(msg: MessageView) -> Option<Seq<char>> {
    msg.header.member("msg_type"@).as_str()
}

/// The code of a request, where its content holds one as a string.
pub open spec fn request_code(msg: MessageView) -> Option<Seq<char>> {
    msg.content.member("code"@).as_str()
}

/// What a shell request asks for, by its type.
pub enum RequestKind {
    KernelInfo,
    IsComplete,
    Execute,
    /// Any other type, and no type at all.
    Unsupported,
}

/// The kind of a request.
pub open spec fn request_kind(msg: MessageView) -> RequestKind {
    if request_type(msg) == Some("kernel_info_request"@) {
        RequestKind::KernelInfo
    } else if request_type(msg) == Some("is_complete_request"@) {
        RequestKind::IsComplete
    } else if request_type(msg) == Some("execute_request"@) {
        RequestKind::Execute
    } else {
        RequestKind::Unsupported
    }
}

/// Whether a request asks for an evaluation that the server takes on: an
/// `execute_request` whose content holds its code as a string.
pub open spec fn asks_evaluation(msg: MessageView) -> bool {
    request_kind(msg) is Execute && request_code(msg) is Some
}

/// Whether `t` is the type `name`.
fn is_type(t: Option<&str>, name: &str) -> (r: bool)
    ensures
        r == (t matches Some(s) && s@ == name@),
{
    match t {
        Some(s) => s.to_owned() == name.to_owned(),
        None => false,
    }
}

/// Whether a request asks for an evaluation that the server takes on: an
/// `execute_request` whose content holds its code as a string.
pub fn accepts_execution(msg: &JuMessage) -> (r: bool)
    ensures
        r == asks_evaluation(msg@),
{
    let executes = is_type(as_str(member(&msg.header, "msg_type")), "execute_request");
    let has_code = as_str(member(&msg.content, "code")).is_some();
    proof {
        reveal_strlit("kernel_info_request");
        reveal_strlit("is_complete_request");
        reveal_strlit("execute_request");
        assert("execute_request"@.len() != "kernel_info_request"@.len());
        assert("execute_request"@.len() != "is_complete_request"@.len());
    }
    executes && has_code
}

/// The shell channel's state machine.
pub struct JuShellProcessor {
    pub jsi: JuServerId,
    /// How many evaluations the server has taken on.
    pub execution_count: u32,
    pub state: ShellState,
}

impl JuShellProcessor {
    /// A processor for the session, and the notice that it is starting, to
    /// be published at once.
    pub fn new(jsi: JuServerId) -> (r: (JuShellProcessor, JuMessage))
        ensures
            r.0.jsi == jsi,
            r.0.execution_count == 0,
            r.0.state is Starting,
            jsi.is_new_message(r.1@, "status"@, status_doc("starting"@)),
    {
        let starting_msg = jsi.new_message("status").with_content(status_content("starting"));
        (JuShellProcessor { jsi, execution_count: 0, state: ShellState::Starting }, starting_msg)
    }

    /// The processor begins to wait for requests: the first idle notice, to
    /// be published.
    pub fn start(&mut self) -> (r: JuMessage)
        requires
            old(self).state is Starting,
        ensures
            final(self).state is Idle,
            final(self).jsi == old(self).jsi,
            final(self).execution_count == old(self).execution_count,
            old(self).jsi.is_new_message(r@, "status"@, status_doc("idle"@)),
    {
        self.state = ShellState::Idle;
        self.jsi.new_message("status").with_content(status_content("idle"))
    }

    /// The shutdown signal is seen, between two requests: the processor
    /// stops and nothing more is published.
    pub fn shutdown(&mut self)
        requires
            old(self).state is Idle,
        ensures
            final(self).state is Stopped,
            final(self).jsi == old(self).jsi,
            final(self).execution_count == old(self).execution_count,
    {
        self.state = ShellState::Stopped;
    }

    /// A request arrives: the busy notice for it, to be published before
    /// anything else is done with the request.
    pub fn receive(&mut self, msg: &JuMessage) -> (r: JuMessage)
        requires
            old(self).state is Idle,
        ensures
            final(self).state is Busy,
            final(self).jsi == old(self).jsi,
            final(self).execution_count == old(self).execution_count,
            old(self).jsi.is_derived_message(r@, msg@, "status"@, status_doc("busy"@)),
    {
        self.state = ShellState::Busy;
        self.jsi.new_derived_message(msg, "status").with_content(status_content("busy"))
    }

    /// The request is done with, served or failed: the idle notice that
    /// closes the bracket, to be published.
    pub fn finish(&mut self) -> (r: JuMessage)
        requires
            old(self).state is Busy,
        ensures
            final(self).state is Idle,
            final(self).jsi == old(self).jsi,
            final(self).execution_count == old(self).execution_count,
            old(self).jsi.is_new_message(r@, "status"@, status_doc("idle"@)),
    {
        self.state = ShellState::Idle;
        self.jsi.new_message("status").with_content(status_content("idle"))
    }

    /// Serves a request by its type.
    ///
    /// A `kernel_info_request` is answered with what the kernel says of
    /// itself, an `is_complete_request` with the fixed answer. An
    /// `execute_request` with its code as a string raises the execution
    /// count and asks for the evaluation; without such a code it fails and
    /// the count stays. A request of any other type fails with the JSON text
    /// of its type, and nothing is sent.
    pub fn process_shell_msg<K: JuKernel>(&mut self, kernel: &K, msg: &JuMessage) -> (r: JuResult<
        ShellStep,
    >)
        requires
            old(self).state is Busy,
            asks_evaluation(msg@) ==> old(self).execution_count < u32::MAX,
        ensures
            final(self).state is Busy,
            final(self).jsi == old(self).jsi,
            final(self).execution_count == if asks_evaluation(msg@) {
                old(self).execution_count + 1
            } else {
                old(self).execution_count as int
            },
            match r {
                Ok(ShellStep::Reply(reply)) => {
                    ||| {
                        &&& request_kind(msg@) is KernelInfo
                        &&& exists|info: JuKernelInfo|
                            old(self).jsi.is_reply_message(
                                reply@,
                                msg@,
                                #[trigger] kernel_info_doc(info),
                            )
                    }
                    ||| {
                        &&& request_kind(msg@) is IsComplete
                        &&& old(self).jsi.is_reply_message(reply@, msg@, is_complete_doc())
                    }
                },
                Ok(ShellStep::Evaluate { input, code }) => {
                    &&& request_kind(msg@) is Execute
                    &&& request_code(msg@) == Some(code@)
                    &&& old(self).jsi.is_derived_message(
                        input@,
                        msg@,
                        "execute_input"@,
                        execute_input_doc(code@, final(self).execution_count),
                    )
                },
                Err(JuError::NoCode(text)) => {
                    &&& request_kind(msg@) is Execute
                    &&& request_code(msg@) is None
                    &&& text@ == "execute_request message missing 'code' field"@
                },
                Err(JuError::UnsupportedMessageType(name)) => {
                    &&& request_kind(msg@) is Unsupported
                    &&& name@ == json_string(msg@.header.member("msg_type"@))
                },
                Err(_) => false,
            },
    {
        let msg_type = as_str(member(&msg.header, "msg_type"));
        if is_type(msg_type, "kernel_info_request") {
            let info = kernel.kernel_info();
            let reply = self.jsi.new_reply_message(msg).with_content(kernel_info_content(&info));
            assert(self.jsi.is_reply_message(reply@, msg@, kernel_info_doc(info)));
            Ok(ShellStep::Reply(reply))
        } else if is_type(msg_type, "is_complete_request") {
            let reply = self.jsi.new_reply_message(msg).with_content(is_complete_content());
            Ok(ShellStep::Reply(reply))
        } else if is_type(msg_type, "execute_request") {
            let code = match as_str(member(&msg.content, "code")) {
                Some(s) => s.to_owned(),
                None => {
                    return Err(
                        JuError::NoCode("execute_request message missing 'code' field".to_owned()),
                    );
                },
            };
            self.execution_count = self.execution_count + 1;
            let input = self.jsi.new_derived_message(msg, "execute_input").with_content(
                execute_input_content(code.as_str(), self.execution_count),
            );
            Ok(ShellStep::Evaluate { input, code })
        } else {
            Err(JuError::UnsupportedMessageType(text_of(member(&msg.header, "msg_type"))))
        }
    }

    /// What follows the evaluation that `msg` asked for.
    ///
    /// After a success the reply says so, and each value that was produced
    /// is published in a notice of its own, in the order of the results.
    /// After a failure the reply carries the error, and one notice publishes
    /// it. Replies and notices carry the execution count.
    pub fn process_eval_result(&self, msg: &JuMessage, eval_result: EvalResult) -> (r: Execution)
        requires
            self.state is Busy,
        ensures
            match eval_result {
                EvalResult::Success { results } => {
                    &&& self.jsi.is_reply_message(
                        r.reply@,
                        msg@,
                        execute_ok_doc(self.execution_count),
                    )
                    &&& r.published@.len() == results@.len()
                    &&& forall|i: int|
                        0 <= i < results@.len() ==> self.jsi.is_derived_message(
                            (#[trigger] r.published@[i])@,
                            msg@,
                            "execute_result"@,
                            execute_result_doc(
                                doc_of(results@[i].data),
                                doc_of(results@[i].metadata),
                                self.execution_count,
                            ),
                        )
                },
                EvalResult::Error { ename, evalue, traceback } => {
                    &&& self.jsi.is_reply_message(
                        r.reply@,
                        msg@,
                        execute_error_doc(
                            doc_of(ename),
                            doc_of(evalue),
                            docs_of(traceback@),
                            self.execution_count,
                        ),
                    )
                    &&& r.published@.len() == 1
                    &&& self.jsi.is_derived_message(
                        r.published@[0]@,
                        msg@,
                        "error"@,
                        error_doc(doc_of(ename), doc_of(evalue), docs_of(traceback@)),
                    )
                },
            },
    {
        match eval_result {
            EvalResult::Success { results } => {
                let reply = self.jsi.new_reply_message(msg).with_content(
                    execute_ok_content(self.execution_count),
                );
                let mut published: Vec<JuMessage> = Vec::new();
                let mut i: usize = 0;
                while i < results.len()
                    invariant
                        i <= results@.len(),
                        published@.len() == i,
                        forall|j: int|
                            0 <= j < i ==> self.jsi.is_derived_message(
                                (#[trigger] published@[j])@,
                                msg@,
                                "execute_result"@,
                                execute_result_doc(
                                    doc_of(results@[j].data),
                                    doc_of(results@[j].metadata),
                                    self.execution_count,
                                ),
                            ),
                    decreases results@.len() - i,
                {
                    let output_msg = self.jsi.new_derived_message(msg, "execute_result").with_content(
                        execute_result_content(
                            results[i].data.clone(),
                            results[i].metadata.clone(),
                            self.execution_count,
                        ),
                    );
                    published.push(output_msg);
                    i = i + 1;
                }
                Execution { reply, published }
            },
            EvalResult::Error { ename, evalue, traceback } => {
                let reply = self.jsi.new_reply_message(msg).with_content(
                    execute_error_content(
                        ename.clone(),
                        evalue.clone(),
                        copy_values(&traceback),
                        self.execution_count,
                    ),
                );
                let err_msg = self.jsi.new_derived_message(msg, "error").with_content(
                    error_content(ename, evalue, traceback),
                );
                let mut published: Vec<JuMessage> = Vec::new();
                published.push(err_msg);
                Execution { reply, published }
            },
        }
    }
}

/// A copy of each document, in the same order.
fn copy_values(values: &Vec<serde_json::Value>) -> (r: Vec<serde_json::Value>)
    ensures
        r@ == values@,
{
    let mut copies: Vec<serde_json::Value> = Vec::new();
    let mut i: usize = 0;
    while i < values.len()
        invariant
            i <= values@.len(),
            copies@ == values@.subrange(0, i as int),
        decreases values@.len() - i,
    {
        copies.push(values[i].clone());
        i = i + 1;
        assert(copies@ =~= values@.subrange(0, i as int));
    }
    assert(copies@ =~= values@);
    copies
}

} // verus!

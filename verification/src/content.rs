//! The contents of the messages that the server sends.

use vstd::prelude::*;
use crate::api::{JuHelpLink, JuKernelInfo};
use crate::json::{
    array_value, bool_value, doc_of, docs_of, empty_object, number_value, set_member,
    string_value, Doc,
};

verus! {

/// `{"execution_state": state}`.
pub open spec fn status_doc(state: Seq<char>) -> Doc {
    Doc::empty_object().with("execution_state"@, Doc::Str(state))
}

/// One help link: its text and its address.
pub open spec fn help_link_doc(link: JuHelpLink) -> Doc {
    Doc::empty_object().with("text"@, Doc::Str(link.text@)).with("url"@, Doc::Str(link.url@))
}

/// The language of a kernel: name, version, MIME type and file extension.
pub open spec fn language_info_doc(info: JuKernelInfo) -> Doc {
    Doc::empty_object().with("name"@, Doc::Str(info.name@)).with(
        "version"@,
        Doc::Str(info.version@),
    ).with("mimetype"@, Doc::Str(info.mimetype@)).with(
        "file_extension"@,
        Doc::Str(info.file_extension@),
    )
}

/// The answer to a `kernel_info_request`: the protocol and this
/// implementation, and what the kernel says of itself, unchanged.
pub open spec fn kernel_info_doc(info: JuKernelInfo) -> Doc {
    Doc::empty_object().with("protocol_version"@, Doc::Str("5.3"@)).with(
        "implementation"@,
        Doc::Str("juker"@),
    ).with("implementation_version"@, Doc::Str("0.1.0"@)).with(
        "language_info"@,
        language_info_doc(info),
    ).with("banner"@, Doc::Str(info.banner@)).with(
        "help_links"@,
        Doc::Array(info.help_links@.map_values(|link: JuHelpLink| help_link_doc(link))),
    )
}

/// The answer to an `is_complete_request`: the server does not look into
/// the code.
pub open spec fn is_complete_doc() -> Doc {
    Doc::empty_object().with("status"@, Doc::Str("unknown"@))
}

/// The echo of the code that is about to be evaluated.
pub open spec fn execute_input_doc(code: Seq<char>, execution_count: u32) -> Doc {
    Doc::empty_object().with("code"@, Doc::Str(code)).with(
        "execution_count"@,
        Doc::Integer(execution_count as int),
    )
}

/// The answer to an `execute_request` whose evaluation succeeded.
pub open spec fn execute_ok_doc(execution_count: u32) -> Doc {
    Doc::empty_object().with("status"@, Doc::Str("ok"@)).with(
        "execution_count"@,
        Doc::Integer(execution_count as int),
    )
}

/// One value that an evaluation produced.
pub open spec fn execute_result_doc(data: Doc, metadata: Doc, execution_count: u32) -> Doc {
    Doc::empty_object().with("data"@, data).with("metadata"@, metadata).with(
        "execution_count"@,
        Doc::Integer(execution_count as int),
    )
}

/// The answer to an `execute_request` whose evaluation failed.
pub open spec fn execute_error_doc(
    ename: Doc,
    evalue: Doc,
    traceback: Seq<Doc>,
    execution_count: u32,
) -> Doc {
    Doc::empty_object().with("status"@, Doc::Str("error"@)).with("ename"@, ename).with(
        "evalue"@,
        evalue,
    ).with("traceback"@, Doc::Array(traceback)).with(
        "execution_count"@,
        Doc::Integer(execution_count as int),
    )
}

/// The published notice of a failed evaluation.
pub open spec fn error_doc(ename: Doc, evalue: Doc, traceback: Seq<Doc>) -> Doc {
    Doc::empty_object().with("ename"@, ename).with("evalue"@, evalue).with(
        "traceback"@,
        Doc::Array(traceback),
    )
}

/// The answer to a `shutdown_request`.
pub open spec fn shutdown_doc(restart: bool) -> Doc {
    Doc::empty_object().with("status"@, Doc::Str("ok"@)).with("restart"@, Doc::Bool(restart))
}

/// The content of a status notice.
pub fn status_content(state: &str) -> (r: serde_json::Value)
    ensures
        doc_of(r) == status_doc(state@),
{
    let mut content = empty_object();
    set_member(&mut content, "execution_state", string_value(state.to_owned()));
    content
}

/// The content of the answer to a `kernel_info_request`.
pub fn kernel_info_content(info: &JuKernelInfo) -> (r: serde_json::Value)
    ensures
        doc_of(r) == kernel_info_doc(*info),
{
    let mut language = empty_object();
    set_member(&mut language, "name", string_value(info.name.clone()));
    set_member(&mut language, "version", string_value(info.version.clone()));
    set_member(&mut language, "mimetype", string_value(info.mimetype.clone()));
    set_member(&mut language, "file_extension", string_value(info.file_extension.clone()));
    let ghost wanted = info.help_links@.map_values(|link: JuHelpLink| help_link_doc(link));
    let mut links: Vec<serde_json::Value> = Vec::new();
    let mut i: usize = 0;
    while i < info.help_links.len()
        invariant
            i <= info.help_links@.len(),
            wanted == info.help_links@.map_values(|link: JuHelpLink| help_link_doc(link)),
            docs_of(links@) == wanted.subrange(0, i as int),
        decreases info.help_links@.len() - i,
    {
        let mut link = empty_object();
        set_member(&mut link, "text", string_value(info.help_links[i].text.clone()));
        set_member(&mut link, "url", string_value(info.help_links[i].url.clone()));
        let ghost before = links@;
        links.push(link);
        i = i + 1;
        assert(docs_of(before) =~= docs_of(links@).subrange(0, i - 1));
        assert(docs_of(links@) =~= wanted.subrange(0, i as int));
    }
    assert(docs_of(links@) =~= wanted);
    let mut content = empty_object();
    set_member(&mut content, "protocol_version", string_value("5.3".to_owned()));
    set_member(&mut content, "implementation", string_value("juker".to_owned()));
    set_member(&mut content, "implementation_version", string_value("0.1.0".to_owned()));
    set_member(&mut content, "language_info", language);
    set_member(&mut content, "banner", string_value(info.banner.clone()));
    set_member(&mut content, "help_links", array_value(links));
    content
}

/// The content of the answer to an `is_complete_request`.
pub fn is_complete_content() -> (r: serde_json::Value)
    ensures
        doc_of(r) == is_complete_doc(),
{
    let mut content = empty_object();
    set_member(&mut content, "status", string_value("unknown".to_owned()));
    content
}

/// The content of the echo of the code.
pub fn execute_input_content(code: &str, execution_count: u32) -> (r: serde_json::Value)
    ensures
        doc_of(r) == execute_input_doc(code@, execution_count),
{
    let mut content = empty_object();
    set_member(&mut content, "code", string_value(code.to_owned()));
    set_member(&mut content, "execution_count", number_value(execution_count));
    content
}

/// The content of the answer to a successful evaluation.
pub fn execute_ok_content(execution_count: u32) -> (r: serde_json::Value)
    ensures
        doc_of(r) == execute_ok_doc(execution_count),
{
    let mut content = empty_object();
    set_member(&mut content, "status", string_value("ok".to_owned()));
    set_member(&mut content, "execution_count", number_value(execution_count));
    content
}

/// The content of the notice of one produced value.
pub fn execute_result_content(
    data: serde_json::Value,
    metadata: serde_json::Value,
    execution_count: u32,
) -> (r: serde_json::Value)
    ensures
        doc_of(r) == execute_result_doc(doc_of(data), doc_of(metadata), execution_count),
{
    let mut content = empty_object();
    set_member(&mut content, "data", data);
    set_member(&mut content, "metadata", metadata);
    set_member(&mut content, "execution_count", number_value(execution_count));
    content
}

/// The content of the answer to a failed evaluation.
pub fn execute_error_content(
    ename: serde_json::Value,
    evalue: serde_json::Value,
    traceback: Vec<serde_json::Value>,
    execution_count: u32,
) -> (r: serde_json::Value)
    ensures
        doc_of(r) == execute_error_doc(
            doc_of(ename),
            doc_of(evalue),
            docs_of(traceback@),
            execution_count,
        ),
{
    let mut content = empty_object();
    set_member(&mut content, "status", string_value("error".to_owned()));
    set_member(&mut content, "ename", ename);
    set_member(&mut content, "evalue", evalue);
    set_member(&mut content, "traceback", array_value(traceback));
    set_member(&mut content, "execution_count", number_value(execution_count));
    content
}

/// The content of the published notice of a failed evaluation.
pub fn error_content(
    ename: serde_json::Value,
    evalue: serde_json::Value,
    traceback: Vec<serde_json::Value>,
) -> (r: serde_json::Value)
    ensures
        doc_of(r) == error_doc(doc_of(ename), doc_of(evalue), docs_of(traceback@)),
{
    let mut content = empty_object();
    set_member(&mut content, "ename", ename);
    set_member(&mut content, "evalue", evalue);
    set_member(&mut content, "traceback", array_value(traceback));
    content
}

/// The content of the answer to a `shutdown_request`.
pub fn shutdown_content(restart: bool) -> (r: serde_json::Value)
    ensures
        doc_of(r) == shutdown_doc(restart),
{
    let mut content = empty_object();
    set_member(&mut content, "status", string_value("ok".to_owned()));
    set_member(&mut content, "restart", bool_value(restart));
    content
}

} // verus!

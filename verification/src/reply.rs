//! What the server answers, and when it accepts a request that changes something.
use crate::text;
use vstd::prelude::*;

verus! {

/// An answer without data of its own: a status, and a code and a sentence where it has them.
#[derive(Debug, Clone, Copy)]
pub struct Reply {
    pub status: u16,
    pub code: Option<&'static str>,
    pub message: Option<&'static str>,
}

/// An answer that is a sentence.
pub open spec fn told(status: u16, message: &'static str) -> Reply {
    Reply { status, code: None, message: Some(message) }
}

/// An answer that is a code and a sentence.
pub open spec fn coded(status: u16, code: &'static str, message: &'static str) -> Reply {
    Reply { status, code: Some(code), message: Some(message) }
}

/// An answer without a body.
pub open spec fn silent(status: u16) -> Reply {
    Reply { status, code: None, message: None }
}

impl Reply {
    pub fn told(status: u16, message: &'static str) -> (reply: Reply)
        ensures
            reply == told(status, message),
    {
        Reply { status, code: None, message: Some(message) }
    }

    pub fn coded(status: u16, code: &'static str, message: &'static str) -> (reply: Reply)
        ensures
            reply == coded(status, code, message),
    {
        Reply { status, code: Some(code), message: Some(message) }
    }

    pub fn silent(status: u16) -> (reply: Reply)
        ensures
            reply == silent(status),
    {
        Reply { status, code: None, message: None }
    }
}

/// A request carries the action mark and announces a JSON body.
pub open spec fn is_action(action: Option<Seq<char>>, content_type: Option<Seq<char>>) -> bool {
    &&& action == Some("1"@)
    &&& content_type matches Some(kind) && text::begins_with(kind, "application/json"@)
}

/// Whether a request may change something: its `x-iphoneloadly-action` header is `1` and its
/// `content-type` begins with `application/json`.
pub fn action_allowed(action: Option<&str>, content_type: Option<&str>) -> (allowed: bool)
    ensures
        allowed == is_action(text::str_view(action), text::str_view(content_type)),
{
    text::is_text(action, "1") && match content_type {
        Some(kind) => text::starts_with(&text::chars_of(kind), "application/json"),
        None => false,
    }
}

pub open spec fn action_reply() -> Reply {
    told(400, "JSON action header required.")
}

/// The answer to a request that may not change something.
pub fn action_required() -> (reply: Reply)
    ensures
        reply == action_reply(),
{
    Reply::told(400, "JSON action header required.")
}

/// What became of a statement on the store.
#[derive(Debug, Clone, Copy, PartialEq, Eq, Structural)]
pub enum StoreAnswer {
    Failed,
    Absent,
    Done,
}

/// A request that is one statement on the store.
#[derive(Debug, Clone, Copy, PartialEq, Eq, Structural)]
pub enum StoreRequest {
    UpdateSource,
    RemoveSource,
    SetAutomation,
    ForgetInstallation,
    RenameApp,
}

/// The answer to a request that is one statement: nothing more to say where it was done.
pub open spec fn store_answer(request: StoreRequest, answer: StoreAnswer) -> Reply {
    match answer {
        StoreAnswer::Done => silent(204),
        StoreAnswer::Absent => match request {
            StoreRequest::UpdateSource | StoreRequest::RemoveSource
            | StoreRequest::SetAutomation => told(404, "GitHub source was not found."),
            StoreRequest::ForgetInstallation => told(
                409,
                "This installation has an active job and cannot be removed from management yet.",
            ),
            StoreRequest::RenameApp => told(404, "Uploaded IPA was not found."),
        },
        StoreAnswer::Failed => match request {
            StoreRequest::UpdateSource => told(409, "Unable to update GitHub source."),
            StoreRequest::RemoveSource => told(500, "Unable to remove GitHub source."),
            StoreRequest::SetAutomation => told(500, "Unable to update source automation."),
            StoreRequest::ForgetInstallation => told(
                500,
                "Unable to remove the installation from management.",
            ),
            StoreRequest::RenameApp => told(500, "Unable to rename the IPA."),
        },
    }
}

pub fn store_reply(request: StoreRequest, answer: StoreAnswer) -> (reply: Reply)
    ensures
        reply == store_answer(request, answer),
{
    match answer {
        StoreAnswer::Done => Reply::silent(204),
        StoreAnswer::Absent => match request {
            StoreRequest::UpdateSource | StoreRequest::RemoveSource
            | StoreRequest::SetAutomation => Reply::told(404, "GitHub source was not found."),
            StoreRequest::ForgetInstallation => Reply::told(
                409,
                "This installation has an active job and cannot be removed from management yet.",
            ),
            StoreRequest::RenameApp => Reply::told(404, "Uploaded IPA was not found."),
        },
        StoreAnswer::Failed => match request {
            StoreRequest::UpdateSource => Reply::told(409, "Unable to update GitHub source."),
            StoreRequest::RemoveSource => Reply::told(500, "Unable to remove GitHub source."),
            StoreRequest::SetAutomation => Reply::told(500, "Unable to update source automation."),
            StoreRequest::ForgetInstallation => Reply::told(
                500,
                "Unable to remove the installation from management.",
            ),
            StoreRequest::RenameApp => Reply::told(500, "Unable to rename the IPA."),
        },
    }
}

/// A request that only reads the store.
#[derive(Debug, Clone, Copy, PartialEq, Eq, Structural)]
pub enum ReadRequest {
    Apps,
    Sources,
    Jobs,
    Job,
    ManagedInstallations,
    ManagedHistory,
    RefreshAttention,
    RefreshSettings,
    RefreshTargets,
    Validity,
}

/// The answer to a read that failed. The lists of the dashboard keep their success status.
pub open spec fn read_failure_answer(request: ReadRequest) -> Reply {
    match request {
        ReadRequest::Apps => told(200, "Unable to list uploaded IPAs."),
        ReadRequest::Sources => told(500, "Unable to list GitHub sources."),
        ReadRequest::Jobs => told(200, "Unable to read installation history."),
        ReadRequest::Job => told(500, "Unable to read installation job."),
        ReadRequest::ManagedInstallations => told(500, "Unable to read managed installations."),
        ReadRequest::ManagedHistory => told(500, "Unable to read managed app history."),
        ReadRequest::RefreshAttention => told(200, "Unable to read refresh warnings."),
        ReadRequest::RefreshSettings => told(500, "Unable to read refresh settings."),
        ReadRequest::RefreshTargets => told(500, "Unable to read refresh targets."),
        ReadRequest::Validity => told(200, "Unable to read IPA validity."),
    }
}

pub fn read_failure(request: ReadRequest) -> (reply: Reply)
    ensures
        reply == read_failure_answer(request),
{
    match request {
        ReadRequest::Apps => Reply::told(200, "Unable to list uploaded IPAs."),
        ReadRequest::Sources => Reply::told(500, "Unable to list GitHub sources."),
        ReadRequest::Jobs => Reply::told(200, "Unable to read installation history."),
        ReadRequest::Job => Reply::told(500, "Unable to read installation job."),
        ReadRequest::ManagedInstallations => {
            Reply::told(500, "Unable to read managed installations.")
        },
        ReadRequest::ManagedHistory => Reply::told(500, "Unable to read managed app history."),
        ReadRequest::RefreshAttention => Reply::told(200, "Unable to read refresh warnings."),
        ReadRequest::RefreshSettings => Reply::told(500, "Unable to read refresh settings."),
        ReadRequest::RefreshTargets => Reply::told(500, "Unable to read refresh targets."),
        ReadRequest::Validity => Reply::told(200, "Unable to read IPA validity."),
    }
}

/// The answer has this status and no more than this sentence.
pub open spec fn says(reply: Reply, status: int, message: Seq<char>) -> bool {
    reply.status == status && reply.code is None && reply.message is Some && reply.message->0@
        == message
}

/// An answer has the status, the code and the sentence that it is given.
pub proof fn answers_say_what_they_are_given(
    status: u16,
    code: &'static str,
    message: &'static str,
)
    ensures
        says(told(status, message), status as int, message@),
        coded(status, code, message).status == status,
        coded(status, code, message).code == Some(code),
        coded(status, code, message).message == Some(message),
        silent(status).status == status,
        silent(status).code is None,
        silent(status).message is None,
{
}

/// A request may change something where its action header is exactly `1` and its body is announced
/// as JSON, whatever parameters follow.
pub proof fn actions_are_marked(action: Option<Seq<char>>, tail: Seq<char>, kind: Seq<char>)
    ensures
        is_action(Some("1"@), Some("application/json"@ + tail)),
        is_action(action, Some("application/json"@ + tail)) <==> action == Some("1"@),
        !is_action(action, None),
        !is_action(None, Some(kind)),
        kind.len() < 16 || kind.take(16) != "application/json"@ ==> !is_action(
            Some("1"@),
            Some(kind),
        ),
        says(action_reply(), 400, "JSON action header required."@),
{
    reveal_strlit("application/json");
    let json = "application/json"@;
    assert(json.len() == 16);
    assert((json + tail).subrange(0, 16) =~= json);
    if text::begins_with(kind, json) {
        assert(kind.take(16) =~= kind.subrange(0, 16));
    }
}

/// A statement that was done has nothing more to say. One that found nothing to change is told as a
/// missing source, app or as an installation that is busy, and one that failed by what it was to
/// do.
pub proof fn statements_are_answered_by_what_became_of_them(request: StoreRequest)
    ensures
        store_answer(request, StoreAnswer::Done) == silent(204),
        request is UpdateSource || request is RemoveSource || request is SetAutomation ==> says(
            store_answer(request, StoreAnswer::Absent),
            404,
            "GitHub source was not found."@,
        ),
        request is ForgetInstallation ==> says(
            store_answer(request, StoreAnswer::Absent),
            409,
            "This installation has an active job and cannot be removed from management yet."@,
        ),
        request is RenameApp ==> says(
            store_answer(request, StoreAnswer::Absent),
            404,
            "Uploaded IPA was not found."@,
        ),
        request is UpdateSource ==> says(
            store_answer(request, StoreAnswer::Failed),
            409,
            "Unable to update GitHub source."@,
        ),
        request is RemoveSource ==> says(
            store_answer(request, StoreAnswer::Failed),
            500,
            "Unable to remove GitHub source."@,
        ),
        request is SetAutomation ==> says(
            store_answer(request, StoreAnswer::Failed),
            500,
            "Unable to update source automation."@,
        ),
        request is ForgetInstallation ==> says(
            store_answer(request, StoreAnswer::Failed),
            500,
            "Unable to remove the installation from management."@,
        ),
        request is RenameApp ==> says(
            store_answer(request, StoreAnswer::Failed),
            500,
            "Unable to rename the IPA."@,
        ),
{
}

/// A read that failed is told by what was read. Four lists of the dashboard keep their success
/// status; any other read fails with 500.
pub proof fn failed_reads_are_told(request: ReadRequest)
    ensures
        request is Apps ==> says(
            read_failure_answer(request),
            200,
            "Unable to list uploaded IPAs."@,
        ),
        request is Sources ==> says(
            read_failure_answer(request),
            500,
            "Unable to list GitHub sources."@,
        ),
        request is Jobs ==> says(
            read_failure_answer(request),
            200,
            "Unable to read installation history."@,
        ),
        request is Job ==> says(
            read_failure_answer(request),
            500,
            "Unable to read installation job."@,
        ),
        request is ManagedInstallations ==> says(
            read_failure_answer(request),
            500,
            "Unable to read managed installations."@,
        ),
        request is ManagedHistory ==> says(
            read_failure_answer(request),
            500,
            "Unable to read managed app history."@,
        ),
        request is RefreshAttention ==> says(
            read_failure_answer(request),
            200,
            "Unable to read refresh warnings."@,
        ),
        request is RefreshSettings ==> says(
            read_failure_answer(request),
            500,
            "Unable to read refresh settings."@,
        ),
        request is RefreshTargets ==> says(
            read_failure_answer(request),
            500,
            "Unable to read refresh targets."@,
        ),
        request is Validity ==> says(
            read_failure_answer(request),
            200,
            "Unable to read IPA validity."@,
        ),
{
}

} // verus!

//! Uploaded IPAs: receiving, naming and removing them.
use crate::github;
use crate::ipa::{UploadError, UploadMetadata, MAX_COMPRESSED_BYTES};
use crate::reply;
use crate::reply::Reply;
use crate::store::AppDeletion;
use crate::text;
use vstd::prelude::*;
use vstd::string::*;

verus! {

/// The longest display name in characters.
pub const MAX_DISPLAY_NAME: usize = 120;

pub const DISPLAY_NAME_RULE: &'static str =
    "Display name must be at most 120 characters and contain no control characters.";

/// A name that may be shown: short enough, and without the control characters of ASCII.
pub open spec fn is_display_name(value: Seq<char>) -> bool {
    value.len() <= MAX_DISPLAY_NAME && forall|i: int|
        0 <= i < value.len() ==> !text::is_ascii_control(#[trigger] value[i])
}

/// The display name without the white space around it. It may be empty.
pub fn validate_display_name(value: &str) -> (result: Result<String, &'static str>)
    ensures
        match result {
            Ok(name) => name@ == text::trimmed(value@) && is_display_name(name@),
            Err(rule) => rule == DISPLAY_NAME_RULE && !is_display_name(text::trimmed(value@)),
        },
{
    let name: &str = text::trim(value);
    let chars: Vec<char> = text::chars_of(name);
    if chars.len() > MAX_DISPLAY_NAME {
        return Err(DISPLAY_NAME_RULE);
    }
    let mut i: usize = 0;
    while i < chars.len()
        invariant
            i <= chars.len(),
            chars@ == name@,
            name@ == text::trimmed(value@),
            chars@.len() <= MAX_DISPLAY_NAME,
            forall|k: int| 0 <= k < i ==> !text::is_ascii_control(#[trigger] chars@[k]),
        decreases chars.len() - i,
    {
        let c: char = chars[i];
        if c <= '\u{1f}' || c == '\u{7f}' {
            proof {
                assert(text::is_ascii_control(text::trimmed(value@)[i as int]));
            }
            return Err(DISPLAY_NAME_RULE);
        }
        i = i + 1;
    }
    Ok(name.to_owned())
}

/// Why an app is not renamed.
pub open spec fn rename_refusal(value: Seq<char>) -> Option<Reply> {
    if !is_display_name(text::trimmed(value)) {
        Some(reply::told(400, "Invalid display name."))
    } else if text::trimmed(value).len() == 0 {
        Some(reply::told(400, "Display name cannot be empty when renaming."))
    } else {
        None
    }
}

/// The name that an app is renamed to.
pub fn accept_rename(value: &str) -> (result: Result<String, Reply>)
    ensures
        match result {
            Ok(name) => {
                &&& rename_refusal(value@) is None
                &&& name@ == text::trimmed(value@)
                &&& is_display_name(name@)
                &&& name@.len() > 0
            },
            Err(reply) => rename_refusal(value@) == Some(reply),
        },
{
    match validate_display_name(value) {
        Ok(name) => if name.as_str().is_empty() {
            Err(Reply::told(400, "Display name cannot be empty when renaming."))
        } else {
            Ok(name)
        },
        Err(_) => Err(Reply::told(400, "Invalid display name.")),
    }
}

// ---------------------------------------------------------------------------------------------
// Upload.
// ---------------------------------------------------------------------------------------------

/// Why an upload is refused.
#[derive(Debug, Clone, Copy, PartialEq, Eq, Structural)]
pub enum UploadFault {
    /// The temporary file could not be created.
    Create,
    /// A field has no name.
    FieldName,
    /// The display name could not be read or may not be shown.
    DisplayName,
    /// The file could not be read from the request.
    Read,
    /// The file is larger than the limit.
    TooLarge,
    /// The file could not be written.
    Write,
    /// There is a field that is not expected.
    Field,
    /// There is no file.
    NoFile,
    /// The file could not be flushed to storage.
    Flush,
    /// The file is no acceptable IPA.
    Rejected(UploadError),
    /// The file could not take its final name.
    Move,
    /// The app could not be recorded.
    Record,
}

impl UploadFault {
    pub open spec fn answer(self) -> Reply {
        match self {
            UploadFault::Create => reply::told(500, "Unable to store IPA upload."),
            UploadFault::FieldName => reply::told(400, "Invalid multipart field."),
            UploadFault::DisplayName => reply::told(400, "Invalid display name."),
            UploadFault::Read => reply::told(400, "Unable to read IPA upload."),
            UploadFault::TooLarge => reply::told(413, "IPA exceeds the 2 GiB upload limit."),
            UploadFault::Write => reply::told(500, "Unable to store IPA upload."),
            UploadFault::Field => reply::told(
                400,
                "Expected one file field and at most one display name field.",
            ),
            UploadFault::NoFile => reply::told(400, "Expected an IPA file field."),
            UploadFault::Flush => reply::told(500, "Unable to store IPA upload."),
            UploadFault::Rejected(error) => Reply {
                status: 400,
                code: Some(error.sentence()),
                message: Some("IPA was rejected."),
            },
            UploadFault::Move => reply::told(500, "Unable to finalize IPA upload."),
            UploadFault::Record => reply::told(500, "Unable to record IPA upload."),
        }
    }

    /// The answer to an upload with this fault.
    pub fn reply(self) -> (reply: Reply)
        ensures
            reply == self.answer(),
    {
        match self {
            UploadFault::Create => Reply::told(500, "Unable to store IPA upload."),
            UploadFault::FieldName => Reply::told(400, "Invalid multipart field."),
            UploadFault::DisplayName => Reply::told(400, "Invalid display name."),
            UploadFault::Read => Reply::told(400, "Unable to read IPA upload."),
            UploadFault::TooLarge => Reply::told(413, "IPA exceeds the 2 GiB upload limit."),
            UploadFault::Write => Reply::told(500, "Unable to store IPA upload."),
            UploadFault::Field => Reply::told(
                400,
                "Expected one file field and at most one display name field.",
            ),
            UploadFault::NoFile => Reply::told(400, "Expected an IPA file field."),
            UploadFault::Flush => Reply::told(500, "Unable to store IPA upload."),
            UploadFault::Rejected(error) => Reply {
                status: 400,
                code: Some(error.message()),
                message: Some("IPA was rejected."),
            },
            UploadFault::Move => Reply::told(500, "Unable to finalize IPA upload."),
            UploadFault::Record => Reply::told(500, "Unable to record IPA upload."),
        }
    }
}

/// The steps of an upload, in their order.
#[derive(Debug, Clone, Copy, PartialEq, Eq, Structural)]
pub enum UploadStep {
    /// The temporary file is created.
    Create,
    /// The fields are received, and the file is written.
    Receive,
    /// The file is flushed to storage.
    Flush,
    /// The file is inspected.
    Inspect,
    /// The file takes its final name.
    Move,
    /// The app is recorded.
    Record,
}

/// What becomes of a refused upload: the answer and the files that are removed.
#[derive(Debug, Clone, Copy)]
pub struct UploadRefusal {
    pub reply: Reply,
    pub drop_temporary: bool,
    pub drop_final: bool,
}

/// What comes after a step of an upload.
#[derive(Debug, Clone, Copy)]
pub enum UploadTurn {
    Next(UploadStep),
    Refuse(UploadRefusal),
    /// The app is told, with status 201.
    Stored,
}

impl UploadStep {
    /// What comes after the step. A refused upload drops the file that it has by then.
    pub open spec fn turn(self, result: Result<(), UploadFault>) -> UploadTurn {
        match result {
            Err(fault) => UploadTurn::Refuse(
                UploadRefusal {
                    reply: fault.answer(),
                    drop_temporary: !(self is Create) && !(self is Record),
                    drop_final: self is Record,
                },
            ),
            Ok(()) => match self {
                UploadStep::Create => UploadTurn::Next(UploadStep::Receive),
                UploadStep::Receive => UploadTurn::Next(UploadStep::Flush),
                UploadStep::Flush => UploadTurn::Next(UploadStep::Inspect),
                UploadStep::Inspect => UploadTurn::Next(UploadStep::Move),
                UploadStep::Move => UploadTurn::Next(UploadStep::Record),
                UploadStep::Record => UploadTurn::Stored,
            },
        }
    }

    /// What comes after the step.
    pub fn advance(self, result: Result<(), UploadFault>) -> (turn: UploadTurn)
        ensures
            turn == self.turn(result),
    {
        match result {
            Err(fault) => UploadTurn::Refuse(
                UploadRefusal {
                    reply: fault.reply(),
                    drop_temporary: self != UploadStep::Create && self != UploadStep::Record,
                    drop_final: self == UploadStep::Record,
                },
            ),
            Ok(()) => match self {
                UploadStep::Create => UploadTurn::Next(UploadStep::Receive),
                UploadStep::Receive => UploadTurn::Next(UploadStep::Flush),
                UploadStep::Flush => UploadTurn::Next(UploadStep::Inspect),
                UploadStep::Inspect => UploadTurn::Next(UploadStep::Move),
                UploadStep::Move => UploadTurn::Next(UploadStep::Record),
                UploadStep::Record => UploadTurn::Stored,
            },
        }
    }
}

/// Where an upload stands, and which of its files are there.
pub struct UploadState {
    pub turn: UploadTurn,
    pub has_temporary: bool,
    pub has_final: bool,
}

/// Where an upload stands after some steps. Creating the temporary file makes it, and moving it
/// gives it its final name.
pub open spec fn upload_after(results: Seq<Result<(), UploadFault>>) -> UploadState
    decreases results.len(),
{
    if results.len() == 0 {
        UploadState {
            turn: UploadTurn::Next(UploadStep::Create),
            has_temporary: false,
            has_final: false,
        }
    } else {
        let before = upload_after(results.drop_last());
        match before.turn {
            UploadTurn::Next(step) => UploadState {
                turn: step.turn(results.last()),
                has_temporary: if step is Create || step is Move {
                    (results.last() is Ok) == (step is Create)
                } else {
                    before.has_temporary
                },
                has_final: before.has_final || step is Move && results.last() is Ok,
            },
            _ => before,
        }
    }
}

/// A refused upload drops each file that it has, and no other. One that is stored was flushed,
/// inspected, moved and then recorded, and has the file under its final name alone.
pub proof fn refused_uploads_leave_no_file(results: Seq<Result<(), UploadFault>>)
    ensures
        match upload_after(results).turn {
            UploadTurn::Next(step) => {
                &&& upload_after(results).has_temporary == (!(step is Create) && !(step is Record))
                &&& upload_after(results).has_final == (step is Record)
                &&& results.len() == match step {
                    UploadStep::Create => 0int,
                    UploadStep::Receive => 1,
                    UploadStep::Flush => 2,
                    UploadStep::Inspect => 3,
                    UploadStep::Move => 4,
                    UploadStep::Record => 5,
                }
                &&& forall|i: int| 0 <= i < results.len() ==> #[trigger] results[i] is Ok
            },
            UploadTurn::Refuse(refusal) => {
                &&& refusal.drop_temporary == upload_after(results).has_temporary
                &&& refusal.drop_final == upload_after(results).has_final
            },
            UploadTurn::Stored => {
                &&& !upload_after(results).has_temporary
                &&& upload_after(results).has_final
                &&& results.len() >= 6
                &&& forall|i: int| 0 <= i < 6 ==> #[trigger] results[i] is Ok
            },
        },
    decreases results.len(),
{
    if results.len() > 0 {
        let before = results.drop_last();
        refused_uploads_leave_no_file(before);
        assert forall|i: int| 0 <= i < before.len() && #[trigger] before[i] is Ok implies
            results[i] is Ok by {}
        match upload_after(before).turn {
            UploadTurn::Next(step) => {
                assert forall|i: int| 0 <= i < results.len() && results.last() is Ok implies
                    #[trigger] results[i] is Ok by {
                    if i < before.len() {
                        assert(before[i] is Ok);
                    }
                }
            },
            UploadTurn::Stored => {
                assert forall|i: int| 0 <= i < 6 implies #[trigger] results[i] is Ok by {
                    assert(before[i] is Ok);
                }
            },
            _ => {},
        }
    }
}

/// An upload while it is received.
#[derive(Debug)]
pub struct Upload {
    pub display_name: Option<String>,
    pub file_seen: bool,
    pub written: u64,
}

/// The given name of an app, or that of its IPA where none or an empty one was given.
pub open spec fn shown_name(given: Option<Seq<char>>, own: Seq<char>) -> Seq<char> {
    match given {
        Some(name) => if name.len() > 0 {
            name
        } else {
            own
        },
        None => own,
    }
}

/// What a field of an upload is.
#[derive(Debug, Clone, Copy, PartialEq, Eq, Structural)]
pub enum UploadField {
    DisplayName,
    File,
}

impl Upload {
    pub fn new() -> (upload: Upload)
        ensures
            upload.display_name is None,
            !upload.file_seen,
            upload.written == 0,
    {
        Upload { display_name: None, file_seen: false, written: 0 }
    }

    /// What a field with a name is: one display name and one file are expected, in any order.
    pub open spec fn expected(self, name: Option<Seq<char>>) -> Result<UploadField, UploadFault> {
        match name {
            None => Err(UploadFault::FieldName),
            Some(name) => if name == "displayName"@ && self.display_name is None {
                Ok(UploadField::DisplayName)
            } else if name == "file"@ && !self.file_seen {
                Ok(UploadField::File)
            } else {
                Err(UploadFault::Field)
            },
        }
    }

    /// Begins a field. A file is remembered.
    pub fn begin_field(&mut self, name: Option<&str>) -> (result: Result<UploadField, UploadFault>)
        ensures
            result == old(self).expected(text::str_view(name)),
            final(self).display_name == old(self).display_name,
            final(self).written == old(self).written,
            final(self).file_seen == (old(self).file_seen || result == Ok::<
                UploadField,
                UploadFault,
            >(UploadField::File)),
    {
        let name: &str = match name {
            Some(name) => name,
            None => {
                return Err(UploadFault::FieldName);
            },
        };
        if text::same_text(name, "displayName") && self.display_name.is_none() {
            Ok(UploadField::DisplayName)
        } else if text::same_text(name, "file") && !self.file_seen {
            self.file_seen = true;
            Ok(UploadField::File)
        } else {
            Err(UploadFault::Field)
        }
    }

    /// Takes in the text of the display name; nothing where it could not be read.
    pub fn name(&mut self, value: Option<&str>) -> (result: Result<(), UploadFault>)
        ensures
            final(self).file_seen == old(self).file_seen,
            final(self).written == old(self).written,
            match result {
                Ok(()) => {
                    &&& value is Some
                    &&& is_display_name(text::trimmed(value->0@))
                    &&& text::text_view(final(self).display_name) == Some(text::trimmed(value->0@))
                },
                Err(fault) => {
                    &&& fault is DisplayName
                    &&& value is None || !is_display_name(text::trimmed(value->0@))
                    &&& final(self).display_name == old(self).display_name
                },
            },
    {
        match value {
            Some(value) => match validate_display_name(value) {
                Ok(name) => {
                    self.display_name = Some(name);
                    Ok(())
                },
                Err(_) => Err(UploadFault::DisplayName),
            },
            None => Err(UploadFault::DisplayName),
        }
    }

    /// Counts a chunk of the file before it is written.
    pub fn chunk(&mut self, length: u64) -> (result: Result<(), UploadFault>)
        ensures
            final(self).display_name == old(self).display_name,
            final(self).file_seen == old(self).file_seen,
            match result {
                Ok(()) => {
                    &&& old(self).written + length <= MAX_COMPRESSED_BYTES
                    &&& final(self).written == old(self).written + length
                },
                Err(fault) => {
                    &&& fault is TooLarge
                    &&& old(self).written + length > MAX_COMPRESSED_BYTES
                    &&& final(self).written == if old(self).written + length <= u64::MAX {
                        old(self).written + length
                    } else {
                        u64::MAX as int
                    }
                },
            },
    {
        self.written = self.written.saturating_add(length);
        if self.written > MAX_COMPRESSED_BYTES {
            Err(UploadFault::TooLarge)
        } else {
            Ok(())
        }
    }

    /// Ends the request: there has to be a file.
    pub fn end(&self) -> (result: Result<(), UploadFault>)
        ensures
            result == if self.file_seen {
                Ok::<(), UploadFault>(())
            } else {
                Err(UploadFault::NoFile)
            },
    {
        if self.file_seen {
            Ok(())
        } else {
            Err(UploadFault::NoFile)
        }
    }

    /// The name under which the app is stored: the given one, or that of the IPA where none or an
    /// empty one was given.
    pub fn stored_name(self, metadata: &UploadMetadata) -> (name: String)
        ensures
            name@ == shown_name(text::text_view(self.display_name), metadata.display_name@),
    {
        match self.display_name {
            Some(name) => if name.as_str().is_empty() {
                metadata.display_name.clone()
            } else {
                name
            },
            None => metadata.display_name.clone(),
        }
    }
}

/// The chunks that an upload accepts are together within the limit.
pub open spec fn accepted_chunks(chunks: Seq<u64>) -> Option<int>
    decreases chunks.len(),
{
    if chunks.len() == 0 {
        Some(0)
    } else {
        match accepted_chunks(chunks.drop_last()) {
            Some(written) => if written + chunks.last() > MAX_COMPRESSED_BYTES {
                None
            } else {
                Some(written + chunks.last())
            },
            None => None,
        }
    }
}

/// An accepted upload is exactly as large as its chunks together, and never larger than the limit.
pub proof fn uploads_stop_at_the_limit(chunks: Seq<u64>)
    ensures
        accepted_chunks(chunks) is Some <==> github::chunk_total(chunks) <= MAX_COMPRESSED_BYTES,
        accepted_chunks(chunks) is Some ==> accepted_chunks(chunks)->0 == github::chunk_total(
            chunks,
        ),
    decreases chunks.len(),
{
    github::downloads_stop_at_the_limit(chunks);
    if chunks.len() > 0 {
        uploads_stop_at_the_limit(chunks.drop_last());
        github::downloads_stop_at_the_limit(chunks.drop_last());
    }
}

// ---------------------------------------------------------------------------------------------
// Removal.
// ---------------------------------------------------------------------------------------------

/// What is done to remove an app, once the store has said what that comes to.
#[derive(Debug)]
pub enum RemovalTurn {
    /// The file is to be removed.
    RemoveFile(String),
    Refuse(Reply),
}

/// What is done to remove an app; `deletion` is nothing where the store failed.
pub open spec fn removal_turn(deletion: Option<AppDeletion>) -> RemovalTurn {
    match deletion {
        Some(AppDeletion::Ready { storage_path }) => RemovalTurn::RemoveFile(storage_path),
        Some(AppDeletion::ActiveJob) => RemovalTurn::Refuse(
            reply::told(
                409,
                "This IPA cannot be removed while an installation or refresh job is active.",
            ),
        ),
        Some(AppDeletion::NotFound) => RemovalTurn::Refuse(
            reply::told(404, "Uploaded IPA was not found."),
        ),
        None => RemovalTurn::Refuse(reply::told(500, "Unable to remove the IPA.")),
    }
}

/// What is done to remove an app.
pub fn begin_removal(deletion: Option<AppDeletion>) -> (turn: RemovalTurn)
    ensures
        turn == removal_turn(deletion),
{
    match deletion {
        Some(AppDeletion::Ready { storage_path }) => RemovalTurn::RemoveFile(storage_path),
        Some(AppDeletion::ActiveJob) => RemovalTurn::Refuse(
            Reply::told(
                409,
                "This IPA cannot be removed while an installation or refresh job is active.",
            ),
        ),
        Some(AppDeletion::NotFound) => RemovalTurn::Refuse(
            Reply::told(404, "Uploaded IPA was not found."),
        ),
        None => RemovalTurn::Refuse(Reply::told(500, "Unable to remove the IPA.")),
    }
}

/// The end of a removal.
#[derive(Debug, Clone, Copy)]
pub struct RemovalEnd {
    pub reply: Reply,
    /// The app is to be restored in the store.
    pub restore: bool,
}

/// The end of a removal: an app whose file could not be removed is restored.
pub open spec fn removal_end(removed: bool) -> RemovalEnd {
    RemovalEnd {
        reply: if removed {
            reply::silent(204)
        } else {
            reply::told(500, "Unable to remove the IPA file from server storage.")
        },
        restore: !removed,
    }
}

/// The end of a removal.
pub fn end_removal(removed: bool) -> (end: RemovalEnd)
    ensures
        end == removal_end(removed),
{
    if removed {
        RemovalEnd { reply: Reply::silent(204), restore: false }
    } else {
        RemovalEnd {
            reply: Reply::told(500, "Unable to remove the IPA file from server storage."),
            restore: true,
        }
    }
}

/// A name may be shown where it has no more than 120 characters and none of them is a control
/// character of ASCII, wherever it stands.
pub proof fn names_are_short_and_printable(front: Seq<char>, c: char, back: Seq<char>)
    ensures
        c < ' ' || c == '\u{7f}' ==> !is_display_name(front + seq![c] + back),
        front.len() > 120 ==> !is_display_name(front),
        front.len() <= 120 && (forall|i: int|
            0 <= i < front.len() ==> #[trigger] front[i] >= ' ' && front[i] != '\u{7f}')
            ==> is_display_name(front),
        DISPLAY_NAME_RULE@
            == "Display name must be at most 120 characters and contain no control characters."@,
{
    let name = front + seq![c] + back;
    assert(name[front.len() as int] == c);
}

/// Each fault of an upload is answered with its status and sentence: what the client can mend with
/// 400, a file that is too large with 413, and what the server failed to do with 500. A rejected
/// IPA tells its reason as the code.
pub proof fn upload_faults_are_answered(fault: UploadFault)
    ensures
        fault is Create || fault is Write || fault is Flush ==> reply::says(
            fault.answer(),
            500,
            "Unable to store IPA upload."@,
        ),
        fault is FieldName ==> reply::says(fault.answer(), 400, "Invalid multipart field."@),
        fault is DisplayName ==> reply::says(fault.answer(), 400, "Invalid display name."@),
        fault is Read ==> reply::says(fault.answer(), 400, "Unable to read IPA upload."@),
        fault is TooLarge ==> reply::says(
            fault.answer(),
            413,
            "IPA exceeds the 2 GiB upload limit."@,
        ),
        fault is Field ==> reply::says(
            fault.answer(),
            400,
            "Expected one file field and at most one display name field."@,
        ),
        fault is NoFile ==> reply::says(fault.answer(), 400, "Expected an IPA file field."@),
        fault is Move ==> reply::says(fault.answer(), 500, "Unable to finalize IPA upload."@),
        fault is Record ==> reply::says(fault.answer(), 500, "Unable to record IPA upload."@),
        fault matches UploadFault::Rejected(error) ==> fault.answer().status == 400
            && fault.answer().code == Some(error.sentence()) && fault.answer().message is Some
            && fault.answer().message->0@ == "IPA was rejected."@,
{
}

/// An upload is stored after six steps that succeed, and refused with the answer to the first fault.
pub proof fn six_steps_store_an_upload(results: Seq<Result<(), UploadFault>>)
    requires
        0 < results.len() <= 6,
        forall|i: int| 0 <= i < results.len() - 1 ==> #[trigger] results[i] is Ok,
    ensures
        results.len() == 6 && results.last() is Ok ==> upload_after(results).turn is Stored,
        results.last() matches Err(fault) ==> upload_after(results).turn is Refuse && upload_after(
            results,
        ).turn->Refuse_0.reply == fault.answer(),
        results.len() < 6 && results.last() is Ok ==> upload_after(results).turn is Next,
        results.len() == 1 && results.last() is Ok ==> upload_after(results).turn->Next_0
            is Receive,
        results.len() == 2 && results.last() is Ok ==> upload_after(results).turn->Next_0 is Flush,
        results.len() == 3 && results.last() is Ok ==> upload_after(results).turn->Next_0
            is Inspect,
        results.len() == 4 && results.last() is Ok ==> upload_after(results).turn->Next_0 is Move,
        results.len() == 5 && results.last() is Ok ==> upload_after(results).turn->Next_0 is Record,
    decreases results.len(),
{
    let before = results.drop_last();
    if before.len() > 0 {
        assert forall|i: int| 0 <= i < before.len() - 1 implies #[trigger] before[i] is Ok by {
            assert(before[i] == results[i]);
        }
        assert(before.last() == results[before.len() - 1]);
        six_steps_store_an_upload(before);
    } else {
        assert(upload_after(before).turn == UploadTurn::Next(UploadStep::Create));
    }
}

/// The file that a step has by then is dropped where it fails, and no other.
pub proof fn failed_steps_drop_their_file(step: UploadStep, fault: UploadFault)
    ensures
        ({
            let turn = step.turn(Err(fault));
            &&& turn is Refuse
            &&& step is Create ==> !turn->Refuse_0.drop_temporary && !turn->Refuse_0.drop_final
            &&& step is Receive || step is Flush || step is Inspect || step is Move
                ==> turn->Refuse_0.drop_temporary && !turn->Refuse_0.drop_final
            &&& step is Record ==> !turn->Refuse_0.drop_temporary && turn->Refuse_0.drop_final
        }),
{
}

/// An upload takes one display name and one file, in any order, and no other field.
pub proof fn one_name_and_one_file_are_expected(upload: Upload, name: Seq<char>)
    ensures
        upload.display_name is None ==> upload.expected(Some("displayName"@)) == Ok::<
            UploadField,
            UploadFault,
        >(UploadField::DisplayName),
        upload.display_name is Some ==> upload.expected(Some("displayName"@)) == Err::<
            UploadField,
            UploadFault,
        >(UploadFault::Field),
        !upload.file_seen ==> upload.expected(Some("file"@)) == Ok::<UploadField, UploadFault>(
            UploadField::File,
        ),
        upload.file_seen ==> upload.expected(Some("file"@)) == Err::<UploadField, UploadFault>(
            UploadFault::Field,
        ),
        name != "file"@ && name != "displayName"@ ==> upload.expected(Some(name)) == Err::<
            UploadField,
            UploadFault,
        >(UploadFault::Field),
        upload.expected(None) == Err::<UploadField, UploadFault>(UploadFault::FieldName),
{
    reveal_strlit("displayName");
    reveal_strlit("file");
    assert("displayName"@.len() == 11);
    assert("file"@.len() == 4);
}

/// An upload has no more than two gibibytes.
pub proof fn uploads_are_limited_to_two_gibibytes(chunks: Seq<u64>)
    ensures
        accepted_chunks(chunks) is Some <==> github::chunk_total(chunks) <= 2_147_483_648,
{
    uploads_stop_at_the_limit(chunks);
}

/// Only the file of an app that may be removed is; one with an active job, one that is not stored and
/// a store that failed are told apart.
pub proof fn removals_are_refused_by_their_reason(storage_path: String)
    ensures
        removal_turn(Some(AppDeletion::Ready { storage_path })) == RemovalTurn::RemoveFile(
            storage_path,
        ),
        removal_turn(Some(AppDeletion::ActiveJob)) is Refuse,
        reply::says(
            removal_turn(Some(AppDeletion::ActiveJob))->Refuse_0,
            409,
            "This IPA cannot be removed while an installation or refresh job is active."@,
        ),
        removal_turn(Some(AppDeletion::NotFound)) is Refuse,
        reply::says(
            removal_turn(Some(AppDeletion::NotFound))->Refuse_0,
            404,
            "Uploaded IPA was not found."@,
        ),
        removal_turn(None) is Refuse,
        reply::says(removal_turn(None)->Refuse_0, 500, "Unable to remove the IPA."@),
{
}

/// An app whose file was removed is gone, and one whose file was not is restored and told as a
/// failure.
pub proof fn unremoved_apps_are_restored()
    ensures
        !removal_end(true).restore,
        removal_end(true).reply.status == 204,
        removal_end(true).reply.message is None,
        removal_end(false).restore,
        reply::says(
            removal_end(false).reply,
            500,
            "Unable to remove the IPA file from server storage."@,
        ),
{
}

/// An app is renamed to any name that may be shown and is not blank; the other names are told apart.
pub proof fn shown_names_are_accepted(value: Seq<char>)
    ensures
        is_display_name(text::trimmed(value)) && text::trimmed(value).len() > 0 ==> rename_refusal(
            value,
        ) is None,
        !is_display_name(text::trimmed(value)) ==> rename_refusal(value) is Some && reply::says(
            rename_refusal(value)->0,
            400,
            "Invalid display name."@,
        ),
        is_display_name(text::trimmed(value)) && text::trimmed(value).len() == 0 ==> rename_refusal(
            value,
        ) is Some && reply::says(
            rename_refusal(value)->0,
            400,
            "Display name cannot be empty when renaming."@,
        ),
{
}

/// An app is stored under the name that it was given, and under that of its IPA where it was given
/// none.
pub proof fn given_names_come_first(name: Seq<char>, own: Seq<char>)
    ensures
        name.len() > 0 ==> shown_name(Some(name), own) == name,
        shown_name(Some(Seq::empty()), own) == own,
        shown_name(None, own) == own,
{
}

} // verus!

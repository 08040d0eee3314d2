//! Apple sign-in, the developer account, and the ownership of a signed app.
use crate::archive;
use crate::archive::PlistDocument;
use crate::record::RecordId;
use crate::sealing;
use crate::sealing::SealedRecord;
use crate::text;
use vstd::prelude::*;
use vstd::string::*;
use vstd::utf8::*;

verus! {

#[derive(Debug, Clone, Copy, PartialEq, Eq, Structural)]
pub enum LoginPhase {
    Authenticating,
    AwaitingTwoFactor,
    Ready,
    Failed,
}

#[derive(Debug, Clone, Copy, PartialEq, Eq, Structural)]
pub enum SigningError {
    UnknownSession,
    NoTwoFactorChallenge,
    InvalidTwoFactorAction,
    MissingAnisetteUrl,
    NotReady,
    DeviceInfoFailed,
    DeveloperTeamFailed,
    DeviceRegistrationRequired,
    DeviceRegistrationFailed,
    IpaSigningFailed,
    SignedMetadataFailed,
    DeviceInstallFailed,
    CredentialStorage,
}

impl SigningError {
    pub open spec fn text(self) -> &'static str {
        match self {
            SigningError::UnknownSession => "Apple login session was not found",
            SigningError::NoTwoFactorChallenge => {
                "Apple is not currently requesting a two-factor response"
            },
            SigningError::InvalidTwoFactorAction => "two-factor action is invalid",
            SigningError::MissingAnisetteUrl => {
                "a trusted anisette URL must be configured before Apple sign-in"
            },
            SigningError::NotReady => "Apple signing session is not ready",
            SigningError::DeviceInfoFailed => "device information lookup failed",
            SigningError::DeveloperTeamFailed => "developer team lookup failed",
            SigningError::DeviceRegistrationRequired => {
                "device registration requires explicit authorization"
            },
            SigningError::DeviceRegistrationFailed => "device registration failed",
            SigningError::IpaSigningFailed => "IPA signing failed",
            SigningError::SignedMetadataFailed => "signed IPA metadata validation failed",
            SigningError::DeviceInstallFailed => "device installation failed",
            SigningError::CredentialStorage => "encrypted credential storage failed",
        }
    }

    /// The error as a sentence.
    pub fn message(self) -> (message: &'static str)
        ensures
            message == self.text(),
    {
        match self {
            SigningError::UnknownSession => "Apple login session was not found",
            SigningError::NoTwoFactorChallenge => {
                "Apple is not currently requesting a two-factor response"
            },
            SigningError::InvalidTwoFactorAction => "two-factor action is invalid",
            SigningError::MissingAnisetteUrl => {
                "a trusted anisette URL must be configured before Apple sign-in"
            },
            SigningError::NotReady => "Apple signing session is not ready",
            SigningError::DeviceInfoFailed => "device information lookup failed",
            SigningError::DeveloperTeamFailed => "developer team lookup failed",
            SigningError::DeviceRegistrationRequired => {
                "device registration requires explicit authorization"
            },
            SigningError::DeviceRegistrationFailed => "device registration failed",
            SigningError::IpaSigningFailed => "IPA signing failed",
            SigningError::SignedMetadataFailed => "signed IPA metadata validation failed",
            SigningError::DeviceInstallFailed => "device installation failed",
            SigningError::CredentialStorage => "encrypted credential storage failed",
        }
    }
}

// ---------------------------------------------------------------------------------------------
// Sign-in.
// ---------------------------------------------------------------------------------------------

/// Where a sign-in stands. `two_factor` is what Apple asks for while it waits for an answer.
#[derive(Debug)]
pub struct LoginStatus<P> {
    pub id: RecordId,
    pub phase: LoginPhase,
    pub two_factor: Option<P>,
    pub message: &'static str,
}

/// An answer to a two-factor challenge.
#[derive(Debug)]
pub enum TwoFactorResponse {
    SubmitCode(String),
    SendSms(u32),
    SendToDevices,
    ResendCode,
    Abort,
}

/// A sign-in with its status and the answer that waits to be taken.
#[derive(Debug)]
pub struct LoginAttempt<P> {
    pub status: LoginStatus<P>,
    pub response: Option<TwoFactorResponse>,
}

impl<P> LoginAttempt<P> {
    /// A sign-in that has begun.
    pub fn new(id: RecordId) -> (attempt: LoginAttempt<P>)
        ensures
            attempt == begun::<P>(id),
    {
        LoginAttempt {
            status: LoginStatus {
                id,
                phase: LoginPhase::Authenticating,
                two_factor: None,
                message: "Authenticating with Apple.",
            },
            response: None,
        }
    }

    /// Tells what the sign-in is doing.
    pub fn authenticating(&mut self, message: &'static str)
        ensures
            *final(self) == stepped(*old(self), LoginPhase::Authenticating, None, message),
    {
        self.status.phase = LoginPhase::Authenticating;
        self.status.two_factor = None;
        self.status.message = message;
    }

    /// Waits for an answer to a challenge.
    pub fn challenge(&mut self, params: P)
        ensures
            *final(self) == challenged(*old(self), params),
    {
        self.status.phase = LoginPhase::AwaitingTwoFactor;
        self.status.two_factor = Some(params);
        self.status.message = "Apple requires a two-factor authentication response.";
    }

    /// Keeps an answer for the challenge; the latest counts. Without a challenge nothing changes.
    pub fn submit(&mut self, response: TwoFactorResponse) -> (result: Result<(), SigningError>)
        ensures
            final(self).status == old(self).status,
            if old(self).status.phase is AwaitingTwoFactor {
                result is Ok && final(self).response == Some(response)
            } else {
                result == Err::<(), SigningError>(SigningError::NoTwoFactorChallenge)
                    && final(self).response == old(self).response
            },
    {
        if self.status.phase != LoginPhase::AwaitingTwoFactor {
            return Err(SigningError::NoTwoFactorChallenge);
        }
        self.response = Some(response);
        Ok(())
    }

    /// Takes the answer that waits, where there is one. It is taken once.
    pub fn take_response(&mut self) -> (response: Option<TwoFactorResponse>)
        ensures
            response == old(self).response,
            final(self).response is None,
            final(self).status == old(self).status,
    {
        self.response.take()
    }

    /// The sign-in has succeeded.
    pub fn ready(&mut self)
        ensures
            *final(self) == made_ready(*old(self)),
    {
        self.status.phase = LoginPhase::Ready;
        self.status.two_factor = None;
        self.status.message = "Apple signing session is ready.";
    }

    /// The sign-in has failed.
    pub fn failed(&mut self)
        ensures
            *final(self) == made_failed(*old(self)),
    {
        self.status.phase = LoginPhase::Failed;
        self.status.two_factor = None;
        self.status.message =
        "Apple authentication failed. Check the server logs for redacted diagnostics.";
    }
}

/// The answer that an action with its arguments stands for.
pub open spec fn is_response(
    action: Seq<char>,
    code: Option<String>,
    number_id: Option<u32>,
    response: TwoFactorResponse,
) -> bool {
    match response {
        TwoFactorResponse::SubmitCode(submitted) => action == "submitCode"@ && code == Some(
            submitted,
        ) && text::trimmed(submitted@).len() > 0,
        TwoFactorResponse::SendSms(number) => action == "sendSms"@ && number_id == Some(number),
        TwoFactorResponse::SendToDevices => action == "sendToDevices"@,
        TwoFactorResponse::ResendCode => action == "resendCode"@,
        TwoFactorResponse::Abort => action == "abort"@,
    }
}

/// The answer that an action with its arguments stands for.
pub fn two_factor_response(action: &str, code: Option<String>, number_id: Option<u32>) -> (result:
    Result<TwoFactorResponse, SigningError>)
    ensures
        match result {
            Ok(response) => is_response(action@, code, number_id, response),
            Err(error) => error == SigningError::InvalidTwoFactorAction && forall|
                response: TwoFactorResponse,
            |
                !is_response(action@, code, number_id, response),
        },
{
    proof {
        reveal_strlit("submitCode");
        reveal_strlit("sendSms");
        reveal_strlit("sendToDevices");
        reveal_strlit("resendCode");
        reveal_strlit("abort");
        assert("submitCode"@[0] == 's');
        assert("resendCode"@[0] == 'r');
        assert("submitCode"@.len() == 10);
        assert("sendSms"@.len() == 7);
        assert("sendToDevices"@.len() == 13);
        assert("abort"@.len() == 5);
    }
    if text::same_text(action, "submitCode") {
        match code {
            Some(code) => if text::trim(code.as_str()).is_empty() {
                Err(SigningError::InvalidTwoFactorAction)
            } else {
                Ok(TwoFactorResponse::SubmitCode(code))
            },
            None => Err(SigningError::InvalidTwoFactorAction),
        }
    } else if text::same_text(action, "sendSms") {
        match number_id {
            Some(number) => Ok(TwoFactorResponse::SendSms(number)),
            None => Err(SigningError::InvalidTwoFactorAction),
        }
    } else if text::same_text(action, "sendToDevices") {
        Ok(TwoFactorResponse::SendToDevices)
    } else if text::same_text(action, "resendCode") {
        Ok(TwoFactorResponse::ResendCode)
    } else if text::same_text(action, "abort") {
        Ok(TwoFactorResponse::Abort)
    } else {
        Err(SigningError::InvalidTwoFactorAction)
    }
}

/// The sign-ins of this run of the server.
#[derive(Debug)]
pub struct LoginBook<P> {
    pub attempts: Vec<LoginAttempt<P>>,
}

/// A sign-in that has just begun.
pub open spec fn begun<P>(id: RecordId) -> LoginAttempt<P> {
    LoginAttempt {
        status: LoginStatus {
            id,
            phase: LoginPhase::Authenticating,
            two_factor: None,
            message: "Authenticating with Apple.",
        },
        response: None,
    }
}

/// A sign-in that has come to another phase. An answer that waits stays.
pub open spec fn stepped<P>(
    attempt: LoginAttempt<P>,
    phase: LoginPhase,
    two_factor: Option<P>,
    message: &'static str,
) -> LoginAttempt<P> {
    LoginAttempt {
        status: LoginStatus { id: attempt.status.id, phase, two_factor, message },
        response: attempt.response,
    }
}

/// A sign-in that waits for an answer to a challenge.
pub open spec fn challenged<P>(attempt: LoginAttempt<P>, params: P) -> LoginAttempt<P> {
    stepped(
        attempt,
        LoginPhase::AwaitingTwoFactor,
        Some(params),
        "Apple requires a two-factor authentication response.",
    )
}

/// A sign-in that has succeeded.
pub open spec fn made_ready<P>(attempt: LoginAttempt<P>) -> LoginAttempt<P> {
    stepped(attempt, LoginPhase::Ready, None, "Apple signing session is ready.")
}

/// A sign-in that has failed.
pub open spec fn made_failed<P>(attempt: LoginAttempt<P>) -> LoginAttempt<P> {
    stepped(
        attempt,
        LoginPhase::Failed,
        None,
        "Apple authentication failed. Check the server logs for redacted diagnostics.",
    )
}

/// A sign-in for which an answer to its challenge is kept.
pub open spec fn answered<P>(attempt: LoginAttempt<P>, response: TwoFactorResponse) -> LoginAttempt<
    P,
> {
    LoginAttempt { status: attempt.status, response: Some(response) }
}

/// The sign-in with an identifier.
pub open spec fn is_attempt<P>(attempts: Seq<LoginAttempt<P>>, id: RecordId, at: int) -> bool {
    &&& 0 <= at < attempts.len()
    &&& attempts[at].status.id == id
}

impl<P> LoginBook<P> {
    /// No identifier stands twice.
    pub open spec fn wf(self) -> bool {
        forall|i: int, j: int|
            0 <= i < j < self.attempts@.len() ==> (#[trigger] self.attempts@[i]).status.id != (
            #[trigger] self.attempts@[j]).status.id
    }

    pub fn new() -> (book: LoginBook<P>)
        ensures
            book.wf(),
            book.attempts@.len() == 0,
    {
        LoginBook { attempts: Vec::new() }
    }

    /// The position of a sign-in.
    pub fn find(&self, id: RecordId) -> (at: Option<usize>)
        ensures
            match at {
                Some(at) => is_attempt(self.attempts@, id, at as int),
                None => forall|i: int| !is_attempt(self.attempts@, id, i),
            },
    {
        let mut i: usize = 0;
        while i < self.attempts.len()
            invariant
                i <= self.attempts.len(),
                forall|k: int| 0 <= k < i ==> (#[trigger] self.attempts@[k]).status.id != id,
            decreases self.attempts.len() - i,
        {
            if self.attempts[i].status.id == id {
                return Some(i);
            }
            i = i + 1;
        }
        None
    }

    /// Begins a sign-in under a fresh identifier; one with the same identifier is replaced.
    pub fn begin(&mut self, id: RecordId)
        requires
            old(self).wf(),
        ensures
            final(self).wf(),
            forall|at: int| #[trigger]
                is_attempt(old(self).attempts@, id, at) ==> final(self).attempts@ == old(
                    self,
                ).attempts@.update(at, begun(id)),
            (forall|at: int| !is_attempt(old(self).attempts@, id, at)) ==> final(self).attempts@
                == old(self).attempts@.push(begun(id)),
    {
        let ghost before = self.attempts@;
        match self.find(id) {
            Some(at) => {
                self.attempts.set(at, LoginAttempt::new(id));
            },
            None => {
                self.attempts.push(LoginAttempt::new(id));
                proof {
                    assert forall|i: int, j: int|
                        0 <= i < j < self.attempts@.len() implies (#[trigger] self.attempts@[i]).status.id
                        != (#[trigger] self.attempts@[j]).status.id by {
                        assert(self.attempts@[i] == before[i]);
                        if j == before.len() {
                            assert(!is_attempt(before, id, i));
                        } else {
                            assert(self.attempts@[j] == before[j]);
                        }
                    }
                }
            },
        }
    }

    /// Keeps an answer to the challenge of a sign-in. The action has to stand for an answer, the
    /// sign-in has to be known, and it has to wait for one; else nothing changes.
    pub fn submit_two_factor(
        &mut self,
        id: RecordId,
        action: &str,
        code: Option<String>,
        number_id: Option<u32>,
    ) -> (result: Result<(), SigningError>)
        requires
            old(self).wf(),
        ensures
            final(self).wf(),
            match result {
                Ok(()) => exists|at: int, response: TwoFactorResponse|
                    {
                        &&& #[trigger] is_attempt(old(self).attempts@, id, at)
                        &&& #[trigger] is_response(action@, code, number_id, response)
                        &&& old(self).attempts@[at].status.phase is AwaitingTwoFactor
                        &&& final(self).attempts@ == old(self).attempts@.update(
                            at,
                            answered(old(self).attempts@[at], response),
                        )
                    },
                Err(error) => {
                    &&& final(self).attempts@ == old(self).attempts@
                    &&& match error {
                        SigningError::InvalidTwoFactorAction => forall|
                            response: TwoFactorResponse,
                        |
                            !is_response(action@, code, number_id, response),
                        SigningError::UnknownSession => {
                            &&& exists|response: TwoFactorResponse|
                                is_response(action@, code, number_id, response)
                            &&& forall|at: int| !is_attempt(old(self).attempts@, id, at)
                        },
                        SigningError::NoTwoFactorChallenge => {
                            &&& exists|response: TwoFactorResponse|
                                is_response(action@, code, number_id, response)
                            &&& exists|at: int|
                                is_attempt(old(self).attempts@, id, at) && !(old(
                                    self,
                                ).attempts@[at].status.phase is AwaitingTwoFactor)
                        },
                        _ => false,
                    }
                },
            },
    {
        let response: TwoFactorResponse = match two_factor_response(action, code, number_id) {
            Ok(response) => response,
            Err(error) => {
                return Err(error);
            },
        };
        let ghost before = self.attempts@;
        match self.find(id) {
            Some(at) => {
                let result: Result<(), SigningError> = self.attempts[at].submit(response);
                proof {
                    assert(is_attempt(before, id, at as int));
                    assert forall|i: int, j: int|
                        0 <= i < j < self.attempts@.len() implies (#[trigger] self.attempts@[i]).status.id
                        != (#[trigger] self.attempts@[j]).status.id by {
                        assert(self.attempts@[i].status.id == before[i].status.id);
                        assert(self.attempts@[j].status.id == before[j].status.id);
                    }
                }
                result
            },
            None => Err(SigningError::UnknownSession),
        }
    }

    /// Where a sign-in stands.
    pub fn status(&self, id: RecordId) -> (result: Result<&LoginStatus<P>, SigningError>)
        requires
            self.wf(),
        ensures
            match result {
                Ok(status) => exists|at: int|
                    is_attempt(self.attempts@, id, at) && self.attempts@[at].status == *status,
                Err(error) => error == SigningError::UnknownSession && forall|i: int|
                    !is_attempt(self.attempts@, id, i),
            },
    {
        match self.find(id) {
            Some(at) => Ok(&self.attempts[at].status),
            None => Err(SigningError::UnknownSession),
        }
    }
}

/// What a sign-in needs and remembers beside its attempts.
#[derive(Debug)]
pub struct SigningAccount {
    pub anisette_url: Option<String>,
    pub recovery_requested: bool,
    pub saved_login: Option<RecordId>,
}

impl SigningAccount {
    /// The account with the service that it signs in through, unless that is blank.
    pub fn new(anisette_url: Option<String>) -> (account: SigningAccount)
        ensures
            account.anisette_url == if anisette_url is Some && text::trimmed(
                anisette_url->0@,
            ).len() > 0 {
                anisette_url
            } else {
                None::<String>
            },
            !account.recovery_requested,
            account.saved_login is None,
    {
        let anisette_url: Option<String> = match anisette_url {
            Some(url) => if text::trim(url.as_str()).is_empty() {
                None
            } else {
                Some(url)
            },
            None => None,
        };
        SigningAccount { anisette_url, recovery_requested: false, saved_login: None }
    }

    pub fn has_anisette_url(&self) -> (result: bool)
        ensures
            result == self.anisette_url is Some,
    {
        self.anisette_url.is_some()
    }

    /// Arms the next sign-in to revoke an older development certificate where Apple asks for it.
    pub fn request_certificate_recovery(&mut self)
        ensures
            final(self).recovery_requested,
            final(self).anisette_url == old(self).anisette_url,
            final(self).saved_login == old(self).saved_login,
    {
        self.recovery_requested = true;
    }

    /// What a sign-in begins with: the service's address, and whether it may revoke a certificate.
    /// The recovery is used up by one sign-in; one that cannot begin leaves it armed.
    pub fn begin_login(&mut self) -> (result: Result<(String, bool), SigningError>)
        ensures
            final(self).anisette_url == old(self).anisette_url,
            final(self).saved_login == old(self).saved_login,
            match result {
                Ok((url, revoke)) => {
                    &&& old(self).anisette_url == Some(url)
                    &&& revoke == old(self).recovery_requested
                    &&& !final(self).recovery_requested
                },
                Err(error) => {
                    &&& error == SigningError::MissingAnisetteUrl
                    &&& old(self).anisette_url is None
                    &&& final(self).recovery_requested == old(self).recovery_requested
                },
            },
    {
        match &self.anisette_url {
            Some(url) => {
                let url: String = url.clone();
                let revoke: bool = self.recovery_requested;
                self.recovery_requested = false;
                Ok((url, revoke))
            },
            None => Err(SigningError::MissingAnisetteUrl),
        }
    }
}

// ---------------------------------------------------------------------------------------------
// Saved sign-ins.
// ---------------------------------------------------------------------------------------------

/// The account and the password of a sign-in that is saved.
#[derive(Debug)]
pub struct SavedCredentials {
    pub email: String,
    pub password: String,
}

/// The account and the password of a sign-in, as texts.
pub struct Credentials {
    pub email: Seq<char>,
    pub password: Seq<char>,
}

impl View for SavedCredentials {
    type V = Credentials;

    open spec fn view(&self) -> Credentials {
        Credentials { email: self.email@, password: self.password@ }
    }
}

/// What reading the file of the saved sign-in brought.
#[derive(Debug)]
pub enum CredentialRead {
    /// There is none.
    Missing,
    /// It could not be read, or holds no record.
    Unreadable,
    Record(SealedRecord),
}

/// The plaintext of a saved sign-in: nothing where none is saved.
pub open spec fn saved_text(read: CredentialRead, key: Seq<u8>) -> Result<
    Option<Seq<u8>>,
    SigningError,
> {
    match read {
        CredentialRead::Missing => Ok(None),
        CredentialRead::Unreadable => Err(SigningError::CredentialStorage),
        CredentialRead::Record(record) => match sealing::opened(
            key,
            record.nonce@,
            record.ciphertext@,
        ) {
            Some(text) => Ok(Some(text)),
            None => Err(SigningError::CredentialStorage),
        },
    }
}

/// The key under which sign-ins are saved, as it was read; none where one has to be made.
pub fn credential_key(read: Option<Vec<u8>>) -> (key: Result<Option<Vec<u8>>, SigningError>)
    ensures
        key == match read {
            Some(bytes) => if bytes@.len() == sealing::KEY_BYTES {
                Ok::<Option<Vec<u8>>, SigningError>(Some(bytes))
            } else {
                Err::<Option<Vec<u8>>, SigningError>(SigningError::CredentialStorage)
            },
            None => Ok::<Option<Vec<u8>>, SigningError>(None),
        },
{
    match read {
        Some(bytes) => if sealing::is_key(bytes.as_slice()) {
            Ok(Some(bytes))
        } else {
            Err(SigningError::CredentialStorage)
        },
        None => Ok(None),
    }
}

/// Seals the plaintext of a sign-in that is saved. What is read of the record gives the plaintext
/// back.
pub fn save_plaintext(key: &[u8], plaintext: &[u8]) -> (record: Result<SealedRecord, SigningError>)
    requires
        plaintext@.len() + 16 <= isize::MAX / 2,
    ensures
        match record {
            Ok(record) => {
                &&& key@.len() == sealing::KEY_BYTES
                &&& plaintext@.len() <= sealing::MAX_PLAINTEXT
                &&& exists|nonce: Seq<u8>| sealing::is_seal(record, key@, nonce, plaintext@)
                &&& saved_text(CredentialRead::Record(record), key@) == Ok::<
                    Option<Seq<u8>>,
                    SigningError,
                >(Some(plaintext@))
            },
            Err(error) => {
                &&& error == SigningError::CredentialStorage
                &&& key@.len() != sealing::KEY_BYTES || plaintext@.len() > sealing::MAX_PLAINTEXT
            },
        },
{
    match sealing::seal(key, plaintext) {
        Some(record) => Ok(record),
        None => Err(SigningError::CredentialStorage),
    }
}

/// Whether the key is needed to restore a sign-in. Without a record that some key opens it is
/// neither read nor made.
pub fn needs_credential_key(read: &CredentialRead) -> (needed: bool)
    ensures
        needed == match *read {
            CredentialRead::Record(record) => sealing::is_decodable(
                record.nonce@,
                record.ciphertext@,
            ),
            _ => false,
        },
        forall|key: Seq<u8>, other: Seq<u8>|
            !needed ==> saved_text(*read, key) == saved_text(*read, other),
{
    match read {
        CredentialRead::Record(record) => sealing::decodable(record),
        _ => false,
    }
}

/// The plaintext of a saved sign-in.
pub fn saved_plaintext(read: CredentialRead, key: &[u8]) -> (text: Result<
    Option<Vec<u8>>,
    SigningError,
>)
    ensures
        match text {
            Ok(Some(text)) => saved_text(read, key@) == Ok::<Option<Seq<u8>>, SigningError>(
                Some(text@),
            ),
            Ok(None) => saved_text(read, key@) == Ok::<Option<Seq<u8>>, SigningError>(None),
            Err(error) => saved_text(read, key@) == Err::<Option<Seq<u8>>, SigningError>(error),
        },
{
    match read {
        CredentialRead::Missing => Ok(None),
        CredentialRead::Unreadable => Err(SigningError::CredentialStorage),
        CredentialRead::Record(record) => match sealing::open(key, &record) {
            Some(text) => Ok(Some(text)),
            None => Err(SigningError::CredentialStorage),
        },
    }
}

/// What a sign-in begins with.
#[derive(Debug)]
pub struct LoginStart {
    pub credentials: SavedCredentials,
    pub anisette_url: String,
    /// It may revoke an older development certificate.
    pub revoke: bool,
}

impl SigningAccount {
    /// Begins a sign-in anew with the credentials that a saved plaintext holds, where it holds any,
    /// and remembers it as the saved one.
    pub fn restore_login(&mut self, id: RecordId, credentials: Option<SavedCredentials>) -> (start:
        Result<LoginStart, SigningError>)
        ensures
            final(self).anisette_url == old(self).anisette_url,
            match start {
                Ok(start) => {
                    &&& credentials == Some(start.credentials)
                    &&& old(self).anisette_url == Some(start.anisette_url)
                    &&& start.revoke == old(self).recovery_requested
                    &&& !final(self).recovery_requested
                    &&& final(self).saved_login == Some(id)
                },
                Err(error) => {
                    &&& error == if credentials is None {
                        SigningError::CredentialStorage
                    } else {
                        SigningError::MissingAnisetteUrl
                    }
                    &&& credentials is None || old(self).anisette_url is None
                    &&& *final(self) == *old(self)
                },
            },
    {
        let credentials: SavedCredentials = match credentials {
            Some(credentials) => credentials,
            None => {
                return Err(SigningError::CredentialStorage);
            },
        };
        match self.begin_login() {
            Ok((anisette_url, revoke)) => {
                self.remember_login(id);
                Ok(LoginStart { credentials, anisette_url, revoke })
            },
            Err(error) => Err(error),
        }
    }

    /// Remembers a sign-in as the saved one.
    pub fn remember_login(&mut self, id: RecordId)
        ensures
            *final(self) == (SigningAccount { saved_login: Some(id), ..*old(self) }),
    {
        self.saved_login = Some(id);
    }

    /// No sign-in is the saved one any more.
    pub fn forget_login(&mut self)
        ensures
            *final(self) == (SigningAccount { saved_login: None, ..*old(self) }),
    {
        self.saved_login = None;
    }
}

/// What came of removing the file of the saved sign-in.
#[derive(Debug, Clone, Copy, PartialEq, Eq, Structural)]
pub enum CredentialRemoval {
    Removed,
    /// There was none.
    Missing,
    Failed,
}

/// The saved sign-in is gone once its file is, whoever removed it.
pub fn credentials_removed(removal: CredentialRemoval) -> (result: Result<(), SigningError>)
    ensures
        result == match removal {
            CredentialRemoval::Failed => Err::<(), SigningError>(SigningError::CredentialStorage),
            _ => Ok::<(), SigningError>(()),
        },
{
    match removal {
        CredentialRemoval::Removed | CredentialRemoval::Missing => Ok(()),
        CredentialRemoval::Failed => Err(SigningError::CredentialStorage),
    }
}

/// What restoring a sign-in comes to.
pub enum Restoration {
    /// None is saved, and none is begun.
    Nothing,
    Refused(SigningError),
    /// A sign-in is begun and remembered as the saved one.
    Begun(Credentials),
}

/// What restoring a sign-in comes to, where `reading` gives the credentials that a plaintext writes
/// and `anisette` says that a service to sign in through is configured.
pub open spec fn restoration(
    read: CredentialRead,
    key: Seq<u8>,
    reading: spec_fn(Seq<u8>) -> Option<Credentials>,
    anisette: bool,
) -> Restoration {
    match saved_text(read, key) {
        Ok(None) => Restoration::Nothing,
        Err(error) => Restoration::Refused(error),
        Ok(Some(text)) => match reading(text) {
            None => Restoration::Refused(SigningError::CredentialStorage),
            Some(credentials) => if anisette {
                Restoration::Begun(credentials)
            } else {
                Restoration::Refused(SigningError::MissingAnisetteUrl)
            },
        },
    }
}

/// A sign-in that was saved is restored with its own account and password, under the key that it
/// was saved with. `writing` and `reading` stand for the text form of credentials, which reads what
/// it wrote. Once the saved sign-in is removed none is begun, and a record that the key does not
/// open is refused.
pub proof fn saved_logins_are_restored(
    credentials: Credentials,
    record: SealedRecord,
    key: Seq<u8>,
    writing: spec_fn(Credentials) -> Seq<u8>,
    reading: spec_fn(Seq<u8>) -> Option<Credentials>,
)
    requires
        reading(writing(credentials)) == Some(credentials),
    ensures
        saved_text(CredentialRead::Record(record), key) == Ok::<Option<Seq<u8>>, SigningError>(
            Some(writing(credentials)),
        ) ==> restoration(CredentialRead::Record(record), key, reading, true)
            == Restoration::Begun(credentials),
        restoration(CredentialRead::Missing, key, reading, true) == Restoration::Nothing,
        sealing::opened(key, record.nonce@, record.ciphertext@) is None ==> restoration(
            CredentialRead::Record(record),
            key,
            reading,
            true,
        ) == Restoration::Refused(SigningError::CredentialStorage),
{
}

/// The steps of a sign-in, in their order.
#[derive(Debug, Clone, Copy, PartialEq, Eq, Structural)]
pub enum LoginStep {
    /// The anisette provider is prepared.
    Prepare,
    /// Apple accepts the account, within the time given.
    Authenticate,
    /// The developer session is opened.
    Session,
}

/// What comes after a step of a sign-in.
#[derive(Debug, Clone, Copy, PartialEq, Eq, Structural)]
pub enum LoginTurn {
    Next(LoginStep),
    Ready,
    Failed,
}

/// The time that Apple and the user have to complete a sign-in, in seconds.
pub const LOGIN_TIMEOUT_SECONDS: u64 = 300;

impl LoginStep {
    /// What the sign-in tells while the step is taken; a step without a message of its own keeps
    /// the one before.
    pub fn message(self) -> (message: Option<&'static str>)
        ensures
            message == match self {
                LoginStep::Prepare => Some("Preparing the local anisette provider."),
                LoginStep::Authenticate => Some(
                    "Contacting Apple through the local anisette provider.",
                ),
                LoginStep::Session => None::<&'static str>,
            },
    {
        match self {
            LoginStep::Prepare => Some("Preparing the local anisette provider."),
            LoginStep::Authenticate => Some("Contacting Apple through the local anisette provider."),
            LoginStep::Session => None,
        }
    }

    pub open spec fn turn(self, succeeded: bool) -> LoginTurn {
        if !succeeded {
            LoginTurn::Failed
        } else {
            match self {
                LoginStep::Prepare => LoginTurn::Next(LoginStep::Authenticate),
                LoginStep::Authenticate => LoginTurn::Next(LoginStep::Session),
                LoginStep::Session => LoginTurn::Ready,
            }
        }
    }

    /// What comes after the step.
    pub fn advance(self, succeeded: bool) -> (turn: LoginTurn)
        ensures
            turn == self.turn(succeeded),
    {
        if !succeeded {
            return LoginTurn::Failed;
        }
        match self {
            LoginStep::Prepare => LoginTurn::Next(LoginStep::Authenticate),
            LoginStep::Authenticate => LoginTurn::Next(LoginStep::Session),
            LoginStep::Session => LoginTurn::Ready,
        }
    }
}

/// Whether the server can sign, and what it tells of that.
#[derive(Debug, Clone, Copy)]
pub struct SigningReadiness {
    pub available: bool,
    pub message: &'static str,
}

/// Whether the server can sign, and what it tells of that.
pub open spec fn readiness_of(session: bool, anisette: bool) -> SigningReadiness {
    SigningReadiness {
        available: session,
        message: if session {
            "Apple signing session is active."
        } else if anisette {
            "Sign in with Apple to enable signing."
        } else {
            "Configure a trusted anisette URL before signing in with Apple."
        },
    }
}

/// Whether the server can sign, and what it tells of that.
pub fn readiness(session: bool, anisette: bool) -> (readiness: SigningReadiness)
    ensures
        readiness == readiness_of(session, anisette),
{
    if session {
        SigningReadiness { available: true, message: "Apple signing session is active." }
    } else if anisette {
        SigningReadiness { available: false, message: "Sign in with Apple to enable signing." }
    } else {
        SigningReadiness {
            available: false,
            message: "Configure a trusted anisette URL before signing in with Apple.",
        }
    }
}

// ---------------------------------------------------------------------------------------------
// Devices and the developer account.
// ---------------------------------------------------------------------------------------------

/// The name and the UDID under which a device is registered.
#[derive(Debug)]
pub struct SigningDeviceIdentity {
    pub name: String,
    pub udid: String,
}

/// The longest name or UDID in bytes.
pub const MAX_IDENTITY_BYTES: usize = 256;

pub open spec fn is_identity_text(value: Seq<char>) -> bool {
    text::trimmed(value).len() > 0 && encode_utf8(value).len() <= MAX_IDENTITY_BYTES
}

impl SigningDeviceIdentity {
    /// The identity, where both of its texts are present and not too long.
    pub fn new(name: String, udid: String) -> (result: Result<Self, SigningError>)
        ensures
            match result {
                Ok(identity) => {
                    &&& is_identity_text(name@)
                    &&& is_identity_text(udid@)
                    &&& identity.name == name
                    &&& identity.udid == udid
                },
                Err(error) => error == SigningError::DeviceInfoFailed && !(is_identity_text(name@)
                    && is_identity_text(udid@)),
            },
    {
        if text::trim(name.as_str()).is_empty() || text::trim(udid.as_str()).is_empty()
            || name.as_str().as_bytes().len() > MAX_IDENTITY_BYTES || udid.as_str().as_bytes().len()
            > MAX_IDENTITY_BYTES {
            return Err(SigningError::DeviceInfoFailed);
        }
        Ok(SigningDeviceIdentity { name, udid })
    }
}

#[derive(Debug, Clone, Copy, PartialEq, Eq, Structural)]
pub enum DeviceRegistrationState {
    AlreadyPresent,
    NewRequired,
}

#[derive(Debug, Clone, Copy, PartialEq, Eq, Structural)]
pub enum DeviceRegistrationPolicy {
    RequireExisting,
    Ensure,
}

#[derive(Debug, Clone, Copy, PartialEq, Eq, Structural)]
pub struct AppleAccountPreflight {
    pub device_registration: DeviceRegistrationState,
    pub development_certificate_count: usize,
    pub development_certificate_capacity: Option<usize>,
    pub machine_certificate_present: bool,
}

/// Whether an app is signed for a device of which the account was asked: only for one that it
/// already holds.
pub fn may_sign(preflight: AppleAccountPreflight) -> (allowed: bool)
    ensures
        allowed == (preflight.device_registration == DeviceRegistrationState::AlreadyPresent),
{
    preflight.device_registration == DeviceRegistrationState::AlreadyPresent
}

/// A development certificate as the account lists it.
#[derive(Debug)]
pub struct CertificateRow {
    pub serial_number: Option<String>,
    pub status: Option<String>,
    pub machine_name: Option<String>,
    pub max_active: Option<i64>,
}

/// The name under which this server holds certificates.
pub const MACHINE_NAME: &'static str = "iPhoneLoadly";

/// A certificate counts while it has a serial number and is not revoked.
pub open spec fn is_active_certificate(certificate: CertificateRow) -> bool {
    certificate.serial_number is Some && text::text_view(certificate.status) != Some("Revoked"@)
}

pub open spec fn active_count(certificates: Seq<CertificateRow>) -> nat
    decreases certificates.len(),
{
    if certificates.len() == 0 {
        0
    } else {
        active_count(certificates.drop_last()) + if is_active_certificate(certificates.last()) {
            1nat
        } else {
            0nat
        }
    }
}

/// The capacity that a certificate tells, where it is a count.
pub open spec fn told_capacity(certificate: CertificateRow) -> Option<int> {
    match certificate.max_active {
        Some(capacity) => if 0 <= capacity <= usize::MAX {
            Some(capacity as int)
        } else {
            None
        },
        None => None,
    }
}

/// The capacity is the greatest that a certificate tells.
pub open spec fn is_capacity(certificates: Seq<CertificateRow>, capacity: Option<usize>) -> bool {
    match capacity {
        Some(capacity) => {
            &&& exists|i: int|
                0 <= i < certificates.len() && told_capacity(#[trigger] certificates[i]) == Some(
                    capacity as int,
                )
            &&& forall|i: int|
                0 <= i < certificates.len() && told_capacity(#[trigger] certificates[i]) is Some
                    ==> told_capacity(certificates[i])->0 <= capacity
        },
        None => forall|i: int|
            0 <= i < certificates.len() ==> told_capacity(#[trigger] certificates[i]) is None,
    }
}

/// The account holds a certificate of this server that counts.
pub open spec fn has_machine_certificate(certificates: Seq<CertificateRow>) -> bool {
    exists|i: int|
        {
            &&& 0 <= i < certificates.len()
            &&& is_active_certificate(#[trigger] certificates[i])
            &&& text::text_view(certificates[i].machine_name) == Some(MACHINE_NAME@)
        }
}

/// Whether a device with the UDID is registered.
pub fn is_registered(devices: &Vec<String>, udid: &str) -> (registered: bool)
    ensures
        registered == text::text_views(devices@).contains(udid@),
{
    let ghost numbers = text::text_views(devices@);
    let mut i: usize = 0;
    while i < devices.len()
        invariant
            i <= devices.len(),
            numbers == text::text_views(devices@),
            forall|k: int| 0 <= k < i ==> #[trigger] numbers[k] != udid@,
        decreases devices.len() - i,
    {
        proof {
            assert(numbers[i as int] == devices@[i as int]@);
        }
        if text::same_text(devices[i].as_str(), udid) {
            return true;
        }
        i = i + 1;
    }
    false
}

fn as_text(text: &Option<String>) -> (result: Option<&str>)
    ensures
        text::str_view(result) == text::text_view(*text),
{
    match text {
        Some(text) => Some(text.as_str()),
        None => None,
    }
}

/// What the account says of a device and of its certificates.
pub fn account_preflight(
    devices: &Vec<String>,
    certificates: &Vec<CertificateRow>,
    identity: &SigningDeviceIdentity,
) -> (preflight: AppleAccountPreflight)
    ensures
        preflight.device_registration == if text::text_views(devices@).contains(identity.udid@) {
            DeviceRegistrationState::AlreadyPresent
        } else {
            DeviceRegistrationState::NewRequired
        },
        preflight.development_certificate_count == active_count(certificates@),
        is_capacity(certificates@, preflight.development_certificate_capacity),
        preflight.machine_certificate_present == has_machine_certificate(certificates@),
{
    let mut count: usize = 0;
    let mut capacity: Option<usize> = None;
    let mut machine: bool = false;
    let mut i: usize = 0;
    proof {
        assert(certificates@.take(0) == Seq::<CertificateRow>::empty());
    }
    while i < certificates.len()
        invariant
            i <= certificates.len(),
            count <= i,
            count == active_count(certificates@.take(i as int)),
            is_capacity(certificates@.take(i as int), capacity),
            machine == has_machine_certificate(certificates@.take(i as int)),
        decreases certificates.len() - i,
    {
        let ghost seen = certificates@.take(i as int);
        let ghost more = certificates@.take(i + 1);
        let certificate: &CertificateRow = &certificates[i];
        proof {
            assert(more.drop_last() == seen);
            assert(more.last() == *certificate);
            assert(forall|k: int| 0 <= k < i ==> #[trigger] more[k] == seen[k]);
            assert(more[i as int] == *certificate);
        }
        let active: bool = certificate.serial_number.is_some() && !text::is_text(
            as_text(&certificate.status),
            "Revoked",
        );
        if active {
            count = count + 1;
            if text::is_text(as_text(&certificate.machine_name), MACHINE_NAME) {
                proof {
                    assert(is_active_certificate(more[i as int]));
                }
                machine = true;
            }
        }
        let ghost told_before = capacity;
        if let Some(told) = certificate.max_active {
            if 0 <= told && told as u64 <= usize::MAX as u64 {
                let told: usize = told as usize;
                capacity = match capacity {
                    Some(known) => if told >= known {
                        Some(told)
                    } else {
                        Some(known)
                    },
                    None => Some(told),
                };
            }
        }
        proof {
            if has_machine_certificate(seen) {
                let k = choose|k: int|
                    {
                        &&& 0 <= k < seen.len()
                        &&& is_active_certificate(#[trigger] seen[k])
                        &&& text::text_view(seen[k].machine_name) == Some(MACHINE_NAME@)
                    };
                assert(is_active_certificate(more[k]));
            }
            if told_before is Some {
                let k = choose|k: int|
                    0 <= k < seen.len() && told_capacity(#[trigger] seen[k]) == Some(
                        told_before->0 as int,
                    );
                assert(told_capacity(more[k]) == Some(told_before->0 as int));
            }
            if told_capacity(*certificate) is Some {
                assert(told_capacity(more[i as int]) is Some);
            }
        }
        i = i + 1;
    }
    proof {
        assert(certificates@.take(i as int) == certificates@);
    }
    AppleAccountPreflight {
        device_registration: if is_registered(devices, identity.udid.as_str()) {
            DeviceRegistrationState::AlreadyPresent
        } else {
            DeviceRegistrationState::NewRequired
        },
        development_certificate_count: count,
        development_certificate_capacity: capacity,
        machine_certificate_present: machine,
    }
}

/// The steps by which an IPA is signed for a device, in their order.
#[derive(Debug, Clone, Copy, PartialEq, Eq, Structural)]
pub enum SignStep {
    /// The IPA is a file.
    File,
    /// A signing session is there.
    Session,
    /// The developer team is known.
    Team,
    /// The account's devices were listed; only where registration is not allowed.
    Devices,
    /// The device is registered: it was, or it is now, as the policy says.
    Registration,
    /// The app is signed.
    Sign,
    /// The signed app is owned.
    Own,
}

#[derive(Debug, Clone, Copy, PartialEq, Eq, Structural)]
pub enum SignTurn {
    Next(SignStep),
    Done,
    Failed(SigningError),
}

impl SignStep {
    pub open spec fn turn(self, policy: DeviceRegistrationPolicy, succeeded: bool) -> SignTurn {
        if succeeded {
            match self {
                SignStep::File => SignTurn::Next(SignStep::Session),
                SignStep::Session => SignTurn::Next(SignStep::Team),
                SignStep::Team => if policy is RequireExisting {
                    SignTurn::Next(SignStep::Devices)
                } else {
                    SignTurn::Next(SignStep::Registration)
                },
                SignStep::Devices => SignTurn::Next(SignStep::Registration),
                SignStep::Registration => SignTurn::Next(SignStep::Sign),
                SignStep::Sign => SignTurn::Next(SignStep::Own),
                SignStep::Own => SignTurn::Done,
            }
        } else {
            SignTurn::Failed(
                match self {
                    SignStep::File => SigningError::IpaSigningFailed,
                    SignStep::Session => SigningError::NotReady,
                    SignStep::Team => SigningError::DeveloperTeamFailed,
                    SignStep::Devices => SigningError::DeveloperTeamFailed,
                    SignStep::Registration => if policy is RequireExisting {
                        SigningError::DeviceRegistrationRequired
                    } else {
                        SigningError::DeviceRegistrationFailed
                    },
                    SignStep::Sign => SigningError::IpaSigningFailed,
                    SignStep::Own => SigningError::SignedMetadataFailed,
                },
            )
        }
    }

    /// What comes after the step.
    pub fn advance(self, policy: DeviceRegistrationPolicy, succeeded: bool) -> (turn: SignTurn)
        ensures
            turn == self.turn(policy, succeeded),
    {
        if succeeded {
            match self {
                SignStep::File => SignTurn::Next(SignStep::Session),
                SignStep::Session => SignTurn::Next(SignStep::Team),
                SignStep::Team => if policy == DeviceRegistrationPolicy::RequireExisting {
                    SignTurn::Next(SignStep::Devices)
                } else {
                    SignTurn::Next(SignStep::Registration)
                },
                SignStep::Devices => SignTurn::Next(SignStep::Registration),
                SignStep::Registration => SignTurn::Next(SignStep::Sign),
                SignStep::Sign => SignTurn::Next(SignStep::Own),
                SignStep::Own => SignTurn::Done,
            }
        } else {
            SignTurn::Failed(
                match self {
                    SignStep::File => SigningError::IpaSigningFailed,
                    SignStep::Session => SigningError::NotReady,
                    SignStep::Team => SigningError::DeveloperTeamFailed,
                    SignStep::Devices => SigningError::DeveloperTeamFailed,
                    SignStep::Registration => if policy
                        == DeviceRegistrationPolicy::RequireExisting {
                        SigningError::DeviceRegistrationRequired
                    } else {
                        SigningError::DeviceRegistrationFailed
                    },
                    SignStep::Sign => SigningError::IpaSigningFailed,
                    SignStep::Own => SigningError::SignedMetadataFailed,
                },
            )
        }
    }
}

/// The part of the whole progress that signing makes up.
pub const SIGNING_PROGRESS: u8 = 40;

/// The progress of a whole installation while the app is installed: signing is the first 40
/// percent, and what the device reports, at most 100, makes up the rest.
pub open spec fn whole_percent(value: int) -> int {
    40 + (if value > 100 {
        100
    } else {
        value
    }) * 60 / 100
}

/// The progress of a whole installation while the app is installed.
pub fn install_percent(value: u64) -> (percent: u8)
    ensures
        percent == whole_percent(value as int),
        40 <= percent <= 100,
{
    let capped: u64 = if value > 100 {
        100
    } else {
        value
    };
    40 + (capped * 60 / 100) as u8
}

// ---------------------------------------------------------------------------------------------
// The signed app.
// ---------------------------------------------------------------------------------------------

/// A signed app that this server owns: its bundle, the path that is removed with it, and its
/// bundle identifier.
#[derive(Debug)]
pub struct SignedAppArtifact {
    app_bundle_path: String,
    cleanup_root: String,
    bundle_id: String,
}

impl SignedAppArtifact {
    pub closed spec fn path(self) -> Seq<char> {
        self.app_bundle_path@
    }

    pub closed spec fn root(self) -> Seq<char> {
        self.cleanup_root@
    }

    pub closed spec fn identifier(self) -> Seq<char> {
        self.bundle_id@
    }

    pub fn new(app_bundle_path: String, cleanup_root: String, bundle_id: String) -> (artifact:
        SignedAppArtifact)
        ensures
            artifact.path() == app_bundle_path@,
            artifact.root() == cleanup_root@,
            artifact.identifier() == bundle_id@,
    {
        SignedAppArtifact { app_bundle_path, cleanup_root, bundle_id }
    }

    pub fn app_bundle_path(&self) -> (path: &str)
        ensures
            path@ == self.path(),
    {
        self.app_bundle_path.as_str()
    }

    pub fn cleanup_root(&self) -> (path: &str)
        ensures
            path@ == self.root(),
    {
        self.cleanup_root.as_str()
    }

    pub fn bundle_id(&self) -> (bundle_id: &str)
        ensures
            bundle_id@ == self.identifier(),
    {
        self.bundle_id.as_str()
    }
}

/// The longest bundle identifier of a signed app in bytes.
pub const MAX_SIGNED_BUNDLE_ID_BYTES: usize = 512;

/// The bundle identifier that the property list of a signed app tells.
pub open spec fn told_bundle_id(
    document: Option<Option<Seq<(Seq<char>, Option<Seq<char>>)>>>,
) -> Option<Seq<char>> {
    match document {
        Some(Some(entries)) => match archive::plist_string_of(entries, "CFBundleIdentifier"@) {
            Some(bundle_id) => if bundle_id.len() > 0 && encode_utf8(bundle_id).len()
                <= MAX_SIGNED_BUNDLE_ID_BYTES {
                Some(bundle_id)
            } else {
                None
            },
            None => None,
        },
        _ => None,
    }
}

/// The bundle identifier that a parsed property list tells.
pub fn document_bundle_id(document: &PlistDocument) -> (result: Result<String, SigningError>)
    ensures
        match result {
            Ok(bundle_id) => told_bundle_id(archive::document_view(*document)) == Some(bundle_id@),
            Err(error) => error == SigningError::SignedMetadataFailed && told_bundle_id(
                archive::document_view(*document),
            ) is None,
        },
{
    match document {
        PlistDocument::Dictionary(entries) => match archive::plist_string(
            entries,
            "CFBundleIdentifier",
        ) {
            Some(bundle_id) => if bundle_id.as_str().is_empty()
                || bundle_id.as_str().as_bytes().len() > MAX_SIGNED_BUNDLE_ID_BYTES {
                Err(SigningError::SignedMetadataFailed)
            } else {
                Ok(bundle_id)
            },
            None => Err(SigningError::SignedMetadataFailed),
        },
        _ => Err(SigningError::SignedMetadataFailed),
    }
}

/// The bundle identifier that the property list of a signed app tells.
pub fn signed_bundle_id(info_plist: &[u8]) -> (result: Result<String, SigningError>)
    ensures
        match result {
            Ok(bundle_id) => told_bundle_id(archive::plist_document(info_plist@)) == Some(
                bundle_id@,
            ),
            Err(error) => error == SigningError::SignedMetadataFailed && told_bundle_id(
                archive::plist_document(info_plist@),
            ) is None,
        },
{
    document_bundle_id(&archive::read_plist(info_plist))
}

/// What stands at a path of the file system.
#[derive(Debug, Clone, Copy, PartialEq, Eq, Structural)]
pub enum PathKind {
    Symlink,
    Directory,
    File,
    Other,
}

pub const MAX_TREE_ENTRIES: usize = 20_000;

pub const MAX_TREE_BYTES: u64 = 2_147_483_648;

/// A walk through the tree of a signed app: how many entries and bytes it has seen.
#[derive(Debug, Clone, Copy, PartialEq, Eq, Structural)]
pub struct TreeWalk {
    pub entries: usize,
    pub bytes: u64,
}

/// An entry of the tree: what it is, its size, and whether its real path lies within the tree.
#[derive(Debug, Clone, Copy, PartialEq, Eq, Structural)]
pub struct TreeEntry {
    pub kind: PathKind,
    pub size: u64,
    pub inside: bool,
}

impl TreeWalk {
    /// The walk after one more entry; nothing where the entry refuses the tree.
    pub open spec fn with_entry(self, entry: TreeEntry) -> Option<TreeWalk> {
        if self.entries + 1 > MAX_TREE_ENTRIES || entry.kind is Symlink || entry.kind is Other
            || !entry.inside {
            None
        } else if entry.kind is File {
            if self.bytes + entry.size > MAX_TREE_BYTES {
                None
            } else {
                Some(
                    TreeWalk {
                        entries: (self.entries + 1) as usize,
                        bytes: (self.bytes + entry.size) as u64,
                    },
                )
            }
        } else {
            Some(TreeWalk { entries: (self.entries + 1) as usize, bytes: self.bytes })
        }
    }

    pub fn new() -> (walk: TreeWalk)
        ensures
            walk == (TreeWalk { entries: 0, bytes: 0 }),
    {
        TreeWalk { entries: 0, bytes: 0 }
    }

    /// Goes over one more entry. A directory is then to be read itself.
    pub fn visit(self, entry: TreeEntry) -> (result: Result<TreeWalk, SigningError>)
        ensures
            match result {
                Ok(walk) => self.with_entry(entry) == Some(walk),
                Err(error) => error == SigningError::SignedMetadataFailed && self.with_entry(
                    entry,
                ) is None,
            },
    {
        if self.entries >= MAX_TREE_ENTRIES {
            return Err(SigningError::SignedMetadataFailed);
        }
        let entries: usize = self.entries + 1;
        if entry.kind == PathKind::Symlink || !entry.inside {
            return Err(SigningError::SignedMetadataFailed);
        }
        match entry.kind {
            PathKind::Directory => Ok(TreeWalk { entries, bytes: self.bytes }),
            PathKind::File => match self.bytes.checked_add(entry.size) {
                Some(bytes) => if bytes <= MAX_TREE_BYTES {
                    Ok(TreeWalk { entries, bytes })
                } else {
                    Err(SigningError::SignedMetadataFailed)
                },
                None => Err(SigningError::SignedMetadataFailed),
            },
            _ => Err(SigningError::SignedMetadataFailed),
        }
    }
}

/// What a walk over some entries comes to.
pub open spec fn after_tree(entries: Seq<TreeEntry>) -> Option<TreeWalk>
    decreases entries.len(),
{
    if entries.len() == 0 {
        Some(TreeWalk { entries: 0, bytes: 0 })
    } else {
        match after_tree(entries.drop_last()) {
            Some(walk) => walk.with_entry(entries.last()),
            None => None,
        }
    }
}

/// The bytes of the files among some entries.
pub open spec fn file_bytes(entries: Seq<TreeEntry>) -> int
    decreases entries.len(),
{
    if entries.len() == 0 {
        0
    } else {
        file_bytes(entries.drop_last()) + if entries.last().kind is File {
            entries.last().size as int
        } else {
            0
        }
    }
}

/// An accepted tree has a bounded number of entries and bytes, holds nothing but files and
/// directories, and nothing in it leads out of it.
pub proof fn accepted_trees_are_private(entries: Seq<TreeEntry>)
    requires
        after_tree(entries) is Some,
    ensures
        entries.len() <= MAX_TREE_ENTRIES,
        file_bytes(entries) <= MAX_TREE_BYTES,
        forall|i: int|
            0 <= i < entries.len() ==> (#[trigger] entries[i]).inside && (entries[i].kind is File
                || entries[i].kind is Directory),
        after_tree(entries)->0.entries == entries.len(),
        after_tree(entries)->0.bytes == file_bytes(entries),
    decreases entries.len(),
{
    if entries.len() > 0 {
        let before = entries.drop_last();
        accepted_trees_are_private(before);
        assert forall|i: int| 0 <= i < entries.len() implies (#[trigger] entries[i]).inside && (
        entries[i].kind is File || entries[i].kind is Directory) by {
            if i < before.len() {
                assert(before[i] == entries[i]);
            }
        }
    }
}

/// The steps by which a signed app becomes this server's own, in their order. Those from `Parent`
/// to `QuarantineMove` are taken only where the app lies on another file system than the storage.
#[derive(Debug, Clone, Copy, PartialEq, Eq, Structural)]
pub enum SnapshotStep {
    /// The source is a directory and no link.
    Source,
    /// The storage exists.
    Storage,
    /// The storage is a directory and no link.
    StorageKind,
    /// Only the owner can enter the storage.
    StorageMode,
    /// The real path of the storage is known.
    StoragePath,
    /// The source was moved into the storage.
    Move,
    /// The source's parent is a directory, no link, and has the storage's owner.
    Parent,
    /// Only the owner can enter the parent.
    ParentMode,
    /// The real path of the parent is known.
    ParentPath,
    /// A quarantine was created in the parent.
    Quarantine,
    /// Only the owner can enter the quarantine.
    QuarantineMode,
    /// The real path of the quarantine is known.
    QuarantinePath,
    /// The quarantine lies in the parent.
    QuarantinePlace,
    /// The source was moved into the quarantine.
    QuarantineMove,
    /// The owned bundle is a directory and no link.
    OwnedKind,
    /// Only the owner can enter the bundle.
    OwnedMode,
    /// The bundle lies where it was moved to.
    OwnedPlace,
    /// The tree of the bundle is private.
    Tree,
    /// The bundle's property list is a file and no link.
    InfoKind,
    /// It tells a bundle identifier.
    BundleId,
}

/// What came of a step.
#[derive(Debug, Clone, Copy, PartialEq, Eq, Structural)]
pub enum SnapshotOutcome {
    Done,
    Failed,
    /// The source lies on another file system.
    CrossesDevices,
}

/// What is removed after a failure.
#[derive(Debug, Clone, Copy, PartialEq, Eq, Structural)]
pub enum SnapshotCleanup {
    Nothing,
    Source,
    QuarantineAndSource,
    /// What was moved: the bundle itself, or its quarantine.
    Owned,
}

#[derive(Debug, Clone, Copy, PartialEq, Eq, Structural)]
pub enum SnapshotTurn {
    Next(SnapshotStep),
    Owned,
    Failed(SnapshotCleanup),
}

impl SnapshotStep {
    pub open spec fn number(self) -> int {
        match self {
            SnapshotStep::Source => 0,
            SnapshotStep::Storage => 1,
            SnapshotStep::StorageKind => 2,
            SnapshotStep::StorageMode => 3,
            SnapshotStep::StoragePath => 4,
            SnapshotStep::Move => 5,
            SnapshotStep::Parent => 6,
            SnapshotStep::ParentMode => 7,
            SnapshotStep::ParentPath => 8,
            SnapshotStep::Quarantine => 9,
            SnapshotStep::QuarantineMode => 10,
            SnapshotStep::QuarantinePath => 11,
            SnapshotStep::QuarantinePlace => 12,
            SnapshotStep::QuarantineMove => 13,
            SnapshotStep::OwnedKind => 14,
            SnapshotStep::OwnedMode => 15,
            SnapshotStep::OwnedPlace => 16,
            SnapshotStep::Tree => 17,
            SnapshotStep::InfoKind => 18,
            SnapshotStep::BundleId => 19,
        }
    }

    /// What is removed where the step fails: nothing before the app is moved, the source while it
    /// is moved, and afterwards what was moved.
    pub open spec fn cleanup(self) -> SnapshotCleanup {
        if self.number() < SnapshotStep::Move.number() {
            SnapshotCleanup::Nothing
        } else if self.number() < SnapshotStep::QuarantinePlace.number() {
            SnapshotCleanup::Source
        } else if self.number() < SnapshotStep::OwnedKind.number() {
            SnapshotCleanup::QuarantineAndSource
        } else {
            SnapshotCleanup::Owned
        }
    }

    pub open spec fn turn(self, outcome: SnapshotOutcome) -> SnapshotTurn {
        if self is Move {
            match outcome {
                SnapshotOutcome::Done => SnapshotTurn::Next(SnapshotStep::OwnedKind),
                SnapshotOutcome::CrossesDevices => SnapshotTurn::Next(SnapshotStep::Parent),
                SnapshotOutcome::Failed => SnapshotTurn::Failed(self.cleanup()),
            }
        } else if outcome is Done {
            match self {
                SnapshotStep::Source => SnapshotTurn::Next(SnapshotStep::Storage),
                SnapshotStep::Storage => SnapshotTurn::Next(SnapshotStep::StorageKind),
                SnapshotStep::StorageKind => SnapshotTurn::Next(SnapshotStep::StorageMode),
                SnapshotStep::StorageMode => SnapshotTurn::Next(SnapshotStep::StoragePath),
                SnapshotStep::StoragePath => SnapshotTurn::Next(SnapshotStep::Move),
                SnapshotStep::Move => SnapshotTurn::Next(SnapshotStep::OwnedKind),
                SnapshotStep::Parent => SnapshotTurn::Next(SnapshotStep::ParentMode),
                SnapshotStep::ParentMode => SnapshotTurn::Next(SnapshotStep::ParentPath),
                SnapshotStep::ParentPath => SnapshotTurn::Next(SnapshotStep::Quarantine),
                SnapshotStep::Quarantine => SnapshotTurn::Next(SnapshotStep::QuarantineMode),
                SnapshotStep::QuarantineMode => SnapshotTurn::Next(SnapshotStep::QuarantinePath),
                SnapshotStep::QuarantinePath => SnapshotTurn::Next(SnapshotStep::QuarantinePlace),
                SnapshotStep::QuarantinePlace => SnapshotTurn::Next(SnapshotStep::QuarantineMove),
                SnapshotStep::QuarantineMove => SnapshotTurn::Next(SnapshotStep::OwnedKind),
                SnapshotStep::OwnedKind => SnapshotTurn::Next(SnapshotStep::OwnedMode),
                SnapshotStep::OwnedMode => SnapshotTurn::Next(SnapshotStep::OwnedPlace),
                SnapshotStep::OwnedPlace => SnapshotTurn::Next(SnapshotStep::Tree),
                SnapshotStep::Tree => SnapshotTurn::Next(SnapshotStep::InfoKind),
                SnapshotStep::InfoKind => SnapshotTurn::Next(SnapshotStep::BundleId),
                SnapshotStep::BundleId => SnapshotTurn::Owned,
            }
        } else {
            SnapshotTurn::Failed(self.cleanup())
        }
    }

    /// What comes after the step.
    pub fn advance(self, outcome: SnapshotOutcome) -> (turn: SnapshotTurn)
        ensures
            turn == self.turn(outcome),
    {
        if self == SnapshotStep::Move && outcome == SnapshotOutcome::CrossesDevices {
            return SnapshotTurn::Next(SnapshotStep::Parent);
        }
        if outcome != SnapshotOutcome::Done {
            return SnapshotTurn::Failed(
                match self {
                    SnapshotStep::Source | SnapshotStep::Storage | SnapshotStep::StorageKind
                    | SnapshotStep::StorageMode | SnapshotStep::StoragePath => {
                        SnapshotCleanup::Nothing
                    },
                    SnapshotStep::Move | SnapshotStep::Parent | SnapshotStep::ParentMode
                    | SnapshotStep::ParentPath | SnapshotStep::Quarantine
                    | SnapshotStep::QuarantineMode | SnapshotStep::QuarantinePath => {
                        SnapshotCleanup::Source
                    },
                    SnapshotStep::QuarantinePlace | SnapshotStep::QuarantineMove => {
                        SnapshotCleanup::QuarantineAndSource
                    },
                    _ => SnapshotCleanup::Owned,
                },
            );
        }
        match self {
            SnapshotStep::Source => SnapshotTurn::Next(SnapshotStep::Storage),
            SnapshotStep::Storage => SnapshotTurn::Next(SnapshotStep::StorageKind),
            SnapshotStep::StorageKind => SnapshotTurn::Next(SnapshotStep::StorageMode),
            SnapshotStep::StorageMode => SnapshotTurn::Next(SnapshotStep::StoragePath),
            SnapshotStep::StoragePath => SnapshotTurn::Next(SnapshotStep::Move),
            SnapshotStep::Move => SnapshotTurn::Next(SnapshotStep::OwnedKind),
            SnapshotStep::Parent => SnapshotTurn::Next(SnapshotStep::ParentMode),
            SnapshotStep::ParentMode => SnapshotTurn::Next(SnapshotStep::ParentPath),
            SnapshotStep::ParentPath => SnapshotTurn::Next(SnapshotStep::Quarantine),
            SnapshotStep::Quarantine => SnapshotTurn::Next(SnapshotStep::QuarantineMode),
            SnapshotStep::QuarantineMode => SnapshotTurn::Next(SnapshotStep::QuarantinePath),
            SnapshotStep::QuarantinePath => SnapshotTurn::Next(SnapshotStep::QuarantinePlace),
            SnapshotStep::QuarantinePlace => SnapshotTurn::Next(SnapshotStep::QuarantineMove),
            SnapshotStep::QuarantineMove => SnapshotTurn::Next(SnapshotStep::OwnedKind),
            SnapshotStep::OwnedKind => SnapshotTurn::Next(SnapshotStep::OwnedMode),
            SnapshotStep::OwnedMode => SnapshotTurn::Next(SnapshotStep::OwnedPlace),
            SnapshotStep::OwnedPlace => SnapshotTurn::Next(SnapshotStep::Tree),
            SnapshotStep::Tree => SnapshotTurn::Next(SnapshotStep::InfoKind),
            SnapshotStep::InfoKind => SnapshotTurn::Next(SnapshotStep::BundleId),
            SnapshotStep::BundleId => SnapshotTurn::Owned,
        }
    }
}

/// Where taking over a signed app stands after some steps.
pub open spec fn snapshot_after(outcomes: Seq<SnapshotOutcome>) -> SnapshotTurn
    decreases outcomes.len(),
{
    if outcomes.len() == 0 {
        SnapshotTurn::Next(SnapshotStep::Source)
    } else {
        match snapshot_after(outcomes.drop_last()) {
            SnapshotTurn::Next(step) => step.turn(outcomes.last()),
            turn => turn,
        }
    }
}

/// A failure once the app was to be moved removes the app, wherever it then lies: a signed app
/// that was refused is never left behind.
pub proof fn refused_apps_are_removed(step: SnapshotStep)
    requires
        step.number() >= SnapshotStep::Move.number(),
    ensures
        step.turn(SnapshotOutcome::Failed) matches SnapshotTurn::Failed(cleanup) && !(
        cleanup is Nothing),
{
}

/// Before the app is moved a failure removes nothing.
pub proof fn unmoved_apps_are_kept(step: SnapshotStep, outcome: SnapshotOutcome)
    requires
        step.number() < SnapshotStep::Move.number(),
        step.turn(outcome) is Failed,
    ensures
        step.turn(outcome) == SnapshotTurn::Failed(SnapshotCleanup::Nothing),
{
}

/// The sentences of the errors.
pub proof fn signing_errors_are_told()
    ensures
        SigningError::UnknownSession.text()@ == "Apple login session was not found"@,
        SigningError::NoTwoFactorChallenge.text()@
            == "Apple is not currently requesting a two-factor response"@,
        SigningError::InvalidTwoFactorAction.text()@ == "two-factor action is invalid"@,
        SigningError::MissingAnisetteUrl.text()@
            == "a trusted anisette URL must be configured before Apple sign-in"@,
        SigningError::NotReady.text()@ == "Apple signing session is not ready"@,
        SigningError::DeviceInfoFailed.text()@ == "device information lookup failed"@,
        SigningError::DeveloperTeamFailed.text()@ == "developer team lookup failed"@,
        SigningError::DeviceRegistrationRequired.text()@
            == "device registration requires explicit authorization"@,
        SigningError::DeviceRegistrationFailed.text()@ == "device registration failed"@,
        SigningError::IpaSigningFailed.text()@ == "IPA signing failed"@,
        SigningError::SignedMetadataFailed.text()@ == "signed IPA metadata validation failed"@,
        SigningError::DeviceInstallFailed.text()@ == "device installation failed"@,
        SigningError::CredentialStorage.text()@ == "encrypted credential storage failed"@,
{
}

/// Each action stands for its one answer: a code for `submitCode` unless it is blank, the number
/// for `sendSms`, and without arguments `sendToDevices`, `resendCode` and `abort`. Any other action
/// stands for none.
pub proof fn actions_stand_for_their_answers(
    action: Seq<char>,
    code: Option<String>,
    number_id: Option<u32>,
    response: TwoFactorResponse,
)
    ensures
        action == "submitCode"@ && code is Some && text::trimmed(code->0@).len() > 0 ==> (
        is_response(action, code, number_id, response) <==> response
            == TwoFactorResponse::SubmitCode(code->0)),
        action == "submitCode"@ && (code is None || text::trimmed(code->0@).len() == 0)
            ==> !is_response(action, code, number_id, response),
        action == "sendSms"@ && number_id is Some ==> (is_response(
            action,
            code,
            number_id,
            response,
        ) <==> response == TwoFactorResponse::SendSms(number_id->0)),
        action == "sendSms"@ && number_id is None ==> !is_response(
            action,
            code,
            number_id,
            response,
        ),
        action == "sendToDevices"@ ==> (is_response(action, code, number_id, response)
            <==> response is SendToDevices),
        action == "resendCode"@ ==> (is_response(action, code, number_id, response) <==> response
            is ResendCode),
        action == "abort"@ ==> (is_response(action, code, number_id, response) <==> response
            is Abort),
        action != "submitCode"@ && action != "sendSms"@ && action != "sendToDevices"@ && action
            != "resendCode"@ && action != "abort"@ ==> !is_response(
            action,
            code,
            number_id,
            response,
        ),
{
    reveal_strlit("submitCode");
    reveal_strlit("sendSms");
    reveal_strlit("sendToDevices");
    reveal_strlit("resendCode");
    reveal_strlit("abort");
    assert("submitCode"@[0] == 's');
    assert("resendCode"@[0] == 'r');
    assert("submitCode"@.len() == 10);
    assert("sendSms"@.len() == 7);
    assert("sendToDevices"@.len() == 13);
    assert("abort"@.len() == 5);
}

/// A sign-in begins without a challenge and without an answer, and an answer that is kept for it
/// leaves the rest as it is.
pub proof fn sign_ins_begin_unanswered<P>(
    id: RecordId,
    attempt: LoginAttempt<P>,
    response: TwoFactorResponse,
)
    ensures
        begun::<P>(id).status.id == id,
        begun::<P>(id).status.phase is Authenticating,
        begun::<P>(id).status.two_factor is None,
        begun::<P>(id).status.message@ == "Authenticating with Apple."@,
        begun::<P>(id).response is None,
        answered(attempt, response).response == Some(response),
        answered(attempt, response).status == attempt.status,
{
}

/// A sign-in is ready after its provider, Apple and the session in this order, and it fails with
/// the first that does.
pub proof fn sign_ins_take_three_steps(step: LoginStep)
    ensures
        LoginStep::Prepare.turn(true) == LoginTurn::Next(LoginStep::Authenticate),
        LoginStep::Authenticate.turn(true) == LoginTurn::Next(LoginStep::Session),
        step.turn(true) is Ready <==> step is Session,
        step.turn(false) is Failed,
{
}

/// What a saved sign-in holds is what its record opens to; a missing file holds none and is no
/// fault, an unreadable one is.
pub proof fn saved_sign_ins_are_told_apart(record: SealedRecord, key: Seq<u8>)
    ensures
        saved_text(CredentialRead::Missing, key) == Ok::<Option<Seq<u8>>, SigningError>(None),
        saved_text(CredentialRead::Unreadable, key) == Err::<Option<Seq<u8>>, SigningError>(
            SigningError::CredentialStorage,
        ),
        sealing::opened(key, record.nonce@, record.ciphertext@) is None ==> saved_text(
            CredentialRead::Record(record),
            key,
        ) == Err::<Option<Seq<u8>>, SigningError>(SigningError::CredentialStorage),
        sealing::opened(key, record.nonce@, record.ciphertext@) is Some ==> saved_text(
            CredentialRead::Record(record),
            key,
        ) == Ok::<Option<Seq<u8>>, SigningError>(
            Some(sealing::opened(key, record.nonce@, record.ciphertext@)->0),
        ),
{
}

/// A saved sign-in that cannot be read, or for which no service is configured, is refused with its
/// reason and not begun.
pub proof fn unreadable_sign_ins_are_refused(
    read: CredentialRead,
    key: Seq<u8>,
    reading: spec_fn(Seq<u8>) -> Option<Credentials>,
    anisette: bool,
    text: Seq<u8>,
)
    requires
        saved_text(read, key) == Ok::<Option<Seq<u8>>, SigningError>(Some(text)),
    ensures
        reading(text) is None ==> restoration(read, key, reading, anisette) == Restoration::Refused(
            SigningError::CredentialStorage,
        ),
        reading(text) is Some && !anisette ==> restoration(read, key, reading, anisette)
            == Restoration::Refused(SigningError::MissingAnisetteUrl),
        reading(text) is Some && anisette ==> restoration(read, key, reading, anisette)
            == Restoration::Begun(reading(text)->0),
{
}

/// A name or UDID identifies a device where it is not blank and has no more than 256 bytes.
pub proof fn identities_are_short_and_not_blank(value: Seq<char>)
    ensures
        is_identity_text(value) <==> text::trimmed(value).len() != 0 && encode_utf8(value).len()
            < 257,
{
}

/// A certificate counts, where it has a serial number and is not revoked, one for each; the order
/// does not matter.
pub proof fn each_active_certificate_counts_once(
    front: Seq<CertificateRow>,
    certificate: CertificateRow,
    back: Seq<CertificateRow>,
)
    ensures
        active_count(Seq::empty()) == 0,
        certificate.serial_number is None ==> active_count(front + seq![certificate] + back)
            == active_count(front + back),
        certificate.status is Some && certificate.status->0@ == "Revoked"@ ==> active_count(
            front + seq![certificate] + back,
        ) == active_count(front + back),
        certificate.serial_number is Some && (certificate.status is None
            || certificate.status->0@ != "Revoked"@) ==> active_count(
            front + seq![certificate] + back,
        ) == active_count(front + back) + 1,
    decreases back.len(),
{
    let all = front + seq![certificate] + back;
    if back.len() == 0 {
        assert(all.drop_last() =~= front);
        assert(all.last() == certificate);
        assert(front + back =~= front);
    } else {
        each_active_certificate_counts_once(front, certificate, back.drop_last());
        assert(all.drop_last() =~= front + seq![certificate] + back.drop_last());
        assert(all.last() == back.last());
        assert((front + back).drop_last() =~= front + back.drop_last());
        assert((front + back).last() == back.last());
    }
}

/// The capacity of an account is no less than what any certificate tells, and one of them tells
/// it; where none tells a count there is no capacity.
pub proof fn the_greatest_capacity_counts(
    certificates: Seq<CertificateRow>,
    capacity: Option<usize>,
    at: int,
)
    requires
        is_capacity(certificates, capacity),
    ensures
        0 <= at < certificates.len() && certificates[at].max_active is Some
            && 0 <= certificates[at].max_active->0 <= usize::MAX ==> capacity is Some
            && certificates[at].max_active->0 <= capacity->0,
        capacity matches Some(capacity) ==> exists|i: int|
            0 <= i < certificates.len() && (#[trigger] certificates[i]).max_active is Some
                && certificates[i].max_active->0 == capacity,
{
    if let Some(capacity) = capacity {
        let i = choose|i: int|
            0 <= i < certificates.len() && told_capacity(#[trigger] certificates[i]) == Some(
                capacity as int,
            );
        assert(certificates[i].max_active->0 == capacity);
    }
}

/// The account holds a certificate of this server where one with a serial number, not revoked, is
/// held under the server's name.
pub proof fn own_certificates_are_known(certificates: Seq<CertificateRow>, at: int)
    requires
        0 <= at < certificates.len(),
    ensures
        certificates[at].serial_number is Some && certificates[at].status is None
            && certificates[at].machine_name is Some && certificates[at].machine_name->0@
            == "iPhoneLoadly"@ ==> has_machine_certificate(certificates),
        certificates[at].serial_number is Some && certificates[at].status is Some
            && certificates[at].status->0@ != "Revoked"@ && certificates[at].machine_name is Some
            && certificates[at].machine_name->0@ == "iPhoneLoadly"@ ==> has_machine_certificate(
            certificates,
        ),
        has_machine_certificate(certificates) ==> exists|i: int|
            0 <= i < certificates.len() && (#[trigger] certificates[i]).serial_number is Some
                && certificates[i].machine_name is Some && certificates[i].machine_name->0@
                == "iPhoneLoadly"@ && (certificates[i].status is Some
                ==> certificates[i].status->0@ != "Revoked"@),
{
    if has_machine_certificate(certificates) {
        let i = choose|i: int|
            {
                &&& 0 <= i < certificates.len()
                &&& is_active_certificate(#[trigger] certificates[i])
                &&& text::text_view(certificates[i].machine_name) == Some(MACHINE_NAME@)
            };
        assert(certificates[i].serial_number is Some);
    }
}

/// Where signing stands after some steps succeeded.
pub open spec fn signing_after(policy: DeviceRegistrationPolicy, steps: nat) -> SignTurn
    decreases steps,
{
    if steps == 0 {
        SignTurn::Next(SignStep::File)
    } else {
        match signing_after(policy, (steps - 1) as nat) {
            SignTurn::Next(step) => step.turn(policy, true),
            turn => turn,
        }
    }
}

/// An app is signed only after its device is registered, and owned only after it is signed. The
/// account's devices are listed only where a new one may not be registered.
pub proof fn apps_are_signed_for_registered_devices(policy: DeviceRegistrationPolicy)
    ensures
        policy is RequireExisting ==> {
            &&& signing_after(policy, 1) == SignTurn::Next(SignStep::Session)
            &&& signing_after(policy, 2) == SignTurn::Next(SignStep::Team)
            &&& signing_after(policy, 3) == SignTurn::Next(SignStep::Devices)
            &&& signing_after(policy, 4) == SignTurn::Next(SignStep::Registration)
            &&& signing_after(policy, 5) == SignTurn::Next(SignStep::Sign)
            &&& signing_after(policy, 6) == SignTurn::Next(SignStep::Own)
            &&& signing_after(policy, 7) == SignTurn::Done
        },
        policy is Ensure ==> {
            &&& signing_after(policy, 1) == SignTurn::Next(SignStep::Session)
            &&& signing_after(policy, 2) == SignTurn::Next(SignStep::Team)
            &&& signing_after(policy, 3) == SignTurn::Next(SignStep::Registration)
            &&& signing_after(policy, 4) == SignTurn::Next(SignStep::Sign)
            &&& signing_after(policy, 5) == SignTurn::Next(SignStep::Own)
            &&& signing_after(policy, 6) == SignTurn::Done
        },
{
    reveal_with_fuel(signing_after, 8);
}

/// A step of signing that fails ends it, with the error that names the step. A device that is not
/// registered asks for an authorization where none was given.
pub proof fn failed_steps_name_themselves(step: SignStep, policy: DeviceRegistrationPolicy)
    ensures
        step.turn(policy, false) is Failed,
        ({
            let told = step.turn(policy, false)->Failed_0.text()@;
            &&& step is File || step is Sign ==> told == "IPA signing failed"@
            &&& step is Session ==> told == "Apple signing session is not ready"@
            &&& step is Team || step is Devices ==> told == "developer team lookup failed"@
            &&& step is Registration && policy is RequireExisting ==> told
                == "device registration requires explicit authorization"@
            &&& step is Registration && policy is Ensure ==> told == "device registration failed"@
            &&& step is Own ==> told == "signed IPA metadata validation failed"@
        }),
{
}

/// The bundle identifier of a signed app is what its property list tells, where that has at least
/// one and at most 512 bytes.
pub proof fn signed_apps_tell_their_identifiers(
    front: Seq<(Seq<char>, Option<Seq<char>>)>,
    value: Option<Seq<char>>,
    back: Seq<(Seq<char>, Option<Seq<char>>)>,
)
    requires
        forall|i: int| 0 <= i < front.len() ==> (#[trigger] front[i]).0 != "CFBundleIdentifier"@,
    ensures
        ({
            let told = told_bundle_id(
                Some(Some(front + seq![("CFBundleIdentifier"@, value)] + back)),
            );
            &&& value is None ==> told is None
            &&& value matches Some(text) ==> told == if text.len() == 0 || encode_utf8(text).len()
                > 512 {
                None::<Seq<char>>
            } else {
                value
            }
        }),
        told_bundle_id(Some(Some(front))) is None,
        told_bundle_id(Some(None)) is None,
        told_bundle_id(None) is None,
{
    archive::the_first_entry_tells(front, "CFBundleIdentifier"@, value, back);
}

/// A tree of files and directories that lie within it is accepted, where it has no more than 20000
/// entries and no more than two gibibytes.
pub proof fn private_trees_are_accepted(entries: Seq<TreeEntry>)
    requires
        entries.len() <= 20_000,
        file_bytes(entries) <= 2_147_483_648,
        forall|i: int|
            0 <= i < entries.len() ==> (#[trigger] entries[i]).inside && (entries[i].kind is File
                || entries[i].kind is Directory),
    ensures
        after_tree(entries) is Some,
    decreases entries.len(),
{
    if entries.len() > 0 {
        let before = entries.drop_last();
        assert forall|i: int| 0 <= i < before.len() implies (#[trigger] before[i]).inside && (
        before[i].kind is File || before[i].kind is Directory) by {
            assert(before[i] == entries[i]);
        }
        private_trees_are_accepted(before);
        accepted_trees_are_private(before);
        assert(entries.last() == entries[entries.len() - 1]);
    }
}

/// An accepted tree has no more than 20000 entries and two gibibytes, none of them a link or
/// outside the tree.
pub proof fn large_trees_are_refused(entries: Seq<TreeEntry>, at: int)
    ensures
        entries.len() > 20_000 ==> after_tree(entries) is None,
        file_bytes(entries) > 2_147_483_648 ==> after_tree(entries) is None,
        0 <= at < entries.len() && (entries[at].kind is Symlink || entries[at].kind is Other
            || !entries[at].inside) ==> after_tree(entries) is None,
{
    if after_tree(entries) is Some {
        accepted_trees_are_private(entries);
        if 0 <= at < entries.len() {
            assert(entries[at].inside && (entries[at].kind is File
                || entries[at].kind is Directory));
        }
    }
}

/// A file adds its size, and every entry one to the count.
pub proof fn entries_add_to_a_walk(walk: TreeWalk, entry: TreeEntry)
    requires
        walk.with_entry(entry) is Some,
    ensures
        walk.with_entry(entry)->0.entries == walk.entries + 1,
        entry.kind is File ==> walk.with_entry(entry)->0.bytes == walk.bytes + entry.size,
        entry.kind is Directory ==> walk.with_entry(entry)->0.bytes == walk.bytes,
{
}

/// The steps of taking over a signed app that lies beside the storage.
pub open spec fn steps_beside_the_storage() -> Seq<SnapshotStep> {
    seq![
        SnapshotStep::Source,
        SnapshotStep::Storage,
        SnapshotStep::StorageKind,
        SnapshotStep::StorageMode,
        SnapshotStep::StoragePath,
        SnapshotStep::Move,
        SnapshotStep::OwnedKind,
        SnapshotStep::OwnedMode,
        SnapshotStep::OwnedPlace,
        SnapshotStep::Tree,
        SnapshotStep::InfoKind,
        SnapshotStep::BundleId,
    ]
}

/// The steps by which an app of another file system is moved into a quarantine.
pub open spec fn steps_into_the_quarantine() -> Seq<SnapshotStep> {
    seq![
        SnapshotStep::Parent,
        SnapshotStep::ParentMode,
        SnapshotStep::ParentPath,
        SnapshotStep::Quarantine,
        SnapshotStep::QuarantineMode,
        SnapshotStep::QuarantinePath,
        SnapshotStep::QuarantinePlace,
        SnapshotStep::QuarantineMove,
    ]
}

/// A signed app is owned once every step was done, in their order. One of another file system goes
/// through the quarantine before it is checked, and an app is never owned before its tree and its
/// identifier were checked.
pub proof fn apps_are_owned_step_by_step(at: int)
    ensures
        0 <= at < 11 ==> steps_beside_the_storage()[at].turn(SnapshotOutcome::Done)
            == SnapshotTurn::Next(steps_beside_the_storage()[at + 1]),
        0 <= at < 7 ==> steps_into_the_quarantine()[at].turn(SnapshotOutcome::Done)
            == SnapshotTurn::Next(steps_into_the_quarantine()[at + 1]),
        SnapshotStep::Move.turn(SnapshotOutcome::CrossesDevices) == SnapshotTurn::Next(
            SnapshotStep::Parent,
        ),
        SnapshotStep::QuarantineMove.turn(SnapshotOutcome::Done) == SnapshotTurn::Next(
            SnapshotStep::OwnedKind,
        ),
        SnapshotStep::BundleId.turn(SnapshotOutcome::Done) is Owned,
        forall|step: SnapshotStep, outcome: SnapshotOutcome|
            (#[trigger] step.turn(outcome)) is Owned ==> step is BundleId && outcome is Done,
{
}

/// A failure removes what there is of the app: nothing before it is moved, the source while it is
/// moved, the quarantine as well once that may hold it, and afterwards what was moved.
pub proof fn failures_remove_what_there_is(step: SnapshotStep)
    ensures
        step is Source || step is Storage || step is StorageKind || step is StorageMode
            || step is StoragePath ==> step.turn(SnapshotOutcome::Failed) == SnapshotTurn::Failed(
            SnapshotCleanup::Nothing,
        ),
        step is Move || step is Parent || step is ParentMode || step is ParentPath
            || step is Quarantine || step is QuarantineMode || step is QuarantinePath
            ==> step.turn(SnapshotOutcome::Failed) == SnapshotTurn::Failed(SnapshotCleanup::Source),
        step is QuarantinePlace || step is QuarantineMove ==> step.turn(SnapshotOutcome::Failed)
            == SnapshotTurn::Failed(SnapshotCleanup::QuarantineAndSource),
        step is OwnedKind || step is OwnedMode || step is OwnedPlace || step is Tree
            || step is InfoKind || step is BundleId ==> step.turn(SnapshotOutcome::Failed)
            == SnapshotTurn::Failed(SnapshotCleanup::Owned),
{
}

/// An installation is at 40 percent when the device begins and at 100 when it is done, or tells more
/// than that. Five percent of the device are three of the whole, and more is never less.
pub proof fn installations_make_up_the_rest(value: int, more: int)
    requires
        0 <= value <= more,
    ensures
        whole_percent(0) == 40,
        value >= 100 ==> whole_percent(value) == 100,
        value + 5 <= 100 ==> whole_percent(value + 5) == whole_percent(value) + 3,
        whole_percent(value) <= whole_percent(more),
{
}

/// The server can sign exactly while it has a session, and else tells what is missing.
pub proof fn sessions_make_ready(anisette: bool)
    ensures
        readiness_of(true, anisette).available,
        readiness_of(true, anisette).message@ == "Apple signing session is active."@,
        !readiness_of(false, anisette).available,
        readiness_of(false, true).message@ == "Sign in with Apple to enable signing."@,
        readiness_of(false, false).message@
            == "Configure a trusted anisette URL before signing in with Apple."@,
{
}

/// A sign-in stays the same one, with the answer that waits, while it authenticates, is challenged, is
/// ready or has failed. Only a challenge asks for something.
pub proof fn sign_ins_stay_the_same<P>(
    attempt: LoginAttempt<P>,
    params: P,
    message: &'static str,
)
    ensures
        challenged(attempt, params).status.id == attempt.status.id,
        challenged(attempt, params).status.phase is AwaitingTwoFactor,
        challenged(attempt, params).status.two_factor == Some(params),
        challenged(attempt, params).status.message@
            == "Apple requires a two-factor authentication response."@,
        challenged(attempt, params).response == attempt.response,
        made_ready(attempt).status.id == attempt.status.id,
        made_ready(attempt).status.phase is Ready,
        made_ready(attempt).status.two_factor is None,
        made_ready(attempt).status.message@ == "Apple signing session is ready."@,
        made_ready(attempt).response == attempt.response,
        made_failed(attempt).status.id == attempt.status.id,
        made_failed(attempt).status.phase is Failed,
        made_failed(attempt).status.two_factor is None,
        made_failed(attempt).status.message@
            == "Apple authentication failed. Check the server logs for redacted diagnostics."@,
        made_failed(attempt).response == attempt.response,
        stepped(attempt, LoginPhase::Authenticating, None, message).status.phase is Authenticating,
        stepped(attempt, LoginPhase::Authenticating, None, message).status.message == message,
        stepped(attempt, LoginPhase::Authenticating, None, message).status.id == attempt.status.id,
{
}

} // verus!

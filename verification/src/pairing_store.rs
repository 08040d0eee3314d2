//! The pairing state on disk: the keys of a pairing, sealed under a key of their own.
use crate::dates;
use crate::network;
use crate::pairing::PairingError;
use crate::record;
use crate::record::RecordId;
use crate::sealing;
use crate::sealing::SealedRecord;
use crate::text;
use idevice::remote_pairing::{PairableHostInfo, RpPairingFile};
use vstd::prelude::*;
use vstd::string::*;

verus! {

/// The length of the key by which a device is recognized.
pub const ALT_IRK_BYTES: usize = 16;

/// What reading the file of the key brought.
#[derive(Debug)]
pub enum KeyRead {
    Bytes(Vec<u8>),
    Missing,
    Unreadable,
}

/// The key that was read; none where one has to be made.
pub fn stored_key(read: KeyRead) -> (key: Result<Option<Vec<u8>>, PairingError>)
    ensures
        key == match read {
            KeyRead::Bytes(bytes) => if bytes@.len() == sealing::KEY_BYTES {
                Ok::<Option<Vec<u8>>, PairingError>(Some(bytes))
            } else {
                Err::<Option<Vec<u8>>, PairingError>(PairingError::CorruptedState)
            },
            KeyRead::Missing => Ok::<Option<Vec<u8>>, PairingError>(None),
            KeyRead::Unreadable => Err::<Option<Vec<u8>>, PairingError>(PairingError::Storage),
        },
{
    match read {
        KeyRead::Bytes(bytes) => if sealing::is_key(bytes.as_slice()) {
            Ok(Some(bytes))
        } else {
            Err(PairingError::CorruptedState)
        },
        KeyRead::Missing => Ok(None),
        KeyRead::Unreadable => Err(PairingError::Storage),
    }
}

/// The key of a state that exists: a key that is missing cannot be made anew.
pub fn existing_key(read: KeyRead) -> (key: Result<Vec<u8>, PairingError>)
    ensures
        key == match read {
            KeyRead::Bytes(bytes) => if bytes@.len() == sealing::KEY_BYTES {
                Ok::<Vec<u8>, PairingError>(bytes)
            } else {
                Err::<Vec<u8>, PairingError>(PairingError::CorruptedState)
            },
            _ => Err::<Vec<u8>, PairingError>(PairingError::Storage),
        },
{
    match stored_key(read) {
        Ok(Some(key)) => Ok(key),
        Ok(None) => Err(PairingError::Storage),
        Err(error) => Err(error),
    }
}

/// Seals the pairing state. Opening the record gives the state back.
pub fn seal_state(key: &[u8], state: &[u8]) -> (record: Result<SealedRecord, PairingError>)
    requires
        state@.len() + 16 <= isize::MAX / 2,
    ensures
        match record {
            Ok(record) => {
                &&& key@.len() == sealing::KEY_BYTES
                &&& state@.len() <= sealing::MAX_PLAINTEXT
                &&& exists|nonce: Seq<u8>| sealing::is_seal(record, key@, nonce, state@)
                &&& sealing::opened(key@, record.nonce@, record.ciphertext@) == Some(state@)
            },
            Err(error) => {
                &&& error == PairingError::Storage
                &&& key@.len() != sealing::KEY_BYTES || state@.len() > sealing::MAX_PLAINTEXT
            },
        },
{
    match sealing::seal(key, state) {
        Some(record) => Ok(record),
        None => Err(PairingError::Storage),
    }
}

/// Opens the pairing state.
pub fn open_state(key: &[u8], record: &SealedRecord) -> (state: Result<Vec<u8>, PairingError>)
    ensures
        match state {
            Ok(state) => sealing::opened(key@, record.nonce@, record.ciphertext@) == Some(state@),
            Err(error) => error == PairingError::CorruptedState && sealing::opened(
                key@,
                record.nonce@,
                record.ciphertext@,
            ) is None,
        },
{
    match sealing::open(key, record) {
        Some(state) => Ok(state),
        None => Err(PairingError::CorruptedState),
    }
}

// ---------------------------------------------------------------------------------------------
// Pairing files.
// ---------------------------------------------------------------------------------------------

/// The length of the keys of a pairing file.
pub const PAIRING_KEY_BYTES: usize = 32;

/// The keys that a host pairs with, and the key by which its device is recognized once it is
/// paired.
pub struct PairingFile {
    pub public_key: Vec<u8>,
    pub private_key: Vec<u8>,
    pub identifier: String,
    pub alt_irk: Option<Vec<u8>>,
}

/// What a pairing file holds.
pub struct PairingFileView {
    pub public_key: Seq<u8>,
    pub private_key: Seq<u8>,
    pub identifier: Seq<char>,
    pub alt_irk: Option<Seq<u8>>,
}

impl View for PairingFile {
    type V = PairingFileView;

    open spec fn view(&self) -> PairingFileView {
        PairingFileView {
            public_key: self.public_key@,
            private_key: self.private_key@,
            identifier: self.identifier@,
            alt_irk: match self.alt_irk {
                Some(key) => Some(key@),
                None => None,
            },
        }
    }
}

/// What the property list of a pairing file holds, where it is one.
pub uninterp spec fn pairing_file_of(bytes: Seq<u8>) -> Option<PairingFileView>;

/// The property list that a pairing file is written as.
pub uninterp spec fn pairing_file_plist(file: PairingFileView) -> Seq<u8>;

/// Whether the `VerifyingKey` of ed25519-dalek takes bytes as a public key: they encode a point of
/// the curve.
pub uninterp spec fn is_verifying_key(bytes: Seq<u8>) -> bool;

/// The keys of a pairing file can be used.
pub open spec fn has_keys(file: PairingFileView) -> bool {
    file.private_key.len() == PAIRING_KEY_BYTES && is_verifying_key(file.public_key)
}

/// `from_bytes` of `RpPairingFile`: the keys of a file that it reads can be used. It panics on a date
/// that lies in UTC behind the year 9999 or before the year 0. Like any property list, one that is
/// nested deeply enough exhausts the stack.
#[verifier::external_body]
fn parse_pairing_file(bytes: &[u8]) -> (file: Option<PairingFile>)
    requires
        !dates::has_late_date(bytes@),
        !dates::has_early_date(bytes@),
    ensures
        match file {
            Some(file) => {
                &&& pairing_file_of(bytes@) == Some(file@)
                &&& file.private_key@.len() == PAIRING_KEY_BYTES
                &&& is_verifying_key(file.public_key@)
            },
            None => pairing_file_of(bytes@) is None,
        },
{
    let file = RpPairingFile::from_bytes(bytes).ok()?;
    Some(
        PairingFile {
            public_key: file.public_key_bytes(),
            private_key: file.private_key_bytes(),
            identifier: file.identifier,
            alt_irk: file.alt_irk,
        },
    )
}

/// `to_bytes` of `RpPairingFile`, whose keys are made of their bytes: nothing where they are no
/// keys. The list holds no date, whatever the identifier is, since its markup is escaped, and
/// `from_bytes` reads back what was written.
#[verifier::external_body]
fn write_pairing_file(file: &PairingFile) -> (bytes: Option<Vec<u8>>)
    ensures
        bytes is Some == (file.private_key@.len() == PAIRING_KEY_BYTES && is_verifying_key(
            file.public_key@,
        )),
        bytes is Some ==> bytes->0@ == pairing_file_plist(file@),
        bytes is Some ==> !dates::has_late_date(bytes->0@) && !dates::has_early_date(bytes->0@),
        bytes is Some ==> pairing_file_of(bytes->0@) == Some(file@),
{
    let file = RpPairingFile {
        e_private_key: file.private_key.as_slice().try_into().ok()?,
        e_public_key: file.public_key.as_slice().try_into().ok()?,
        identifier: file.identifier.clone(),
        alt_irk: file.alt_irk.clone(),
    };
    Some(file.to_bytes())
}

/// The identifier that is made of the name of a host.
pub uninterp spec fn host_identifier(sending_host: Seq<char>) -> Seq<char>;

/// `generate` of `RpPairingFile`: fresh keys that can be used, under an identifier that is made of
/// the name of the host. Which keys is left open.
#[verifier::external_body]
fn generate_pairing_file(sending_host: &str) -> (file: PairingFile)
    ensures
        file.private_key@.len() == PAIRING_KEY_BYTES,
        is_verifying_key(file.public_key@),
        file.identifier@ == host_identifier(sending_host@),
        file.alt_irk is None,
{
    let file = RpPairingFile::generate(sending_host);
    PairingFile {
        public_key: file.public_key_bytes(),
        private_key: file.private_key_bytes(),
        identifier: file.identifier,
        alt_irk: file.alt_irk,
    }
}

/// What a pairing file in an opened state holds: its text is base64, and the key beside it has its
/// length. One that may hold a date outside the years 0 to 9999 cannot be read.
pub open spec fn loaded_file(host_alt_irk: Seq<u8>, pairing_file: Seq<char>) -> Option<
    PairingFileView,
> {
    match sealing::base64_bytes(pairing_file) {
        Some(bytes) => if host_alt_irk.len() == ALT_IRK_BYTES && !dates::has_late_date(bytes)
            && !dates::has_early_date(bytes) {
            pairing_file_of(bytes)
        } else {
            None
        },
        None => None,
    }
}

/// The pairing file in an opened state.
pub fn load_pairing_file(host_alt_irk: &[u8], pairing_file: &str) -> (file: Result<
    PairingFile,
    PairingError,
>)
    ensures
        match file {
            Ok(file) => {
                &&& loaded_file(host_alt_irk@, pairing_file@) == Some(file@)
                &&& has_keys(file@)
            },
            Err(error) => {
                &&& error == PairingError::CorruptedState
                &&& loaded_file(host_alt_irk@, pairing_file@) is None
            },
        },
{
    if host_alt_irk.len() != ALT_IRK_BYTES {
        return Err(PairingError::CorruptedState);
    }
    match sealing::pairing_file_bytes(pairing_file) {
        Some(bytes) => if dates::late_date(bytes.as_slice()) || dates::early_date(
            bytes.as_slice(),
        ) {
            Err(PairingError::CorruptedState)
        } else {
            match parse_pairing_file(bytes.as_slice()) {
                Some(file) => Ok(file),
                None => Err(PairingError::CorruptedState),
            }
        },
        None => Err(PairingError::CorruptedState),
    }
}

// ---------------------------------------------------------------------------------------------
// Pairing material.
// ---------------------------------------------------------------------------------------------

/// The model that a host pairs as.
pub const SERVICE_MODEL: &'static str = "Mac17,7";

/// How a host introduces itself to a device.
pub struct HostInfo {
    pub name: String,
    pub model: String,
    pub identifier: String,
    pub alt_irk: Vec<u8>,
}

/// What a host tells of itself.
pub struct HostInfoView {
    pub name: Seq<char>,
    pub model: Seq<char>,
    pub identifier: Seq<char>,
    pub alt_irk: Seq<u8>,
}

impl View for HostInfo {
    type V = HostInfoView;

    open spec fn view(&self) -> HostInfoView {
        HostInfoView {
            name: self.name@,
            model: self.model@,
            identifier: self.identifier@,
            alt_irk: self.alt_irk@,
        }
    }
}

/// `generate` of `PairableHostInfo`: the host under a name and a model, with no identifier and a
/// fresh key of 16 bytes. Which one is left open.
#[verifier::external_body]
fn generate_host(name: &str, model: &str) -> (host: HostInfo)
    ensures
        host.name@ == name@,
        host.model@ == model@,
        host.identifier@.len() == 0,
        host.alt_irk@.len() == ALT_IRK_BYTES,
{
    let host = PairableHostInfo::generate(name, model);
    HostInfo {
        name: host.name,
        model: host.model,
        identifier: host.identifier,
        alt_irk: host.alt_irk.to_vec(),
    }
}

/// The tag by which a device that is paired recognizes a host.
pub uninterp spec fn auth_tag_of(alt_irk: Seq<u8>, identifier: Seq<char>) -> Seq<char>;

/// The texts of some records, each with its key.
pub open spec fn record_views(records: Seq<(String, String)>) -> Seq<(Seq<char>, Seq<char>)> {
    records.map_values(|record: (String, String)| (record.0@, record.1@))
}

/// What a host announces of itself, with its tag.
pub open spec fn announced(host: HostInfoView, identifier: Seq<char>, tag: Seq<char>) -> Seq<
    (Seq<char>, Seq<char>),
> {
    seq![
        ("name"@, host.name),
        ("identifier"@, identifier),
        ("authTag"@, tag),
        ("model"@, host.model),
        ("flags"@, "1"@),
        ("ver"@, "26"@),
        ("minVer"@, "17"@),
    ]
}

/// `mdns_txt_records` of `PairableHostInfo`: a host whose key has 16 bytes announces its name, the
/// identifier, its tag, its model and the versions that it speaks. The tag is valid under the key.
#[verifier::external_body]
fn txt_records(host: &HostInfo, identifier: &str) -> (records: Option<Vec<(String, String)>>)
    ensures
        records is Some == (host.alt_irk@.len() == ALT_IRK_BYTES),
        records is Some ==> record_views(records->0@) == announced(
            host@,
            identifier@,
            auth_tag_of(host.alt_irk@, identifier@),
        ),
        records is Some ==> network::auth_tag_valid(
            host.alt_irk@,
            identifier@,
            auth_tag_of(host.alt_irk@, identifier@),
        ),
{
    let host = PairableHostInfo {
        name: host.name.clone(),
        model: host.model.clone(),
        identifier: host.identifier.clone(),
        alt_irk: host.alt_irk.as_slice().try_into().ok()?,
        ..Default::default()
    };
    Some(host.mdns_txt_records(identifier))
}

/// What a host announces of itself, so that a device that is paired recognizes it. It is refused
/// where its key has not its length.
pub fn announced_records(host: &HostInfo, identifier: &str) -> (records: Result<
    Vec<(String, String)>,
    PairingError,
>)
    ensures
        match records {
            Ok(records) => {
                let tag = auth_tag_of(host.alt_irk@, identifier@);
                &&& host.alt_irk@.len() == ALT_IRK_BYTES
                &&& record_views(records@) == announced(host@, identifier@, tag)
                &&& network::auth_tag_valid(host.alt_irk@, identifier@, tag)
            },
            Err(error) => {
                &&& error == PairingError::Advertisement
                &&& host.alt_irk@.len() != ALT_IRK_BYTES
            },
        },
{
    match txt_records(host, identifier) {
        Some(records) => Ok(records),
        None => Err(PairingError::Advertisement),
    }
}

/// What a host pairs with.
pub struct StoredPairingMaterial {
    pub host_info: HostInfo,
    pub pairing_file: PairingFile,
    /// The digest of the device that it is paired with.
    pub paired_peer_id: Option<String>,
}

/// What a host pairs with.
pub struct MaterialView {
    pub host_info: HostInfoView,
    pub pairing_file: PairingFileView,
    pub paired_peer_id: Option<Seq<char>>,
}

impl View for StoredPairingMaterial {
    type V = MaterialView;

    open spec fn view(&self) -> MaterialView {
        MaterialView {
            host_info: self.host_info@,
            pairing_file: self.pairing_file@,
            paired_peer_id: text::text_view(self.paired_peer_id),
        }
    }
}

/// Pairing material that can be used and saved.
pub open spec fn is_material(material: MaterialView) -> bool {
    &&& has_keys(material.pairing_file)
    &&& material.host_info.alt_irk.len() == ALT_IRK_BYTES
}

/// The state of a pairing as its text writes it.
pub struct PairingPayload {
    pub host_alt_irk: Vec<u8>,
    pub pairing_file: String,
    pub paired_peer_id: Option<String>,
}

/// The state of a pairing.
pub struct PayloadView {
    pub host_alt_irk: Seq<u8>,
    pub pairing_file: Seq<char>,
    pub paired_peer_id: Option<Seq<char>>,
}

impl View for PairingPayload {
    type V = PayloadView;

    open spec fn view(&self) -> PayloadView {
        PayloadView {
            host_alt_irk: self.host_alt_irk@,
            pairing_file: self.pairing_file@,
            paired_peer_id: text::text_view(self.paired_peer_id),
        }
    }
}

/// Material that was loaded: the host introduces itself anew, under the identifier and with the key
/// that it had.
pub open spec fn reintroduced(
    file: PairingFileView,
    alt_irk: Seq<u8>,
    paired_peer_id: Option<Seq<char>>,
    sending_host: Seq<char>,
) -> MaterialView {
    MaterialView {
        host_info: HostInfoView {
            name: sending_host,
            model: SERVICE_MODEL@,
            identifier: file.identifier,
            alt_irk,
        },
        pairing_file: file,
        paired_peer_id,
    }
}

/// The material that a state holds.
pub open spec fn material_of(payload: PayloadView, sending_host: Seq<char>) -> Option<
    MaterialView,
> {
    match loaded_file(payload.host_alt_irk, payload.pairing_file) {
        Some(file) => Some(
            reintroduced(file, payload.host_alt_irk, payload.paired_peer_id, sending_host),
        ),
        None => None,
    }
}

/// The material that an opened state holds, where its text could be read.
pub fn load_material(payload: Option<PairingPayload>, sending_host: &str) -> (material: Result<
    StoredPairingMaterial,
    PairingError,
>)
    ensures
        match material {
            Ok(material) => {
                &&& payload is Some
                &&& material_of(payload->0@, sending_host@) == Some(material@)
                &&& is_material(material@)
            },
            Err(error) => {
                &&& error == PairingError::CorruptedState
                &&& payload is None || material_of(payload->0@, sending_host@) is None
            },
        },
{
    let payload: PairingPayload = match payload {
        Some(payload) => payload,
        None => {
            return Err(PairingError::CorruptedState);
        },
    };
    match load_pairing_file(payload.host_alt_irk.as_slice(), payload.pairing_file.as_str()) {
        Ok(pairing_file) => {
            let mut host_info: HostInfo = generate_host(sending_host, SERVICE_MODEL);
            host_info.identifier = pairing_file.identifier.clone();
            host_info.alt_irk = payload.host_alt_irk;
            Ok(
                StoredPairingMaterial {
                    host_info,
                    pairing_file,
                    paired_peer_id: payload.paired_peer_id,
                },
            )
        },
        Err(error) => Err(error),
    }
}

/// Material for a host that has none, under a fresh identifier.
pub fn fresh_material(sending_host: &str, identifier: RecordId) -> (material: StoredPairingMaterial)
    ensures
        is_material(material@),
        material@.pairing_file.identifier == record::uuid_text(identifier.bits),
        material@.pairing_file.alt_irk is None,
        material@ == reintroduced(
            material@.pairing_file,
            material@.host_info.alt_irk,
            None,
            sending_host@,
        ),
{
    let mut pairing_file: PairingFile = generate_pairing_file(sending_host);
    pairing_file.identifier = identifier.text();
    let mut host_info: HostInfo = generate_host(sending_host, SERVICE_MODEL);
    host_info.identifier = pairing_file.identifier.clone();
    StoredPairingMaterial { host_info, pairing_file, paired_peer_id: None }
}

/// The state that material is saved as.
pub open spec fn payload_of(material: MaterialView) -> PayloadView {
    PayloadView {
        host_alt_irk: material.host_info.alt_irk,
        pairing_file: sealing::base64_text(pairing_file_plist(material.pairing_file)),
        paired_peer_id: material.paired_peer_id,
    }
}

/// The state that material is saved as, with the property list of its pairing file.
pub fn written_payload(material: &StoredPairingMaterial, plist: &[u8]) -> (payload: PairingPayload)
    requires
        plist@.len() <= isize::MAX / 2,
    ensures
        payload@ == (PayloadView {
            host_alt_irk: material@.host_info.alt_irk,
            pairing_file: sealing::base64_text(plist@),
            paired_peer_id: material@.paired_peer_id,
        }),
        sealing::base64_bytes(payload@.pairing_file) == Some(plist@),
{
    let host_alt_irk: Vec<u8> = material.host_info.alt_irk.clone();
    assert(host_alt_irk@ == material.host_info.alt_irk@);
    PairingPayload {
        host_alt_irk,
        pairing_file: sealing::pairing_file_text(plist),
        paired_peer_id: match &material.paired_peer_id {
            Some(peer) => Some(peer.clone()),
            None => None,
        },
    }
}

/// The state that material is saved as. It is refused where its keys are no keys, or where its text
/// would not fit into memory. Loading the state gives the material back, whatever name the host has
/// then.
pub fn save_payload(material: &StoredPairingMaterial) -> (payload: Result<
    PairingPayload,
    PairingError,
>)
    ensures
        match payload {
            Ok(payload) => {
                &&& has_keys(material@.pairing_file)
                &&& pairing_file_plist(material@.pairing_file).len() <= isize::MAX / 2
                &&& payload@ == payload_of(material@)
                &&& is_material(material@) ==> forall|sending_host: Seq<char>| #[trigger]
                    material_of(payload@, sending_host) == Some(
                        reintroduced(
                            material@.pairing_file,
                            material@.host_info.alt_irk,
                            material@.paired_peer_id,
                            sending_host,
                        ),
                    )
            },
            Err(error) => {
                &&& error == PairingError::Storage
                &&& !has_keys(material@.pairing_file) || pairing_file_plist(
                    material@.pairing_file,
                ).len() > isize::MAX / 2
            },
        },
{
    match write_pairing_file(&material.pairing_file) {
        Some(plist) => if plist.len() <= isize::MAX as usize / 2 {
            Ok(written_payload(material, plist.as_slice()))
        } else {
            Err(PairingError::Storage)
        },
        None => Err(PairingError::Storage),
    }
}

// ---------------------------------------------------------------------------------------------
// Loading.
// ---------------------------------------------------------------------------------------------

/// How material is loaded.
#[derive(Debug, Clone, Copy, PartialEq, Eq, Structural)]
pub enum LoadMode {
    /// Fresh material takes the place of a state that is not there.
    OrCreate,
    /// There has to be a state.
    Existing,
}

/// Where material comes from.
#[derive(Debug, Clone, Copy, PartialEq, Eq, Structural)]
pub enum LoadSource {
    /// It is fresh; neither the key nor the state is written.
    Fresh,
    Stored,
}

/// Where material comes from, where `exists` says that there is a state.
pub open spec fn source_of(mode: LoadMode, exists: bool) -> Result<LoadSource, PairingError> {
    if exists {
        Ok(LoadSource::Stored)
    } else {
        match mode {
            LoadMode::OrCreate => Ok(LoadSource::Fresh),
            LoadMode::Existing => Err(PairingError::Storage),
        }
    }
}

/// Where material comes from.
pub fn load_source(mode: LoadMode, exists: bool) -> (source: Result<LoadSource, PairingError>)
    ensures
        source == source_of(mode, exists),
{
    if exists {
        Ok(LoadSource::Stored)
    } else {
        match mode {
            LoadMode::OrCreate => Ok(LoadSource::Fresh),
            LoadMode::Existing => Err(PairingError::Storage),
        }
    }
}

/// What reading the file of the state brought.
#[derive(Debug)]
pub enum StateRead {
    Unreadable,
    /// It holds no record.
    Malformed,
    Record(SealedRecord),
}

/// The text of a state that was read.
pub open spec fn state_text(read: StateRead, key: Seq<u8>) -> Result<Seq<u8>, PairingError> {
    match read {
        StateRead::Unreadable => Err(PairingError::Storage),
        StateRead::Malformed => Err(PairingError::CorruptedState),
        StateRead::Record(record) => match sealing::opened(
            key,
            record.nonce@,
            record.ciphertext@,
        ) {
            Some(text) => Ok(text),
            None => Err(PairingError::CorruptedState),
        },
    }
}

/// The text of a state that was read.
pub fn read_state(read: StateRead, key: &[u8]) -> (text: Result<Vec<u8>, PairingError>)
    ensures
        match text {
            Ok(text) => state_text(read, key@) == Ok::<Seq<u8>, PairingError>(text@),
            Err(error) => state_text(read, key@) == Err::<Seq<u8>, PairingError>(error),
        },
{
    match read {
        StateRead::Unreadable => Err(PairingError::Storage),
        StateRead::Malformed => Err(PairingError::CorruptedState),
        StateRead::Record(record) => open_state(key, &record),
    }
}

/// What loading comes to.
pub enum Loading {
    Fresh,
    Refused(PairingError),
    Loaded(MaterialView),
}

/// What loading comes to. `key` is the key that was read or made, or why there is none, and
/// `reading` gives the state that a text writes.
pub open spec fn loading(
    mode: LoadMode,
    exists: bool,
    key: Result<Seq<u8>, PairingError>,
    read: StateRead,
    reading: spec_fn(Seq<u8>) -> Option<PayloadView>,
    sending_host: Seq<char>,
) -> Loading {
    match source_of(mode, exists) {
        Err(error) => Loading::Refused(error),
        Ok(LoadSource::Fresh) => Loading::Fresh,
        Ok(LoadSource::Stored) => match key {
            Err(error) => Loading::Refused(error),
            Ok(key) => match state_text(read, key) {
                Err(error) => Loading::Refused(error),
                Ok(text) => match reading(text) {
                    None => Loading::Refused(PairingError::CorruptedState),
                    Some(payload) => match material_of(payload, sending_host) {
                        None => Loading::Refused(PairingError::CorruptedState),
                        Some(material) => Loading::Loaded(material),
                    },
                },
            },
        },
    }
}

/// Material that was saved is loaded again, under the key that it was saved with: its pairing file,
/// the key by which the host is recognized and the device that it is paired with. `writing` and
/// `reading` stand for the text form of a state, which reads what it wrote. The two premises are what
/// saving the state and sealing its text promise.
pub proof fn saved_material_is_loaded(
    mode: LoadMode,
    material: MaterialView,
    payload: PayloadView,
    record: SealedRecord,
    key: Seq<u8>,
    writing: spec_fn(PayloadView) -> Seq<u8>,
    reading: spec_fn(Seq<u8>) -> Option<PayloadView>,
    sending_host: Seq<char>,
)
    requires
        reading(writing(payload)) == Some(payload),
        material_of(payload, sending_host) == Some(
            reintroduced(
                material.pairing_file,
                material.host_info.alt_irk,
                material.paired_peer_id,
                sending_host,
            ),
        ),
        sealing::opened(key, record.nonce@, record.ciphertext@) == Some(writing(payload)),
    ensures
        ({
            let result = loading(
                mode,
                true,
                Ok(key),
                StateRead::Record(record),
                reading,
                sending_host,
            );
            &&& result matches Loading::Loaded(loaded)
            &&& loaded.pairing_file == material.pairing_file
            &&& loaded.host_info.alt_irk == material.host_info.alt_irk
            &&& loaded.host_info.identifier == material.pairing_file.identifier
            &&& loaded.paired_peer_id == material.paired_peer_id
        }),
{
}

/// Without a state nothing is read and fresh material is used, where that is allowed. A state that
/// holds no record, that the key does not open or whose text cannot be read is refused and never
/// replaced by fresh material.
pub proof fn broken_states_are_refused(
    mode: LoadMode,
    key: Seq<u8>,
    read: StateRead,
    reading: spec_fn(Seq<u8>) -> Option<PayloadView>,
    sending_host: Seq<char>,
)
    ensures
        loading(LoadMode::OrCreate, false, Ok(key), read, reading, sending_host) == Loading::Fresh,
        loading(LoadMode::Existing, false, Ok(key), read, reading, sending_host)
            == Loading::Refused(PairingError::Storage),
        loading(mode, true, Ok(key), StateRead::Malformed, reading, sending_host)
            == Loading::Refused(PairingError::CorruptedState),
        read matches StateRead::Record(record) && sealing::opened(
            key,
            record.nonce@,
            record.ciphertext@,
        ) is None ==> loading(mode, true, Ok(key), read, reading, sending_host)
            == Loading::Refused(PairingError::CorruptedState),
        !(loading(mode, true, Ok(key), read, reading, sending_host) is Fresh),
{
}

/// A pairing file is loaded where its text is base64, the key beside it has 16 bytes, and it holds
/// no date outside the years.
pub proof fn pairing_files_are_loaded_from_their_text(
    host_alt_irk: Seq<u8>,
    pairing_file: Seq<char>,
)
    ensures
        host_alt_irk.len() != 16 ==> loaded_file(host_alt_irk, pairing_file) is None,
        sealing::base64_bytes(pairing_file) is None ==> loaded_file(host_alt_irk, pairing_file)
            is None,
        sealing::base64_bytes(pairing_file) matches Some(bytes) ==> dates::has_late_date(bytes)
            || dates::has_early_date(bytes) ==> loaded_file(host_alt_irk, pairing_file) is None,
        sealing::base64_bytes(pairing_file) matches Some(bytes) ==> host_alt_irk.len() == 16
            && !dates::has_late_date(bytes) && !dates::has_early_date(bytes) ==> loaded_file(
            host_alt_irk,
            pairing_file,
        ) == pairing_file_of(bytes),
{
}

/// Keys can be used where the private one has 32 bytes and the public one is a point of the curve.
/// Material can be used where its keys can and the key of its host has 16 bytes.
pub proof fn keys_have_their_length(material: MaterialView)
    ensures
        has_keys(material.pairing_file) <==> material.pairing_file.private_key.len() == 32
            && is_verifying_key(material.pairing_file.public_key),
        is_material(material) <==> material.host_info.alt_irk.len() == 16
            && material.pairing_file.private_key.len() == 32 && is_verifying_key(
            material.pairing_file.public_key,
        ),
{
}

/// A host that was loaded has the name of the moment and the usual model, and keeps its identifier,
/// its key, its pairing file and the device that it is paired with.
pub proof fn loaded_hosts_keep_their_keys(
    file: PairingFileView,
    alt_irk: Seq<u8>,
    peer: Option<Seq<char>>,
    sending_host: Seq<char>,
)
    ensures
        ({
            let material = reintroduced(file, alt_irk, peer, sending_host);
            &&& material.host_info.name == sending_host
            &&& material.host_info.model == "Mac17,7"@
            &&& material.host_info.identifier == file.identifier
            &&& material.host_info.alt_irk == alt_irk
            &&& material.pairing_file == file
            &&& material.paired_peer_id == peer
        }),
{
}

/// What is saved of material is the key of its host, its pairing file and the device that it is
/// paired with.
pub proof fn states_hold_the_material(material: MaterialView)
    ensures
        payload_of(material).host_alt_irk == material.host_info.alt_irk,
        payload_of(material).pairing_file == sealing::base64_text(
            pairing_file_plist(material.pairing_file),
        ),
        payload_of(material).paired_peer_id == material.paired_peer_id,
{
}

/// A state that is there is loaded and never replaced, and one that is not is made only where that
/// is allowed. Whatever keeps it from being read is told.
pub proof fn states_are_refused_by_their_fault(
    mode: LoadMode,
    error: PairingError,
    key: Seq<u8>,
    read: StateRead,
    reading: spec_fn(Seq<u8>) -> Option<PayloadView>,
    sending_host: Seq<char>,
    text: Seq<u8>,
)
    ensures
        source_of(mode, true) == Ok::<LoadSource, PairingError>(LoadSource::Stored),
        source_of(LoadMode::OrCreate, false) == Ok::<LoadSource, PairingError>(LoadSource::Fresh),
        source_of(LoadMode::Existing, false) == Err::<LoadSource, PairingError>(
            PairingError::Storage,
        ),
        state_text(StateRead::Unreadable, key) == Err::<Seq<u8>, PairingError>(
            PairingError::Storage,
        ),
        loading(mode, true, Err(error), read, reading, sending_host) == Loading::Refused(error),
        loading(mode, true, Ok(key), StateRead::Unreadable, reading, sending_host)
            == Loading::Refused(PairingError::Storage),
        state_text(read, key) == Ok::<Seq<u8>, PairingError>(text) && reading(text) is None
            ==> loading(mode, true, Ok(key), read, reading, sending_host) == Loading::Refused(
            PairingError::CorruptedState,
        ),
{
}

/// The views of records are their keys and texts, one for one.
pub proof fn views_are_the_records(records: Seq<(String, String)>, at: int)
    ensures
        record_views(records).len() == records.len(),
        0 <= at < records.len() ==> record_views(records)[at] == (records[at].0@, records[at].1@),
{
}

/// The views of material and of its state tell all that they hold.
pub proof fn views_tell_the_whole_material(
    material: StoredPairingMaterial,
    payload: PairingPayload,
)
    ensures
        material@.host_info.name == material.host_info.name@,
        material@.host_info.model == material.host_info.model@,
        material@.host_info.identifier == material.host_info.identifier@,
        material@.host_info.alt_irk == material.host_info.alt_irk@,
        material@.pairing_file.public_key == material.pairing_file.public_key@,
        material@.pairing_file.private_key == material.pairing_file.private_key@,
        material@.pairing_file.identifier == material.pairing_file.identifier@,
        material@.paired_peer_id == text::text_view(material.paired_peer_id),
        payload@.host_alt_irk == payload.host_alt_irk@,
        payload@.pairing_file == payload.pairing_file@,
        payload@.paired_peer_id == text::text_view(payload.paired_peer_id),
{
}

} // verus!

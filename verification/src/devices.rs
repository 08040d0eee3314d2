//! Devices on the trusted network and the apps that stand on them.
use crate::archive::PlistEntry;
use crate::record;
use crate::record::RecordId;
use crate::signing::SigningError;
use crate::sorting;
use crate::sorting::Ranked;
use crate::store::ManagedAppIdentity;
use crate::text;
use vstd::prelude::*;
use vstd::string::*;

verus! {

#[derive(Debug, Clone, Copy, PartialEq, Eq, Structural)]
pub enum ConnectionType {
    Network,
}

#[derive(Debug, Clone, Copy, PartialEq, Eq, Structural)]
pub enum DeviceStatus {
    Online,
}

/// A device that answered.
#[derive(Debug)]
pub struct DeviceSummary {
    pub id: RecordId,
    pub display_name: String,
    pub product_type: String,
    pub ios_version: String,
    pub connection_type: ConnectionType,
    pub status: DeviceStatus,
    pub install_eligible: bool,
}

/// An app on a device.
#[derive(Debug)]
pub struct InstalledAppSummary {
    pub display_name: String,
    pub bundle_id: String,
    pub version: String,
}

/// Why work on a device failed.
#[derive(Debug, Clone, Copy, PartialEq, Eq, Structural)]
pub enum TransportError {
    Unavailable,
    DeviceInstallFailed,
    DeviceInfoFailed,
    DeveloperTeamFailed,
    DeviceRegistrationFailed,
    IpaSigningFailed,
    SignedMetadataFailed,
}

impl TransportError {
    pub open spec fn text(self) -> &'static str {
        match self {
            TransportError::Unavailable => "network device transport is not configured",
            TransportError::DeviceInstallFailed => "device installation failed",
            TransportError::DeviceInfoFailed => "device information lookup failed",
            TransportError::DeveloperTeamFailed => "developer team lookup failed",
            TransportError::DeviceRegistrationFailed => "device registration failed",
            TransportError::IpaSigningFailed => "IPA signing failed",
            TransportError::SignedMetadataFailed => "signed IPA metadata validation failed",
        }
    }

    /// The error as a sentence.
    pub fn message(self) -> (message: &'static str)
        ensures
            message == self.text(),
    {
        match self {
            TransportError::Unavailable => "network device transport is not configured",
            TransportError::DeviceInstallFailed => "device installation failed",
            TransportError::DeviceInfoFailed => "device information lookup failed",
            TransportError::DeveloperTeamFailed => "developer team lookup failed",
            TransportError::DeviceRegistrationFailed => "device registration failed",
            TransportError::IpaSigningFailed => "IPA signing failed",
            TransportError::SignedMetadataFailed => "signed IPA metadata validation failed",
        }
    }

    /// How a failure of signing shows in the work on a device: the stages of signing keep their
    /// names, anything else is a failed installation.
    pub open spec fn of_signing(error: SigningError) -> TransportError {
        match error {
            SigningError::DeviceInfoFailed => TransportError::DeviceInfoFailed,
            SigningError::DeveloperTeamFailed => TransportError::DeveloperTeamFailed,
            SigningError::DeviceRegistrationFailed => TransportError::DeviceRegistrationFailed,
            SigningError::IpaSigningFailed => TransportError::IpaSigningFailed,
            SigningError::SignedMetadataFailed => TransportError::SignedMetadataFailed,
            _ => TransportError::DeviceInstallFailed,
        }
    }

    pub fn from_signing(error: SigningError) -> (result: TransportError)
        ensures
            result == Self::of_signing(error),
    {
        match error {
            SigningError::DeviceInfoFailed => TransportError::DeviceInfoFailed,
            SigningError::DeveloperTeamFailed => TransportError::DeveloperTeamFailed,
            SigningError::DeviceRegistrationFailed => TransportError::DeviceRegistrationFailed,
            SigningError::IpaSigningFailed => TransportError::IpaSigningFailed,
            SigningError::SignedMetadataFailed => TransportError::SignedMetadataFailed,
            _ => TransportError::DeviceInstallFailed,
        }
    }
}

fn text_or(value: Option<String>, default: &str) -> (text: String)
    ensures
        text@ == match value {
            Some(value) => value@,
            None => default@,
        },
{
    match value {
        Some(value) => value,
        None => default.to_owned(),
    }
}

/// The summary of a device from what it tells of itself; what it does not tell gets a default.
pub fn describe_device(
    udid: &str,
    device_name: Option<String>,
    product_type: Option<String>,
    ios_version: Option<String>,
) -> (summary: DeviceSummary)
    ensures
        summary.id.bits == record::device_bits(udid@),
        summary.display_name@ == match device_name {
            Some(name) => name@,
            None => "iPhone"@,
        },
        summary.product_type@ == match product_type {
            Some(product) => product@,
            None => "unknown"@,
        },
        summary.ios_version@ == match ios_version {
            Some(version) => version@,
            None => "unknown"@,
        },
        summary.connection_type is Network,
        summary.status is Online,
        summary.install_eligible,
{
    DeviceSummary {
        id: record::device_id_for_udid(udid),
        display_name: text_or(device_name, "iPhone"),
        product_type: text_or(product_type, "unknown"),
        ios_version: text_or(ios_version, "unknown"),
        connection_type: ConnectionType::Network,
        status: DeviceStatus::Online,
        install_eligible: true,
    }
}

/// A device is listed.
pub open spec fn is_listed(devices: Seq<DeviceSummary>, id: RecordId) -> bool {
    exists|i: int| 0 <= i < devices.len() && (#[trigger] devices[i]).id == id
}

/// The position of the first device with an identifier.
pub fn find_device(devices: &Vec<DeviceSummary>, id: RecordId) -> (at: Option<usize>)
    ensures
        match at {
            Some(at) => {
                &&& at < devices@.len()
                &&& devices@[at as int].id == id
                &&& forall|i: int| 0 <= i < at ==> (#[trigger] devices@[i]).id != id
            },
            None => !is_listed(devices@, id),
        },
{
    let mut i: usize = 0;
    while i < devices.len()
        invariant
            i <= devices.len(),
            forall|k: int| 0 <= k < i ==> (#[trigger] devices@[k]).id != id,
        decreases devices.len() - i,
    {
        if devices[i].id == id {
            return Some(i);
        }
        i = i + 1;
    }
    None
}

/// The position of the first device, among those with these Apple UDIDs, that has an identifier.
pub fn find_udid(udids: &Vec<String>, id: RecordId) -> (at: Option<usize>)
    ensures
        match at {
            Some(at) => {
                &&& at < udids@.len()
                &&& record::device_bits(udids@[at as int]@) == id.bits
                &&& forall|i: int|
                    0 <= i < at ==> record::device_bits((#[trigger] udids@[i])@) != id.bits
            },
            None => forall|i: int|
                0 <= i < udids@.len() ==> record::device_bits((#[trigger] udids@[i])@) != id.bits,
        },
{
    let mut i: usize = 0;
    while i < udids.len()
        invariant
            i <= udids.len(),
            forall|k: int| 0 <= k < i ==> record::device_bits((#[trigger] udids@[k])@) != id.bits,
        decreases udids.len() - i,
    {
        if record::device_id_for_udid(udids[i].as_str()) == id {
            return Some(i);
        }
        i = i + 1;
    }
    None
}

// ---------------------------------------------------------------------------------------------
// Candidates.
// ---------------------------------------------------------------------------------------------

/// A device that may be reachable at an address.
#[derive(Debug)]
pub struct Candidate {
    pub udid: String,
    pub address: String,
}

pub open spec fn candidate_view(candidate: Candidate) -> (Seq<char>, Seq<char>) {
    (candidate.udid@, candidate.address@)
}

pub open spec fn candidate_views(candidates: Seq<Candidate>) -> Seq<(Seq<char>, Seq<char>)> {
    candidates.map_values(|candidate: Candidate| candidate_view(candidate))
}

/// Where the devices on the network are learnt from: netmuxd, or the announcements of the devices
/// together with the pairing records.
#[derive(Debug, Clone, Copy, PartialEq, Eq, Structural)]
pub enum DiscoverySource {
    Netmuxd,
    Bonjour,
}

/// What comes after one source was asked.
#[derive(Debug, Clone, Copy, PartialEq, Eq, Structural)]
pub enum DiscoveryTurn {
    Next(DiscoverySource),
    Reached,
    Unavailable,
}

impl DiscoverySource {
    pub open spec fn turn(self, reached: bool) -> DiscoveryTurn {
        if reached {
            DiscoveryTurn::Reached
        } else if self == DiscoverySource::Netmuxd {
            DiscoveryTurn::Next(DiscoverySource::Bonjour)
        } else {
            DiscoveryTurn::Unavailable
        }
    }

    /// What comes after the source, where it led to so many devices. A source that cannot be asked
    /// leads to none.
    pub fn advance(self, devices: usize) -> (turn: DiscoveryTurn)
        ensures
            turn == self.turn(devices > 0),
    {
        if devices > 0 {
            DiscoveryTurn::Reached
        } else {
            match self {
                DiscoverySource::Netmuxd => DiscoveryTurn::Next(DiscoverySource::Bonjour),
                DiscoverySource::Bonjour => DiscoveryTurn::Unavailable,
            }
        }
    }
}

/// netmuxd is preferred: the announcements are looked for only where it led to no device, and
/// there is no transport only where neither did.
pub proof fn announcements_come_second(source: DiscoverySource, reached: bool)
    ensures
        source.turn(reached) is Next <==> source == DiscoverySource::Netmuxd && !reached,
        source.turn(reached) is Unavailable <==> source == DiscoverySource::Bonjour && !reached,
        source.turn(reached) is Reached <==> reached,
{
}

/// The devices that were identified and the candidates that were tried so far.
#[derive(Debug)]
pub struct CandidateWalk {
    pub identified: Vec<String>,
    pub attempted: Vec<Candidate>,
}

fn holds_text(texts: &Vec<String>, value: &str) -> (found: bool)
    ensures
        found == text::text_views(texts@).contains(value@),
{
    let ghost views = text::text_views(texts@);
    let mut i: usize = 0;
    while i < texts.len()
        invariant
            i <= texts.len(),
            views == text::text_views(texts@),
            forall|k: int| 0 <= k < i ==> #[trigger] views[k] != value@,
        decreases texts.len() - i,
    {
        proof {
            assert(views[i as int] == texts@[i as int]@);
        }
        if text::same_text(texts[i].as_str(), value) {
            return true;
        }
        i = i + 1;
    }
    false
}

fn holds_candidate(candidates: &Vec<Candidate>, udid: &str, address: &str) -> (found: bool)
    ensures
        found == candidate_views(candidates@).contains((udid@, address@)),
{
    let ghost views = candidate_views(candidates@);
    let mut i: usize = 0;
    while i < candidates.len()
        invariant
            i <= candidates.len(),
            views == candidate_views(candidates@),
            forall|k: int| 0 <= k < i ==> #[trigger] views[k] != (udid@, address@),
        decreases candidates.len() - i,
    {
        proof {
            assert(views[i as int] == candidate_view(candidates@[i as int]));
        }
        if text::same_text(candidates[i].udid.as_str(), udid) && text::same_text(
            candidates[i].address.as_str(),
            address,
        ) {
            return true;
        }
        i = i + 1;
    }
    false
}

impl CandidateWalk {
    pub fn new() -> (walk: CandidateWalk)
        ensures
            walk.identified@.len() == 0,
            walk.attempted@.len() == 0,
    {
        CandidateWalk { identified: Vec::new(), attempted: Vec::new() }
    }

    /// Whether a candidate is to be tried: its device was not identified, and the same device was
    /// not tried at the same address. A candidate that is tried is remembered.
    pub fn attempt(&mut self, udid: &str, address: &str) -> (result: bool)
        ensures
            result == (!text::text_views(old(self).identified@).contains(udid@)
                && !candidate_views(old(self).attempted@).contains((udid@, address@))),
            final(self).identified == old(self).identified,
            result ==> candidate_views(final(self).attempted@) == candidate_views(
                old(self).attempted@,
            ).push((udid@, address@)),
            !result ==> final(self).attempted == old(self).attempted,
    {
        if holds_text(&self.identified, udid) || holds_candidate(&self.attempted, udid, address) {
            return false;
        }
        let ghost before = self.attempted@;
        self.attempted.push(Candidate { udid: udid.to_owned(), address: address.to_owned() });
        proof {
            assert(candidate_views(self.attempted@) == candidate_views(before).push(
                (udid@, address@),
            ));
        }
        true
    }

    /// Remembers a device that answered.
    pub fn identify(&mut self, udid: &str)
        ensures
            text::text_views(final(self).identified@) == text::text_views(
                old(self).identified@,
            ).push(udid@),
            final(self).attempted == old(self).attempted,
    {
        let ghost before = self.identified@;
        self.identified.push(udid.to_owned());
        proof {
            assert(text::text_views(self.identified@) == text::text_views(before).push(udid@));
        }
    }
}

/// How netmuxd holds a device.
#[derive(Debug)]
pub enum MuxConnection {
    /// At an address of the network.
    Network(String),
    Usb,
    Unknown,
}

/// A device as netmuxd lists it.
#[derive(Debug)]
pub struct MuxDevice {
    pub udid: String,
    pub connection: MuxConnection,
}

/// The devices that are held over the network, in their order.
pub open spec fn networked(devices: Seq<MuxDevice>) -> Seq<(Seq<char>, Seq<char>)>
    decreases devices.len(),
{
    if devices.len() == 0 {
        Seq::empty()
    } else {
        let before = networked(devices.drop_last());
        match devices.last().connection {
            MuxConnection::Network(address) => before.push((devices.last().udid@, address@)),
            _ => before,
        }
    }
}

/// The candidates among the devices that netmuxd lists: those that it holds over the network.
pub fn network_candidates(devices: &Vec<MuxDevice>) -> (result: Vec<Candidate>)
    ensures
        candidate_views(result@) == networked(devices@),
{
    let mut result: Vec<Candidate> = Vec::new();
    let mut i: usize = 0;
    proof {
        assert(candidate_views(result@) == networked(devices@.take(0)));
    }
    while i < devices.len()
        invariant
            i <= devices@.len(),
            candidate_views(result@) == networked(devices@.take(i as int)),
        decreases devices@.len() - i,
    {
        let ghost before = result@;
        proof {
            assert(devices@.take(i + 1).drop_last() == devices@.take(i as int));
            assert(devices@.take(i + 1).last() == devices@[i as int]);
        }
        if let MuxConnection::Network(address) = &devices[i].connection {
            let candidate: Candidate = Candidate {
                udid: devices[i].udid.clone(),
                address: address.clone(),
            };
            result.push(candidate);
            proof {
                assert(candidate_views(result@) == candidate_views(before).push(
                    candidate_view(candidate),
                ));
            }
        }
        i = i + 1;
    }
    proof {
        assert(devices@.take(i as int) == devices@);
    }
    result
}

/// An address that a device announced.
#[derive(Debug)]
pub struct AnnouncedAddress {
    pub text: String,
    pub ipv4: bool,
}

/// The IPv4 addresses that were announced, each where it came first.
pub open spec fn ipv4_texts(announced: Seq<AnnouncedAddress>) -> Seq<Seq<char>>
    decreases announced.len(),
{
    if announced.len() == 0 {
        Seq::empty()
    } else {
        let before = ipv4_texts(announced.drop_last());
        let last = announced.last();
        if last.ipv4 && !before.contains(last.text@) {
            before.push(last.text@)
        } else {
            before
        }
    }
}

/// The IPv4 addresses that were announced; without one the devices cannot be reached.
pub fn ipv4_addresses(announced: &Vec<AnnouncedAddress>) -> (result: Result<
    Vec<String>,
    TransportError,
>)
    ensures
        match result {
            Ok(addresses) => {
                &&& text::text_views(addresses@) == ipv4_texts(announced@)
                &&& addresses@.len() > 0
            },
            Err(error) => {
                &&& error == TransportError::Unavailable
                &&& ipv4_texts(announced@).len() == 0
            },
        },
{
    let mut addresses: Vec<String> = Vec::new();
    let mut i: usize = 0;
    proof {
        assert(text::text_views(addresses@) == ipv4_texts(announced@.take(0)));
    }
    while i < announced.len()
        invariant
            i <= announced@.len(),
            text::text_views(addresses@) == ipv4_texts(announced@.take(i as int)),
        decreases announced@.len() - i,
    {
        let ghost before = addresses@;
        proof {
            assert(announced@.take(i + 1).drop_last() == announced@.take(i as int));
            assert(announced@.take(i + 1).last() == announced@[i as int]);
        }
        if announced[i].ipv4 && !holds_text(&addresses, announced[i].text.as_str()) {
            let address: String = announced[i].text.clone();
            addresses.push(address);
            proof {
                assert(text::text_views(addresses@) == text::text_views(before).push(address@));
            }
        }
        i = i + 1;
    }
    proof {
        assert(announced@.take(i as int) == announced@);
        assert(text::text_views(addresses@).len() == addresses@.len());
    }
    if addresses.len() == 0 {
        Err(TransportError::Unavailable)
    } else {
        Ok(addresses)
    }
}

/// The addresses that are looked for are exactly the IPv4 ones that were announced, and none comes
/// twice.
pub proof fn announced_addresses_are_kept_once(announced: Seq<AnnouncedAddress>, address: Seq<char>)
    ensures
        ipv4_texts(announced).no_duplicates(),
        ipv4_texts(announced).contains(address) <==> exists|i: int|
            0 <= i < announced.len() && (#[trigger] announced[i]).ipv4 && announced[i].text@
                == address,
    decreases announced.len(),
{
    if announced.len() > 0 {
        let rest = announced.drop_last();
        let before = ipv4_texts(rest);
        let last = announced.last();
        announced_addresses_are_kept_once(rest, address);
        if last.ipv4 && !before.contains(last.text@) {
            let now = before.push(last.text@);
            assert(now[now.len() - 1] == last.text@);
            assert forall|k: int| 0 <= k < before.len() implies now[k] == before[k] by {}
            if before.contains(address) {
                assert(now[before.index_of(address)] == address);
            }
        }
        if exists|i: int| 0 <= i < rest.len() && (#[trigger] rest[i]).ipv4 && rest[i].text@ == address {
            let i = choose|i: int|
                0 <= i < rest.len() && (#[trigger] rest[i]).ipv4 && rest[i].text@ == address;
            assert(announced[i] == rest[i]);
        }
        if exists|i: int|
            0 <= i < announced.len() && (#[trigger] announced[i]).ipv4 && announced[i].text@
                == address {
            let i = choose|i: int|
                0 <= i < announced.len() && (#[trigger] announced[i]).ipv4 && announced[i].text@
                    == address;
            if i < rest.len() {
                assert(rest[i] == announced[i]);
            } else {
                assert(announced[i] == last);
            }
        }
        if last.ipv4 && last.text@ == address {
            assert(announced[announced.len() - 1] == last);
        }
    }
}

/// Every device together with every address, device by device.
pub open spec fn pairings(udids: Seq<Seq<char>>, addresses: Seq<Seq<char>>) -> Seq<
    (Seq<char>, Seq<char>),
> {
    Seq::new(
        udids.len() * addresses.len(),
        |i: int| (udids[i / addresses.len() as int], addresses[i % addresses.len() as int]),
    )
}

/// Every device together with every address, device by device.
pub fn candidates(udids: &Vec<String>, addresses: &Vec<String>) -> (result: Vec<Candidate>)
    ensures
        candidate_views(result@) == pairings(
            text::text_views(udids@),
            text::text_views(addresses@),
        ),
{
    let ghost names = text::text_views(udids@);
    let ghost places = text::text_views(addresses@);
    let ghost all = pairings(names, places);
    let mut result: Vec<Candidate> = Vec::new();
    let mut i: usize = 0;
    proof {
        assert(0 * places.len() == 0) by (nonlinear_arith);
    }
    while i < udids.len()
        invariant
            i <= udids.len(),
            names == text::text_views(udids@),
            places == text::text_views(addresses@),
            all == pairings(names, places),
            result@.len() == i * places.len(),
            i * places.len() <= names.len() * places.len(),
            forall|k: int| 0 <= k < result@.len() ==> candidate_view(#[trigger] result@[k])
                == all[k],
        decreases udids.len() - i,
    {
        let mut j: usize = 0;
        proof {
            assert(i * places.len() + places.len() == (i + 1) * places.len()) by (nonlinear_arith);
            assert((i + 1) * places.len() <= names.len() * places.len()) by (nonlinear_arith)
                requires
                    i < names.len(),
            ;
        }
        while j < addresses.len()
            invariant
                i < udids.len(),
                j <= addresses.len(),
                names == text::text_views(udids@),
                places == text::text_views(addresses@),
                all == pairings(names, places),
                result@.len() == i * places.len() + j,
                i * places.len() + places.len() <= names.len() * places.len(),
                forall|k: int| 0 <= k < result@.len() ==> candidate_view(#[trigger] result@[k])
                    == all[k],
            decreases addresses.len() - j,
        {
            let ghost at = result@.len() as int;
            proof {
                let n = places.len() as int;
                assert(at == i * n + j);
                vstd::arithmetic::div_mod::lemma_fundamental_div_mod_converse(
                    at,
                    n,
                    i as int,
                    j as int,
                );
                assert(names[i as int] == udids@[i as int]@);
                assert(places[j as int] == addresses@[j as int]@);
                assert(all[at] == (names[i as int], places[j as int]));
            }
            result.push(Candidate { udid: udids[i].clone(), address: addresses[j].clone() });
            j = j + 1;
        }
        i = i + 1;
    }
    proof {
        assert(candidate_views(result@) =~= all);
    }
    result
}

/// The UDIDs that the files of a pairing directory stand for: those that end in `.plist`, but for
/// the host's own.
pub open spec fn udid_of_file(name: Seq<char>) -> Option<Seq<char>> {
    if text::finishes_with(name, ".plist"@) && name.take(name.len() - 6) != "SystemConfiguration"@ {
        Some(name.take(name.len() - 6))
    } else {
        None
    }
}

pub open spec fn udids_of_files(names: Seq<Seq<char>>) -> Seq<Seq<char>>
    decreases names.len(),
{
    if names.len() == 0 {
        Seq::empty()
    } else {
        let before = udids_of_files(names.drop_last());
        match udid_of_file(names.last()) {
            Some(udid) => before.push(udid),
            None => before,
        }
    }
}

/// The UDIDs that the files of a pairing directory stand for, in their order.
pub fn pairing_record_udids(names: &Vec<String>) -> (udids: Vec<String>)
    ensures
        text::text_views(udids@) == udids_of_files(text::text_views(names@)),
{
    let ghost views = text::text_views(names@);
    let mut udids: Vec<String> = Vec::new();
    let mut i: usize = 0;
    proof {
        assert(views.take(0) == Seq::<Seq<char>>::empty());
        assert(text::text_views(udids@) == Seq::<Seq<char>>::empty());
        reveal_strlit(".plist");
    }
    while i < names.len()
        invariant
            i <= names.len(),
            views == text::text_views(names@),
            ".plist"@.len() == 6,
            text::text_views(udids@) == udids_of_files(views.take(i as int)),
        decreases names.len() - i,
    {
        proof {
            assert(views.take(i + 1).drop_last() == views.take(i as int));
            assert(views.take(i + 1).last() == names@[i as int]@);
        }
        let name: &str = names[i].as_str();
        let chars: Vec<char> = text::chars_of(name);
        let suffix: Vec<char> = text::chars_of(".plist");
        if text::ends_with(&chars, &suffix) {
            let udid: &str = name.substring_char(0, chars.len() - 6);
            proof {
                assert(udid@ == name@.take(name@.len() - 6));
            }
            if !text::same_text(udid, "SystemConfiguration") {
                let ghost before = udids@;
                udids.push(udid.to_owned());
                proof {
                    assert(text::text_views(udids@) == text::text_views(before).push(udid@));
                }
            }
        }
        i = i + 1;
    }
    proof {
        assert(views.take(i as int) == views);
    }
    udids
}

/// The file of a device in a pairing directory.
pub fn pairing_record_name(udid: &str) -> (name: String)
    ensures
        name@ == udid@ + ".plist"@,
{
    let mut name: String = udid.to_owned();
    name.append(".plist");
    name
}

/// The file that is written for a device is the one that it is found by.
pub proof fn pairing_records_are_found(udid: Seq<char>)
    requires
        udid != "SystemConfiguration"@,
    ensures
        udid_of_file(udid + ".plist"@) == Some(udid),
{
    let name = udid + ".plist"@;
    reveal_strlit(".plist");
    assert(name.subrange(name.len() - 6, name.len() as int) == ".plist"@);
    assert(name.take(name.len() - 6) == udid);
}

// ---------------------------------------------------------------------------------------------
// Installed apps.
// ---------------------------------------------------------------------------------------------

/// The value behind a key, and whether that is a string.
pub open spec fn field_of(
    entries: Seq<PlistEntry>,
    key: Seq<char>,
) -> Option<Option<Seq<char>>>
    decreases entries.len(),
{
    if entries.len() == 0 {
        None
    } else if entries[0].key@ == key {
        Some(text::text_view(entries[0].text))
    } else {
        field_of(entries.skip(1), key)
    }
}

/// The string behind the first key that is there, or behind the second.
pub open spec fn either_field(
    entries: Seq<PlistEntry>,
    first: Seq<char>,
    second: Seq<char>,
) -> Option<Seq<char>> {
    match field_of(entries, first) {
        Some(text) => text,
        None => match field_of(entries, second) {
            Some(text) => text,
            None => None,
        },
    }
}

pub open spec fn field_or(value: Option<Seq<char>>, default: Seq<char>) -> Seq<char> {
    match value {
        Some(value) => value,
        None => default,
    }
}

/// The entries describe an app: they have an identifier.
pub open spec fn describes_app(entries: Seq<PlistEntry>) -> bool {
    field_of(entries, "CFBundleIdentifier"@) matches Some(Some(_))
}

/// The summary of the app that the entries describe. Its name is the identifier where it has no
/// other, its version a dash.
pub open spec fn summarizes(summary: InstalledAppSummary, entries: Seq<PlistEntry>) -> bool {
    &&& field_of(entries, "CFBundleIdentifier"@) == Some(Some(summary.bundle_id@))
    &&& summary.display_name@ == field_or(
        either_field(entries, "CFBundleDisplayName"@, "CFBundleName"@),
        summary.bundle_id@,
    )
    &&& summary.version@ == field_or(
        either_field(entries, "CFBundleShortVersionString"@, "CFBundleVersion"@),
        "—"@,
    )
}

fn find_field(entries: &Vec<PlistEntry>, key: &str) -> (value: Option<Option<String>>)
    ensures
        match value {
            Some(text) => field_of(entries@, key@) == Some(text::text_view(text)),
            None => field_of(entries@, key@) is None,
        },
{
    let mut i: usize = 0;
    proof {
        assert(entries@.skip(0) == entries@);
    }
    while i < entries.len()
        invariant
            i <= entries.len(),
            field_of(entries@, key@) == field_of(entries@.skip(i as int), key@),
        decreases entries.len() - i,
    {
        if text::same_text(entries[i].key.as_str(), key) {
            return Some(
                match &entries[i].text {
                    Some(text) => Some(text.clone()),
                    None => None,
                },
            );
        }
        proof {
            assert(entries@.skip(i as int).skip(1) == entries@.skip(i + 1));
        }
        i = i + 1;
    }
    None
}

fn find_either(entries: &Vec<PlistEntry>, first: &str, second: &str) -> (text: Option<String>)
    ensures
        text::text_view(text) == either_field(entries@, first@, second@),
{
    match find_field(entries, first) {
        Some(text) => text,
        None => match find_field(entries, second) {
            Some(text) => text,
            None => None,
        },
    }
}

/// The summary of the app that the entries of an installed app's dictionary describe.
pub fn summarize_app(entries: &Vec<PlistEntry>) -> (summary: Option<InstalledAppSummary>)
    ensures
        match summary {
            Some(summary) => summarizes(summary, entries@),
            None => !describes_app(entries@),
        },
{
    let bundle_id: String = match find_field(entries, "CFBundleIdentifier") {
        Some(Some(bundle_id)) => bundle_id,
        _ => {
            return None;
        },
    };
    let display_name: String = match find_either(entries, "CFBundleDisplayName", "CFBundleName") {
        Some(name) => name,
        None => bundle_id.clone(),
    };
    let version: String = text_or(
        find_either(entries, "CFBundleShortVersionString", "CFBundleVersion"),
        "—",
    );
    Some(InstalledAppSummary { display_name, bundle_id, version })
}

/// The dictionaries that describe an app, in their order.
pub open spec fn app_dictionaries(values: Seq<Vec<PlistEntry>>) -> Seq<Vec<PlistEntry>> {
    values.filter(|entries: Vec<PlistEntry>| describes_app(entries@))
}

/// The summaries of the apps that a device lists. Values that are no dictionary are left out
/// before.
pub fn installed_apps(values: &Vec<Vec<PlistEntry>>) -> (apps: Vec<InstalledAppSummary>)
    ensures
        apps@.len() == app_dictionaries(values@).len(),
        forall|k: int|
            0 <= k < apps@.len() ==> summarizes(#[trigger] apps@[k], app_dictionaries(values@)[k]@),
{
    let ghost is_app = |entries: Vec<PlistEntry>| describes_app(entries@);
    let mut apps: Vec<InstalledAppSummary> = Vec::new();
    let mut i: usize = 0;
    proof {
        assert(values@.take(0) == Seq::<Vec<PlistEntry>>::empty());
        reveal(Seq::filter);
    }
    while i < values.len()
        invariant
            i <= values.len(),
            is_app == (|entries: Vec<PlistEntry>| describes_app(entries@)),
            apps@.len() == values@.take(i as int).filter(is_app).len(),
            forall|k: int|
                0 <= k < apps@.len() ==> summarizes(
                    #[trigger] apps@[k],
                    values@.take(i as int).filter(is_app)[k]@,
                ),
        decreases values.len() - i,
    {
        proof {
            reveal(Seq::filter);
            assert(values@.take(i + 1).drop_last() == values@.take(i as int));
            assert(values@.take(i + 1).last() == values@[i as int]);
        }
        match summarize_app(&values[i]) {
            Some(summary) => {
                proof {
                    assert(is_app(values@[i as int]));
                }
                apps.push(summary);
            },
            None => {},
        }
        i = i + 1;
    }
    proof {
        assert(values@.take(i as int) == values@);
    }
    apps
}

/// An identity stands for a bundle: by the identifier it was installed under, or, where that is
/// not known, by the identifier of its IPA or one that extends it behind a dot.
pub open spec fn identifies(identity: ManagedAppIdentity, bundle_id: Seq<char>) -> bool {
    match identity.installed_bundle_id {
        Some(installed) => installed@ == bundle_id,
        None => match identity.source_bundle_id {
            Some(source) => bundle_id == source@ || (text::begins_with(bundle_id, source@)
                && bundle_id.len() > source@.len() && bundle_id[source@.len() as int] == '.'),
            None => false,
        },
    }
}

/// Some identity stands for the bundle.
pub open spec fn is_managed(bundle_id: Seq<char>, identities: Seq<ManagedAppIdentity>) -> bool {
    exists|i: int| 0 <= i < identities.len() && identifies(#[trigger] identities[i], bundle_id)
}

fn identity_matches(identity: &ManagedAppIdentity, bundle_id: &str) -> (result: bool)
    ensures
        result == identifies(*identity, bundle_id@),
{
    match &identity.installed_bundle_id {
        Some(installed) => text::same_text(installed.as_str(), bundle_id),
        None => match &identity.source_bundle_id {
            Some(source) => {
                if text::same_text(bundle_id, source.as_str()) {
                    return true;
                }
                let chars: Vec<char> = text::chars_of(bundle_id);
                let length: usize = source.as_str().unicode_len();
                text::starts_with(&chars, source.as_str()) && chars.len() > length && chars[length]
                    == '.'
            },
            None => false,
        },
    }
}

/// Whether an app on a device was installed by this server.
pub fn managed_app(bundle_id: &str, identities: &[ManagedAppIdentity]) -> (managed: bool)
    ensures
        managed == is_managed(bundle_id@, identities@),
{
    let mut i: usize = 0;
    while i < identities.len()
        invariant
            i <= identities.len(),
            forall|k: int| 0 <= k < i ==> !identifies(#[trigger] identities@[k], bundle_id@),
        decreases identities.len() - i,
    {
        if identity_matches(&identities[i], bundle_id) {
            return true;
        }
        i = i + 1;
    }
    false
}

impl Ranked for InstalledAppSummary {
    open spec fn precedes(self, other: Self) -> bool {
        text::text_less(self.display_name@, other.display_name@)
    }

    proof fn precedence_is_asymmetric(a: Self, b: Self) {
        text::text_order_is_asymmetric(a.display_name@, b.display_name@);
    }

    proof fn precedence_is_transitive(a: Self, b: Self, c: Self) {
        text::text_at_most_is_transitive(a.display_name@, b.display_name@, c.display_name@);
    }

    fn comes_first(&self, other: &Self) -> (before: bool) {
        text::comes_before(self.display_name.as_str(), other.display_name.as_str())
    }
}

fn retain_managed(apps: Vec<InstalledAppSummary>, identities: &Vec<ManagedAppIdentity>) -> (kept:
    Vec<InstalledAppSummary>)
    ensures
        kept@ == apps@.filter(|app: InstalledAppSummary| is_managed(app.bundle_id@, identities@)),
{
    let ghost all = apps@;
    let ghost keep = |app: InstalledAppSummary| is_managed(app.bundle_id@, identities@);
    let ghost mut done: int = 0;
    let mut apps: Vec<InstalledAppSummary> = apps;
    let mut i: usize = 0;
    proof {
        reveal(Seq::filter);
        assert(all.take(0).filter(keep) == Seq::<InstalledAppSummary>::empty());
        assert(all.skip(0) == all);
    }
    while i < apps.len()
        invariant
            0 <= done <= all.len(),
            keep == (|app: InstalledAppSummary| is_managed(app.bundle_id@, identities@)),
            i == all.take(done).filter(keep).len(),
            apps@ == all.take(done).filter(keep) + all.skip(done),
        decreases all.len() - done,
    {
        let ghost before = all.take(done).filter(keep);
        proof {
            assert(apps@[i as int] == all.skip(done)[0]);
            assert(all.take(done + 1).drop_last() == all.take(done));
            assert(all.take(done + 1).last() == all[done]);
            assert(all.take(done + 1).filter(keep) == if keep(all[done]) {
                before.push(all[done])
            } else {
                before
            }) by {
                reveal(Seq::filter);
            }
        }
        if managed_app(apps[i].bundle_id.as_str(), identities.as_slice()) {
            proof {
                assert(before + all.skip(done) == before.push(all[done]) + all.skip(done + 1));
            }
            i = i + 1;
        } else {
            let ghost whole = apps@;
            apps.remove(i);
            proof {
                assert(whole.remove(i as int) == before + all.skip(done + 1));
            }
        }
        proof {
            done = done + 1;
        }
    }
    proof {
        assert(done == all.len());
        assert(all.take(done) == all);
        assert(all.skip(done) == Seq::<InstalledAppSummary>::empty());
        assert(all.filter(keep) + Seq::<InstalledAppSummary>::empty() == all.filter(keep));
    }
    apps
}

/// The apps of a device that this server installed, sorted by name.
pub fn managed_apps(apps: Vec<InstalledAppSummary>, identities: &Vec<ManagedAppIdentity>) -> (
result: Vec<InstalledAppSummary>)
    ensures
        result@ == sorting::stable_sorted(
            apps@.filter(|app: InstalledAppSummary| is_managed(app.bundle_id@, identities@)),
        ),
{
    sorting::sort(retain_managed(apps, identities))
}

/// A failure in a stage of signing is told by the device's work in the same words; any other
/// failure of signing is a failed installation.
pub proof fn signing_failures_keep_their_words(error: SigningError)
    ensures
        error is DeviceInfoFailed || error is DeveloperTeamFailed
            || error is DeviceRegistrationFailed || error is IpaSigningFailed
            || error is SignedMetadataFailed ==> TransportError::of_signing(error).text()@
            == error.text()@,
        !(error is DeviceInfoFailed || error is DeveloperTeamFailed
            || error is DeviceRegistrationFailed || error is IpaSigningFailed
            || error is SignedMetadataFailed) ==> TransportError::of_signing(error).text()@
            == "device installation failed"@,
{
}

/// The sentences of the errors.
pub proof fn transport_errors_are_told()
    ensures
        TransportError::Unavailable.text()@ == "network device transport is not configured"@,
        TransportError::DeviceInstallFailed.text()@ == "device installation failed"@,
        TransportError::DeviceInfoFailed.text()@ == "device information lookup failed"@,
        TransportError::DeveloperTeamFailed.text()@ == "developer team lookup failed"@,
        TransportError::DeviceRegistrationFailed.text()@ == "device registration failed"@,
        TransportError::IpaSigningFailed.text()@ == "IPA signing failed"@,
        TransportError::SignedMetadataFailed.text()@ == "signed IPA metadata validation failed"@,
{
}

/// A device that netmuxd holds over the network is a candidate at its address, in the place that
/// its turn gives it; one that it holds otherwise is none.
pub proof fn networked_devices_are_candidates(
    front: Seq<MuxDevice>,
    device: MuxDevice,
    back: Seq<MuxDevice>,
)
    ensures
        networked(front + seq![device] + back) == networked(front) + networked(seq![device])
            + networked(back),
        match device.connection {
            MuxConnection::Network(address) => networked(seq![device]) == seq![
                (device.udid@, address@),
            ],
            _ => networked(seq![device]).len() == 0,
        },
        networked(Seq::empty()).len() == 0,
{
    assert(seq![device].drop_last() =~= Seq::<MuxDevice>::empty());
    assert(networked(seq![device].drop_last()) == Seq::<(Seq<char>, Seq<char>)>::empty());
    lemma_networked_parts(front, seq![device]);
    lemma_networked_parts(front + seq![device], back);
    if let MuxConnection::Network(address) = device.connection {
        assert(networked(seq![device]) =~= seq![(device.udid@, address@)]);
    }
}

proof fn lemma_networked_parts(front: Seq<MuxDevice>, back: Seq<MuxDevice>)
    ensures
        networked(front + back) == networked(front) + networked(back),
    decreases back.len(),
{
    if back.len() == 0 {
        assert(front + back =~= front);
        assert(networked(front) + networked(back) =~= networked(front));
    } else {
        lemma_networked_parts(front, back.drop_last());
        assert((front + back).drop_last() =~= front + back.drop_last());
        assert((front + back).last() == back.last());
        assert(networked(front + back) =~= networked(front) + networked(back));
    }
}

/// Every device is tried at every address, and nothing else is; the addresses of one device come
/// before those of the next, each in its order.
pub proof fn every_device_is_tried_everywhere(
    udids: Seq<Seq<char>>,
    addresses: Seq<Seq<char>>,
    device: int,
    address: int,
)
    requires
        0 <= device < udids.len(),
        0 <= address < addresses.len(),
    ensures
        pairings(udids, addresses).len() == udids.len() * addresses.len(),
        0 <= device * addresses.len() + address < pairings(udids, addresses).len(),
        pairings(udids, addresses)[device * addresses.len() + address] == (
            udids[device],
            addresses[address],
        ),
{
    let n = addresses.len() as int;
    let at = device * n + address;
    assert(0 <= at < udids.len() * n) by (nonlinear_arith)
        requires
            at == device * n + address,
            0 <= device < udids.len(),
            0 <= address < n,
    ;
    vstd::arithmetic::div_mod::lemma_fundamental_div_mod_converse(at, n, device, address);
}

/// Each property list of a pairing directory stands for the device that it is named after, in the
/// order of the files. The host's own and files of other kinds stand for none.
pub proof fn pairing_directories_list_their_devices(
    front: Seq<Seq<char>>,
    name: Seq<char>,
    back: Seq<Seq<char>>,
    udid: Seq<char>,
)
    ensures
        udids_of_files(front + seq![name] + back) == udids_of_files(front) + udids_of_files(
            seq![name],
        ) + udids_of_files(back),
        name == udid + ".plist"@ && udid != "SystemConfiguration"@ ==> udids_of_files(seq![name])
            == seq![udid],
        name == "SystemConfiguration.plist"@ ==> udids_of_files(seq![name]).len() == 0,
        name.len() < 6 || name.skip(name.len() - 6) != ".plist"@ ==> udids_of_files(
            seq![name],
        ).len() == 0,
{
    lemma_udid_parts(front, seq![name]);
    lemma_udid_parts(front + seq![name], back);
    assert(seq![name].drop_last() =~= Seq::<Seq<char>>::empty());
    assert(udids_of_files(seq![name].drop_last()) == Seq::<Seq<char>>::empty());
    reveal_strlit(".plist");
    reveal_strlit("SystemConfiguration");
    reveal_strlit("SystemConfiguration.plist");
    assert("SystemConfiguration.plist"@ =~= "SystemConfiguration"@ + ".plist"@);
    if name == udid + ".plist"@ {
        assert(name.take(name.len() - 6) =~= udid);
        assert(name.skip(name.len() - 6) =~= ".plist"@);
        if udid != "SystemConfiguration"@ {
            pairing_records_are_found(udid);
            assert(udids_of_files(seq![name]) =~= seq![udid]);
        }
    }
    if name == "SystemConfiguration.plist"@ {
        assert(name.take(name.len() - 6) =~= "SystemConfiguration"@);
    }
    if udid_of_file(name) is Some {
        assert(name.skip(name.len() - 6) =~= ".plist"@);
    }
}

proof fn lemma_udid_parts(front: Seq<Seq<char>>, back: Seq<Seq<char>>)
    ensures
        udids_of_files(front + back) == udids_of_files(front) + udids_of_files(back),
    decreases back.len(),
{
    if back.len() == 0 {
        assert(front + back =~= front);
        assert(udids_of_files(front) + udids_of_files(back) =~= udids_of_files(front));
    } else {
        lemma_udid_parts(front, back.drop_last());
        assert((front + back).drop_last() =~= front + back.drop_last());
        assert((front + back).last() == back.last());
        assert(udids_of_files(front + back) =~= udids_of_files(front) + udids_of_files(back));
    }
}

/// An entry is the first with its key.
pub open spec fn is_field(entries: Seq<PlistEntry>, key: Seq<char>, at: int) -> bool {
    &&& 0 <= at < entries.len()
    &&& entries[at].key@ == key
    &&& forall|i: int| 0 <= i < at ==> (#[trigger] entries[i]).key@ != key
}

/// No entry has the key.
pub open spec fn lacks_field(entries: Seq<PlistEntry>, key: Seq<char>) -> bool {
    forall|i: int| 0 <= i < entries.len() ==> (#[trigger] entries[i]).key@ != key
}

/// The first entry with a key is the one that counts.
pub proof fn the_first_field_counts(entries: Seq<PlistEntry>, key: Seq<char>)
    ensures
        forall|at: int| #[trigger]
            is_field(entries, key, at) ==> field_of(entries, key) == Some(
                text::text_view(entries[at].text),
            ),
        lacks_field(entries, key) ==> field_of(entries, key) is None,
    decreases entries.len(),
{
    if entries.len() > 0 {
        let rest = entries.skip(1);
        the_first_field_counts(rest, key);
        assert forall|at: int| #[trigger] is_field(entries, key, at) implies field_of(entries, key)
            == Some(text::text_view(entries[at].text)) by {
            if at > 0 {
                assert(entries[0].key@ != key);
                assert forall|i: int| 0 <= i < at - 1 implies (#[trigger] rest[i]).key@ != key by {
                    assert(rest[i] == entries[i + 1]);
                }
                assert(is_field(rest, key, at - 1));
                assert(rest[at - 1] == entries[at]);
            }
        }
        if lacks_field(entries, key) {
            assert(entries[0].key@ != key);
            assert forall|i: int| 0 <= i < rest.len() implies (#[trigger] rest[i]).key@ != key by {
                assert(rest[i] == entries[i + 1]);
            }
        }
    }
}

/// An app on a device is shown under its display name, else its bundle name, else its identifier,
/// with its short version, else its bundle version. A dictionary without an identifier is no app.
pub proof fn apps_are_shown_by_their_names(
    summary: InstalledAppSummary,
    entries: Seq<PlistEntry>,
    id: int,
    name: int,
    version: int,
)
    requires
        summarizes(summary, entries),
        is_field(entries, "CFBundleIdentifier"@, id),
    ensures
        text::text_view(entries[id].text) == Some(summary.bundle_id@),
        is_field(entries, "CFBundleDisplayName"@, name) && entries[name].text is Some
            ==> summary.display_name@ == entries[name].text->0@,
        lacks_field(entries, "CFBundleDisplayName"@) && is_field(entries, "CFBundleName"@, name)
            && entries[name].text is Some ==> summary.display_name@ == entries[name].text->0@,
        lacks_field(entries, "CFBundleDisplayName"@) && lacks_field(entries, "CFBundleName"@)
            ==> summary.display_name@ == summary.bundle_id@,
        is_field(entries, "CFBundleShortVersionString"@, version) && entries[version].text is Some
            ==> summary.version@ == entries[version].text->0@,
        lacks_field(entries, "CFBundleShortVersionString"@) && is_field(
            entries,
            "CFBundleVersion"@,
            version,
        ) && entries[version].text is Some ==> summary.version@ == entries[version].text->0@,
        lacks_field(entries, "CFBundleShortVersionString"@) && lacks_field(
            entries,
            "CFBundleVersion"@,
        ) ==> summary.version@ == "—"@,
{
    the_first_field_counts(entries, "CFBundleIdentifier"@);
    the_first_field_counts(entries, "CFBundleDisplayName"@);
    the_first_field_counts(entries, "CFBundleName"@);
    the_first_field_counts(entries, "CFBundleShortVersionString"@);
    the_first_field_counts(entries, "CFBundleVersion"@);
}

/// A dictionary is an app exactly where the first entry for the identifier holds a string.
pub proof fn apps_have_identifiers(entries: Seq<PlistEntry>, id: int)
    ensures
        is_field(entries, "CFBundleIdentifier"@, id) ==> describes_app(entries)
            == entries[id].text is Some,
        lacks_field(entries, "CFBundleIdentifier"@) ==> !describes_app(entries),
{
    the_first_field_counts(entries, "CFBundleIdentifier"@);
}

/// An app whose installed identifier is known is managed under that identifier and no other. One
/// of which only the identifier of its IPA is known is managed under that, under every identifier
/// that extends it behind a dot, and under no other.
pub proof fn managed_apps_are_known_by_their_identifiers(
    identity: ManagedAppIdentity,
    bundle_id: Seq<char>,
    tail: Seq<char>,
)
    ensures
        identity.installed_bundle_id matches Some(installed) ==> (is_managed(
            bundle_id,
            seq![identity],
        ) <==> bundle_id == installed@),
        identity.installed_bundle_id is None && identity.source_bundle_id is Some ==> {
            let source = identity.source_bundle_id->0@;
            &&& is_managed(source, seq![identity])
            &&& is_managed(source + "."@ + tail, seq![identity])
            &&& tail.len() > 0 && tail[0] != '.' ==> !is_managed(source + tail, seq![identity])
            &&& bundle_id.len() < source.len() ==> !is_managed(bundle_id, seq![identity])
            &&& bundle_id.len() >= source.len() && bundle_id.take(source.len() as int) != source
                ==> !is_managed(bundle_id, seq![identity])
        },
        identity.installed_bundle_id is None && identity.source_bundle_id is None ==> !is_managed(
            bundle_id,
            seq![identity],
        ),
{
    let identities = seq![identity];
    assert(identities[0] == identity);
    assert(is_managed(bundle_id, identities) == identifies(identities[0], bundle_id));
    if identity.installed_bundle_id is None && identity.source_bundle_id is Some {
        let source = identity.source_bundle_id->0@;
        reveal_strlit(".");
        assert("."@[0] == '.');
        let extended = source + "."@ + tail;
        assert(extended.take(source.len() as int) =~= source);
        assert(extended[source.len() as int] == '.');
        assert(identifies(identities[0], source));
        assert(identifies(identities[0], extended)) by {
            assert(text::begins_with(extended, source));
        }
        if tail.len() > 0 && tail[0] != '.' {
            let other = source + tail;
            assert(other.len() > source.len());
            assert(other[source.len() as int] == tail[0]);
            assert(!identifies(identity, other));
        }
        if bundle_id.len() >= source.len() && bundle_id.take(source.len() as int) != source {
            assert(source.take(source.len() as int) =~= source);
            assert(!text::begins_with(bundle_id, source)) by {
                if text::begins_with(bundle_id, source) {
                    assert(bundle_id.take(source.len() as int) =~= source);
                }
            }
        }
    }
}

/// An app is managed where one of the identities stands for it, wherever that stands.
pub proof fn any_identity_manages(
    bundle_id: Seq<char>,
    front: Seq<ManagedAppIdentity>,
    identity: ManagedAppIdentity,
    back: Seq<ManagedAppIdentity>,
)
    ensures
        is_managed(bundle_id, front + seq![identity] + back) <==> is_managed(bundle_id, front)
            || is_managed(bundle_id, seq![identity]) || is_managed(bundle_id, back),
        !is_managed(bundle_id, Seq::empty()),
{
    let all = front + seq![identity] + back;
    assert(forall|i: int| 0 <= i < front.len() ==> #[trigger] all[i] == front[i]);
    assert(all[front.len() as int] == identity);
    assert(seq![identity][0] == identity);
    assert(forall|i: int|
        0 <= i < back.len() ==> all[front.len() as int + 1 + i] == #[trigger] back[i]);
    if is_managed(bundle_id, all) {
        let i = choose|i: int| 0 <= i < all.len() && identifies(#[trigger] all[i], bundle_id);
        if i < front.len() {
            assert(identifies(front[i], bundle_id));
        } else if i > front.len() {
            assert(identifies(back[i - front.len() as int - 1], bundle_id));
        }
    }
    if is_managed(bundle_id, back) {
        let i = choose|i: int| 0 <= i < back.len() && identifies(#[trigger] back[i], bundle_id);
        assert(identifies(all[front.len() as int + 1 + i], bundle_id));
    }
    if is_managed(bundle_id, front) {
        let i = choose|i: int| 0 <= i < front.len() && identifies(#[trigger] front[i], bundle_id);
        assert(identifies(all[i], bundle_id));
    }
}

/// The apps are listed by their names.
pub proof fn apps_are_listed_by_name(apps: Seq<InstalledAppSummary>, i: int, j: int)
    requires
        0 <= i < j < apps.len(),
    ensures
        sorting::stable_sorted(apps).len() == apps.len(),
        sorting::stable_sorted(apps)[i].display_name@ == sorting::stable_sorted(
            apps,
        )[j].display_name@ || text::text_less(
            sorting::stable_sorted(apps)[i].display_name@,
            sorting::stable_sorted(apps)[j].display_name@,
        ),
{
    sorting::sorting_orders(apps);
    sorting::sorting_keeps_values(apps);
    let sorted = sorting::stable_sorted(apps);
    assert(!sorted[j].precedes(sorted[i]));
    text::text_order_is_total(sorted[i].display_name@, sorted[j].display_name@);
}

/// The views of candidates are their UDIDs and addresses, one for one.
pub proof fn views_are_the_candidates(candidates: Seq<Candidate>, at: int)
    ensures
        candidate_views(candidates).len() == candidates.len(),
        0 <= at < candidates.len() ==> candidate_views(candidates)[at] == (
            candidates[at].udid@,
            candidates[at].address@,
        ),
{
}

} // verus!

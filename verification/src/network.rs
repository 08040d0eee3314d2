//! Network addresses: those under which this host can be paired with, and those under which a
//! paired device is reached.
use vstd::prelude::*;

use crate::sorting;
use crate::sorting::Ranked;
use crate::stages;
use crate::stages::{RsdProbeFailure, RsdProbeStage};
use crate::text;
use idevice::remote_pairing::PeerDevice;

verus! {

/// The number that an address is.
#[derive(Debug, Clone, Copy, PartialEq, Eq, Structural)]
pub enum AddressBits {
    V4(u32),
    V6(u128),
}

/// A network address, with the text that it is written as.
#[derive(Debug)]
pub struct NetworkAddress {
    pub bits: AddressBits,
    pub text: String,
}

impl AddressBits {
    /// Whether the address is one of version 4.
    pub open spec fn is_version_four(self) -> bool {
        self is V4
    }

    /// Whether the address is one of version 4.
    pub fn is_ipv4(self) -> (result: bool)
        ensures
            result == self.is_version_four(),
    {
        match self {
            AddressBits::V4(_) => true,
            AddressBits::V6(_) => false,
        }
    }

    /// The name of the address's family.
    pub open spec fn family(self) -> &'static str {
        if self.is_version_four() {
            "ipv4"
        } else {
            "ipv6"
        }
    }

    /// The name of the address's family.
    pub fn address_family(self) -> (family: &'static str)
        ensures
            family == self.family(),
    {
        if self.is_ipv4() {
            "ipv4"
        } else {
            "ipv6"
        }
    }

    /// Whether the address leads back to this host: 127.0.0.0/8 and ::1.
    pub open spec fn loops_back(self) -> bool {
        match self {
            AddressBits::V4(bits) => 0x7f00_0000 <= bits <= 0x7fff_ffff,
            AddressBits::V6(bits) => bits == 1,
        }
    }

    /// Whether the address is 0.0.0.0 or ::.
    pub open spec fn is_open(self) -> bool {
        match self {
            AddressBits::V4(bits) => bits == 0,
            AddressBits::V6(bits) => bits == 0,
        }
    }

    /// Whether the address belongs to a local network: a private one (10.0.0.0/8, 172.16.0.0/12,
    /// 192.168.0.0/16, fc00::/7) or a link-local one (169.254.0.0/16, fe80::/10).
    pub open spec fn is_local(self) -> bool {
        match self {
            AddressBits::V4(bits) => {
                ||| 0x0a00_0000 <= bits <= 0x0aff_ffff
                ||| 0xac10_0000 <= bits <= 0xac1f_ffff
                ||| 0xc0a8_0000 <= bits <= 0xc0a8_ffff
                ||| 0xa9fe_0000 <= bits <= 0xa9fe_ffff
            },
            AddressBits::V6(bits) => {
                ||| 0xfc00_0000_0000_0000_0000_0000_0000_0000 <= bits
                    < 0xfe00_0000_0000_0000_0000_0000_0000_0000
                ||| 0xfe80_0000_0000_0000_0000_0000_0000_0000 <= bits
                    < 0xfec0_0000_0000_0000_0000_0000_0000_0000
            },
        }
    }

    fn is_loopback(self) -> (result: bool)
        ensures
            result == self.loops_back(),
    {
        match self {
            AddressBits::V4(bits) => 0x7f00_0000 <= bits && bits <= 0x7fff_ffff,
            AddressBits::V6(bits) => bits == 1,
        }
    }

    fn is_unspecified(self) -> (result: bool)
        ensures
            result == self.is_open(),
    {
        match self {
            AddressBits::V4(bits) => bits == 0,
            AddressBits::V6(bits) => bits == 0,
        }
    }

    /// Whether the address may be used where no interface was chosen.
    pub fn is_safe_default_address(self) -> (result: bool)
        ensures
            result == self.is_local(),
    {
        match self {
            AddressBits::V4(bits) => (0x0a00_0000 <= bits && bits <= 0x0aff_ffff) || (0xac10_0000
                <= bits && bits <= 0xac1f_ffff) || (0xc0a8_0000 <= bits && bits <= 0xc0a8_ffff) || (
            0xa9fe_0000 <= bits && bits <= 0xa9fe_ffff),
            AddressBits::V6(bits) => (0xfc00_0000_0000_0000_0000_0000_0000_0000 <= bits && bits
                < 0xfe00_0000_0000_0000_0000_0000_0000_0000) || (
            0xfe80_0000_0000_0000_0000_0000_0000_0000 <= bits && bits
                < 0xfec0_0000_0000_0000_0000_0000_0000_0000),
        }
    }
}

impl NetworkAddress {
    /// What an address is sorted by: addresses of version 4 come first, and each family is in the
    /// order of the texts.
    pub open spec fn key(self) -> Seq<char> {
        seq![
            if self.bits.is_version_four() {
                '4'
            } else {
                '6'
            },
        ] + self.text@
    }
}

impl Ranked for NetworkAddress {
    open spec fn precedes(self, other: Self) -> bool {
        text::text_less(self.key(), other.key())
    }

    proof fn precedence_is_asymmetric(a: Self, b: Self) {
        text::text_order_is_asymmetric(a.key(), b.key());
    }

    proof fn precedence_is_transitive(a: Self, b: Self, c: Self) {
        text::text_at_most_is_transitive(a.key(), b.key(), c.key());
    }

    fn comes_first(&self, other: &Self) -> (before: bool) {
        proof {
            assert(self.key().skip(1) == self.text@);
            assert(other.key().skip(1) == other.text@);
        }
        let first: bool = self.bits.is_ipv4();
        if first != other.bits.is_ipv4() {
            first
        } else {
            text::comes_before(self.text.as_str(), other.text.as_str())
        }
    }
}

/// An address of one of this host's interfaces.
#[derive(Debug)]
pub struct InterfaceAddress {
    pub name: String,
    pub address: NetworkAddress,
}

/// Whether this host can be paired with under an address: it is one of the chosen interface, or,
/// where none was chosen, a local one.
pub open spec fn is_usable(entry: InterfaceAddress, interface: Option<Seq<char>>) -> bool {
    &&& interface matches Some(name) ==> entry.name@ == name
    &&& !entry.address.bits.loops_back()
    &&& !entry.address.bits.is_open()
    &&& interface is None ==> entry.address.bits.is_local()
}

/// The usable addresses of the interfaces, in their order.
pub open spec fn usable(
    entries: Seq<InterfaceAddress>,
    interface: Option<Seq<char>>,
) -> Seq<NetworkAddress> {
    entries.filter(|entry: InterfaceAddress| is_usable(entry, interface)).map_values(
        |entry: InterfaceAddress| entry.address,
    )
}

/// The first address of each family, in the order in which the families occur.
pub open spec fn one_per_family(addresses: Seq<NetworkAddress>) -> Seq<NetworkAddress>
    decreases addresses.len(),
{
    if addresses.len() == 0 {
        addresses
    } else {
        let before = one_per_family(addresses.drop_last());
        if exists|i: int|
            0 <= i < before.len() && (#[trigger] before[i]).bits.is_version_four()
                == addresses.last().bits.is_version_four() {
            before
        } else {
            before.push(addresses.last())
        }
    }
}

fn usable_addresses(entries: Vec<InterfaceAddress>, interface: Option<&str>) -> (addresses: Vec<
    NetworkAddress,
>)
    ensures
        addresses@ == usable(entries@, text::str_view(interface)),
{
    let ghost all = entries@;
    let ghost chosen = text::str_view(interface);
    let ghost keep = |entry: InterfaceAddress| is_usable(entry, chosen);
    let mut addresses: Vec<NetworkAddress> = Vec::new();
    let mut entries: Vec<InterfaceAddress> = entries;
    let ghost mut done: int = 0;
    proof {
        reveal(Seq::filter);
        assert(all.skip(0) == all);
        assert(usable(all.take(0), chosen) == Seq::<NetworkAddress>::empty());
    }
    while entries.len() > 0
        invariant
            0 <= done <= all.len(),
            chosen == text::str_view(interface),
            keep == (|entry: InterfaceAddress| is_usable(entry, chosen)),
            entries@ == all.skip(done),
            addresses@ == usable(all.take(done), chosen),
        decreases entries.len(),
    {
        let ghost before = all.take(done);
        let ghost more = all.take(done + 1);
        let entry: InterfaceAddress = entries.remove(0);
        proof {
            assert(entry == all[done]);
            assert(more.drop_last() == before && more.last() == entry);
            reveal(Seq::filter);
            let address = |entry: InterfaceAddress| entry.address;
            assert(more.filter(keep) == if keep(entry) {
                before.filter(keep).push(entry)
            } else {
                before.filter(keep)
            });
            assert(before.filter(keep).push(entry).map_values(address) == before.filter(
                keep,
            ).map_values(address).push(entry.address));
            assert(entries@ == all.skip(done + 1));
            done = done + 1;
        }
        let named: bool = match interface {
            Some(name) => text::same_text(entry.name.as_str(), name),
            None => entry.address.bits.is_safe_default_address(),
        };
        if named && !entry.address.bits.is_loopback() && !entry.address.bits.is_unspecified() {
            addresses.push(entry.address);
        }
    }
    proof {
        assert(all.take(done) == all);
    }
    addresses
}

fn first_of_each_family(addresses: Vec<NetworkAddress>) -> (selected: Vec<NetworkAddress>)
    ensures
        selected@ == one_per_family(addresses@),
{
    let ghost all = addresses@;
    let mut addresses: Vec<NetworkAddress> = addresses;
    let mut selected: Vec<NetworkAddress> = Vec::new();
    let ghost mut done: int = 0;
    proof {
        assert(all.skip(0) == all);
        assert(one_per_family(all.take(0)) == Seq::<NetworkAddress>::empty());
    }
    while addresses.len() > 0
        invariant
            0 <= done <= all.len(),
            addresses@ == all.skip(done),
            selected@ == one_per_family(all.take(done)),
        decreases addresses.len(),
    {
        let address: NetworkAddress = addresses.remove(0);
        proof {
            assert(address == all[done]);
            assert(all.take(done + 1).drop_last() == all.take(done));
            assert(all.take(done + 1).last() == address);
            assert(addresses@ == all.skip(done + 1));
            done = done + 1;
        }
        let mut known: bool = false;
        let mut i: usize = 0;
        while i < selected.len()
            invariant
                i <= selected.len(),
                known == exists|j: int|
                    0 <= j < i && (#[trigger] selected@[j]).bits.is_version_four()
                        == address.bits.is_version_four(),
            decreases selected.len() - i,
        {
            if selected[i].bits.is_ipv4() == address.bits.is_ipv4() {
                known = true;
            }
            i = i + 1;
        }
        if !known {
            selected.push(address);
        }
    }
    proof {
        assert(all.take(done) == all);
    }
    selected
}

/// The addresses under which this host can be paired with: of the usable ones, sorted, the first of
/// each family. Nothing where there is none.
pub fn pairing_addresses(
    entries: Vec<InterfaceAddress>,
    interface: Option<&str>,
) -> (selected: Option<Vec<NetworkAddress>>)
    ensures
        match selected {
            Some(selected) => {
                &&& selected@.len() > 0
                &&& selected@ == one_per_family(
                    sorting::stable_sorted(usable(entries@, text::str_view(interface))),
                )
            },
            None => usable(entries@, text::str_view(interface)).len() == 0,
        },
{
    let addresses: Vec<NetworkAddress> = usable_addresses(entries, interface);
    let ghost all = addresses@;
    let selected: Vec<NetworkAddress> = first_of_each_family(sorting::sort(addresses));
    proof {
        sorting::sorting_keeps_values(all);
        families_are_found(sorting::stable_sorted(all));
    }
    if selected.len() == 0 {
        None
    } else {
        Some(selected)
    }
}

proof fn families_are_found(addresses: Seq<NetworkAddress>)
    ensures
        one_per_family(addresses).len() == 0 <==> addresses.len() == 0,
    decreases addresses.len(),
{
    if addresses.len() > 0 {
        families_are_found(addresses.drop_last());
    }
}

/// No more than one address of each family is chosen, and every chosen address is among those
/// given.
pub proof fn families_are_chosen_once(addresses: Seq<NetworkAddress>)
    ensures
        forall|i: int, j: int|
            0 <= i < j < one_per_family(addresses).len() ==> (#[trigger] one_per_family(
                addresses,
            )[i]).bits.is_version_four() != (#[trigger] one_per_family(
                addresses,
            )[j]).bits.is_version_four(),
        forall|i: int|
            0 <= i < one_per_family(addresses).len() ==> addresses.contains(
                #[trigger] one_per_family(addresses)[i],
            ),
    decreases addresses.len(),
{
    if addresses.len() > 0 {
        let before = one_per_family(addresses.drop_last());
        families_are_chosen_once(addresses.drop_last());
        assert forall|i: int| 0 <= i < one_per_family(addresses).len() implies addresses.contains(
            #[trigger] one_per_family(addresses)[i],
        ) by {
            if i < before.len() {
                let k = addresses.drop_last().index_of(before[i]);
                assert(addresses.drop_last().contains(before[i]));
                assert(addresses[k] == before[i]);
            } else {
                assert(addresses[addresses.len() - 1] == one_per_family(addresses)[i]);
            }
        }
    }
}

/// Whether an announced tag proves that its sender knows the key of a pairing.
pub uninterp spec fn auth_tag_valid(
    alt_irk: Seq<u8>,
    identifier: Seq<char>,
    auth_tag: Seq<char>,
) -> bool;

/// `validate_auth_tag` of `PeerDevice`: no tag is valid under a key that has not 16 bytes.
#[verifier::external_body]
fn validate_auth_tag(alt_irk: &[u8], identifier: &str, auth_tag: &str) -> (valid: bool)
    ensures
        valid == auth_tag_valid(alt_irk@, identifier@, auth_tag@),
        valid ==> alt_irk@.len() == 16,
{
    PeerDevice::validate_auth_tag(alt_irk, identifier, auth_tag)
}

/// Where a paired device can be reached.
#[derive(Debug)]
pub struct RemotePairingEndpoint {
    pub addresses: Vec<NetworkAddress>,
    pub port: u16,
}

/// The endpoint behind an announcement whose tag was checked, where it names a port and an
/// address: its addresses in their order.
pub fn announced_endpoint(
    valid: bool,
    addresses: Vec<NetworkAddress>,
    port: u16,
) -> (endpoint: Option<RemotePairingEndpoint>)
    ensures
        endpoint is Some == (valid && port != 0 && addresses@.len() > 0),
        endpoint matches Some(endpoint) ==> endpoint.port == port && endpoint.addresses@
            == sorting::stable_sorted(addresses@),
{
    if port == 0 || addresses.len() == 0 || !valid {
        return None;
    }
    Some(RemotePairingEndpoint { addresses: sorting::sort(addresses), port })
}

/// The endpoint behind an announcement, where its tag is valid under the key of the pairing and it
/// names a port and an address.
pub fn authenticated_remote_pairing_endpoint(
    alt_irk: &[u8],
    identifier: &str,
    auth_tag: &str,
    addresses: Vec<NetworkAddress>,
    port: u16,
) -> (endpoint: Option<RemotePairingEndpoint>)
    ensures
        endpoint is Some == (auth_tag_valid(alt_irk@, identifier@, auth_tag@) && port != 0
            && addresses@.len() > 0),
        endpoint is Some ==> alt_irk@.len() == 16,
        endpoint matches Some(endpoint) ==> endpoint.port == port && endpoint.addresses@
            == sorting::stable_sorted(addresses@),
{
    let valid: bool = validate_auth_tag(alt_irk, identifier, auth_tag);
    announced_endpoint(valid, addresses, port)
}

/// The numbers of the addresses of an endpoint.
pub open spec fn address_bits(addresses: Seq<NetworkAddress>) -> Seq<AddressBits> {
    addresses.map_values(|address: NetworkAddress| address.bits)
}

/// Two endpoints with the same port and the same addresses.
pub open spec fn same_endpoint(a: RemotePairingEndpoint, b: RemotePairingEndpoint) -> bool {
    a.port == b.port && address_bits(a.addresses@) == address_bits(b.addresses@)
}

fn is_same_endpoint(a: &RemotePairingEndpoint, b: &RemotePairingEndpoint) -> (same: bool)
    ensures
        same == same_endpoint(*a, *b),
{
    let ghost left = address_bits(a.addresses@);
    let ghost right = address_bits(b.addresses@);
    if a.port != b.port || a.addresses.len() != b.addresses.len() {
        proof {
            assert(left.len() == a.addresses@.len() && right.len() == b.addresses@.len());
        }
        return false;
    }
    let mut i: usize = 0;
    while i < a.addresses.len()
        invariant
            i <= a.addresses.len(),
            a.port == b.port,
            a.addresses.len() == b.addresses.len(),
            left == address_bits(a.addresses@),
            right == address_bits(b.addresses@),
            forall|j: int| 0 <= j < i ==> left[j] == right[j],
        decreases a.addresses.len() - i,
    {
        if a.addresses[i].bits != b.addresses[i].bits {
            proof {
                assert(left[i as int] != right[i as int]);
            }
            return false;
        }
        i = i + 1;
    }
    proof {
        assert(left == right);
    }
    true
}

/// Adds a discovered endpoint to those that are known, where it is not among them.
pub fn add_endpoint(endpoints: &mut Vec<RemotePairingEndpoint>, endpoint: RemotePairingEndpoint)
    ensures
        final(endpoints)@ == if exists|i: int|
            0 <= i < old(endpoints)@.len() && same_endpoint(
                #[trigger] old(endpoints)@[i],
                endpoint,
            ) {
            old(endpoints)@
        } else {
            old(endpoints)@.push(endpoint)
        },
{
    let mut i: usize = 0;
    while i < endpoints.len()
        invariant
            i <= endpoints.len(),
            endpoints@ == old(endpoints)@,
            forall|j: int| 0 <= j < i ==> !same_endpoint(#[trigger] endpoints@[j], endpoint),
        decreases endpoints.len() - i,
    {
        if is_same_endpoint(&endpoints[i], &endpoint) {
            return;
        }
        i = i + 1;
    }
    endpoints.push(endpoint);
}

/// A service that was found on the network, with what it announces of itself.
#[derive(Debug)]
pub struct ResolvedService {
    pub identifier: Option<String>,
    pub auth_tag: Option<String>,
    pub addresses: Vec<NetworkAddress>,
    pub port: u16,
}

/// The service is the paired device: it announces an identifier, a tag that is valid under the key of
/// the pairing, a port and an address.
pub open spec fn is_paired_device(service: ResolvedService, alt_irk: Seq<u8>) -> bool {
    &&& service.identifier is Some
    &&& service.auth_tag is Some
    &&& auth_tag_valid(alt_irk, service.identifier->0@, service.auth_tag->0@)
    &&& service.port != 0
    &&& service.addresses@.len() > 0
}

/// An endpoint leads to a service.
pub open spec fn leads_to(endpoint: RemotePairingEndpoint, service: ResolvedService) -> bool {
    endpoint.port == service.port && endpoint.addresses@ == sorting::stable_sorted(
        service.addresses@,
    )
}

/// Adds the endpoint of a service that was found to those that are known, where the service is the
/// paired device and the endpoint is not among them.
pub fn hear_service(
    endpoints: &mut Vec<RemotePairingEndpoint>,
    alt_irk: &[u8],
    service: ResolvedService,
)
    ensures
        !is_paired_device(service, alt_irk@) ==> final(endpoints)@ == old(endpoints)@,
        is_paired_device(service, alt_irk@) ==> exists|endpoint: RemotePairingEndpoint|
            #[trigger] leads_to(endpoint, service) && final(endpoints)@ == if exists|i: int|
                0 <= i < old(endpoints)@.len() && same_endpoint(
                    #[trigger] old(endpoints)@[i],
                    endpoint,
                ) {
                old(endpoints)@
            } else {
                old(endpoints)@.push(endpoint)
            },
{
    let ghost heard = service;
    match (service.identifier, service.auth_tag) {
        (Some(identifier), Some(auth_tag)) => {
            match authenticated_remote_pairing_endpoint(
                alt_irk,
                identifier.as_str(),
                auth_tag.as_str(),
                service.addresses,
                service.port,
            ) {
                Some(endpoint) => {
                    proof {
                        assert(leads_to(endpoint, heard));
                    }
                    add_endpoint(endpoints, endpoint);
                },
                None => {},
            }
        },
        _ => {},
    }
}

/// The endpoints that were found; without one the device cannot be reached.
pub fn found_endpoints(endpoints: Vec<RemotePairingEndpoint>) -> (found: Result<
    Vec<RemotePairingEndpoint>,
    RsdProbeFailure,
>)
    ensures
        found == if endpoints@.len() > 0 {
            Ok::<Vec<RemotePairingEndpoint>, RsdProbeFailure>(endpoints)
        } else {
            Err::<Vec<RemotePairingEndpoint>, RsdProbeFailure>(
                stages::sessionless(RsdProbeStage::Discovery),
            )
        },
{
    if endpoints.len() > 0 {
        Ok(endpoints)
    } else {
        Err(stages::probe_failure(RsdProbeStage::Discovery))
    }
}

/// One address of one endpoint, by their positions.
#[derive(Debug, Clone, Copy, PartialEq, Eq, Structural)]
pub struct EndpointTarget {
    pub candidate: usize,
    pub address: usize,
}

/// The addresses of all endpoints, endpoint by endpoint.
pub open spec fn targets(endpoints: Seq<RemotePairingEndpoint>) -> Seq<EndpointTarget>
    decreases endpoints.len(),
{
    if endpoints.len() == 0 {
        Seq::empty()
    } else {
        targets(endpoints.drop_last()) + Seq::new(
            endpoints.last().addresses@.len(),
            |i: int|
                EndpointTarget {
                    candidate: (endpoints.len() - 1) as usize,
                    address: i as usize,
                },
        )
    }
}

/// The addresses of all endpoints, endpoint by endpoint.
pub fn endpoint_targets(endpoints: &Vec<RemotePairingEndpoint>) -> (found: Vec<EndpointTarget>)
    ensures
        found@ == targets(endpoints@),
{
    let mut found: Vec<EndpointTarget> = Vec::new();
    let mut candidate: usize = 0;
    while candidate < endpoints.len()
        invariant
            candidate <= endpoints.len(),
            found@ == targets(endpoints@.take(candidate as int)),
        decreases endpoints.len() - candidate,
    {
        let ghost seen = endpoints@.take(candidate as int);
        let ghost more = endpoints@.take(candidate + 1);
        let mut address: usize = 0;
        while address < endpoints[candidate as usize].addresses.len()
            invariant
                candidate < endpoints.len(),
                address <= endpoints@[candidate as int].addresses.len(),
                found@ == targets(seen) + Seq::new(
                    address as nat,
                    |i: int| EndpointTarget { candidate, address: i as usize },
                ),
            decreases endpoints@[candidate as int].addresses.len() - address,
        {
            found.push(EndpointTarget { candidate, address });
            proof {
                assert(found@ == targets(seen) + Seq::new(
                    (address + 1) as nat,
                    |i: int| EndpointTarget { candidate, address: i as usize },
                ));
            }
            address = address + 1;
        }
        proof {
            assert(more.drop_last() == seen);
            assert(more.last() == endpoints@[candidate as int]);
            assert(found@ == targets(more));
        }
        candidate = candidate + 1;
    }
    proof {
        assert(endpoints@.take(candidate as int) == endpoints@);
    }
    found
}

/// The service type under which paired devices announce themselves.
pub const REMOTE_PAIRING_SERVICE_TYPE: &'static str = "_remotepairing._tcp.local.";

/// The most characters that the name of a service type may have.
pub const MDNS_SERVICE_NAME_LIMIT: u8 = 30;

/// The time in which an announcement has to be made, in nanoseconds.
pub const ANNOUNCE_TIME: u64 = 5_000_000_000;

/// What is heard of an announcement.
#[derive(Debug)]
pub enum AnnounceEvent {
    /// A service was announced under this name.
    Announced(String),
    /// Announcing failed, or nothing more will be heard in time.
    Failed,
    /// Anything else.
    Other,
}

/// Where an announcement stands.
#[derive(Debug, Clone, Copy, PartialEq, Eq, Structural)]
pub enum Announcement {
    Waiting,
    Made,
    Failed,
}

/// Where an announcement stands after what was heard. Names are the same whatever the case of
/// their letters.
pub open spec fn heard(event: AnnounceEvent, name: Seq<char>) -> Announcement {
    match event {
        AnnounceEvent::Announced(announced) => if text::lowered(announced@) == text::lowered(name) {
            Announcement::Made
        } else {
            Announcement::Waiting
        },
        AnnounceEvent::Failed => Announcement::Failed,
        AnnounceEvent::Other => Announcement::Waiting,
    }
}

/// Where an announcement stands after what was heard.
pub fn hear_announcement(event: &AnnounceEvent, name: &str) -> (announcement: Announcement)
    ensures
        announcement == heard(*event, name@),
{
    match event {
        AnnounceEvent::Announced(announced) => {
            let left: Vec<char> = text::lowercase(announced.as_str());
            let right: Vec<char> = text::lowercase(name);
            if left.len() == right.len() && text::part_at(&left, &right, 0) {
                proof {
                    assert(left@.subrange(0, right@.len() as int) == left@);
                }
                Announcement::Made
            } else {
                proof {
                    assert(left@ == right@ ==> left@.subrange(0, right@.len() as int) == right@);
                }
                Announcement::Waiting
            }
        },
        AnnounceEvent::Failed => Announcement::Failed,
        AnnounceEvent::Other => Announcement::Waiting,
    }
}

/// A text without any repetition of a suffix at its end.
pub open spec fn without_suffixes(text: Seq<char>, suffix: Seq<char>) -> Seq<char>
    decreases text.len(),
{
    if suffix.len() > 0 && text::finishes_with(text, suffix) {
        without_suffixes(text.take(text.len() - suffix.len()), suffix)
    } else {
        text
    }
}

/// The character that stands for another in a host name.
pub open spec fn host_character(c: char) -> char {
    if text::is_ascii_letter(c) || text::is_ascii_digit(c) || c == '-' {
        text::ascii_lower(c)
    } else {
        '-'
    }
}

/// The name of this host on the local network.
pub open spec fn hostname(raw: Option<Seq<char>>) -> Seq<char> {
    let name = match raw {
        Some(name) => name,
        None => "iPhoneLoadly"@,
    };
    let plain = without_suffixes(text::trimmed(name), ".local"@).map_values(
        |c: char| host_character(c),
    );
    if plain.len() == 0 {
        "iphoneloadly"@ + ".local."@
    } else {
        plain + ".local."@
    }
}

fn is_host_character(c: char) -> (result: bool)
    ensures
        result == (text::is_ascii_letter(c) || text::is_ascii_digit(c) || c == '-'),
{
    ('a' <= c && c <= 'z') || ('A' <= c && c <= 'Z') || ('0' <= c && c <= '9') || c == '-'
}

/// The name of this host on the local network, from the name that its environment gives.
pub fn local_hostname(raw: Option<&str>) -> (name: String)
    ensures
        name@ == hostname(text::str_view(raw)),
{
    let given: &str = match raw {
        Some(name) => name,
        None => "iPhoneLoadly",
    };
    let chars: Vec<char> = text::chars_of(text::trim(given));
    let suffix: Vec<char> = text::chars_of(".local");
    let mut end: usize = chars.len();
    proof {
        reveal_strlit(".local");
        assert(chars@.take(end as int) == chars@);
    }
    while end >= suffix.len() && text::part_at(&chars, &suffix, end - suffix.len())
        invariant
            end <= chars.len(),
            suffix@ == ".local"@,
            suffix@.len() == 6,
            without_suffixes(chars@, ".local"@) == without_suffixes(
                chars@.take(end as int),
                ".local"@,
            ),
        decreases end,
    {
        proof {
            let text = chars@.take(end as int);
            assert(text.subrange(end - 6, end as int) == chars@.subrange(end - 6, end as int));
            assert(text.take(end - 6) == chars@.take(end - 6));
        }
        end = end - suffix.len();
    }
    let ghost text = chars@.take(end as int);
    proof {
        if text::finishes_with(text, ".local"@) {
            assert(text.subrange(end - 6, end as int) == chars@.subrange(end - 6, end as int));
        }
        assert(without_suffixes(text, ".local"@) == text);
    }
    let mut name: String = String::new();
    let mut i: usize = 0;
    let ghost plain = text.map_values(|c: char| host_character(c));
    while i < end
        invariant
            i <= end <= chars.len(),
            text == chars@.take(end as int),
            plain == text.map_values(|c: char| host_character(c)),
            name@ == plain.take(i as int),
        decreases end - i,
    {
        let c: char = chars[i];
        if is_host_character(c) {
            name.push(text::lower_char(c));
        } else {
            name.push('-');
        }
        proof {
            assert(text[i as int] == c);
            assert(plain.take(i + 1) == plain.take(i as int).push(host_character(c)));
        }
        i = i + 1;
    }
    proof {
        assert(plain.take(end as int) == plain);
    }
    if end == 0 {
        name.append("iphoneloadly");
    }
    name.append(".local.");
    proof {
        assert(end == 0 ==> plain + "iphoneloadly"@ == "iphoneloadly"@);
    }
    name
}

/// The addresses of version 4 by their four numbers: 127.x.x.x leads back to this host, 0.0.0.0 is
/// open, and local are 10.x.x.x, 172.16.x.x to 172.31.x.x, 192.168.x.x and 169.254.x.x.
pub proof fn four_numbers_tell_an_address(bits: u32, a: int, b: int, c: int, d: int)
    requires
        0 <= a < 256,
        0 <= b < 256,
        0 <= c < 256,
        0 <= d < 256,
        bits == a * 16_777_216 + b * 65_536 + c * 256 + d,
    ensures
        AddressBits::V4(bits).loops_back() <==> a == 127,
        AddressBits::V4(bits).is_open() <==> a == 0 && b == 0 && c == 0 && d == 0,
        AddressBits::V4(bits).is_local() <==> a == 10 || a == 172 && 16 <= b <= 31 || a == 192 && b
            == 168 || a == 169 && b == 254,
        AddressBits::V4(bits).is_version_four(),
        AddressBits::V4(bits).family()@ == "ipv4"@,
{
}

/// The addresses of version 6 by their first group and the rest: ::1 leads back to this host, :: is
/// open, and local are those from fc00 to fdff and from fe80 to febf.
pub proof fn the_first_group_tells_an_address(bits: u128, group: int, rest: int)
    requires
        0 <= group < 0x1_0000,
        0 <= rest < 0x1_0000_0000_0000_0000_0000_0000_0000,
        bits == group * 0x1_0000_0000_0000_0000_0000_0000_0000 + rest,
    ensures
        AddressBits::V6(bits).loops_back() <==> group == 0 && rest == 1,
        AddressBits::V6(bits).is_open() <==> group == 0 && rest == 0,
        AddressBits::V6(bits).is_local() <==> 0xfc00 <= group <= 0xfdff || 0xfe80 <= group
            <= 0xfebf,
        !AddressBits::V6(bits).is_version_four(),
        AddressBits::V6(bits).family()@ == "ipv6"@,
{
}

/// Addresses of version 4 come before those of version 6, and those of one version are in the
/// order of their texts.
pub proof fn version_four_comes_first(a: NetworkAddress, b: NetworkAddress)
    ensures
        a.bits is V4 && b.bits is V6 ==> a.precedes(b) && !b.precedes(a),
        a.bits is V4 == b.bits is V4 ==> a.precedes(b) == text::text_less(a.text@, b.text@),
{
    assert(a.key().skip(1) =~= a.text@);
    assert(b.key().skip(1) =~= b.text@);
}

/// Without a chosen interface the local addresses of this host are usable, and no others. Of a
/// chosen interface every address is usable that neither leads back to this host nor is open, and
/// none of another interface.
pub proof fn usable_addresses_are_local_or_chosen(
    entries: Seq<InterfaceAddress>,
    interface: Option<Seq<char>>,
    at: int,
)
    requires
        0 <= at < entries.len(),
    ensures
        interface is None && entries[at].address.bits.is_local() ==> usable(
            entries,
            interface,
        ).contains(entries[at].address),
        interface matches Some(name) ==> entries[at].name@ == name
            && !entries[at].address.bits.loops_back() && !entries[at].address.bits.is_open()
            ==> usable(entries, interface).contains(entries[at].address),
        forall|k: int|
            0 <= k < usable(entries, interface).len() ==> {
                let address = #[trigger] usable(entries, interface)[k];
                &&& !address.bits.loops_back()
                &&& !address.bits.is_open()
                &&& interface is None ==> address.bits.is_local()
                &&& exists|i: int|
                    0 <= i < entries.len() && (#[trigger] entries[i]).address == address && (
                    interface is Some ==> entries[i].name@ == interface->0)
            },
{
    let keep = |entry: InterfaceAddress| is_usable(entry, interface);
    let left = entries.filter(keep);
    lemma_filter_holds(entries, keep);
    let entry = entries[at];
    if keep(entry) {
        let k = choose|k: int| 0 <= k < left.len() && left[k] == entry;
        assert(usable(entries, interface)[k] == entry.address);
    }
    assert forall|k: int| 0 <= k < usable(entries, interface).len() implies {
        let address = #[trigger] usable(entries, interface)[k];
        &&& !address.bits.loops_back()
        &&& !address.bits.is_open()
        &&& interface is None ==> address.bits.is_local()
        &&& exists|i: int|
            0 <= i < entries.len() && (#[trigger] entries[i]).address == address && (
            interface is Some ==> entries[i].name@ == interface->0)
    } by {
        assert(left.contains(left[k]));
        let i = choose|i: int| 0 <= i < entries.len() && entries[i] == left[k];
        assert(entries[i].address == usable(entries, interface)[k]);
    }
}

proof fn lemma_filter_holds<T>(items: Seq<T>, keep: spec_fn(T) -> bool)
    ensures
        forall|item: T|
            items.filter(keep).contains(item) <==> items.contains(item) && #[trigger] keep(item),
        forall|i: int|
            0 <= i < items.filter(keep).len() ==> keep(#[trigger] items.filter(keep)[i])
                && items.contains(items.filter(keep)[i]),
        forall|i: int|
            0 <= i < items.len() && keep(#[trigger] items[i]) ==> items.filter(keep).contains(
                items[i],
            ),
    decreases items.len(),
{
    reveal(Seq::filter);
    if items.len() > 0 {
        let rest = items.drop_last();
        lemma_filter_holds(rest, keep);
        let left = items.filter(keep);
        assert(items =~= rest.push(items.last()));
        assert forall|item: T| left.contains(item) <==> items.contains(item) && #[trigger] keep(
            item,
        ) by {
            if items.contains(item) && keep(item) {
                let i = choose|i: int| 0 <= i < items.len() && items[i] == item;
                if i < rest.len() {
                    assert(rest[i] == item);
                    assert(rest.filter(keep).contains(item));
                    let k = choose|k: int|
                        0 <= k < rest.filter(keep).len() && rest.filter(keep)[k] == item;
                    assert(left[k] == item);
                } else {
                    assert(left.last() == item);
                }
            }
            if left.contains(item) {
                let k = choose|k: int| 0 <= k < left.len() && left[k] == item;
                if k < rest.filter(keep).len() {
                    assert(rest.filter(keep)[k] == item);
                    assert(rest.filter(keep).contains(item));
                    let i = choose|i: int| 0 <= i < rest.len() && rest[i] == item;
                    assert(items[i] == item);
                } else {
                    assert(items[items.len() - 1] == item);
                }
            }
        }
        assert forall|i: int| 0 <= i < left.len() implies keep(#[trigger] left[i])
            && items.contains(left[i]) by {
            assert(left.contains(left[i]));
            let item = left[i];
            assert(left.contains(item) ==> items.contains(item) && keep(item)) by {
                if keep(item) {
                } else {
                    assert(!keep(item));
                }
            }
        }
        assert forall|i: int| 0 <= i < items.len() && keep(#[trigger] items[i]) implies
            left.contains(items[i]) by {
            assert(items.contains(items[i]));
        }
    }
}

/// The first address of its family is chosen, whatever addresses of the other family stand before
/// it.
pub proof fn the_first_of_a_family_is_chosen(addresses: Seq<NetworkAddress>, at: int)
    requires
        0 <= at < addresses.len(),
        forall|i: int|
            0 <= i < at ==> (#[trigger] addresses[i]).bits is V4 != addresses[at].bits is V4,
    ensures
        one_per_family(addresses).contains(addresses[at]),
    decreases addresses.len(),
{
    let rest = addresses.drop_last();
    let before = one_per_family(rest);
    if at < rest.len() {
        assert forall|i: int| 0 <= i < at implies (#[trigger] rest[i]).bits is V4
            != rest[at].bits is V4 by {
            assert(rest[i] == addresses[i]);
        }
        the_first_of_a_family_is_chosen(rest, at);
        assert(rest[at] == addresses[at]);
        let k = choose|k: int| 0 <= k < before.len() && before[k] == addresses[at];
        assert(one_per_family(addresses)[k] == addresses[at]);
    } else {
        families_are_chosen_once(rest);
        assert forall|k: int| 0 <= k < before.len() implies (#[trigger] before[k]).bits is V4
            != addresses[at].bits is V4 by {
            assert(rest.contains(before[k]));
            let i = choose|i: int| 0 <= i < rest.len() && rest[i] == before[k];
            assert(addresses[i] == before[k]);
        }
        assert(one_per_family(addresses) == before.push(addresses[at]));
        assert(one_per_family(addresses)[before.len() as int] == addresses[at]);
    }
}

/// An endpoint leads to a service by its port and its addresses, those of version 4 first; only a
/// service that proves the pairing and tells a port and an address is the paired device.
pub proof fn endpoints_lead_to_their_service(
    endpoint: RemotePairingEndpoint,
    service: ResolvedService,
    alt_irk: Seq<u8>,
    i: int,
    j: int,
)
    requires
        leads_to(endpoint, service),
    ensures
        endpoint.port == service.port,
        endpoint.addresses@.to_multiset() == service.addresses@.to_multiset(),
        0 <= i < j < endpoint.addresses@.len() ==> !(endpoint.addresses@[i].bits is V6
            && endpoint.addresses@[j].bits is V4),
        is_paired_device(service, alt_irk) <==> service.identifier is Some && service.auth_tag
            is Some && auth_tag_valid(alt_irk, service.identifier->0@, service.auth_tag->0@)
            && service.port > 0 && service.addresses@.len() > 0,
{
    sorting::sorting_orders(service.addresses@);
    sorting::sorting_keeps_values(service.addresses@);
    if 0 <= i < j < endpoint.addresses@.len() {
        let a = endpoint.addresses@[i];
        let b = endpoint.addresses@[j];
        assert(!b.precedes(a));
        version_four_comes_first(b, a);
    }
}

/// Endpoints are the same by their port and the numbers of their addresses, whatever the texts.
pub proof fn ports_and_addresses_make_an_endpoint(
    a: RemotePairingEndpoint,
    b: RemotePairingEndpoint,
    at: int,
)
    ensures
        same_endpoint(a, a),
        same_endpoint(a, b) == same_endpoint(b, a),
        a.port != b.port ==> !same_endpoint(a, b),
        a.addresses@.len() != b.addresses@.len() ==> !same_endpoint(a, b),
        0 <= at < a.addresses@.len() && at < b.addresses@.len() && a.addresses@[at].bits
            != b.addresses@[at].bits ==> !same_endpoint(a, b),
        a.port == b.port && a.addresses@.len() == b.addresses@.len() && (forall|i: int|
            0 <= i < a.addresses@.len() ==> (#[trigger] a.addresses@[i]).bits
                == b.addresses@[i].bits) ==> same_endpoint(a, b),
{
    let left = address_bits(a.addresses@);
    let right = address_bits(b.addresses@);
    if 0 <= at < a.addresses@.len() && at < b.addresses@.len() {
        assert(left[at] == a.addresses@[at].bits && right[at] == b.addresses@[at].bits);
    }
    if a.addresses@.len() == b.addresses@.len() && (forall|i: int|
        0 <= i < a.addresses@.len() ==> (#[trigger] a.addresses@[i]).bits
            == b.addresses@[i].bits) {
        assert(left =~= right);
    }
    assert(left.len() == a.addresses@.len() && right.len() == b.addresses@.len());
}

/// Every address of every endpoint is a target, every target is one of them, and the targets are
/// in the order of the endpoints and of their addresses.
pub proof fn every_address_is_a_target(
    endpoints: Seq<RemotePairingEndpoint>,
    candidate: usize,
    address: usize,
)
    requires
        endpoints.len() <= usize::MAX,
    ensures
        targets(endpoints).contains(EndpointTarget { candidate, address }) <==> candidate
            < endpoints.len() && address < endpoints[candidate as int].addresses.len(),
        forall|i: int, j: int|
            0 <= i < j < targets(endpoints).len() ==> {
                let a = #[trigger] targets(endpoints)[i];
                let b = #[trigger] targets(endpoints)[j];
                a.candidate < b.candidate || a.candidate == b.candidate && a.address < b.address
            },
    decreases endpoints.len(),
{
    let target = EndpointTarget { candidate, address };
    if endpoints.len() > 0 {
        let rest = endpoints.drop_last();
        let last = (endpoints.len() - 1) as usize;
        let length = endpoints.last().addresses.len();
        let added = Seq::new(
            endpoints.last().addresses@.len(),
            |i: int| EndpointTarget { candidate: last, address: i as usize },
        );
        every_address_is_a_target(rest, candidate, address);
        let before = targets(rest);
        let all = targets(endpoints);
        assert(all == before + added);
        assert forall|k: int| 0 <= k < before.len() implies (#[trigger] before[k]).candidate
            < last by {
            every_address_is_a_target(rest, before[k].candidate, before[k].address);
            assert(before.contains(before[k]));
        }
        if all.contains(target) {
            let k = choose|k: int| 0 <= k < all.len() && all[k] == target;
            if k < before.len() {
                assert(before[k] == target);
                assert(rest[candidate as int] == endpoints[candidate as int]);
            } else {
                assert(added[k - before.len()] == target);
            }
        }
        if candidate < endpoints.len() && address
            < endpoints[candidate as int].addresses.len() {
            if candidate < rest.len() {
                assert(rest[candidate as int] == endpoints[candidate as int]);
                let k = choose|k: int| 0 <= k < before.len() && before[k] == target;
                assert(all[k] == target);
            } else {
                assert(added[address as int] == target);
                assert(all[before.len() + address as int] == target);
            }
        }
        assert forall|i: int, j: int| 0 <= i < j < all.len() implies {
            let a = #[trigger] all[i];
            let b = #[trigger] all[j];
            a.candidate < b.candidate || a.candidate == b.candidate && a.address < b.address
        } by {
            if i < before.len() {
                assert(all[i] == before[i]);
            } else {
                assert(all[i] == added[i - before.len()]);
            }
            if j < before.len() {
                assert(all[j] == before[j]);
            } else {
                assert(all[j] == added[j - before.len()]);
            }
        }
    }
}

/// An announcement is made once its own name is heard, whatever the case of the letters; another
/// name leaves it waiting, and a failure ends it.
pub proof fn own_names_are_heard(event: AnnounceEvent, name: Seq<char>, at: int)
    ensures
        event matches AnnounceEvent::Announced(announced) ==> announced@ == name || announced@
            == text::lowered(name) ==> heard(event, name) is Made,
        event matches AnnounceEvent::Announced(announced) ==> announced@.len() != name.len()
            ==> heard(event, name) is Waiting,
        event matches AnnounceEvent::Announced(announced) ==> 0 <= at < name.len() && at
            < announced@.len() && !text::is_ascii_letter(name[at]) && announced@[at] != name[at]
            ==> heard(event, name) is Waiting,
        event is Failed ==> heard(event, name) is Failed,
        event is Other ==> heard(event, name) is Waiting,
{
    if let AnnounceEvent::Announced(announced) = event {
        let mine = text::lowered(name);
        let theirs = text::lowered(announced@);
        assert(text::lowered(mine) =~= mine);
        assert(mine.len() == name.len() && theirs.len() == announced@.len());
        if 0 <= at < name.len() && at < announced@.len() && !text::is_ascii_letter(name[at])
            && announced@[at] != name[at] {
            assert(mine[at] == name[at]);
            assert(theirs[at] == text::ascii_lower(announced@[at]));
        }
    }
}

/// A name of small letters, digits and hyphens.
pub open spec fn is_plain_host(name: Seq<char>) -> bool {
    &&& name.len() > 0
    &&& forall|i: int|
        0 <= i < name.len() ==> 'a' <= #[trigger] name[i] <= 'z' || '0' <= name[i] <= '9'
            || name[i] == '-'
}

/// A plain name is announced as it is, once within the local domain. Space around it does not
/// count, nor does a local domain that it already names.
pub proof fn plain_hosts_keep_their_names(name: Seq<char>)
    requires
        is_plain_host(name),
    ensures
        hostname(Some(name)) == name + ".local."@,
        hostname(Some(name + ".local"@)) == name + ".local."@,
        hostname(Some(" "@ + name + "\n"@)) == name + ".local."@,
        hostname(None) == "iphoneloadly.local."@,
{
    reveal_strlit(".local");
    reveal_strlit(".local.");
    reveal_strlit(" ");
    reveal_strlit("\n");
    reveal_strlit("iPhoneLoadly");
    reveal_strlit("iphoneloadly");
    reveal_strlit("iphoneloadly.local.");
    let empty = Seq::<char>::empty();
    let suffix = ".local"@;
    lemma_plain_host(name);
    assert(empty + name + empty =~= name);
    text::trimming_removes_the_space_around(empty, name, empty);
    let longer = name + suffix;
    assert(empty + longer + empty =~= longer);
    assert(longer[0] == name[0]);
    assert(longer.last() == 'l');
    text::trimming_removes_the_space_around(empty, longer, empty);
    assert(longer.take(longer.len() - suffix.len()) =~= name);
    assert(longer.subrange(longer.len() - suffix.len(), longer.len() as int) =~= suffix);
    assert(text::finishes_with(longer, suffix));
    assert(without_suffixes(longer, suffix) == without_suffixes(name, suffix));
    text::trimming_removes_the_space_around(" "@, name, "\n"@);
    let usual = "iPhoneLoadly"@;
    assert(empty + usual + empty =~= usual);
    text::trimming_removes_the_space_around(empty, usual, empty);
    assert(usual.subrange(6, 12)[0] == usual[6]);
    assert(usual[6] != suffix[0]);
    assert(!text::finishes_with(usual, suffix));
    assert(without_suffixes(usual, suffix) == usual);
    assert(usual.map_values(|c: char| host_character(c)) =~= "iphoneloadly"@);
    assert("iphoneloadly"@ + ".local."@ =~= "iphoneloadly.local."@);
}

proof fn lemma_plain_host(name: Seq<char>)
    requires
        is_plain_host(name),
    ensures
        without_suffixes(name, ".local"@) == name,
        name.map_values(|c: char| host_character(c)) == name,
        !text::is_white_space(name[0]),
        !text::is_white_space(name.last()),
{
    reveal_strlit(".local");
    let suffix = ".local"@;
    assert(suffix[0] == '.');
    if text::finishes_with(name, suffix) {
        let at = name.len() - suffix.len();
        assert(name.subrange(at, at + suffix.len())[0] == name[at]);
    }
    assert(name.map_values(|c: char| host_character(c)) =~= name);
    assert(name.last() == name[name.len() - 1]);
}

/// Whatever this host is called, it is announced within the local domain under a name of small
/// letters, digits and hyphens.
pub proof fn hosts_are_announced_under_plain_names(raw: Option<Seq<char>>)
    ensures
        exists|name: Seq<char>| #[trigger]
            is_plain_host(name) && hostname(raw) == name + ".local."@,
{
    reveal_strlit("iphoneloadly");
    let name = match raw {
        Some(name) => name,
        None => "iPhoneLoadly"@,
    };
    let bare = without_suffixes(text::trimmed(name), ".local"@);
    let plain = bare.map_values(|c: char| host_character(c));
    if plain.len() == 0 {
        assert(is_plain_host("iphoneloadly"@));
    } else {
        assert forall|i: int| 0 <= i < plain.len() implies 'a' <= #[trigger] plain[i] <= 'z'
            || '0' <= plain[i] <= '9' || plain[i] == '-' by {
            assert(plain[i] == host_character(bare[i]));
        }
        assert(is_plain_host(plain));
    }
}

} // verus!

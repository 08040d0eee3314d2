//! The requests and answers of the device's file service: the lengths and numbers of its packets,
//! and what is read from its answers.
use vstd::prelude::*;
use vstd::utf8::*;

use crate::digest;
use crate::faults::DeviceFault;
use crate::record;

verus! {

/// The length of a packet's header.
pub const HEADER_BYTES: u64 = 40;

/// The mode in which a file is opened to be written anew.
pub const WRITE_MODE: u64 = 4;

/// The bytes that write a number, the least significant first.
pub open spec fn little_endian(value: nat, count: nat) -> Seq<u8>
    decreases count,
{
    if count == 0 {
        Seq::empty()
    } else {
        seq![(value % 256) as u8] + little_endian(value / 256, (count - 1) as nat)
    }
}

/// The number that bytes write, the least significant first.
pub open spec fn little_endian_value(bytes: Seq<u8>) -> nat
    decreases bytes.len(),
{
    if bytes.len() == 0 {
        0
    } else {
        bytes[0] as nat + 256 * little_endian_value(bytes.skip(1))
    }
}

/// A number is read back from its bytes where they are enough for it.
pub proof fn a_written_number_is_read_back(value: nat, count: nat)
    requires
        value < record::power_of_256(count),
    ensures
        little_endian(value, count).len() == count,
        little_endian_value(little_endian(value, count)) == value,
    decreases count,
{
    if count > 0 {
        let rest = little_endian(value / 256, (count - 1) as nat);
        assert(value / 256 < record::power_of_256((count - 1) as nat));
        a_written_number_is_read_back(value / 256, (count - 1) as nat);
        assert(little_endian(value, count).skip(1) == rest);
    }
}

proof fn little_endian_is_bounded(bytes: Seq<u8>)
    ensures
        little_endian_value(bytes) < record::power_of_256(bytes.len()),
    decreases bytes.len(),
{
    if bytes.len() > 0 {
        little_endian_is_bounded(bytes.skip(1));
    }
}

/// The eight bytes that write a number.
pub fn number_bytes(value: u64) -> (bytes: Vec<u8>)
    ensures
        bytes@ == little_endian(value as nat, 8),
        bytes@.len() == 8,
        little_endian_value(bytes@) == value,
{
    let mut bytes: Vec<u8> = Vec::new();
    let mut rest: u64 = value;
    let mut i: usize = 0;
    proof {
        reveal_with_fuel(record::power_of_256, 9);
        a_written_number_is_read_back(value as nat, 8);
    }
    while i < 8
        invariant
            i <= 8,
            bytes@.len() == i,
            bytes@ + little_endian(rest as nat, (8 - i) as nat) == little_endian(value as nat, 8),
        decreases 8 - i,
    {
        let ghost done = bytes@;
        let ghost left = little_endian(rest as nat, (8 - i) as nat);
        bytes.push((rest % 256) as u8);
        proof {
            let next = little_endian((rest / 256) as nat, (7 - i) as nat);
            assert(left == seq![(rest % 256) as u8] + next);
            assert(bytes@ + next == done + left);
        }
        rest = rest / 256;
        i = i + 1;
    }
    proof {
        assert(bytes@ + Seq::<u8>::empty() == bytes@);
    }
    bytes
}

/// The number that the first eight bytes write; none where there are fewer.
pub fn descriptor_of(bytes: &[u8]) -> (descriptor: Option<u64>)
    ensures
        match descriptor {
            Some(descriptor) => bytes@.len() >= 8 && descriptor == little_endian_value(
                bytes@.take(8),
            ),
            None => bytes@.len() < 8,
        },
{
    if bytes.len() < 8 {
        return None;
    }
    let ghost head = bytes@.take(8);
    let mut value: u64 = 0;
    let mut i: usize = 8;
    while i > 0
        invariant
            i <= 8,
            bytes@.len() >= 8,
            head == bytes@.take(8),
            value == little_endian_value(head.skip(i as int)),
        decreases i,
    {
        i = i - 1;
        proof {
            assert(head.skip(i as int).skip(1) == head.skip(i + 1));
            assert(head.skip(i as int)[0] == bytes@[i as int]);
            little_endian_is_bounded(head.skip(i as int));
            reveal_with_fuel(record::power_of_256, 9);
            assert(little_endian_value(head.skip(i as int)) == bytes@[i as int] as nat + 256
                * value);
        }
        value = bytes[i] as u64 + 256 * value;
    }
    proof {
        assert(head.skip(0) == head);
    }
    Some(value)
}

/// The lengths and the number in the header of a packet.
#[derive(Debug, Clone, Copy, PartialEq, Eq, Structural)]
pub struct PacketFrame {
    pub entire_len: u64,
    pub header_payload_len: u64,
    pub packet_num: u64,
}

/// The numbers of the packets that a client sends.
#[derive(Debug, Clone, Copy, PartialEq, Eq, Structural)]
pub struct PacketCounter {
    pub packet_number: u64,
}

impl PacketCounter {
    /// A client that has sent nothing.
    pub fn new() -> (counter: PacketCounter)
        ensures
            counter.packet_number == 0,
    {
        PacketCounter { packet_number: 0 }
    }

    /// The frame of the next packet. The numbers begin anew behind the largest one.
    pub fn frame(&mut self, header_payload: usize, payload: usize) -> (frame: PacketFrame)
        requires
            HEADER_BYTES + header_payload + payload <= u64::MAX,
        ensures
            frame.header_payload_len == HEADER_BYTES + header_payload,
            frame.entire_len == HEADER_BYTES + header_payload + payload,
            frame.packet_num == old(self).packet_number,
            final(self).packet_number == if old(self).packet_number == u64::MAX {
                0
            } else {
                old(self).packet_number + 1
            },
    {
        let header_payload_len: u64 = HEADER_BYTES + header_payload as u64;
        let packet_num: u64 = self.packet_number;
        self.packet_number = if packet_num == u64::MAX {
            0
        } else {
            packet_num + 1
        };
        PacketFrame {
            entire_len: header_payload_len + payload as u64,
            header_payload_len,
            packet_num,
        }
    }
}

/// What is sent to open a file for writing: the mode and the path.
pub fn open_request(path: &str) -> (payload: Vec<u8>)
    ensures
        payload@ == little_endian(WRITE_MODE as nat, 8) + encode_utf8(path@),
{
    let mut payload: Vec<u8> = number_bytes(WRITE_MODE);
    let bytes: &[u8] = path.as_bytes();
    let ghost mode = payload@;
    let mut i: usize = 0;
    while i < bytes.len()
        invariant
            i <= bytes.len(),
            payload@ == mode + bytes@.take(i as int),
        decreases bytes.len() - i,
    {
        payload.push(bytes[i]);
        proof {
            assert(payload@ == mode + bytes@.take(i + 1));
        }
        i = i + 1;
    }
    proof {
        assert(bytes@.take(i as int) == bytes@);
    }
    payload
}

/// The bytes of `st_ifmt`, the field that tells what stands at a path.
pub open spec fn kind_field() -> Seq<u8> {
    seq![115u8, 116u8, 95u8, 105u8, 102u8, 109u8, 116u8]
}

/// The bytes of `S_IFDIR`, the value of a directory.
pub open spec fn directory_value() -> Seq<u8> {
    seq![83u8, 95u8, 73u8, 70u8, 68u8, 73u8, 82u8]
}

/// The fields of an answer: the bytes between zeros, empty ones left out.
pub open spec fn fields(payload: Seq<u8>) -> Seq<Seq<u8>> {
    closed_fields(payload) + open_field(payload)
}

/// The fields that a zero closes.
pub open spec fn closed_fields(payload: Seq<u8>) -> Seq<Seq<u8>>
    decreases payload.len(),
{
    if payload.len() == 0 {
        Seq::empty()
    } else if payload.last() == 0 {
        closed_fields(payload.drop_last()) + open_field(payload.drop_last())
    } else {
        closed_fields(payload.drop_last())
    }
}

/// The bytes behind the last zero, where there are any.
pub open spec fn open_field(payload: Seq<u8>) -> Seq<Seq<u8>> {
    if tail_of(payload).len() == 0 {
        Seq::empty()
    } else {
        seq![tail_of(payload)]
    }
}

/// The bytes behind the last zero.
pub open spec fn tail_of(payload: Seq<u8>) -> Seq<u8>
    decreases payload.len(),
{
    if payload.len() == 0 || payload.last() == 0 {
        Seq::empty()
    } else {
        tail_of(payload.drop_last()).push(payload.last())
    }
}

/// An answer tells of a directory: among its pairs of fields is the one that says so. A last field
/// without a partner does not count.
pub open spec fn tells_directory(payload: Seq<u8>) -> bool {
    exists|i: int|
        0 <= i && 2 * i + 1 < fields(payload).len() && #[trigger] is_directory_pair(
            fields(payload),
            i,
        )
}

/// The pair at a position says that there is a directory.
pub open spec fn is_directory_pair(fields: Seq<Seq<u8>>, i: int) -> bool {
    fields[2 * i] == kind_field() && fields[2 * i + 1] == directory_value()
}

spec fn views(parts: Seq<Vec<u8>>) -> Seq<Seq<u8>> {
    parts.map_values(|part: Vec<u8>| part@)
}

fn split_fields(payload: &[u8]) -> (parts: Vec<Vec<u8>>)
    ensures
        views(parts@) == fields(payload@),
{
    let mut parts: Vec<Vec<u8>> = Vec::new();
    let mut current: Vec<u8> = Vec::new();
    let mut i: usize = 0;
    while i < payload.len()
        invariant
            i <= payload.len(),
            views(parts@) == closed_fields(payload@.take(i as int)),
            current@ == tail_of(payload@.take(i as int)),
        decreases payload.len() - i,
    {
        let ghost seen = payload@.take(i as int);
        let ghost more = payload@.take(i + 1);
        let ghost known = parts@;
        proof {
            assert(more.drop_last() == seen);
            assert(more.last() == payload@[i as int]);
        }
        if payload[i] == 0 {
            if current.len() > 0 {
                parts.push(current);
                proof {
                    assert(views(parts@) == views(known) + seq![tail_of(seen)]);
                }
                current = Vec::new();
            } else {
                proof {
                    assert(open_field(seen) == Seq::<Seq<u8>>::empty());
                    assert(views(known) + open_field(seen) == views(known));
                }
            }
        } else {
            current.push(payload[i]);
        }
        i = i + 1;
    }
    let ghost known = parts@;
    proof {
        assert(payload@.take(i as int) == payload@);
    }
    if current.len() > 0 {
        parts.push(current);
        proof {
            assert(views(parts@) == views(known) + seq![tail_of(payload@)]);
        }
    } else {
        proof {
            assert(views(known) + Seq::<Seq<u8>>::empty() == views(known));
        }
    }
    parts
}

/// Whether the answer to a question about a path tells of a directory.
pub fn is_directory(payload: &[u8]) -> (result: bool)
    ensures
        result == tells_directory(payload@),
{
    let parts: Vec<Vec<u8>> = split_fields(payload);
    let name: Vec<u8> = vec![115u8, 116u8, 95u8, 105u8, 102u8, 109u8, 116u8];
    let value: Vec<u8> = vec![83u8, 95u8, 73u8, 70u8, 68u8, 73u8, 82u8];
    let ghost all = fields(payload@);
    proof {
        assert(name@ == kind_field());
        assert(value@ == directory_value());
        assert(all.len() == parts@.len());
        assert(forall|j: int| 0 <= j < parts@.len() ==> #[trigger] parts@[j]@ == all[j]) by {
            assert forall|j: int| 0 <= j < parts@.len() implies #[trigger] parts@[j]@ == all[j] by {
                assert(views(parts@)[j] == all[j]);
            }
        }
    }
    let mut i: usize = 0;
    while i + 1 < parts.len()
        invariant
            i % 2 == 0,
            i <= parts.len(),
            parts.len() <= usize::MAX,
            all == fields(payload@),
            all.len() == parts@.len(),
            name@ == kind_field(),
            value@ == directory_value(),
            forall|j: int| 0 <= j < parts@.len() ==> #[trigger] parts@[j]@ == all[j],
            forall|k: int| 0 <= k && 2 * k < i ==> !#[trigger] is_directory_pair(all, k),
        decreases parts.len() - i,
    {
        let ghost pair = i as int / 2;
        proof {
            assert(2 * pair == i);
        }
        if digest::same_bytes(&parts[i], &name) && digest::same_bytes(&parts[i + 1], &value) {
            proof {
                assert(is_directory_pair(all, pair));
            }
            return true;
        }
        proof {
            assert(!is_directory_pair(all, pair));
            assert forall|k: int| 0 <= k && 2 * k < i + 2 implies !#[trigger] is_directory_pair(
                all,
                k,
            ) by {
                if 2 * k >= i {
                    assert(k == pair);
                }
            }
        }
        i = i + 2;
    }
    false
}

/// Whether a path exists, from how the question about it ended: a path that the service does not
/// know does not.
pub open spec fn presence(answer: Result<(), DeviceFault>) -> Result<bool, DeviceFault> {
    match answer {
        Ok(()) => Ok(true),
        Err(DeviceFault::ObjectNotFound) => Ok(false),
        Err(fault) => Err(fault),
    }
}

/// Whether a path exists, from how the question about it ended.
pub fn path_exists(answer: Result<(), DeviceFault>) -> (exists_there: Result<bool, DeviceFault>)
    ensures
        exists_there == presence(answer),
{
    match answer {
        Ok(()) => Ok(true),
        Err(DeviceFault::ObjectNotFound) => Ok(false),
        Err(fault) => Err(fault),
    }
}

/// The first byte of a number is its least significant one: it is what is left of the number beside
/// the multiples of 256.
pub proof fn the_least_byte_comes_first(value: nat, count: nat, byte: u8, rest: Seq<u8>)
    requires
        count > 0,
    ensures
        little_endian(value, count)[0] == value % 256,
        little_endian(value, count).skip(1) == little_endian(value / 256, (count - 1) as nat),
        little_endian(value, 0).len() == 0,
        little_endian_value(seq![byte] + rest) == byte + 256 * little_endian_value(rest),
        little_endian_value(Seq::empty()) == 0,
{
    let bytes = little_endian(value, count);
    assert(bytes.skip(1) =~= little_endian(value / 256, (count - 1) as nat));
    assert((seq![byte] + rest).skip(1) =~= rest);
    assert((seq![byte] + rest)[0] == byte);
}

proof fn lemma_plain_tail(payload: Seq<u8>, part: Seq<u8>)
    requires
        forall|i: int| 0 <= i < part.len() ==> #[trigger] part[i] != 0,
        payload.len() == 0 || payload.last() == 0,
    ensures
        tail_of(payload + part) == part,
        closed_fields(payload + part) == closed_fields(payload),
    decreases part.len(),
{
    let all = payload + part;
    if part.len() == 0 {
        assert(all =~= payload);
        assert(tail_of(payload) =~= part);
    } else {
        let rest = part.drop_last();
        assert forall|i: int| 0 <= i < rest.len() implies #[trigger] rest[i] != 0 by {
            assert(rest[i] == part[i]);
        }
        lemma_plain_tail(payload, rest);
        assert(all.drop_last() =~= payload + rest);
        assert(all.last() == part[part.len() - 1]);
        assert(tail_of(all) =~= part);
    }
}

/// The fields of an answer are the parts between its zeros: a zero ends a field, a part behind a
/// zero is one more field, and an empty part is none.
pub proof fn zeros_end_fields(payload: Seq<u8>, part: Seq<u8>)
    requires
        forall|i: int| 0 <= i < part.len() ==> #[trigger] part[i] != 0,
    ensures
        fields(payload.push(0)) == fields(payload),
        part.len() > 0 ==> fields(payload.push(0) + part) == fields(payload).push(part),
        part.len() > 0 ==> fields(part) == seq![part],
        fields(Seq::empty()).len() == 0,
{
    let ended = payload.push(0);
    assert(ended.drop_last() =~= payload);
    assert(tail_of(ended) =~= Seq::<u8>::empty());
    assert(open_field(ended) =~= Seq::<Seq<u8>>::empty());
    assert(fields(ended) =~= fields(payload));
    lemma_plain_tail(ended, part);
    lemma_plain_tail(Seq::empty(), part);
    assert(Seq::<u8>::empty() + part =~= part);
    if part.len() > 0 {
        assert(fields(ended + part) =~= fields(payload).push(part));
        assert(fields(part) =~= seq![part]);
    }
}

/// An answer tells of a directory where a field that names the kind stands at an even place, with
/// the value of a directory behind it.
pub proof fn directories_are_told_by_their_kind(payload: Seq<u8>, at: int)
    requires
        0 <= at,
        2 * at + 1 < fields(payload).len(),
    ensures
        fields(payload)[2 * at] == kind_field() && fields(payload)[2 * at + 1] == directory_value()
            ==> tells_directory(payload),
        tells_directory(payload) ==> exists|i: int|
            0 <= i && 2 * i + 1 < fields(payload).len() && #[trigger] fields(payload)[2 * i]
                == kind_field() && fields(payload)[2 * i + 1] == directory_value(),
        kind_field().len() == 7,
        directory_value().len() == 7,
        forall|i: int| 0 <= i < 7 ==> #[trigger] kind_field()[i] as char == "st_ifmt"@[i],
        forall|i: int| 0 <= i < 7 ==> #[trigger] directory_value()[i] as char == "S_IFDIR"@[i],
{
    reveal_strlit("st_ifmt");
    reveal_strlit("S_IFDIR");
    if fields(payload)[2 * at] == kind_field() && fields(payload)[2 * at + 1]
        == directory_value() {
        assert(is_directory_pair(fields(payload), at));
    }
    if tells_directory(payload) {
        let i = choose|i: int|
            0 <= i && 2 * i + 1 < fields(payload).len() && #[trigger] is_directory_pair(
                fields(payload),
                i,
            );
        assert(fields(payload)[2 * i] == kind_field());
    }
}

/// A path exists where the service answers, and does not where it knows no such path; any other fault
/// leaves that open and is told.
pub proof fn unknown_paths_do_not_exist(fault: DeviceFault)
    ensures
        presence(Ok(())) == Ok::<bool, DeviceFault>(true),
        presence(Err(DeviceFault::ObjectNotFound)) == Ok::<bool, DeviceFault>(false),
        fault != DeviceFault::ObjectNotFound ==> presence(Err(fault)) == Err::<bool, DeviceFault>(
            fault,
        ),
{
}

} // verus!

//! Cutting a payload into LCD packets.

use vstd::prelude::*;
use crate::access_unit;

verus! {

/// One LCD packet, as it goes to the packet encoder.
pub struct LcdPacket<'a> {
    pub report_id: u8,
    /// Size of the packet on the wire.
    pub pkt_size: usize,
    pub cmd: u8,
    /// Length of the whole payload, in 32 bits.
    pub total_size: u32,
    /// Number of the packet within the transfer, from zero.
    pub packet_num: u32,
    /// The part of the payload that this packet carries.
    pub payload: &'a [u8],
}

/// The packet format in which a payload is sent.
#[derive(Clone, Copy, Debug, PartialEq, Eq, Structural)]
pub struct PacketFormat {
    pub report_id: u8,
    pub pkt_size: usize,
    /// Most payload bytes that one packet carries.
    pub max_payload: usize,
}

/// How many packets carry `len` bytes: an empty payload takes one packet too.
pub open spec fn packet_count(len: int, max_payload: int) -> int {
    if len == 0 {
        1
    } else {
        (len + max_payload - 1) / max_payload
    }
}

/// The part of the payload in packet number `k`.
pub open spec fn packet_payload(data: Seq<u8>, max_payload: int, k: int) -> Seq<u8> {
    let from = k * max_payload;
    let to = if (k + 1) * max_payload < data.len() {
        (k + 1) * max_payload
    } else {
        data.len() as int
    };
    data.subrange(from, to)
}

/// Packet number `k` of the transfer of `data`.
pub open spec fn is_packet(
    packet: LcdPacket<'_>,
    format: PacketFormat,
    cmd: u8,
    data: Seq<u8>,
    k: int,
) -> bool {
    &&& packet.report_id == format.report_id
    &&& packet.pkt_size == format.pkt_size
    &&& packet.cmd == cmd
    &&& packet.total_size == data.len() as u32
    &&& packet.packet_num == k
    &&& packet.payload@ == packet_payload(data, format.max_payload as int, k)
}

/// Packets are exactly those of the transfer of `data`.
pub open spec fn are_packets(
    packets: Seq<LcdPacket<'_>>,
    format: PacketFormat,
    cmd: u8,
    data: Seq<u8>,
) -> bool {
    &&& packets.len() == packet_count(data.len() as int, format.max_payload as int)
    &&& forall|k: int|
        0 <= k < packets.len() ==> is_packet(#[trigger] packets[k], format, cmd, data, k)
}

/// A packet that starts inside the payload counts, and the one that reaches its end is the last.
proof fn lemma_packet_count(len: int, max: int, k: int)
    requires
        0 < max,
        0 <= k,
        k * max < len,
    ensures
        k < packet_count(len, max),
        len <= (k + 1) * max ==> packet_count(len, max) == k + 1,
{
    let n = len + max - 1;
    vstd::arithmetic::div_mod::lemma_fundamental_div_mod(n, max);
    let q = n / max;
    let r = n % max;
    assert(k < q && (len <= (k + 1) * max ==> q == k + 1)) by (nonlinear_arith)
        requires
            n == max * q + r,
            0 <= r < max,
            0 < max,
            n == len + max - 1,
            k * max < len,
    ;
    assert(0 < len) by (nonlinear_arith)
        requires
            0 <= k,
            0 < max,
            k * max < len,
    ;
}

/// A payload takes one packet at least, and one packet for a byte at most.
pub proof fn packet_count_is_bounded(len: int, max_payload: int)
    requires
        0 <= len,
        0 < max_payload,
    ensures
        1 <= packet_count(len, max_payload) <= len + 1,
{
    let n = len + max_payload - 1;
    vstd::arithmetic::div_mod::lemma_fundamental_div_mod(n, max_payload);
    let q = n / max_payload;
    let r = n % max_payload;
    assert(len > 0 ==> 1 <= q <= len + 1) by (nonlinear_arith)
        requires
            n == max_payload * q + r,
            0 <= r < max_payload,
            0 < max_payload,
            0 <= len,
            n == len + max_payload - 1,
    ;
}

/// Cuts `data` into packets.
pub fn lcd_packets<'a>(format: PacketFormat, cmd: u8, data: &'a [u8]) -> (packets: Vec<
    LcdPacket<'a>,
>)
    requires
        0 < format.max_payload,
        packet_count(data@.len() as int, format.max_payload as int) <= u32::MAX,
    ensures
        are_packets(packets@, format, cmd, data@),
{
    let total_size = data.len();
    let max = format.max_payload;
    let mut packets: Vec<LcdPacket<'a>> = Vec::new();
    let mut offset: usize = 0;
    let mut packet_num: u32 = 0;
    loop
        invariant_except_break
            packets@.len() == packet_num,
            offset == packet_num * max,
            packet_num == 0 || offset < total_size,
        invariant
            total_size == data@.len(),
            max == format.max_payload,
            0 < max,
            packet_count(total_size as int, max as int) <= u32::MAX,
            forall|k: int|
                0 <= k < packets@.len() ==> is_packet(#[trigger] packets@[k], format, cmd, data@, k),
        ensures
            packets@.len() == packet_count(total_size as int, max as int),
        decreases total_size - offset + (if packet_num == 0 {
            1int
        } else {
            0
        }),
    {
        proof {
            let k = packet_num as int;
            if offset < total_size {
                lemma_packet_count(total_size as int, max as int, k);
            }
            assert((k + 1) * max == k * max + max) by (nonlinear_arith);
        }
        let remaining = total_size - offset;
        let chunk_len = if remaining < max {
            remaining
        } else {
            max
        };
        packets.push(
            LcdPacket {
                report_id: format.report_id,
                pkt_size: format.pkt_size,
                cmd,
                total_size: total_size as u32,
                packet_num,
                payload: vstd::slice::slice_subrange(data, offset, offset + chunk_len),
            },
        );
        offset = offset + chunk_len;
        packet_num = packet_num + 1;
        if offset >= total_size {
            break;
        }
    }
    packets
}

/// The payloads of the first `count` packets.
pub open spec fn payloads(data: Seq<u8>, max_payload: int, count: int) -> Seq<Seq<u8>> {
    Seq::new(count as nat, |k: int| packet_payload(data, max_payload, k))
}

proof fn lemma_payloads_join(data: Seq<u8>, max: int, count: int)
    requires
        0 < max,
        0 <= count <= packet_count(data.len() as int, max),
    ensures
        joined_len(data, max, count) <= data.len(),
        access_unit::joined(payloads(data, max, count)) == data.take(joined_len(data, max, count)),
    decreases count,
{
    let len = data.len() as int;
    if count == 0 {
        assert(payloads(data, max, 0) =~= Seq::empty());
        assert(data.take(0) =~= Seq::empty());
    } else {
        let k = count - 1;
        lemma_payloads_join(data, max, k);
        let last = packet_payload(data, max, k);
        assert(payloads(data, max, count) =~= payloads(data, max, k).push(last));
        access_unit::joined_push(payloads(data, max, k), last);
        assert(k * max <= len) by {
            if len < k * max {
                vstd::arithmetic::div_mod::lemma_fundamental_div_mod(len + max - 1, max);
                let q = (len + max - 1) / max;
                let r = (len + max - 1) % max;
                assert(q <= k) by (nonlinear_arith)
                    requires
                        len + max - 1 == max * q + r,
                        0 <= r < max,
                        0 < max,
                        len < k * max,
                ;
                assert(len == 0 ==> k == 0);
            }
        }
        assert((k + 1) * max == k * max + max) by (nonlinear_arith);
        assert(data.take(joined_len(data, max, count)) =~= data.take(joined_len(data, max, k))
            + last);
    }
}

spec fn joined_len(data: Seq<u8>, max: int, count: int) -> int {
    if count * max < data.len() {
        count * max
    } else {
        data.len() as int
    }
}

/// The packets of a transfer carry the payload: put together in order, their parts are the data,
/// and none is larger than a packet takes.
pub proof fn packets_carry_the_payload(data: Seq<u8>, max_payload: int)
    requires
        0 < max_payload,
    ensures
        access_unit::joined(
            payloads(data, max_payload, packet_count(data.len() as int, max_payload)),
        ) == data,
        forall|k: int|
            0 <= k < packet_count(data.len() as int, max_payload) ==> (#[trigger] packet_payload(
                data,
                max_payload,
                k,
            )).len() <= max_payload,
{
    let len = data.len() as int;
    let count = packet_count(len, max_payload);
    vstd::arithmetic::div_mod::lemma_fundamental_div_mod(len + max_payload - 1, max_payload);
    let q = (len + max_payload - 1) / max_payload;
    let r = (len + max_payload - 1) % max_payload;
    assert(len <= q * max_payload && 0 <= q) by (nonlinear_arith)
        requires
            len + max_payload - 1 == max_payload * q + r,
            0 <= r < max_payload,
            0 < max_payload,
            0 <= len,
    ;
    lemma_payloads_join(data, max_payload, count);
    assert(data.take(len) =~= data);
    assert forall|k: int| 0 <= k < count implies (#[trigger] packet_payload(
        data,
        max_payload,
        k,
    )).len() <= max_payload by {
        lemma_payloads_join(data, max_payload, k);
        assert(k * max_payload <= len) by (nonlinear_arith)
            requires
                0 <= k < count,
                0 < max_payload,
                count == (if len == 0 { 1 } else { q }),
                len + max_payload - 1 == max_payload * q + r,
                0 <= r < max_payload,
                0 <= len,
        ;
        assert((k + 1) * max_payload == k * max_payload + max_payload) by (nonlinear_arith);
    }
}

/// Where the payload of packet number `k` lies.
proof fn lemma_place(len: int, max: int, k: int)
    requires
        0 <= len,
        0 < max,
        0 <= k < packet_count(len, max),
    ensures
        0 <= k * max <= len,
        (k + 1) * max == k * max + max,
        k < packet_count(len, max) - 1 ==> (k + 1) * max < len,
        k == packet_count(len, max) - 1 ==> len <= k * max + max && (k * max < len || len == 0),
{
    let q = (len + max - 1) / max;
    let r = (len + max - 1) % max;
    vstd::arithmetic::div_mod::lemma_fundamental_div_mod(len + max - 1, max);
    if len > 0 {
        assert(0 <= k * max < len && (k + 1) * max == k * max + max && (k < q - 1 ==> (k + 1) * max
            < len) && (k == q - 1 ==> len <= (k + 1) * max)) by (nonlinear_arith)
            requires
                len + max - 1 == max * q + r,
                0 <= r < max,
                0 < max,
                0 < len,
                0 <= k < q,
        ;
    } else {
        assert(k == 0);
    }
}

/// The packets of a transfer are numbered from zero, one after the other, so that no two have the same
/// number. Each but the last is full, and each carries the bytes behind those of the packets before it:
/// a receiver that puts every payload at its number times the size of a full one gets the data back.
pub proof fn packets_are_numbered(
    packets: Seq<LcdPacket<'_>>,
    format: PacketFormat,
    cmd: u8,
    data: Seq<u8>,
)
    requires
        0 < format.max_payload,
        are_packets(packets, format, cmd, data),
    ensures
        packets.len() > 0,
        packets[0].packet_num == 0,
        forall|k: int|
            0 < k < packets.len() ==> (#[trigger] packets[k]).packet_num == packets[k
                - 1].packet_num + 1,
        forall|i: int, j: int|
            0 <= i < j < packets.len() ==> (#[trigger] packets[i]).packet_num < (
            #[trigger] packets[j]).packet_num,
        forall|k: int|
            0 <= k < packets.len() - 1 ==> (#[trigger] packets[k]).payload@.len()
                == format.max_payload,
        packets.last().payload@.len() == data.len() - (packets.len() - 1) * format.max_payload,
        0 < packets.last().payload@.len() || data.len() == 0,
        packets.last().payload@.len() <= format.max_payload,
        forall|k: int, at: int|
            0 <= k < packets.len() && 0 <= at < packets[k].payload@.len()
                ==> #[trigger] packets[k].payload@[at] == data[packets[k].packet_num
                * format.max_payload + at],
{
    let max = format.max_payload as int;
    let len = data.len() as int;
    let count = packets.len() as int;
    packet_count_is_bounded(len, max);
    assert forall|k: int| 0 <= k < count implies {
        &&& #[trigger] packets[k].packet_num == k
        &&& packets[k].payload@ == packet_payload(data, max, k)
        &&& 0 <= k * max <= len
        &&& k < count - 1 ==> (k + 1) * max < len && (k + 1) * max == k * max + max
        &&& k == count - 1 ==> len <= k * max + max && (k * max < len || len == 0)
        &&& k == count - 1 ==> !((k + 1) * max < len)
    } by {
        assert(is_packet(packets[k], format, cmd, data, k));
        lemma_place(len, max, k);
    }
    let last = count - 1;
    assert(packets[last] == packets.last());
    assert(packets[0].packet_num == 0);
    assert forall|k: int| 0 <= k < packets.len() - 1 implies (#[trigger] packets[k]).payload@.len()
        == max by {
        assert(packets[k].packet_num == k);
    }
    assert forall|k: int, at: int|
        0 <= k < packets.len() && 0 <= at
            < packets[k].payload@.len() implies #[trigger] packets[k].payload@[at]
        == data[packets[k].packet_num * max + at] by {
        assert(packets[k].packet_num == k);
    }
}

/// Every packet of a transfer names the command, the format and the length of the whole payload.
pub proof fn packets_name_the_transfer(
    packets: Seq<LcdPacket<'_>>,
    format: PacketFormat,
    cmd: u8,
    data: Seq<u8>,
    k: int,
)
    requires
        are_packets(packets, format, cmd, data),
        0 <= k < packets.len(),
        data.len() <= u32::MAX,
    ensures
        packets[k].cmd == cmd,
        packets[k].report_id == format.report_id,
        packets[k].pkt_size == format.pkt_size,
        packets[k].total_size == data.len(),
{
    assert(is_packet(packets[k], format, cmd, data, k));
}

} // verus!

//! Transfer replies and their mapping onto results.

use vstd::prelude::*;

use crate::error::{fails_with, Error, ErrorKind, Result};

verus! {

/// Status that the transport reports for a transfer or a packet.
#[derive(Debug, Clone, Copy, PartialEq, Eq, Structural, Hash)]
pub enum UsbTransferStatus {
    /// The transfer completed.
    Completed,
    /// The device stalled the endpoint.
    Stall,
    /// The device sent more data than requested.
    Babble,
}

/// Transport reply to a transfer from device to host.
#[derive(Debug)]
pub struct UsbInTransferResult {
    /// Status of the transfer.
    pub status: UsbTransferStatus,
    /// The bytes that the device provided.
    pub data: Vec<u8>,
}

/// Transport reply to a transfer from host to device.
#[derive(Debug, Clone, Copy, PartialEq, Eq, Structural)]
pub struct UsbOutTransferResult {
    /// Status of the transfer.
    pub status: UsbTransferStatus,
    /// The number of bytes that the device accepted.
    pub bytes_written: u32,
}

/// Transport reply for one packet of an isochronous transfer from device to host.
#[derive(Debug)]
pub struct UsbIsochronousInTransferPacket {
    /// Status of the packet.
    pub status: UsbTransferStatus,
    /// The bytes that the device provided for this packet.
    pub data: Vec<u8>,
}

/// Transport reply for one packet of an isochronous transfer from host to device.
#[derive(Debug, Clone, Copy, PartialEq, Eq, Structural)]
pub struct UsbIsochronousOutTransferPacket {
    /// Status of the packet.
    pub status: UsbTransferStatus,
    /// The number of bytes of this packet that the device accepted.
    pub bytes_written: u32,
}

/// The error kind that a transfer status stands for, if it is a failure.
pub open spec fn status_error(status: UsbTransferStatus) -> Option<ErrorKind> {
    match status {
        UsbTransferStatus::Completed => None,
        UsbTransferStatus::Stall => Some(ErrorKind::Stall),
        UsbTransferStatus::Babble => Some(ErrorKind::Babble),
    }
}

/// `r` is what a transfer with the given status and payload yields: the
/// payload on success, else an error of the status's kind.
pub open spec fn status_outcome<T>(status: UsbTransferStatus, value: T, r: Result<T>) -> bool {
    match status_error(status) {
        None => r == Ok::<T, Error>(value),
        Some(kind) => fails_with(r, kind),
    }
}

/// `r` is what a transport reply yields: the transport's error unchanged, or
/// the status outcome of what it returned.
pub open spec fn reply_outcome<T>(
    reply: Result<(UsbTransferStatus, T)>,
    r: Result<T>,
) -> bool {
    match reply {
        Err(e) => r is Err && r->Err_0@ == e@,
        Ok((status, value)) => status_outcome(status, value, r),
    }
}

/// The message of the error for a packet count that differs from the request.
pub open spec fn packet_count_message() -> Seq<char> {
    "transport returned a packet count that differs from the request"@
}

/// Checks a transfer status: `Completed` passes, `Stall` and `Babble` become errors
/// of the same kind.
pub fn check_status(status: UsbTransferStatus) -> (r: Result<()>)
    ensures
        status_outcome(status, (), r),
{
    match status {
        UsbTransferStatus::Completed => Ok(()),
        UsbTransferStatus::Stall => Err(Error::new(ErrorKind::Stall, "USB device stalled transfer")),
        UsbTransferStatus::Babble => Err(
            Error::new(ErrorKind::Babble, "USB device sent too much data"),
        ),
    }
}

/// Yields the value of a transfer if its status is `Completed`, else the status's error.
pub fn status_result<T>(status: UsbTransferStatus, value: T) -> (r: Result<T>)
    ensures
        status_outcome(status, value, r),
{
    match check_status(status) {
        Ok(()) => Ok(value),
        Err(e) => Err(e),
    }
}

/// The results of the packets of an isochronous transfer from device to host.
///
/// A reply that fails as a whole passes its error on. Otherwise there is one
/// result per requested packet, in request order, each decided by that
/// packet's own status; a reply whose packet count differs from the request
/// fails with `Transfer`.
pub fn isochronous_in_results(
    requested: usize,
    reply: Result<Vec<UsbIsochronousInTransferPacket>>,
) -> (r: Result<Vec<Result<Vec<u8>>>>)
    ensures
        reply is Err ==> r is Err && r->Err_0@ == reply->Err_0@,
        reply is Ok && reply->Ok_0.len() != requested ==> r is Err && r->Err_0@ == (
            ErrorKind::Transfer,
            packet_count_message(),
        ),
        reply is Ok && reply->Ok_0.len() == requested ==> {
            &&& r is Ok
            &&& r->Ok_0.len() == requested
            &&& forall|i: int|
                0 <= i < requested ==> #[trigger] status_outcome(
                    reply->Ok_0[i].status,
                    reply->Ok_0[i].data,
                    r->Ok_0[i],
                )
        },
{
    let packets = match reply {
        Ok(packets) => packets,
        Err(e) => return Err(e),
    };
    if packets.len() != requested {
        proof {
            reveal_strlit("transport returned a packet count that differs from the request");
        }
        return Err(
            Error::new(
                ErrorKind::Transfer,
                "transport returned a packet count that differs from the request",
            ),
        );
    }
    let ghost all = packets@;
    let mut results: Vec<Result<Vec<u8>>> = Vec::new();
    for packet in it: packets
        invariant
            it.seq() == all,
            results.len() == it.index(),
            forall|i: int|
                0 <= i < it.index() ==> #[trigger] status_outcome(
                    all[i].status,
                    all[i].data,
                    results[i],
                ),
    {
        results.push(status_result(packet.status, packet.data));
    }
    Ok(results)
}

/// The results of the packets of an isochronous transfer from host to device,
/// decided as for [`isochronous_in_results`]: one per requested packet, in
/// order, each the number of bytes written or its status's error.
pub fn isochronous_out_results(
    requested: usize,
    reply: Result<Vec<UsbIsochronousOutTransferPacket>>,
) -> (r: Result<Vec<Result<u32>>>)
    ensures
        reply is Err ==> r is Err && r->Err_0@ == reply->Err_0@,
        reply is Ok && reply->Ok_0.len() != requested ==> r is Err && r->Err_0@ == (
            ErrorKind::Transfer,
            packet_count_message(),
        ),
        reply is Ok && reply->Ok_0.len() == requested ==> {
            &&& r is Ok
            &&& r->Ok_0.len() == requested
            &&& forall|i: int|
                0 <= i < requested ==> #[trigger] status_outcome(
                    reply->Ok_0[i].status,
                    reply->Ok_0[i].bytes_written,
                    r->Ok_0[i],
                )
        },
{
    let packets = match reply {
        Ok(packets) => packets,
        Err(e) => return Err(e),
    };
    if packets.len() != requested {
        proof {
            reveal_strlit("transport returned a packet count that differs from the request");
        }
        return Err(
            Error::new(
                ErrorKind::Transfer,
                "transport returned a packet count that differs from the request",
            ),
        );
    }
    let mut results: Vec<Result<u32>> = Vec::new();
    let mut i: usize = 0;
    while i < packets.len()
        invariant
            i <= packets.len(),
            results.len() == i,
            forall|j: int|
                0 <= j < i ==> #[trigger] status_outcome(
                    packets[j].status,
                    packets[j].bytes_written,
                    results[j],
                ),
        decreases packets.len() - i,
    {
        let packet = packets[i];
        results.push(status_result(packet.status, packet.bytes_written));
        i = i + 1;
    }
    Ok(results)
}

/// The bytes of the packets, one after another.
pub open spec fn concat_packets(packets: Seq<Seq<u8>>) -> Seq<u8>
    decreases packets.len(),
{
    if packets.len() == 0 {
        Seq::empty()
    } else {
        concat_packets(packets.drop_last()) + packets.last()
    }
}

/// The contents of each packet.
pub open spec fn packet_views(packets: Seq<Vec<u8>>) -> Seq<Seq<u8>> {
    packets.map_values(|p: Vec<u8>| p@)
}

/// Lays out the packets of an isochronous transfer from host to device as the
/// transport takes them: one buffer holding the packets one after another,
/// and the length of each packet, in order.
pub fn isochronous_out_layout(packets: &[Vec<u8>]) -> (r: (Vec<u8>, Vec<u32>))
    requires
        forall|i: int| 0 <= i < packets@.len() ==> #[trigger] packets@[i].len() <= u32::MAX,
    ensures
        r.0@ == concat_packets(packet_views(packets@)),
        r.1.len() == packets@.len(),
        forall|i: int| 0 <= i < packets@.len() ==> #[trigger] r.1[i] == packets@[i].len(),
{
    let mut data: Vec<u8> = Vec::new();
    let mut lens: Vec<u32> = Vec::new();
    let mut i: usize = 0;
    while i < packets.len()
        invariant
            i <= packets@.len(),
            forall|j: int| 0 <= j < packets@.len() ==> #[trigger] packets@[j].len() <= u32::MAX,
            data@ == concat_packets(packet_views(packets@.take(i as int))),
            lens.len() == i,
            forall|j: int| 0 <= j < i ==> #[trigger] lens[j] == packets@[j].len(),
        decreases packets@.len() - i,
    {
        let packet = &packets[i];
        let mut k: usize = 0;
        let ghost before = data@;
        while k < packet.len()
            invariant
                k <= packet@.len(),
                data@ == before + packet@.take(k as int),
            decreases packet@.len() - k,
        {
            data.push(packet[k]);
            k = k + 1;
            proof {
                assert(packet@.take(k as int) == packet@.take(k - 1).push(packet@[k - 1]));
            }
        }
        proof {
            let prefix = packet_views(packets@.take(i + 1));
            assert(prefix.drop_last() == packet_views(packets@.take(i as int)));
            assert(prefix.last() == packet@);
            assert(packet@.take(k as int) == packet@);
        }
        lens.push(packet.len() as u32);
        i = i + 1;
    }
    proof {
        assert(packets@.take(i as int) == packets@);
    }
    (data, lens)
}

} // verus!

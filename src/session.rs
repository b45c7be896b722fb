//! The open-device session: exclusive access, interface claims,
//! configuration and alternate setting selection, and transfers.
//!
//! Each operation that the transport performs is split in two: the caller
//! hands the transport's outcome to the session method, which decides what
//! the caller observes and how the session's state moves on.

use vstd::prelude::*;

use crate::descriptor::{UsbConfiguration, UsbDevice, UsbDirection, UsbInterface};
use crate::error::{fails_with, Error, ErrorKind, Result};
use crate::transfer::{
    isochronous_in_results,
    isochronous_out_results,
    status_outcome,
    status_result,
    packet_count_message,
    UsbInTransferResult,
    UsbIsochronousInTransferPacket,
    UsbIsochronousOutTransferPacket,
    UsbOutTransferResult,
    UsbTransferStatus,
};

verus! {

/// The state of a session.
pub struct SessionView {
    /// The device snapshot taken when the session was opened, with its
    /// `opened` flag set; claims and selections are tracked by the fields below.
    pub device: UsbDevice,
    /// Whether the session has been closed.
    pub closed: bool,
    /// The value of the active configuration, if any.
    pub configuration: Option<u8>,
    /// The interfaces claimed for exclusive access.
    pub claimed: Set<u8>,
    /// The selected alternate setting of each interface.
    pub alternates: Map<u8, u8>,
}

/// An opened USB device.
pub struct OpenUsbDevice {
    device: UsbDevice,
    closed: bool,
    configuration: Option<u8>,
    claimed: [bool; 256],
    alternates: [u8; 256],
}

/// The interfaces of the active configuration of a device.
pub open spec fn active_interfaces(d: UsbDevice) -> Seq<UsbInterface> {
    match d.configuration {
        Some(c) => c.interfaces@,
        None => Seq::empty(),
    }
}

/// Whether some interface numbered `n` among `ifaces` is claimed.
pub open spec fn claimed_in(ifaces: Seq<UsbInterface>, n: u8) -> bool {
    exists|i: int|
        0 <= i < ifaces.len() && (#[trigger] ifaces[i]).interface_number == n && ifaces[i].claimed
}

/// The selected alternate setting of the last interface numbered `n` among
/// `ifaces`, or 0 if there is none.
pub open spec fn alternate_in(ifaces: Seq<UsbInterface>, n: u8) -> u8
    decreases ifaces.len(),
{
    if ifaces.len() == 0 {
        0
    } else if ifaces.last().interface_number == n {
        ifaces.last().alternate.alternate_setting
    } else {
        alternate_in(ifaces.drop_last(), n)
    }
}

/// The state of a session freshly opened on a device snapshot.
pub open spec fn opened_session(d: UsbDevice) -> SessionView {
    SessionView {
        device: UsbDevice { opened: true, ..d },
        closed: false,
        configuration: match d.configuration {
            Some(c) => Some(c.configuration_value),
            None => None,
        },
        claimed: Set::new(|n: u8| claimed_in(active_interfaces(d), n)),
        alternates: Map::new(|n: u8| true, |n: u8| alternate_in(active_interfaces(d), n)),
    }
}

/// The outcome of opening a device, given what the transport's open returned.
///
/// An open device is refused with `AlreadyOpen` whatever the transport would
/// do; otherwise a transport error passes on, and success yields a session.
pub open spec fn open_outcome(d: UsbDevice, transport: Result<()>, r: Result<OpenUsbDevice>) -> bool {
    if d.opened {
        fails_with(r, ErrorKind::AlreadyOpen)
    } else {
        match transport {
            Err(e) => r is Err && r->Err_0 == e,
            Ok(()) => r is Ok && r->Ok_0@ == opened_session(d),
        }
    }
}

/// Whether closing a session in state `v` must call the transport's close.
pub open spec fn close_calls_transport(v: SessionView) -> bool {
    !v.closed
}

/// The state of a session after it is closed.
pub open spec fn after_close(v: SessionView) -> SessionView {
    SessionView { closed: true, ..v }
}

/// The state after the transport claimed interface `n`.
pub open spec fn after_claim(v: SessionView, n: u8) -> SessionView {
    SessionView { claimed: v.claimed.insert(n), ..v }
}

/// The state after the transport released interface `n`.
pub open spec fn after_release(v: SessionView, n: u8) -> SessionView {
    SessionView { claimed: v.claimed.remove(n), ..v }
}

/// The state after the transport selected configuration `value`: every
/// interface is released and back at alternate setting 0.
pub open spec fn after_select_configuration(v: SessionView, value: u8) -> SessionView {
    SessionView {
        configuration: Some(value),
        claimed: Set::empty(),
        alternates: Map::new(|n: u8| true, |n: u8| 0u8),
        ..v
    }
}

/// The state after the transport selected alternate setting `alt` of interface `n`.
pub open spec fn after_select_alternate(v: SessionView, n: u8, alt: u8) -> SessionView {
    SessionView { alternates: v.alternates.insert(n, alt), ..v }
}

/// The state that an operation leaves: `next` if the transport succeeded,
/// else the state unchanged.
pub open spec fn if_done(outcome: Result<()>, v: SessionView, next: SessionView) -> SessionView {
    if outcome is Ok {
        next
    } else {
        v
    }
}

/// `r` is what a transfer from device to host yields for the transport's reply.
pub open spec fn in_transfer_outcome(reply: Result<UsbInTransferResult>, r: Result<Vec<u8>>) -> bool {
    match reply {
        Err(e) => r == Err::<Vec<u8>, Error>(e),
        Ok(res) => status_outcome(res.status, res.data, r),
    }
}

/// `r` is what a transfer from host to device yields for the transport's reply.
pub open spec fn out_transfer_outcome(reply: Result<UsbOutTransferResult>, r: Result<u32>) -> bool {
    match reply {
        Err(e) => r == Err::<u32, Error>(e),
        Ok(res) => status_outcome(res.status, res.bytes_written, r),
    }
}

impl View for OpenUsbDevice {
    type V = SessionView;

    closed spec fn view(&self) -> SessionView {
        SessionView {
            device: self.device,
            closed: self.closed,
            configuration: self.configuration,
            claimed: Set::new(|n: u8| self.claimed@[n as int]),
            alternates: Map::new(|n: u8| true, |n: u8| self.alternates@[n as int]),
        }
    }
}

impl OpenUsbDevice {
    #[verifier::type_invariant]
    spec fn device_is_open(&self) -> bool {
        self.device.opened
    }

    /// The USB device.
    ///
    /// Its `opened` flag is set: opening it again is refused.
    pub fn device(&self) -> (r: &UsbDevice)
        ensures
            *r == self@.device,
            r.opened,
    {
        proof {
            use_type_invariant(self);
        }
        &self.device
    }

    /// The value of the active configuration, if any.
    pub fn active_configuration(&self) -> (r: Option<u8>)
        ensures
            r == self@.configuration,
    {
        self.configuration
    }

    /// Whether interface `interface` is claimed by this session.
    pub fn is_claimed(&self, interface: u8) -> (r: bool)
        ensures
            r == self@.claimed.contains(interface),
    {
        self.claimed[interface as usize]
    }

    /// The selected alternate setting of interface `interface`.
    pub fn alternate_setting(&self, interface: u8) -> (r: u8)
        ensures
            r == self@.alternates[interface],
    {
        self.alternates[interface as usize]
    }

    /// Whether the session has been closed.
    pub fn is_closed(&self) -> (r: bool)
        ensures
            r == self@.closed,
    {
        self.closed
    }

    /// Marks the session closed and says whether the transport's close must
    /// be called: only the first close of a session calls it, so an explicit
    /// close followed by the implicit one on drop closes the device once.
    pub fn close(&mut self) -> (r: bool)
        ensures
            r == close_calls_transport(old(self)@),
            final(self)@ == after_close(old(self)@),
    {
        proof {
            use_type_invariant(&*self);
        }
        let first = !self.closed;
        self.closed = true;
        first
    }

    /// Completes a device reset: the transport's outcome passes on and the
    /// session's state is unchanged.
    pub fn reset(&self, outcome: Result<()>) -> (r: Result<()>)
        requires
            !self@.closed,
        ensures
            r == outcome,
    {
        outcome
    }

    /// Completes the selection of configuration `configuration`.
    pub fn select_configuration(&mut self, configuration: u8, outcome: Result<()>) -> (r: Result<()>)
        requires
            !old(self)@.closed,
        ensures
            r == outcome,
            final(self)@ == if_done(
                outcome,
                old(self)@,
                after_select_configuration(old(self)@, configuration),
            ),
    {
        proof {
            use_type_invariant(&*self);
        }
        if outcome.is_ok() {
            self.configuration = Some(configuration);
            self.claimed = [false; 256];
            self.alternates = [0u8; 256];
            proof {
                assert(self@.claimed =~= Set::<u8>::empty());
                assert(self@.alternates =~= Map::new(|n: u8| true, |n: u8| 0u8));
            }
        }
        outcome
    }

    /// Completes the claim of interface `interface` for exclusive access.
    pub fn claim_interface(&mut self, interface: u8, outcome: Result<()>) -> (r: Result<()>)
        requires
            !old(self)@.closed,
        ensures
            r == outcome,
            final(self)@ == if_done(outcome, old(self)@, after_claim(old(self)@, interface)),
    {
        proof {
            use_type_invariant(&*self);
        }
        if outcome.is_ok() {
            let mut claimed = self.claimed;
            claimed.set(interface as usize, true);
            self.claimed = claimed;
            proof {
                assert(self@.claimed =~= old(self)@.claimed.insert(interface));
                assert(self@.alternates =~= old(self)@.alternates);
            }
        }
        outcome
    }

    /// Completes the release of interface `interface`.
    pub fn release_interface(&mut self, interface: u8, outcome: Result<()>) -> (r: Result<()>)
        requires
            !old(self)@.closed,
        ensures
            r == outcome,
            final(self)@ == if_done(outcome, old(self)@, after_release(old(self)@, interface)),
    {
        proof {
            use_type_invariant(&*self);
        }
        if outcome.is_ok() {
            let mut claimed = self.claimed;
            claimed.set(interface as usize, false);
            self.claimed = claimed;
            proof {
                assert(self@.claimed =~= old(self)@.claimed.remove(interface));
                assert(self@.alternates =~= old(self)@.alternates);
            }
        }
        outcome
    }

    /// Completes the selection of alternate setting `alternate` of interface `interface`.
    pub fn select_alternate_interface(
        &mut self,
        interface: u8,
        alternate: u8,
        outcome: Result<()>,
    ) -> (r: Result<()>)
        requires
            !old(self)@.closed,
        ensures
            r == outcome,
            final(self)@ == if_done(
                outcome,
                old(self)@,
                after_select_alternate(old(self)@, interface, alternate),
            ),
    {
        proof {
            use_type_invariant(&*self);
        }
        if outcome.is_ok() {
            let mut alternates = self.alternates;
            alternates.set(interface as usize, alternate);
            self.alternates = alternates;
            proof {
                assert(self@.claimed =~= old(self)@.claimed);
                assert(self@.alternates =~= old(self)@.alternates.insert(interface, alternate));
            }
        }
        outcome
    }

    /// Completes the clearing of a halt condition on an endpoint: the
    /// transport's outcome passes on.
    pub fn clear_halt(&self, direction: UsbDirection, endpoint: u8, outcome: Result<()>) -> (r:
        Result<()>)
        requires
            !self@.closed,
        ensures
            r == outcome,
    {
        outcome
    }

    /// Completes a control transfer from device to host: the bytes that the
    /// device provided, which may be fewer than requested.
    pub fn control_transfer_in(&self, reply: Result<UsbInTransferResult>) -> (r: Result<Vec<u8>>)
        requires
            !self@.closed,
        ensures
            in_transfer_outcome(reply, r),
    {
        match reply {
            Ok(res) => status_result(res.status, res.data),
            Err(e) => Err(e),
        }
    }

    /// Completes a control transfer from host to device: the number of bytes
    /// written, which the caller compares with the payload length.
    pub fn control_transfer_out(&self, reply: Result<UsbOutTransferResult>) -> (r: Result<u32>)
        requires
            !self@.closed,
        ensures
            out_transfer_outcome(reply, r),
    {
        match reply {
            Ok(res) => status_result(res.status, res.bytes_written),
            Err(e) => Err(e),
        }
    }

    /// Completes a bulk or interrupt transfer from an endpoint of the device.
    pub fn transfer_in(&self, reply: Result<UsbInTransferResult>) -> (r: Result<Vec<u8>>)
        requires
            !self@.closed,
        ensures
            in_transfer_outcome(reply, r),
    {
        match reply {
            Ok(res) => status_result(res.status, res.data),
            Err(e) => Err(e),
        }
    }

    /// Completes a bulk or interrupt transfer to an endpoint of the device:
    /// the number of bytes sent.
    pub fn transfer_out(&self, reply: Result<UsbOutTransferResult>) -> (r: Result<u32>)
        requires
            !self@.closed,
        ensures
            out_transfer_outcome(reply, r),
    {
        match reply {
            Ok(res) => status_result(res.status, res.bytes_written),
            Err(e) => Err(e),
        }
    }

    /// Completes an isochronous transfer from the device of the packets whose
    /// lengths were requested: one result per packet, in request order.
    pub fn isochronous_transfer_in(
        &self,
        packet_lens: &[u32],
        reply: Result<Vec<UsbIsochronousInTransferPacket>>,
    ) -> (r: Result<Vec<Result<Vec<u8>>>>)
        requires
            !self@.closed,
        ensures
            reply is Err ==> r is Err && r->Err_0@ == reply->Err_0@,
            reply is Ok && reply->Ok_0.len() != packet_lens@.len() ==> r is Err && r->Err_0@ == (
                ErrorKind::Transfer,
                packet_count_message(),
            ),
            reply is Ok && reply->Ok_0.len() == packet_lens@.len() ==> {
                &&& r is Ok
                &&& r->Ok_0.len() == packet_lens@.len()
                &&& forall|i: int|
                    0 <= i < packet_lens@.len() ==> #[trigger] status_outcome(
                        reply->Ok_0[i].status,
                        reply->Ok_0[i].data,
                        r->Ok_0[i],
                    )
            },
    {
        isochronous_in_results(packet_lens.len(), reply)
    }

    /// Completes an isochronous transfer to the device of the given packets:
    /// the number of bytes written of each packet, in order.
    pub fn isochronous_transfer_out(
        &self,
        packets: &[Vec<u8>],
        reply: Result<Vec<UsbIsochronousOutTransferPacket>>,
    ) -> (r: Result<Vec<Result<u32>>>)
        requires
            !self@.closed,
        ensures
            reply is Err ==> r is Err && r->Err_0@ == reply->Err_0@,
            reply is Ok && reply->Ok_0.len() != packets@.len() ==> r is Err && r->Err_0@ == (
                ErrorKind::Transfer,
                packet_count_message(),
            ),
            reply is Ok && reply->Ok_0.len() == packets@.len() ==> {
                &&& r is Ok
                &&& r->Ok_0.len() == packets@.len()
                &&& forall|i: int|
                    0 <= i < packets@.len() ==> #[trigger] status_outcome(
                        reply->Ok_0[i].status,
                        reply->Ok_0[i].bytes_written,
                        r->Ok_0[i],
                    )
            },
    {
        isochronous_out_results(packets.len(), reply)
    }
}

/// Opening any device that is already open fails with `AlreadyOpen` and
/// creates no session.
pub proof fn open_refused_when_open(d: UsbDevice, transport: Result<()>, r: Result<OpenUsbDevice>)
    requires
        d.opened,
        open_outcome(d, transport, r),
    ensures
        r is Err,
        fails_with(r, ErrorKind::AlreadyOpen),
{
}

/// Closing a session twice (an explicit close, then the implicit one on
/// drop) calls the transport's close at most once, and a second close leaves
/// the session as the first one did.
pub proof fn second_close_is_silent(v: SessionView)
    ensures
        !close_calls_transport(after_close(v)),
        after_close(after_close(v)) == after_close(v),
{
}

/// A control transfer out followed by a control transfer in against a device
/// that echoes the payload returns the bytes that were sent, and reports the
/// whole payload as written.
pub proof fn control_echo_round_trip(
    payload: Seq<u8>,
    out_reply: UsbOutTransferResult,
    in_reply: UsbInTransferResult,
    out_r: Result<u32>,
    in_r: Result<Vec<u8>>,
)
    requires
        out_reply.status == UsbTransferStatus::Completed,
        out_reply.bytes_written == payload.len(),
        in_reply.status == UsbTransferStatus::Completed,
        in_reply.data@ == payload,
        out_transfer_outcome(Ok(out_reply), out_r),
        in_transfer_outcome(Ok(in_reply), in_r),
    ensures
        out_r is Ok && out_r->Ok_0 == payload.len(),
        in_r is Ok && in_r->Ok_0@ == payload,
{
}

impl UsbDevice {
    /// Checks that the device may be opened: an open device is refused with
    /// `AlreadyOpen` before any request reaches the transport.
    pub fn check_open(&self) -> (r: Result<()>)
        ensures
            self.opened ==> fails_with(r, ErrorKind::AlreadyOpen),
            !self.opened ==> r is Ok,
    {
        if self.opened {
            Err(Error::new(ErrorKind::AlreadyOpen, "USB device is already open"))
        } else {
            Ok(())
        }
    }

    /// Opens a session on this device, given what the transport's open
    /// returned. The snapshot moves into the session.
    pub fn open(self, outcome: Result<()>) -> (r: Result<OpenUsbDevice>)
        ensures
            open_outcome(self, outcome, r),
    {
        if self.opened {
            return Err(Error::new(ErrorKind::AlreadyOpen, "USB device is already open"));
        }
        match outcome {
            Err(e) => Err(e),
            Ok(()) => {
                let mut claimed: [bool; 256] = [false; 256];
                let mut alternates: [u8; 256] = [0u8; 256];
                let configuration = match &self.configuration {
                    Some(c) => {
                        fill_interface_state(c, &mut claimed, &mut alternates);
                        Some(c.configuration_value)
                    },
                    None => None,
                };
                let mut device = self;
                device.opened = true;
                let session = OpenUsbDevice {
                    device,
                    closed: false,
                    configuration,
                    claimed,
                    alternates,
                };
                proof {
                    let ifaces = active_interfaces(self);
                    assert(session@.claimed =~= Set::new(|n: u8| claimed_in(ifaces, n)));
                    assert(session@.alternates =~= Map::new(
                        |n: u8| true,
                        |n: u8| alternate_in(ifaces, n),
                    ));
                    assert(session@.device == UsbDevice { opened: true, ..self });
                }
                Ok(session)
            },
        }
    }
}

/// Records the claims and selected alternate settings of a configuration's
/// interfaces, indexed by interface number.
fn fill_interface_state(
    config: &UsbConfiguration,
    claimed: &mut [bool; 256],
    alternates: &mut [u8; 256],
)
    requires
        forall|n: int| 0 <= n < 256 ==> !old(claimed)@[n],
        forall|n: int| 0 <= n < 256 ==> old(alternates)@[n] == 0,
    ensures
        forall|n: u8| #[trigger]
            final(claimed)@[n as int] == claimed_in(config.interfaces@, n),
        forall|n: u8| #[trigger]
            final(alternates)@[n as int] == alternate_in(config.interfaces@, n),
{
    let ghost ifaces = config.interfaces@;
    let mut i: usize = 0;
    while i < config.interfaces.len()
        invariant
            i <= ifaces.len(),
            ifaces == config.interfaces@,
            forall|n: u8| #[trigger] claimed@[n as int] == claimed_in(ifaces.take(i as int), n),
            forall|n: u8| #[trigger] alternates@[n as int] == alternate_in(ifaces.take(i as int), n),
        decreases ifaces.len() - i,
    {
        let iface = &config.interfaces[i];
        let n = iface.interface_number;
        if iface.claimed {
            claimed.set(n as usize, true);
        }
        alternates.set(n as usize, iface.alternate.alternate_setting);
        proof {
            let prev = ifaces.take(i as int);
            let next = ifaces.take(i + 1);
            assert(next.drop_last() == prev);
            assert(next.last() == ifaces[i as int]);
            assert forall|m: u8| #[trigger] claimed@[m as int] == claimed_in(next, m) by {
                if claimed_in(prev, m) {
                    let j = choose|j: int|
                        0 <= j < prev.len() && (#[trigger] prev[j]).interface_number == m
                            && prev[j].claimed;
                    assert(next[j] == prev[j]);
                }
                if claimed_in(next, m) {
                    let j = choose|j: int|
                        0 <= j < next.len() && (#[trigger] next[j]).interface_number == m
                            && next[j].claimed;
                    if j < i {
                        assert(prev[j] == next[j]);
                    }
                }
            }
            assert forall|m: u8| #[trigger]
                alternates@[m as int] == alternate_in(next, m) by {
            }
        }
        i = i + 1;
    }
    proof {
        assert(ifaces.take(i as int) == ifaces);
    }
}

} // verus!

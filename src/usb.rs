use vstd::prelude::*;

use crate::descriptors::{
    descriptor_for, device_descriptor_bytes, endpoint_table, init_bytes, init_bytes_spec, lookup_descriptor,
    ENDPOINT0_SIZE, GAMEPAD_INTERFACE,
};
use crate::fightstick::FightstickDescriptor;

verus! {

/// The kind of a control request on endpoint 0.
#[derive(Clone, Copy, Debug, PartialEq, Eq, Structural)]
pub enum RequestType {
    GetStatus,
    ClearFeature,
    SetFeature,
    SetAddress,
    GetDescriptor,
    GetConfiguration,
    SetConfiguration,
    GetInterface,
    SetInterface,
    HidGetReport,
    HidSetReport,
    HidGetIdle,
    HidSetIdle,
    HidGetProtocol,
    HidSetProtocol,
    Stall,
}

/// The kind of the request with `bmRequestType` `t`, `bRequest` `n` and low
/// byte `i` of `wIndex`. HID class requests are recognised on the gamepad
/// interface only; a standard request falls back on its number alone.
pub open spec fn request_kind(t: u8, n: u8, i: u8) -> RequestType {
    if t == 0x80 && n == 8 {
        RequestType::GetConfiguration
    } else if t == 0 && n == 9 {
        RequestType::SetConfiguration
    } else if t == 0xA1 && n == 1 && i == GAMEPAD_INTERFACE {
        RequestType::HidGetReport
    } else if t == 0xA1 && n == 2 && i == GAMEPAD_INTERFACE {
        RequestType::HidGetIdle
    } else if t == 0xA1 && n == 3 && i == GAMEPAD_INTERFACE {
        RequestType::HidGetProtocol
    } else if t == 0x21 && n == 9 && i == GAMEPAD_INTERFACE {
        RequestType::HidSetReport
    } else if t == 0x21 && n == 10 && i == GAMEPAD_INTERFACE {
        RequestType::HidSetIdle
    } else if t == 0x21 && n == 11 && i == GAMEPAD_INTERFACE {
        RequestType::HidSetProtocol
    } else if n == 0 {
        RequestType::GetStatus
    } else if n == 5 {
        RequestType::SetAddress
    } else if n == 6 {
        RequestType::GetDescriptor
    } else {
        RequestType::Stall
    }
}

/// Whether the triple matches one of the request patterns the device serves.
pub open spec fn known_request(t: u8, n: u8, i: u8) -> bool {
    ||| (t == 0x80 && n == 8)
    ||| (t == 0 && n == 9)
    ||| (t == 0xA1 && (n == 1 || n == 2 || n == 3) && i == GAMEPAD_INTERFACE)
    ||| (t == 0x21 && (n == 9 || n == 10 || n == 11) && i == GAMEPAD_INTERFACE)
    ||| n == 0
    ||| n == 5
    ||| n == 6
}

/// A request that matches no pattern is answered with a stall, and only such
/// a request is.
pub proof fn lemma_unknown_request_stalls(t: u8, n: u8, i: u8)
    ensures
        request_kind(t, n, i) == RequestType::Stall <==> !known_request(t, n, i),
{
}

impl RequestType {
    /// Classifies a control request by its type, number and interface.
    pub fn from_u8(request_type: u8, request_num: u8, index: u8) -> (r: RequestType)
        ensures
            r == request_kind(request_type, request_num, index),
    {
        match (request_type, request_num, index) {
            (0x80, 8, _) => RequestType::GetConfiguration,
            (0, 9, _) => RequestType::SetConfiguration,
            (0xA1, 1, GAMEPAD_INTERFACE) => RequestType::HidGetReport,
            (0xA1, 2, GAMEPAD_INTERFACE) => RequestType::HidGetIdle,
            (0xA1, 3, GAMEPAD_INTERFACE) => RequestType::HidGetProtocol,
            (0x21, 9, GAMEPAD_INTERFACE) => RequestType::HidSetReport,
            (0x21, 10, GAMEPAD_INTERFACE) => RequestType::HidSetIdle,
            (0x21, 11, GAMEPAD_INTERFACE) => RequestType::HidSetProtocol,
            (_, 0, _) => RequestType::GetStatus,
            (_, 5, _) => RequestType::SetAddress,
            (_, 6, _) => RequestType::GetDescriptor,
            _ => RequestType::Stall,
        }
    }
}

/// The eight bytes of a control request's setup stage.
#[derive(Clone, Copy, Debug, PartialEq, Eq, Structural)]
pub struct SetupPacket {
    pub request_type: u8,
    pub request: u8,
    pub value: u16,
    pub index: u16,
    pub length: u16,
}

/// The 16-bit little-endian number in bytes `lo` and `hi`.
pub open spec fn le_u16(lo: u8, hi: u8) -> u16 {
    (lo as int + 256 * hi as int) as u16
}

/// The low byte of a 16-bit number.
pub open spec fn low_byte(v: u16) -> u8 {
    (v as int % 256) as u8
}

/// The high byte of a 16-bit number.
pub open spec fn high_byte(v: u16) -> u8 {
    (v as int / 256) as u8
}

impl SetupPacket {
    /// Reads a setup packet: `bmRequestType`, `bRequest`, then `wValue`,
    /// `wIndex` and `wLength` in little-endian order.
    pub fn parse(bytes: &[u8; 8]) -> (r: SetupPacket)
        ensures
            r.request_type == bytes[0],
            r.request == bytes[1],
            r.value == le_u16(bytes[2], bytes[3]),
            r.index == le_u16(bytes[4], bytes[5]),
            r.length == le_u16(bytes[6], bytes[7]),
    {
        SetupPacket {
            request_type: bytes[0],
            request: bytes[1],
            value: bytes[2] as u16 + (bytes[3] as u16) * 256,
            index: bytes[4] as u16 + (bytes[5] as u16) * 256,
            length: bytes[6] as u16 + (bytes[7] as u16) * 256,
        }
    }

    /// The kind of this request.
    pub open spec fn kind(self) -> RequestType {
        request_kind(self.request_type, self.request, low_byte(self.index))
    }
}

/// One IN data stage on endpoint 0, sent in packets of at most
/// `ENDPOINT0_SIZE` bytes. A packet shorter than that ends the transfer, so
/// a transfer whose length is a multiple of the packet size ends with an
/// empty packet.
pub struct ControlInTransfer {
    data: Vec<u8>,
    sent: usize,
    finished: bool,
}

/// Length of the packet that follows once `sent` of `total` bytes are out.
pub open spec fn packet_len(total: nat, sent: nat) -> nat {
    if total - sent < ENDPOINT0_SIZE {
        (total - sent) as nat
    } else {
        ENDPOINT0_SIZE as nat
    }
}

impl ControlInTransfer {
    /// The bytes of the whole transfer.
    pub closed spec fn data(&self) -> Seq<u8> {
        self.data@
    }

    /// How many of them have been handed out.
    pub closed spec fn sent(&self) -> nat {
        self.sent as nat
    }

    /// Whether the transfer has ended, by its last packet or by the host.
    pub closed spec fn is_finished(&self) -> bool {
        self.finished
    }

    pub open spec fn wf(&self) -> bool {
        self.sent() <= self.data().len()
    }

    /// A transfer of `data` that has not started.
    pub fn new(data: Vec<u8>) -> (r: ControlInTransfer)
        ensures
            r.wf(),
            r.data() == data@,
            r.sent() == 0,
            !r.is_finished(),
    {
        ControlInTransfer { data, sent: 0, finished: false }
    }

    /// Whether the transfer has ended.
    pub fn finished(&self) -> (r: bool)
        ensures
            r == self.is_finished(),
    {
        self.finished
    }

    /// The next packet to send once the host is ready, or `None` when the
    /// transfer is over. `host_out` tells that the host has already begun
    /// its status stage, which ends the transfer early.
    pub fn next_packet(&mut self, host_out: bool) -> (r: Option<Vec<u8>>)
        requires
            old(self).wf(),
        ensures
            final(self).wf(),
            final(self).data() == old(self).data(),
            old(self).is_finished() ==> r is None && final(self).sent() == old(self).sent()
                && final(self).is_finished(),
            !old(self).is_finished() && host_out ==> r is None && final(self).sent()
                == old(self).sent() && final(self).is_finished(),
            !old(self).is_finished() && !host_out ==> {
                let n = packet_len(old(self).data().len(), old(self).sent());
                &&& r matches Some(p) && p@ == old(self).data().subrange(
                    old(self).sent() as int,
                    (old(self).sent() + n) as int,
                )
                &&& final(self).sent() == old(self).sent() + n
                &&& final(self).is_finished() == (n < ENDPOINT0_SIZE)
            },
    {
        if self.finished {
            return None;
        }
        if host_out {
            self.finished = true;
            return None;
        }
        let left = self.data.len() - self.sent;
        let n: usize = if left < ENDPOINT0_SIZE as usize {
            left
        } else {
            ENDPOINT0_SIZE as usize
        };
        let mut packet: Vec<u8> = Vec::new();
        let mut i: usize = 0;
        while i < n
            invariant
                self.sent + n <= self.data.len(),
                i <= n,
                packet@ == self.data@.subrange(self.sent as int, self.sent + i),
            decreases n - i,
        {
            packet.push(self.data[self.sent + i]);
            assert(packet@ =~= self.data@.subrange(self.sent as int, self.sent + i + 1));
            i = i + 1;
        }
        self.sent = self.sent + n;
        if n < ENDPOINT0_SIZE as usize {
            self.finished = true;
        }
        Some(packet)
    }
}

/// How one endpoint is to be set up when the host selects the
/// configuration: its enable byte and, for an enabled endpoint, its two
/// configuration bytes (type and direction; size and banks).
#[derive(Clone, Copy, Debug, PartialEq, Eq, Structural)]
pub struct EndpointSetup {
    pub number: u8,
    pub enable: u8,
    pub config: Option<EndpointConfig>,
}

/// The two configuration bytes of an enabled endpoint.
#[derive(Clone, Copy, Debug, PartialEq, Eq, Structural)]
pub struct EndpointConfig {
    /// Type and direction.
    pub cfg0: u8,
    /// Size and banks.
    pub cfg1: u8,
}

/// Number of endpoints besides endpoint 0.
pub const ENDPOINT_COUNT: u8 = 4;

/// Position in the table `t` of the entry of the `k`-th endpoint after 0.
pub open spec fn entry_start(t: Seq<u8>, k: nat) -> int
    decreases k,
{
    if k == 0 {
        0
    } else {
        let p = entry_start(t, (k - 1) as nat);
        if 0 <= p < t.len() && t[p] > 0 {
            p + 3
        } else {
            p + 1
        }
    }
}

/// Whether the `k`-th entry lies wholly inside the table.
pub open spec fn entry_fits(t: Seq<u8>, k: nat) -> bool {
    let p = entry_start(t, k);
    &&& p < t.len()
    &&& t[p] > 0 ==> p + 2 < t.len()
}

/// The setup of endpoint `k + 1` that the table describes.
pub open spec fn entry_at(t: Seq<u8>, k: nat) -> EndpointSetup {
    let p = entry_start(t, k);
    EndpointSetup {
        number: (k + 1) as u8,
        enable: t[p],
        config: if t[p] > 0 {
            Some(EndpointConfig { cfg0: t[p + 1], cfg1: t[p + 2] })
        } else {
            None
        },
    }
}

/// Reads the setups of endpoints 1 to `ENDPOINT_COUNT` from an endpoint
/// table; `None` when the table ends inside an entry.
pub fn configure_endpoints(table: &Vec<u8>) -> (r: Option<Vec<EndpointSetup>>)
    ensures
        r is Some <==> forall|k: nat| k < ENDPOINT_COUNT ==> #[trigger] entry_fits(table@, k),
        r matches Some(v) ==> v.len() == ENDPOINT_COUNT && forall|k: int|
            0 <= k < ENDPOINT_COUNT ==> v[k] == #[trigger] entry_at(table@, k as nat),
{
    let mut v: Vec<EndpointSetup> = Vec::new();
    let mut table_index: usize = 0;
    let mut i: u8 = 0;
    while i < ENDPOINT_COUNT
        invariant
            i <= ENDPOINT_COUNT,
            table_index as int == entry_start(table@, i as nat),
            v.len() == i,
            forall|k: nat| k < i ==> #[trigger] entry_fits(table@, k),
            forall|k: int| 0 <= k < i ==> v[k] == #[trigger] entry_at(table@, k as nat),
        decreases ENDPOINT_COUNT - i,
    {
        if table_index >= table.len() {
            assert(!entry_fits(table@, i as nat));
            return None;
        }
        let en = table[table_index];
        if en > 0 {
            if table.len() - table_index <= 2 {
                assert(!entry_fits(table@, i as nat));
                return None;
            }
            v.push(
                EndpointSetup {
                    number: i + 1,
                    enable: en,
                    config: Some(EndpointConfig { cfg0: table[table_index + 1], cfg1: table[table_index + 2] }),
                },
            );
            table_index = table_index + 3;
        } else {
            v.push(EndpointSetup { number: i + 1, enable: en, config: None });
            table_index = table_index + 1;
        }
        proof {
            assert(entry_fits(table@, i as nat));
            assert(v[i as int] == entry_at(table@, i as nat));
        }
        i = i + 1;
    }
    Some(v)
}

/// The endpoint setups of the device's one configuration.
pub fn gamepad_endpoints() -> (r: Vec<EndpointSetup>)
    ensures
        r@ == seq![
            EndpointSetup { number: 1, enable: 1, config: Some(EndpointConfig { cfg0: 0xC1u8, cfg1: 0x32u8 }) },
            EndpointSetup { number: 2, enable: 0, config: None },
            EndpointSetup { number: 3, enable: 0, config: None },
            EndpointSetup { number: 4, enable: 0, config: None },
        ],
{
    let table = endpoint_table();
    let ghost t = table@;
    assert(entry_start(t, 0) == 0);
    assert(entry_start(t, 1) == 3);
    assert(entry_start(t, 2) == 4);
    assert(entry_start(t, 3) == 5);
    assert(entry_fits(t, 0) && entry_fits(t, 1) && entry_fits(t, 2) && entry_fits(t, 3));
    assert forall|k: nat| k < ENDPOINT_COUNT implies #[trigger] entry_fits(t, k) by {
        if k == 0 {
        } else if k == 1 {
        } else if k == 2 {
        } else {
        }
    }
    match configure_endpoints(&table) {
        Some(v) => {
            assert(v[0] == entry_at(t, 0));
            assert(v[1] == entry_at(t, 1));
            assert(v[2] == entry_at(t, 2));
            assert(v[3] == entry_at(t, 3));
            assert(v@ =~= seq![
                EndpointSetup { number: 1, enable: 1, config: Some(EndpointConfig { cfg0: 0xC1u8, cfg1: 0x32u8 }) },
                EndpointSetup { number: 2, enable: 0, config: None },
                EndpointSetup { number: 3, enable: 0, config: None },
                EndpointSetup { number: 4, enable: 0, config: None },
            ]);
            v
        },
        None => {
            assert(false);
            Vec::new()
        },
    }
}

/// What endpoint 0 does in answer to a setup packet.
pub enum ControlAction {
    /// Signal a protocol stall.
    Stall,
    /// Send a descriptor in the data stage, packet by packet.
    SendDescriptor(ControlInTransfer),
    /// Acknowledge the status stage, then take on the address.
    SetAddress(u8),
    /// Acknowledge, set up the endpoints as given and reset them.
    Configure(Vec<EndpointSetup>),
    /// Send these bytes in the data stage once the endpoint is ready.
    Reply(Vec<u8>),
    /// Acknowledge with an empty status stage.
    Acknowledge,
    /// Take in the host's data stage, discard it, and acknowledge.
    ReceiveAndAcknowledge,
}

/// The endpoint setups of the one configuration, as `gamepad_endpoints`
/// returns them.
pub open spec fn gamepad_endpoint_seq() -> Seq<EndpointSetup> {
    seq![
        EndpointSetup { number: 1, enable: 1, config: Some(EndpointConfig { cfg0: 0xC1u8, cfg1: 0x32u8 }) },
        EndpointSetup { number: 2, enable: 0, config: None },
        EndpointSetup { number: 3, enable: 0, config: None },
        EndpointSetup { number: 4, enable: 0, config: None },
    ]
}

/// The first `length` bytes of `d`, or all of it when it is shorter.
pub open spec fn requested_part(d: Seq<u8>, length: u16) -> Seq<u8> {
    if (length as int) < d.len() {
        d.take(length as int)
    } else {
        d
    }
}

/// A `GET_DESCRIPTOR` request for the device descriptor (`wValue` 0x0100,
/// `wIndex` 0) that allows at least 18 bytes is answered with exactly the
/// 18-byte device descriptor, whose bytes 8 to 11 are the vendor and product
/// identifiers in little-endian order.
pub proof fn lemma_device_descriptor_request(setup: SetupPacket)
    requires
        setup.request == 6,
        setup.value == 0x0100,
        setup.index == 0,
        setup.length >= 18,
    ensures
        setup.kind() == RequestType::GetDescriptor,
        descriptor_for(setup.value, setup.index) == Some(device_descriptor_bytes()),
        requested_part(device_descriptor_bytes(), setup.length) == device_descriptor_bytes(),
        device_descriptor_bytes().len() == 18,
        device_descriptor_bytes().subrange(8, 12) == seq![0xC0u8, 0x10u8, 0xC0u8, 0x82u8],
{
    assert(device_descriptor_bytes().subrange(8, 12) =~= seq![0xC0u8, 0x10u8, 0xC0u8, 0x82u8]);
}

/// The enumeration state of the device.
#[derive(Clone, Copy, Debug, PartialEq, Eq, Structural)]
pub struct UsbDevice {
    /// The selected configuration; 0 while the device is not configured.
    pub configuration: u8,
    /// The idle rate the host set.
    pub idle_rate: u8,
    /// The HID protocol the host set; 1 is the report protocol.
    pub protocol: u8,
}

/// The state of a device after power-up or a bus reset.
pub open spec fn unconfigured() -> UsbDevice {
    UsbDevice { configuration: 0, idle_rate: 0, protocol: 1 }
}

/// Frames a gamepad report may wait for the endpoint before it is given up.
pub const REPORT_DEADLINE_FRAMES: u16 = 50;

/// The USB frame number is an 11-bit counter: it counts modulo this.
pub const FRAME_NUMBER_MODULUS: u16 = 2048;

/// Frames gone by from frame number `start` to frame number `frame`, on the
/// wrapping 11-bit frame counter.
pub open spec fn frames_elapsed(start: int, frame: int) -> int {
    (frame - start) % (FRAME_NUMBER_MODULUS as int)
}

/// A gamepad report waiting for its endpoint since a given frame.
pub struct ReportPush {
    start: u16,
}

impl ReportPush {
    /// The frame number at which the wait began, reduced to the counter's
    /// range.
    pub closed spec fn start(&self) -> int {
        self.start as int
    }
}

/// The next move of a waiting gamepad report.
#[derive(Clone, Copy, Debug, PartialEq, Eq)]
pub enum PushStep {
    /// The endpoint can take data: write these four bytes and send them.
    Send(FightstickDescriptor),
    /// Keep waiting.
    Wait,
    /// Give the report up.
    Abort,
}

impl UsbDevice {
    /// A device that is not configured, with the report protocol selected.
    pub fn new() -> (r: UsbDevice)
        ensures
            r == unconfigured(),
    {
        UsbDevice { configuration: 0, idle_rate: 0, protocol: 1 }
    }

    /// A bus reset returns the device to its unconfigured state.
    pub fn on_bus_reset(&mut self)
        ensures
            *final(self) == unconfigured(),
    {
        self.configuration = 0;
        self.idle_rate = 0;
        self.protocol = 1;
    }

    /// Whether the host has selected a configuration.
    pub fn is_configured(&self) -> (r: bool)
        ensures
            r == (self.configuration != 0),
    {
        self.configuration != 0
    }

    /// Serves one control request: records what it sets and returns what
    /// endpoint 0 is to do.
    pub fn handle_setup(&mut self, setup: &SetupPacket) -> (r: ControlAction)
        ensures
            ({
                let k = setup.kind();
                let s = *old(self);
                &&& final(self).configuration == (if k == RequestType::SetConfiguration {
                    low_byte(setup.value)
                } else {
                    s.configuration
                })
                &&& final(self).idle_rate == (if k == RequestType::HidSetIdle {
                    high_byte(setup.value)
                } else {
                    s.idle_rate
                })
                &&& final(self).protocol == (if k == RequestType::HidSetProtocol {
                    low_byte(setup.value)
                } else {
                    s.protocol
                })
                &&& k == RequestType::GetDescriptor ==> match descriptor_for(setup.value, setup.index) {
                    Some(d) => r matches ControlAction::SendDescriptor(t) && t.wf() && t.data()
                        == requested_part(d, setup.length) && t.sent() == 0 && !t.is_finished(),
                    None => r is Stall,
                }
                &&& k == RequestType::SetAddress ==> r == ControlAction::SetAddress(
                    (setup.value % 128) as u8,
                )
                &&& k == RequestType::SetConfiguration ==> (r matches ControlAction::Configure(v)
                    && v@ == gamepad_endpoint_seq())
                &&& k == RequestType::GetConfiguration ==> (r matches ControlAction::Reply(v) && v@
                    == seq![s.configuration])
                &&& k == RequestType::GetStatus ==> (r matches ControlAction::Reply(v) && v@ == seq![0u8, 0u8])
                &&& k == RequestType::HidGetIdle ==> (r matches ControlAction::Reply(v) && v@
                    == seq![s.idle_rate])
                &&& k == RequestType::HidGetProtocol ==> (r matches ControlAction::Reply(v) && v@
                    == seq![s.protocol])
                &&& k == RequestType::HidGetReport ==> (r matches ControlAction::Reply(v) && v@
                    == init_bytes_spec())
                &&& k == RequestType::HidSetReport ==> r is ReceiveAndAcknowledge
                &&& (k == RequestType::HidSetIdle || k == RequestType::HidSetProtocol) ==> r is Acknowledge
                &&& (k == RequestType::Stall || k == RequestType::ClearFeature || k
                    == RequestType::SetFeature || k == RequestType::GetInterface || k
                    == RequestType::SetInterface) ==> r is Stall
            }),
    {
        let request_type = setup.request_type;
        let value = setup.value;
        match RequestType::from_u8(request_type, setup.request, (setup.index % 256) as u8) {
            RequestType::GetDescriptor => match lookup_descriptor(value, setup.index) {
                Some(mut d) => {
                    if (setup.length as usize) < d.len() {
                        d.truncate(setup.length as usize);
                    }
                    ControlAction::SendDescriptor(ControlInTransfer::new(d))
                },
                None => ControlAction::Stall,
            },
            RequestType::SetAddress => ControlAction::SetAddress((value % 128) as u8),
            RequestType::SetConfiguration => {
                if request_type == 0 {
                    self.configuration = (value % 256) as u8;
                    ControlAction::Configure(gamepad_endpoints())
                } else {
                    ControlAction::Stall
                }
            },
            RequestType::GetConfiguration => {
                if request_type == 0x80 {
                    ControlAction::Reply(vec![self.configuration])
                } else {
                    ControlAction::Stall
                }
            },
            RequestType::GetStatus => ControlAction::Reply(vec![0, 0]),
            RequestType::HidGetIdle => ControlAction::Reply(vec![self.idle_rate]),
            RequestType::HidGetProtocol => ControlAction::Reply(vec![self.protocol]),
            RequestType::HidGetReport => ControlAction::Reply(init_bytes()),
            RequestType::HidSetReport => ControlAction::ReceiveAndAcknowledge,
            RequestType::HidSetIdle => {
                self.idle_rate = (value / 256) as u8;
                ControlAction::Acknowledge
            },
            RequestType::HidSetProtocol => {
                self.protocol = (value % 256) as u8;
                ControlAction::Acknowledge
            },
            _ => ControlAction::Stall,
        }
    }

    /// Starts pushing a gamepad report at USB frame `frame`: nothing to do
    /// while the device is not configured, else a wait that starts at that
    /// frame.
    pub fn begin_report(&self, frame: u16) -> (r: Option<ReportPush>)
        ensures
            self.configuration == 0 ==> r is None,
            self.configuration != 0 ==> (r matches Some(p) && p.start() == frame as int
                % FRAME_NUMBER_MODULUS as int),
    {
        if self.configuration == 0 {
            None
        } else {
            Some(ReportPush { start: frame % FRAME_NUMBER_MODULUS })
        }
    }

    /// One look at the gamepad endpoint while a report waits: send `report`
    /// once the endpoint can take data; give up if the device was
    /// deconfigured or `REPORT_DEADLINE_FRAMES` frames have gone by, counted
    /// across the wrap of the frame counter.
    pub fn poll_report(
        &self,
        push: &ReportPush,
        rwal: bool,
        frame: u16,
        report: &FightstickDescriptor,
    ) -> (r: PushStep)
        ensures
            rwal ==> r == PushStep::Send(*report),
            !rwal && self.configuration == 0 ==> r == PushStep::Abort,
            !rwal && self.configuration != 0 && frames_elapsed(push.start(), frame as int)
                >= REPORT_DEADLINE_FRAMES ==> r == PushStep::Abort,
            !rwal && self.configuration != 0 && frames_elapsed(push.start(), frame as int)
                < REPORT_DEADLINE_FRAMES ==> r == PushStep::Wait,
    {
        if rwal {
            return PushStep::Send(*report);
        }
        if self.configuration == 0 {
            return PushStep::Abort;
        }
        let start = push.start % FRAME_NUMBER_MODULUS;
        let now = frame % FRAME_NUMBER_MODULUS;
        let elapsed: u16 = if now >= start {
            now - start
        } else {
            now + FRAME_NUMBER_MODULUS - start
        };
        assert(elapsed as int == frames_elapsed(push.start(), frame as int)) by (nonlinear_arith)
            requires
                start as int == push.start() % 2048,
                now as int == frame as int % 2048,
                elapsed as int == if now >= start {
                    now - start
                } else {
                    now + 2048 - start
                },
                0 <= push.start(),
                FRAME_NUMBER_MODULUS == 2048,
        ;
        if elapsed >= REPORT_DEADLINE_FRAMES {
            PushStep::Abort
        } else {
            PushStep::Wait
        }
    }
}

/// Polls a control endpoint may spend waiting for the hardware before the
/// request is given up.
pub const CONTROL_WAIT_LIMIT: u32 = 60000;

/// The next move of a bounded wait for a hardware flag.
#[derive(Clone, Copy, Debug, PartialEq, Eq, Structural)]
pub enum WaitStep {
    Ready,
    Pending,
    Expired,
}

/// A wait for a hardware flag that gives up after a number of polls.
pub struct ControlWait {
    remaining: u32,
}

impl ControlWait {
    /// Polls left before the wait gives up.
    pub closed spec fn polls_left(&self) -> nat {
        self.remaining as nat
    }

    /// A wait that allows `limit` unsuccessful polls.
    pub fn new(limit: u32) -> (r: ControlWait)
        ensures
            r.polls_left() == limit,
    {
        ControlWait { remaining: limit }
    }

    /// One poll of the flag: done when it is set, expired when no poll is
    /// left, else one poll fewer remains.
    pub fn poll(&mut self, ready: bool) -> (r: WaitStep)
        ensures
            ready ==> r == WaitStep::Ready && final(self).polls_left() == old(self).polls_left(),
            !ready && old(self).polls_left() == 0 ==> r == WaitStep::Expired
                && final(self).polls_left() == 0,
            !ready && old(self).polls_left() > 0 ==> r == WaitStep::Pending
                && final(self).polls_left() == old(self).polls_left() - 1,
    {
        if ready {
            WaitStep::Ready
        } else if self.remaining == 0 {
            WaitStep::Expired
        } else {
            self.remaining = self.remaining - 1;
            WaitStep::Pending
        }
    }
}

} // verus!

use vstd::prelude::*;

use crate::fightstick::{idle_bytes, FightstickDescriptor};
use crate::usart::{UsartCommand, INTRODUCTION, SEND_DATA};

verus! {

/// Progress of the one-time handshake, seen from the bridge.
#[derive(Clone, Copy, Debug, PartialEq, Eq, Structural)]
pub enum HandshakeState {
    NotStarted,
    IntroductionSent,
    Ready,
}

/// The bridge's side of the serial link as mathematical values.
pub struct LinkState {
    /// An introduction was sent and its echo has not arrived yet.
    pub sent_intro: bool,
    /// The handshake has completed.
    pub ready: bool,
    /// A data frame is being collected.
    pub collecting: bool,
    /// Position in the frame of the next data byte.
    pub write_index: nat,
    /// The frame being collected.
    pub staging: Seq<u8>,
    /// The last complete frame, as the rest of the bridge sees it.
    pub published: Seq<u8>,
}

impl LinkState {
    /// The frame position is only nonzero while a frame is being collected,
    /// and both frames hold four bytes.
    pub open spec fn wf(self) -> bool {
        &&& self.write_index < 4
        &&& self.write_index != 0 ==> self.collecting
        &&& self.staging.len() == 4
        &&& self.published.len() == 4
    }

    pub open spec fn handshake(self) -> HandshakeState {
        if self.ready {
            HandshakeState::Ready
        } else if self.sent_intro {
            HandshakeState::IntroductionSent
        } else {
            HandshakeState::NotStarted
        }
    }
}

/// The state of a bridge that has just started.
pub open spec fn initial_link() -> LinkState {
    LinkState {
        sent_intro: false,
        ready: false,
        collecting: false,
        write_index: 0,
        staging: seq![0u8, 0u8, 0u8, 0u8],
        published: idle_bytes(),
    }
}

/// Whether receiving `b` in state `s` completes a data frame.
pub open spec fn completes_frame(s: LinkState, b: u8) -> bool {
    b != INTRODUCTION && b != SEND_DATA && s.collecting && s.write_index == 3
}

/// The state after receiving byte `b` in state `s`.
pub open spec fn link_step(s: LinkState, b: u8) -> LinkState {
    if b == INTRODUCTION {
        if s.sent_intro {
            LinkState { sent_intro: false, ready: true, ..s }
        } else {
            s
        }
    } else if b == SEND_DATA {
        LinkState { collecting: true, write_index: 0, ..s }
    } else if s.collecting {
        let staged = s.staging.update(s.write_index as int, b);
        if s.write_index + 1 >= 4 {
            LinkState { collecting: false, write_index: 0, staging: staged, published: staged, ..s }
        } else {
            LinkState { write_index: s.write_index + 1, staging: staged, ..s }
        }
    } else {
        s
    }
}

/// The state after receiving `bytes` in order, starting in state `s`.
pub open spec fn link_run(s: LinkState, bytes: Seq<u8>) -> LinkState
    decreases bytes.len(),
{
    if bytes.len() == 0 {
        s
    } else {
        link_step(link_run(s, bytes.drop_last()), bytes.last())
    }
}

/// How many data frames are completed while receiving `bytes` from state `s`.
pub open spec fn frames_completed(s: LinkState, bytes: Seq<u8>) -> nat
    decreases bytes.len(),
{
    if bytes.len() == 0 {
        0
    } else {
        let before = link_run(s, bytes.drop_last());
        frames_completed(s, bytes.drop_last()) + if completes_frame(before, bytes.last()) {
            1nat
        } else {
            0nat
        }
    }
}

proof fn lemma_step_wf(s: LinkState, b: u8)
    requires
        s.wf(),
    ensures
        link_step(s, b).wf(),
        !completes_frame(s, b) ==> link_step(s, b).published == s.published,
        s.ready ==> link_step(s, b).ready,
{
}

proof fn lemma_run_wf(s: LinkState, bytes: Seq<u8>)
    requires
        s.wf(),
    ensures
        link_run(s, bytes).wf(),
    decreases bytes.len(),
{
    if bytes.len() > 0 {
        lemma_run_wf(s, bytes.drop_last());
        lemma_step_wf(link_run(s, bytes.drop_last()), bytes.last());
    }
}

/// While no data frame is completed, the published descriptor does not
/// change.
pub proof fn lemma_published_kept(s: LinkState, bytes: Seq<u8>)
    requires
        s.wf(),
        frames_completed(s, bytes) == 0,
    ensures
        link_run(s, bytes).published == s.published,
    decreases bytes.len(),
{
    if bytes.len() > 0 {
        lemma_published_kept(s, bytes.drop_last());
        lemma_run_wf(s, bytes.drop_last());
        lemma_step_wf(link_run(s, bytes.drop_last()), bytes.last());
    }
}

/// Until the first data frame is complete, a new bridge publishes the idle
/// descriptor `[127, 127, 0, 0]`.
pub proof fn lemma_idle_until_first_frame(bytes: Seq<u8>)
    requires
        frames_completed(initial_link(), bytes) == 0,
    ensures
        link_run(initial_link(), bytes).published == idle_bytes(),
{
    lemma_published_kept(initial_link(), bytes);
}

/// Receiving `SEND_DATA` and then four data bytes, from any state, publishes
/// exactly those four bytes, completes exactly one frame, and leaves the
/// published descriptor untouched until the fourth byte has arrived. A data
/// byte that equals a command code is read as that command, so the bytes are
/// taken to differ from both codes.
pub proof fn lemma_frame_assembly(s: LinkState, b0: u8, b1: u8, b2: u8, b3: u8)
    requires
        s.wf(),
        b0 != INTRODUCTION && b0 != SEND_DATA,
        b1 != INTRODUCTION && b1 != SEND_DATA,
        b2 != INTRODUCTION && b2 != SEND_DATA,
        b3 != INTRODUCTION && b3 != SEND_DATA,
    ensures
        ({
            let msg = seq![SEND_DATA, b0, b1, b2, b3];
            &&& link_run(s, msg).published == seq![b0, b1, b2, b3]
            &&& !link_run(s, msg).collecting
            &&& frames_completed(s, msg) == 1
            &&& forall|k: int| 0 <= k < 5 ==> #[trigger] link_run(s, msg.take(k)).published == s.published
        }),
{
    let msg = seq![SEND_DATA, b0, b1, b2, b3];
    let m0 = msg.take(0);
    let m1 = msg.take(1);
    let m2 = msg.take(2);
    let m3 = msg.take(3);
    let m4 = msg.take(4);
    assert(m0 =~= Seq::<u8>::empty());
    assert(m1.drop_last() =~= m0 && m1.last() == SEND_DATA);
    assert(m2.drop_last() =~= m1 && m2.last() == b0);
    assert(m3.drop_last() =~= m2 && m3.last() == b1);
    assert(m4.drop_last() =~= m3 && m4.last() == b2);
    assert(msg.drop_last() =~= m4 && msg.last() == b3);
    let s1 = link_run(s, m1);
    let s2 = link_run(s, m2);
    let s3 = link_run(s, m3);
    let s4 = link_run(s, m4);
    assert(link_run(s, m0) == s);
    assert(s1.collecting && s1.write_index == 0);
    assert(s2.write_index == 1 && s2.staging[0] == b0);
    assert(s3.write_index == 2 && s3.staging[1] == b1);
    assert(s4.write_index == 3 && s4.staging[2] == b2);
    assert(link_run(s, msg).published =~= seq![b0, b1, b2, b3]);
    assert(frames_completed(s, m0) == 0);
    assert(frames_completed(s, m1) == 0);
    assert(frames_completed(s, m2) == 0);
    assert(frames_completed(s, m3) == 0);
    assert(frames_completed(s, m4) == 0);
    assert forall|k: int| 0 <= k < 5 implies #[trigger] link_run(s, msg.take(k)).published
        == s.published by {
        if k == 0 {
            assert(msg.take(k) == m0);
        } else if k == 1 {
            assert(msg.take(k) == m1);
        } else if k == 2 {
            assert(msg.take(k) == m2);
        } else if k == 3 {
            assert(msg.take(k) == m3);
        } else {
            assert(msg.take(k) == m4);
        }
    }
}

/// Once the bridge is ready, it stays ready whatever it receives.
pub proof fn lemma_ready_is_kept(s: LinkState, bytes: Seq<u8>)
    requires
        s.ready,
    ensures
        link_run(s, bytes).ready,
    decreases bytes.len(),
{
    if bytes.len() > 0 {
        lemma_ready_is_kept(s, bytes.drop_last());
    }
}

/// The echo of a sent introduction makes the bridge ready and clears the
/// pending introduction; from then on the bridge stays ready whatever it
/// receives, and a further introduction changes nothing.
pub proof fn lemma_handshake_idempotent(s: LinkState, later: Seq<u8>)
    requires
        s.sent_intro,
    ensures
        link_step(s, INTRODUCTION).handshake() == HandshakeState::Ready,
        !link_step(s, INTRODUCTION).sent_intro,
        link_step(link_step(s, INTRODUCTION), INTRODUCTION) == link_step(s, INTRODUCTION),
        link_run(link_step(s, INTRODUCTION), later).handshake() == HandshakeState::Ready,
{
    lemma_ready_is_kept(link_step(s, INTRODUCTION), later);
}

/// The bridge's side of the serial link: the handshake and the assembly of
/// incoming data frames into the published gamepad descriptor.
pub struct BridgeLink {
    sent_intro: bool,
    intro_complete: bool,
    getting_data: bool,
    table_pointer: u8,
    staging: FightstickDescriptor,
    published: FightstickDescriptor,
}

impl View for BridgeLink {
    type V = LinkState;

    closed spec fn view(&self) -> LinkState {
        LinkState {
            sent_intro: self.sent_intro,
            ready: self.intro_complete,
            collecting: self.getting_data,
            write_index: self.table_pointer as nat,
            staging: self.staging.0@,
            published: self.published.0@,
        }
    }
}

impl BridgeLink {
    /// A link that has not started its handshake and publishes the idle
    /// descriptor.
    pub fn new() -> (r: BridgeLink)
        ensures
            r@ == initial_link(),
            r@.wf(),
    {
        let r = BridgeLink {
            sent_intro: false,
            intro_complete: false,
            getting_data: false,
            table_pointer: 0,
            staging: FightstickDescriptor::default(),
            published: FightstickDescriptor::idle(),
        };
        r
    }

    /// Where the handshake stands.
    pub fn handshake_state(&self) -> (r: HandshakeState)
        ensures
            r == self@.handshake(),
    {
        if self.intro_complete {
            HandshakeState::Ready
        } else if self.sent_intro {
            HandshakeState::IntroductionSent
        } else {
            HandshakeState::NotStarted
        }
    }
}

/// Starts the handshake: records that an introduction is out and returns the
/// byte to send.
pub fn handshake_controller(link: &mut BridgeLink) -> (r: u8)
    requires
        old(link)@.wf(),
    ensures
        r == INTRODUCTION,
        final(link)@ == (LinkState { sent_intro: true, ..old(link)@ }),
        final(link)@.wf(),
{
    link.sent_intro = true;
    UsartCommand::Introduction.into()
}

/// The descriptor of the last complete data frame.
pub fn get_fightstick_data(link: &BridgeLink) -> (r: FightstickDescriptor)
    ensures
        r.0@ == link@.published,
{
    link.published
}

/// Whether the handshake has completed.
pub fn introduction_complete(link: &BridgeLink) -> (r: bool)
    ensures
        r == link@.ready,
{
    link.intro_complete
}

/// The data request to send, if the handshake has completed and the
/// transmit register is empty.
pub fn ask_for_fighstick_data(link: &BridgeLink, tx_empty: bool) -> (r: Option<u8>)
    ensures
        r == (if link@.ready && tx_empty {
            Some(SEND_DATA)
        } else {
            None
        }),
{
    if link.intro_complete && tx_empty {
        Some(UsartCommand::SendData.into())
    } else {
        None
    }
}

/// Handles one byte received from the controller.
pub fn receive_byte(link: &mut BridgeLink, data: u8)
    requires
        old(link)@.wf(),
    ensures
        final(link)@ == link_step(old(link)@, data),
        final(link)@.wf(),
{
    match UsartCommand::from(data) {
        UsartCommand::Introduction => {
            if link.sent_intro {
                link.sent_intro = false;
                link.intro_complete = true;
            }
        },
        UsartCommand::SendData => {
            link.getting_data = true;
            link.table_pointer = 0;
        },
        UsartCommand::Unknown => {
            if link.getting_data {
                let mut table = link.staging;
                table.0[link.table_pointer as usize] = data;
                link.staging = table;
                link.table_pointer = link.table_pointer + 1;
                if link.table_pointer >= 4 {
                    link.table_pointer = 0;
                    link.getting_data = false;
                    link.published = link.staging;
                }
                assert(link.staging.0@ =~= old(link)@.staging.update(
                    old(link)@.write_index as int,
                    data,
                ));
            }
        },
    }
}

} // verus!

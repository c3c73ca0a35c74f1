use vstd::prelude::*;

use crate::fightstick::{encoded, idle_bytes, Fightstick, FightstickDescriptor};
use crate::serial::{enqueue_all, Serial, TX_QUEUE_CAPACITY};
use crate::usart::{UsartCommand, INTRODUCTION, SEND_DATA};

verus! {

/// The axis value of a pair of opposite switches: full deflection towards
/// the one that is closed alone, centred when both or neither are.
pub open spec fn axis_of(pos: bool, neg: bool) -> i8 {
    if pos && !neg {
        127
    } else if neg && !pos {
        -127i8
    } else {
        0
    }
}


/// Axis value of a pair of opposite switches.
pub fn determine_axis(pos: bool, neg: bool) -> (r: i8)
    ensures
        r == axis_of(pos, neg),
{
    let go_pos = pos && !neg;
    let go_neg = neg && !pos;
    if go_pos {
        127
    } else if go_neg {
        -127
    } else {
        0
    }
}


/// The two select lines that pick switch group `group` of the matrix.
pub fn select_lines(group: u8) -> (r: (bool, bool))
    ensures
        r == ((group & 1u8) != 0u8, (group & 2u8) != 0u8),
{
    ((group & 1) > 0, (group & 2) > 0)
}

/// The input frame read from the four switch groups of the matrix (the four
/// sense lines of each group, in order). Button switches pull their line low
/// when pressed; the joystick lines are read as they are.
pub open spec fn stick_of_lines(g: [[bool; 4]; 4]) -> Fightstick {
    Fightstick {
        x: axis_of(g[2][2], g[3][2]),
        y: axis_of(g[0][2], g[1][2]),
        button_0: !g[0][1],
        button_1: !g[2][1],
        button_2: !g[1][0],
        button_3: !g[3][1],
        button_4: !g[3][0],
        button_5: false,
        button_6: !g[2][0],
        button_7: !g[0][0],
        button_8: !g[0][3],
        button_9: !g[1][1],
        button_10: false,
    }
}

/// The frame reported when the switch matrix cannot be read: only button 1
/// pressed.
pub open spec fn unreadable_stick() -> Fightstick {
    Fightstick {
        x: 0,
        y: 0,
        button_0: false,
        button_1: true,
        button_2: false,
        button_3: false,
        button_4: false,
        button_5: false,
        button_6: false,
        button_7: false,
        button_8: false,
        button_9: false,
        button_10: false,
    }
}

/// The input frame of a scan of the switch matrix, or of a failed scan.
pub fn build_fightstick_data(groups: Option<[[bool; 4]; 4]>) -> (r: Fightstick)
    ensures
        r == match groups {
            Some(g) => stick_of_lines(g),
            None => unreadable_stick(),
        },
{
    match groups {
        Some(g) => {
            let joystick_up = g[0][2];
            let joystick_right = g[3][2];
            let joystick_down = g[1][2];
            let joystick_left = g[2][2];

            let u_a = !g[0][1];
            let u_b = !g[2][1];
            let u_c = !g[3][0];
            let u_d = !g[1][0];

            let d_a = !g[1][1];
            let d_b = !g[3][1];
            let d_c = !g[2][0];
            let d_d = !g[0][0];

            let start = !g[0][3];

            let x = determine_axis(joystick_left, joystick_right);
            let y = determine_axis(joystick_up, joystick_down);

            Fightstick {
                x,
                y,
                button_0: u_a,
                button_1: u_b,
                button_2: u_d,
                button_3: d_b,
                button_4: u_c,
                button_5: false,
                button_6: d_c,
                button_7: d_d,
                button_8: start,
                button_9: d_a,
                button_10: false,
            }
        },
        None => Fightstick {
            x: 0,
            y: 0,
            button_0: false,
            button_1: true,
            button_2: false,
            button_3: false,
            button_4: false,
            button_5: false,
            button_6: false,
            button_7: false,
            button_8: false,
            button_9: false,
            button_10: false,
        },
    }
}

/// What the controller does with its status light.
#[derive(Clone, Copy, Debug, PartialEq, Eq, Structural)]
pub enum StatusLed {
    On,
    Toggle,
    Keep,
}

/// The controller's answer to one received byte: the status light, and the
/// byte to put into the empty data register, if any.
#[derive(Clone, Copy, Debug, PartialEq, Eq, Structural)]
pub struct ControllerReply {
    pub led: StatusLed,
    pub udr: Option<u8>,
}

/// The light's answer to byte `byte`.
pub open spec fn led_for(byte: u8) -> StatusLed {
    if byte == INTRODUCTION {
        StatusLed::On
    } else if byte == SEND_DATA {
        StatusLed::Toggle
    } else {
        StatusLed::Keep
    }
}

/// The transmit queue `q` of a queue in state (`ready`, `capacity`) after
/// the reply to `byte` is queued, with `stick` the descriptor reported.
pub open spec fn reply_queue(ready: bool, capacity: nat, q: Seq<u8>, byte: u8, stick: Seq<u8>) -> Seq<u8> {
    if byte == INTRODUCTION {
        enqueue_all(ready, capacity, q, seq![INTRODUCTION])
    } else if byte == SEND_DATA {
        enqueue_all(ready, capacity, q, seq![SEND_DATA].add(stick))
    } else {
        q
    }
}

/// Whether the reply starts sending at once: a reply was queued (an
/// echoed introduction only if it fitted) and the data register is empty.
pub open spec fn reply_starts(udr_empty: bool, byte: u8, before: Seq<u8>, after: Seq<u8>) -> bool {
    &&& udr_empty
    &&& after.len() > 0
    &&& byte == INTRODUCTION || byte == SEND_DATA
    &&& byte == INTRODUCTION ==> after.len() > before.len()
}

/// Handles one byte received from the bridge. An introduction is echoed and
/// turns the light on; a data request queues `SEND_DATA` and the four bytes
/// of `stick`, as far as the queue has room, and toggles the light; any other
/// byte is ignored. `udr_empty` tells whether the data register can take a
/// byte now.
pub fn on_receive(
    serial: &mut Serial,
    byte: u8,
    stick: &FightstickDescriptor,
    udr_empty: bool,
) -> (r: ControllerReply)
    requires
        old(serial).wf(),
    ensures
        final(serial).wf(),
        final(serial).is_set_up() == old(serial).is_set_up(),
        final(serial).max_len() == old(serial).max_len(),
        ({
            let q = reply_queue(
                old(serial).is_set_up(),
                old(serial).max_len(),
                old(serial).pending(),
                byte,
                stick.0@,
            );
            let sends = reply_starts(udr_empty, byte, old(serial).pending(), q);
            &&& r.led == led_for(byte)
            &&& sends ==> r.udr == Some(q[0]) && final(serial).pending() == q.drop_first()
            &&& !sends ==> r.udr is None && final(serial).pending() == q
        }),
{
    match UsartCommand::from(byte) {
        UsartCommand::Introduction => {
            let udr = serial.write_and_queue(INTRODUCTION, udr_empty);
            ControllerReply { led: StatusLed::On, udr }
        },
        UsartCommand::SendData => {
            let message = stick.build_send_data_message();
            let udr = serial.queue_many(&message, udr_empty);
            ControllerReply { led: StatusLed::Toggle, udr }
        },
        UsartCommand::Unknown => ControllerReply { led: StatusLed::Keep, udr: None },
    }
}

/// The answer to a byte that arrives while the controller's state is in use
/// elsewhere: nothing is queued, and only an introduction still turns the
/// light on.
pub fn busy_reply(byte: u8) -> (r: ControllerReply)
    ensures
        r.led == (if byte == INTRODUCTION {
            StatusLed::On
        } else {
            StatusLed::Keep
        }),
        r.udr is None,
{
    if byte == INTRODUCTION {
        ControllerReply { led: StatusLed::On, udr: None }
    } else {
        ControllerReply { led: StatusLed::Keep, udr: None }
    }
}

/// Before the first sample a controller reports the idle descriptor, so a
/// data request that finds room in the queue appends
/// `[SEND_DATA, 127, 127, 0, 0]` to it.
pub proof fn lemma_idle_reply(ready: bool, capacity: nat, q: Seq<u8>)
    requires
        ready,
        q.len() + 5 <= capacity,
    ensures
        reply_queue(ready, capacity, q, SEND_DATA, idle_bytes()) == q + seq![
            SEND_DATA,
            127u8,
            127u8,
            0u8,
            0u8,
        ],
{
    assert(seq![SEND_DATA].add(idle_bytes()) =~= seq![SEND_DATA, 127u8, 127u8, 0u8, 0u8]);
}

/// The controller board's shared state: the descriptor of the last sampled
/// frame, and the transmit queue towards the bridge. Until the first sample
/// the descriptor is the idle one.
pub struct Controller {
    serial: Serial,
    stick: FightstickDescriptor,
}

impl Controller {
    /// The transmit queue.
    pub closed spec fn queue(&self) -> Serial {
        self.serial
    }

    /// The descriptor that a data request is answered with.
    pub closed spec fn descriptor(&self) -> Seq<u8> {
        self.stick.0@
    }

    pub open spec fn wf(&self) -> bool {
        self.queue().wf()
    }

    /// A controller whose queue is not set up yet and which reports the idle
    /// descriptor `[127, 127, 0, 0]`.
    pub fn new() -> (r: Controller)
        ensures
            r.wf(),
            r.descriptor() == idle_bytes(),
            !r.queue().is_set_up(),
            r.queue().max_len() == TX_QUEUE_CAPACITY,
            r.queue().pending() == Seq::<u8>::empty(),
    {
        Controller { serial: Serial::new(), stick: FightstickDescriptor::idle() }
    }

    /// Makes the transmit queue usable; the descriptor stays as it was.
    pub fn setup_serial(&mut self)
        requires
            old(self).wf(),
        ensures
            final(self).wf(),
            final(self).descriptor() == old(self).descriptor(),
            final(self).queue().is_set_up(),
            final(self).queue().max_len() == old(self).queue().max_len(),
            final(self).queue().pending() == Seq::<u8>::empty(),
    {
        self.serial.setup();
    }

    /// Whether the transmit queue is set up.
    pub fn is_ready(&self) -> (r: bool)
        ensures
            r == self.queue().is_set_up(),
    {
        self.serial.is_ready()
    }

    /// Records a newly sampled frame as the descriptor to report.
    pub fn capture(&mut self, stick: &Fightstick)
        requires
            old(self).wf(),
        ensures
            final(self).wf(),
            final(self).descriptor() == encoded(*stick),
            final(self).queue() == old(self).queue(),
    {
        self.stick = stick.to_descriptor();
    }

    /// The descriptor that a data request is answered with.
    pub fn descriptor_now(&self) -> (r: FightstickDescriptor)
        ensures
            r.0@ == self.descriptor(),
    {
        self.stick
    }

    /// Handles one byte received from the bridge, answering a data request
    /// with the current descriptor; see `on_receive`. The descriptor is left
    /// as it was.
    pub fn respond(&mut self, byte: u8, udr_empty: bool) -> (r: ControllerReply)
        requires
            old(self).wf(),
        ensures
            final(self).wf(),
            final(self).descriptor() == old(self).descriptor(),
            final(self).queue().is_set_up() == old(self).queue().is_set_up(),
            final(self).queue().max_len() == old(self).queue().max_len(),
            ({
                let before = old(self).queue().pending();
                let q = reply_queue(
                    old(self).queue().is_set_up(),
                    old(self).queue().max_len(),
                    before,
                    byte,
                    old(self).descriptor(),
                );
                let sends = reply_starts(udr_empty, byte, before, q);
                &&& r.led == led_for(byte)
                &&& sends ==> r.udr == Some(q[0]) && final(self).queue().pending() == q.drop_first()
                &&& !sends ==> r.udr is None && final(self).queue().pending() == q
            }),
    {
        let stick = self.stick;
        on_receive(&mut self.serial, byte, &stick, udr_empty)
    }

    /// Queues each byte of `data` as far as there is room, then starts
    /// sending; see `Serial::queue_many`. The descriptor is left as it was.
    pub fn queue_many(&mut self, data: &[u8], udr_empty: bool) -> (r: Option<u8>)
        requires
            old(self).wf(),
        ensures
            final(self).wf(),
            final(self).descriptor() == old(self).descriptor(),
            final(self).queue().is_set_up() == old(self).queue().is_set_up(),
            final(self).queue().max_len() == old(self).queue().max_len(),
            ({
                let q = enqueue_all(
                    old(self).queue().is_set_up(),
                    old(self).queue().max_len(),
                    old(self).queue().pending(),
                    data@,
                );
                if udr_empty && q.len() > 0 {
                    r == Some(q[0]) && final(self).queue().pending() == q.drop_first()
                } else {
                    r is None && final(self).queue().pending() == q
                }
            }),
    {
        self.serial.queue_many(data, udr_empty)
    }

    /// Hands the oldest waiting byte to the data register when it is empty;
    /// see `Serial::write_to_udr`. The descriptor is left as it was.
    pub fn write_to_udr(&mut self, udr_empty: bool) -> (r: Option<u8>)
        requires
            old(self).wf(),
        ensures
            final(self).wf(),
            final(self).descriptor() == old(self).descriptor(),
            final(self).queue().is_set_up() == old(self).queue().is_set_up(),
            final(self).queue().max_len() == old(self).queue().max_len(),
            udr_empty && old(self).queue().pending().len() > 0 ==> {
                &&& r == Some(old(self).queue().pending()[0])
                &&& final(self).queue().pending() == old(self).queue().pending().drop_first()
            },
            !(udr_empty && old(self).queue().pending().len() > 0) ==> {
                &&& r is None
                &&& final(self).queue().pending() == old(self).queue().pending()
            },
    {
        self.serial.write_to_udr(udr_empty)
    }
}

} // verus!

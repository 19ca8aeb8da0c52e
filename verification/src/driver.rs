//! The driver: what it asks of the bus to bring the device up and to take a
//! sample, and what it makes of the bytes that come back.

use crate::bus::{
    lemma_frames_join, lemma_line_follows_frames, line_low_after, read_frame, whole_frames,
    write_frame, Action, Event,
};
use crate::config::Config;
use crate::registers::{
    CONTROL_REGISTER_1, EXPECTED_DEVICE_ID, PLACEHOLDER, READ_FLAG, WHO_AM_I_REGISTER,
    X_OUTPUT_REGISTER, Y_OUTPUT_REGISTER, Z_OUTPUT_REGISTER,
};
use crate::transaction::{
    lemma_pending_is_rest_of_frame, Request, Transaction, TransactionView,
};
use vstd::prelude::*;

verus! {

/// The byte of an output register read as a signed number in two's
/// complement.
pub open spec fn signed(byte: u8) -> i8 {
    if byte < 128 {
        byte as i8
    } else {
        (byte - 256) as i8
    }
}

/// Reads the byte of an output register as a signed number in two's
/// complement.
pub fn to_signed(byte: u8) -> (value: i8)
    ensures
        value == signed(byte),
        byte < 128 ==> value == byte,
        byte >= 128 ==> value == byte - 256,
{
    if byte < 128 {
        byte as i8
    } else {
        (byte as i16 - 256) as i8
    }
}

/// The actions that bring the device up: the identification register is
/// read, then the control byte of `config` is written to control register 1.
pub open spec fn bring_up_script(config: Config) -> Seq<Action> {
    read_frame(WHO_AM_I_REGISTER) + write_frame(CONTROL_REGISTER_1, config.control_bits())
}

/// The actions that take one sample: the X, Y and Z output registers are
/// read, in that order.
pub open spec fn sampling_script() -> Seq<Action> {
    read_frame(X_OUTPUT_REGISTER) + read_frame(Y_OUTPUT_REGISTER) + read_frame(Z_OUTPUT_REGISTER)
}

/// What a driver is, whatever way it is stored.
#[verifier::ext_equal]
pub struct DriverView {
    /// The configuration that the driver was made with.
    pub config: Config,
    /// The actions carried out since the driver was made, in order.
    pub asked: Seq<Action>,
    /// The actions that the driver will still ask for before it rests, in
    /// order.
    pub pending: Seq<Action>,
    /// The addresses of the registers whose bytes are still to come, in the
    /// order of their transfers in `pending`.
    pub awaited: Seq<u8>,
    /// By register address, the byte last taken from a transfer and not yet
    /// handed out.
    pub heard: Map<u8, u8>,
    /// Whether an action was reported as failed since the driver was made.
    pub fault: bool,
}

impl DriverView {
    /// A driver made with `config`: the bring-up lies before it.
    pub open spec fn initial(config: Config) -> DriverView {
        DriverView {
            config,
            asked: Seq::empty(),
            pending: bring_up_script(config),
            awaited: seq![WHO_AM_I_REGISTER],
            heard: Map::empty(),
            fault: false,
        }
    }

    /// Whether the driver asks for nothing: the device is up and no sample
    /// is being taken.
    pub open spec fn at_rest(self) -> bool {
        self.pending.len() == 0
    }

    /// The driver after its next action has ended with `event`. The event
    /// that answers a transfer leaves its second byte as the byte of the
    /// register that was awaited first. A failure is noted and changes
    /// nothing else. A driver at rest stays as it is.
    pub open spec fn after(self, event: Event) -> DriverView {
        if self.at_rest() {
            self
        } else {
            let answers_read = self.pending[0] is Transfer && self.awaited.len() > 0;
            DriverView {
                config: self.config,
                asked: self.asked.push(self.pending[0]),
                pending: self.pending.drop_first(),
                awaited: if answers_read {
                    self.awaited.drop_first()
                } else {
                    self.awaited
                },
                heard: if answers_read {
                    self.heard.insert(self.awaited[0], event.second_byte())
                } else {
                    self.heard
                },
                fault: self.fault || event is Failed,
            }
        }
    }

    /// What the identification register held when it was read.
    pub open spec fn device_id(self) -> Option<u8> {
        if self.heard.dom().contains(WHO_AM_I_REGISTER) {
            Some(self.heard[WHO_AM_I_REGISTER])
        } else {
            None
        }
    }

    /// The sample that waits to be handed out: the bytes of the three output
    /// registers, each read as a signed number, once the driver is at rest
    /// and all three have come.
    pub open spec fn sample(self) -> Option<(i8, i8, i8)> {
        if self.at_rest() && self.heard.dom().contains(X_OUTPUT_REGISTER)
            && self.heard.dom().contains(Y_OUTPUT_REGISTER) && self.heard.dom().contains(
            Z_OUTPUT_REGISTER,
        ) {
            Some(
                (
                    signed(self.heard[X_OUTPUT_REGISTER]),
                    signed(self.heard[Y_OUTPUT_REGISTER]),
                    signed(self.heard[Z_OUTPUT_REGISTER]),
                ),
            )
        } else {
            None
        }
    }

    /// What was carried out and what is still to come make whole frames
    /// together: the chip-select line is driven low before every exchange
    /// and high after it, and never twice in a row the same way.
    pub open spec fn well_framed(self) -> bool {
        whole_frames(self.asked + self.pending)
    }

    /// What is heard without the bytes of the three output registers.
    pub open spec fn heard_without_sample(self) -> Map<u8, u8> {
        self.heard.remove(X_OUTPUT_REGISTER).remove(Y_OUTPUT_REGISTER).remove(Z_OUTPUT_REGISTER)
    }

    /// The driver after it was asked for a sample. One that waits is handed
    /// out and forgotten. At rest with none waiting, the driver sets out to
    /// take one. While it still asks for actions it stays as it is.
    pub open spec fn polled(self) -> DriverView {
        if !self.at_rest() {
            self
        } else if self.sample() is Some {
            DriverView {
                config: self.config,
                asked: self.asked,
                pending: self.pending,
                awaited: self.awaited,
                heard: self.heard_without_sample(),
                fault: self.fault,
            }
        } else {
            DriverView {
                config: self.config,
                asked: self.asked,
                pending: sampling_script(),
                awaited: seq![X_OUTPUT_REGISTER, Y_OUTPUT_REGISTER, Z_OUTPUT_REGISTER],
                heard: self.heard_without_sample(),
                fault: self.fault,
            }
        }
    }
}

/// The register operation that the driver is busy with, or `Ready` when it
/// is at rest.
#[derive(Clone, Copy, Debug, PartialEq, Eq, Structural)]
enum Phase {
    Identify,
    Configure,
    Ready,
    SampleX,
    SampleY,
    SampleZ,
}

impl Phase {
    /// The actions of the register operations that follow the one in
    /// progress.
    spec fn later_actions(self, config: Config) -> Seq<Action> {
        match self {
            Phase::Identify => write_frame(CONTROL_REGISTER_1, config.control_bits()),
            Phase::SampleX => read_frame(Y_OUTPUT_REGISTER) + read_frame(Z_OUTPUT_REGISTER),
            Phase::SampleY => read_frame(Z_OUTPUT_REGISTER),
            _ => Seq::empty(),
        }
    }

    /// The registers read by the operations that follow the one in progress.
    spec fn later_reads(self) -> Seq<u8> {
        match self {
            Phase::SampleX => seq![Y_OUTPUT_REGISTER, Z_OUTPUT_REGISTER],
            Phase::SampleY => seq![Z_OUTPUT_REGISTER],
            _ => Seq::empty(),
        }
    }

    /// The register operation of this phase.
    spec fn request(self, config: Config) -> Option<Request> {
        match self {
            Phase::Identify => Some(Request::Read { address: WHO_AM_I_REGISTER }),
            Phase::Configure => Some(
                Request::Write { address: CONTROL_REGISTER_1, value: config.control_bits() },
            ),
            Phase::Ready => None,
            Phase::SampleX => Some(Request::Read { address: X_OUTPUT_REGISTER }),
            Phase::SampleY => Some(Request::Read { address: Y_OUTPUT_REGISTER }),
            Phase::SampleZ => Some(Request::Read { address: Z_OUTPUT_REGISTER }),
        }
    }
}

/// The map that holds `byte` under `address` where there is one.
spec fn with_byte(heard: Map<u8, u8>, address: u8, byte: Option<u8>) -> Map<u8, u8> {
    match byte {
        Some(byte) => heard.insert(address, byte),
        None => heard,
    }
}

/// The protocol side of a LIS302DL. It is made with a configuration, names
/// the actions that bring the device up and, on request, those that take a
/// sample, and turns the bytes that come back into readings. It touches no
/// hardware: see `next_action` and `handle`.
pub struct Lis302Dl {
    config: Config,
    phase: Phase,
    transaction: Transaction,
    device_id: Option<u8>,
    x: Option<u8>,
    y: Option<u8>,
    z: Option<u8>,
    fault: bool,
    asked: Ghost<Seq<Action>>,
}

impl View for Lis302Dl {
    type V = DriverView;

    closed spec fn view(&self) -> DriverView {
        DriverView {
            config: self.config,
            asked: self.asked@,
            pending: self.transaction@.pending + self.phase.later_actions(self.config),
            awaited: self.current_read() + self.phase.later_reads(),
            heard: with_byte(
                with_byte(
                    with_byte(
                        with_byte(Map::empty(), WHO_AM_I_REGISTER, self.device_id),
                        X_OUTPUT_REGISTER,
                        self.x,
                    ),
                    Y_OUTPUT_REGISTER,
                    self.y,
                ),
                Z_OUTPUT_REGISTER,
                self.z,
            ),
            fault: self.fault,
        }
    }
}

impl Lis302Dl {
    /// The register whose byte the operation in progress still awaits.
    spec fn current_read(&self) -> Seq<u8> {
        match self.transaction@.request {
            Request::Read { address } if self.transaction@.pending.len() >= 2 => seq![address],
            _ => Seq::empty(),
        }
    }

    /// The operation in progress is that of the phase, the driver rests
    /// exactly when it is finished, and the frames are whole.
    #[verifier::type_invariant]
    spec fn consistent(&self) -> bool {
        &&& match self.phase.request(self.config) {
            Some(request) => self.transaction@.request == request
                && !self.transaction@.finished(),
            None => self.transaction@.finished(),
        }
        &&& self@.well_framed()
    }

    /// Makes a driver for a device that is to run under `config`. The
    /// driver sets out to bring the device up: it reads the identification
    /// register and then writes the control byte.
    pub fn new(config: Config) -> (driver: Lis302Dl)
        ensures
            driver@ == DriverView::initial(config),
    {
        let transaction = Self::get_device_id();
        let driver = Lis302Dl {
            config,
            phase: Phase::Identify,
            transaction,
            device_id: None,
            x: None,
            y: None,
            z: None,
            fault: false,
            asked: Ghost(Seq::empty()),
        };
        proof {
            lemma_initial_is_well_framed(config);
            assert(driver@.awaited =~= seq![WHO_AM_I_REGISTER]);
            assert(driver@ =~= DriverView::initial(config));
        }
        driver
    }

    /// Begins the read of the register at `address`. The address is sent
    /// with the read flag set, followed by the placeholder; the second byte
    /// that the exchange receives is the register's value.
    pub fn read_byte(address: u8) -> (transaction: Transaction)
        ensures
            transaction@ == TransactionView::begin(Request::Read { address }),
            transaction@.pending == read_frame(address),
    {
        Transaction::begin(Request::Read { address })
    }

    /// Begins the write of `value` to the register at `address`. The
    /// address is sent as it is, followed by the value.
    pub fn write_byte(address: u8, value: u8) -> (transaction: Transaction)
        ensures
            transaction@ == TransactionView::begin(Request::Write { address, value }),
            transaction@.pending == write_frame(address, value),
    {
        Transaction::begin(Request::Write { address, value })
    }

    /// Begins the read of the identification register.
    pub fn get_device_id() -> (transaction: Transaction)
        ensures
            transaction@ == TransactionView::begin(Request::Read { address: WHO_AM_I_REGISTER }),
            transaction@.pending == read_frame(WHO_AM_I_REGISTER),
    {
        Self::read_byte(WHO_AM_I_REGISTER)
    }

    /// Assembles the control byte of the driver's configuration and begins
    /// its write to control register 1.
    pub fn set_control_register_1(&self) -> (transaction: Transaction)
        ensures
            transaction@ == TransactionView::begin(
                Request::Write { address: CONTROL_REGISTER_1, value: self@.config.control_bits() },
            ),
            transaction@.pending == write_frame(CONTROL_REGISTER_1, self@.config.control_bits()),
    {
        let control_byte = self.config.control_byte();
        Self::write_byte(CONTROL_REGISTER_1, control_byte)
    }

    /// The action to carry out next, or `None` when the driver is at rest.
    /// With all that was carried out before, what the driver asks for makes
    /// whole frames: the chip-select line is driven low before each exchange
    /// and high after it, and the driver never rests inside a frame.
    pub fn next_action(&self) -> (action: Option<Action>)
        ensures
            action == (if self@.at_rest() {
                None
            } else {
                Some(self@.pending[0])
            }),
            self@.well_framed(),
    {
        proof {
            use_type_invariant(self);
        }
        self.transaction.next_action()
    }

    /// Tells the driver how the action that it named last has ended. The
    /// driver goes on to its next action whatever the event: a failure is
    /// noted, see `has_faulted`, and a read whose exchange has failed yields
    /// the placeholder.
    pub fn handle(&mut self, event: Event)
        ensures
            final(self)@ == old(self)@.after(event),
    {
        proof {
            use_type_invariant(&*self);
            lemma_pending_is_rest_of_frame(self.transaction);
        }
        if self.transaction.is_finished() {
            return ;
        }
        let answers_read = match self.transaction.next_action() {
            Some(Action::Transfer { first, second }) => true,
            _ => false,
        };
        let mut transaction = self.transaction;
        transaction.handle(event);
        proof {
            lemma_pending_is_rest_of_frame(transaction);
        }
        let mut phase = self.phase;
        let mut device_id = self.device_id;
        let mut x = self.x;
        let mut y = self.y;
        let mut z = self.z;
        if answers_read {
            let byte = Some(event.reply());
            match phase {
                Phase::Identify => {
                    device_id = byte;
                },
                Phase::SampleX => {
                    x = byte;
                },
                Phase::SampleY => {
                    y = byte;
                },
                Phase::SampleZ => {
                    z = byte;
                },
                Phase::Configure | Phase::Ready => {},
            }
        }
        if transaction.is_finished() {
            match phase {
                Phase::Identify => {
                    phase = Phase::Configure;
                    transaction = self.set_control_register_1();
                },
                Phase::SampleX => {
                    phase = Phase::SampleY;
                    transaction = Self::read_byte(Y_OUTPUT_REGISTER);
                },
                Phase::SampleY => {
                    phase = Phase::SampleZ;
                    transaction = Self::read_byte(Z_OUTPUT_REGISTER);
                },
                Phase::Configure | Phase::SampleZ | Phase::Ready => {
                    phase = Phase::Ready;
                },
            }
        }
        let fault = self.fault || event.is_failure();
        let asked = Ghost(self@.asked.push(self@.pending[0]));
        proof {
            let before = self@;
            let expected = before.after(event);
            let after = Lis302Dl {
                config: self.config,
                phase,
                transaction,
                device_id,
                x,
                y,
                z,
                fault,
                asked,
            };
            assert(after@.pending =~= expected.pending);
            assert(after@.awaited =~= expected.awaited);
            assert(after@.heard =~= expected.heard);
            assert(after@.asked + after@.pending =~= before.asked + before.pending);
        }
        *self = Lis302Dl {
            config: self.config,
            phase,
            transaction,
            device_id,
            x,
            y,
            z,
            fault,
            asked,
        };
    }

    /// Whether the driver is at rest: the device is up and no sample is
    /// being taken.
    pub fn is_ready(&self) -> (ready: bool)
        ensures
            ready == self@.at_rest(),
    {
        proof {
            use_type_invariant(self);
        }
        self.transaction.is_finished()
    }

    /// The configuration that the driver was made with.
    pub fn config(&self) -> (config: Config)
        ensures
            config == self@.config,
    {
        self.config
    }

    /// What the identification register held when it was read; `None`
    /// before that.
    pub fn device_id(&self) -> (id: Option<u8>)
        ensures
            id == self@.device_id(),
    {
        self.device_id
    }

    /// Whether the identification register was read and held the value of a
    /// genuine device. The driver brings the device up either way.
    pub fn is_identified(&self) -> (identified: bool)
        ensures
            identified == (self@.device_id() == Some(EXPECTED_DEVICE_ID)),
    {
        match self.device_id {
            Some(id) => id == EXPECTED_DEVICE_ID,
            None => false,
        }
    }

    /// Whether an action was reported as failed since the driver was made.
    pub fn has_faulted(&self) -> (fault: bool)
        ensures
            fault == self@.fault,
    {
        self.fault
    }

    /// The number of samples per second that the device was configured for.
    pub fn sample_rate(&self) -> (hertz: u16)
        ensures
            hertz == self@.config.data_rate.samples_per_second(),
    {
        self.config.data_rate.hertz()
    }

    /// Asks for a raw sample. Where one waits, it is handed out: the bytes
    /// of the X, Y and Z output registers, each read as a signed number. At
    /// rest with none waiting, the driver sets out to read the three
    /// registers and the sample waits once it rests again. While the driver
    /// still asks for actions, nothing changes.
    pub fn accel_raw(&mut self) -> (sample: Option<(i8, i8, i8)>)
        ensures
            sample == old(self)@.sample(),
            final(self)@ == old(self)@.polled(),
    {
        proof {
            use_type_invariant(&*self);
            lemma_pending_is_rest_of_frame(self.transaction);
        }
        if !self.transaction.is_finished() {
            return None;
        }
        let sample = match (self.x, self.y, self.z) {
            (Some(x), Some(y), Some(z)) => Some((to_signed(x), to_signed(y), to_signed(z))),
            _ => None,
        };
        let mut phase = self.phase;
        let mut transaction = self.transaction;
        if sample.is_none() {
            phase = Phase::SampleX;
            transaction = Self::read_byte(X_OUTPUT_REGISTER);
        }
        proof {
            let before = self@;
            let expected = before.polled();
            let after = Lis302Dl {
                config: self.config,
                phase,
                transaction,
                device_id: self.device_id,
                x: None,
                y: None,
                z: None,
                fault: self.fault,
                asked: self.asked,
            };
            assert(after@.pending =~= expected.pending);
            assert(after@.awaited =~= expected.awaited);
            assert(after@.heard =~= expected.heard);
            lemma_polled_keeps_frames_whole(before);
        }
        *self = Lis302Dl {
            config: self.config,
            phase,
            transaction,
            device_id: self.device_id,
            x: None,
            y: None,
            z: None,
            fault: self.fault,
            asked: self.asked,
        };
        sample
    }
}

/// The scripts are made of whole frames: in each, the chip-select line is
/// driven low before every exchange and high after it, and it is high
/// between two register operations and at the end.
pub proof fn lemma_scripts_are_whole_frames(config: Config)
    ensures
        whole_frames(bring_up_script(config)),
        whole_frames(sampling_script()),
        bring_up_script(config).len() == 6,
        sampling_script().len() == 9,
{
    let control = write_frame(CONTROL_REGISTER_1, config.control_bits());
    lemma_frames_join(read_frame(WHO_AM_I_REGISTER), control);
    lemma_frames_join(read_frame(X_OUTPUT_REGISTER), read_frame(Y_OUTPUT_REGISTER));
    lemma_frames_join(
        read_frame(X_OUTPUT_REGISTER) + read_frame(Y_OUTPUT_REGISTER),
        read_frame(Z_OUTPUT_REGISTER),
    );
}

/// A driver that was just made has whole frames before it.
pub proof fn lemma_initial_is_well_framed(config: Config)
    ensures
        DriverView::initial(config).well_framed(),
{
    lemma_scripts_are_whole_frames(config);
    let made = DriverView::initial(config);
    assert(made.asked + made.pending =~= bring_up_script(config));
}

/// Whatever the event, the driver goes on to the action that follows and
/// keeps its configuration, and the frames stay whole.
pub proof fn lemma_driver_goes_on(view: DriverView, event: Event)
    requires
        !view.at_rest(),
    ensures
        view.after(event).asked == view.asked.push(view.pending[0]),
        view.after(event).pending == view.pending.drop_first(),
        view.after(event).config == view.config,
        view.well_framed() ==> view.after(event).well_framed(),
{
    let next = view.after(event);
    assert(next.asked + next.pending =~= view.asked + view.pending);
}

/// A request for a sample keeps the frames whole: the driver sets out to
/// take one only at rest, between two frames.
pub proof fn lemma_polled_keeps_frames_whole(view: DriverView)
    requires
        view.well_framed(),
    ensures
        view.polled().well_framed(),
{
    if view.at_rest() {
        lemma_scripts_are_whole_frames(view.config);
        assert(view.asked + view.pending =~= view.asked);
        lemma_frames_join(view.asked, sampling_script());
    }
}

/// The chip-select line, high when the driver is made, is low exactly
/// inside a frame. It is high when the driver is at rest and when it asks
/// to drive the line low; it is low when the driver asks for an exchange
/// and when it asks to drive the line high.
pub proof fn lemma_chip_select_discipline(view: DriverView)
    requires
        view.well_framed(),
    ensures
        view.at_rest() ==> !line_low_after(view.asked),
        !view.at_rest() ==> (line_low_after(view.asked) <==> view.pending[0]
            != Action::SelectLow),
        !view.at_rest() && view.pending[0] == Action::SelectLow ==> view.pending.len() >= 3
            && view.pending[1].is_exchange() && view.pending[2] == Action::SelectHigh,
        !view.at_rest() && view.pending[0].is_exchange() ==> view.pending.len() >= 2
            && view.pending[1] == Action::SelectHigh,
{
    lemma_line_follows_frames(view.asked, view.pending);
    let all = view.asked + view.pending;
    let n = view.asked.len() as int;
    if view.pending.len() > 1 {
        assert(all[n + 1] == view.pending[1]);
    }
    if view.pending.len() > 2 {
        assert(all[n + 2] == view.pending[2]);
    }
}

/// A driver that has the frame of a register read before it and awaits that
/// register first has, three events later, the second byte of the event
/// that answered the exchange as the byte of that register, and goes on
/// with what follows the frame.
pub proof fn lemma_after_read_frame(
    view: DriverView,
    address: u8,
    rest: Seq<Action>,
    selected: Event,
    exchanged: Event,
    released: Event,
)
    requires
        view.pending == read_frame(address) + rest,
        view.awaited.len() > 0,
        view.awaited[0] == address,
    ensures
        view.after(selected).after(exchanged).after(released) == (DriverView {
            config: view.config,
            asked: view.asked + read_frame(address),
            pending: rest,
            awaited: view.awaited.drop_first(),
            heard: view.heard.insert(address, exchanged.second_byte()),
            fault: view.fault || selected is Failed || exchanged is Failed || released is Failed,
        }),
{
    let one = view.after(selected);
    let two = one.after(exchanged);
    let three = two.after(released);
    assert(view.pending.len() == 3 + rest.len());
    assert(view.pending[0] == Action::SelectLow);
    assert(one.pending.len() == 2 + rest.len());
    assert(one.pending[0] == view.pending[1]);
    assert(one.pending[0] is Transfer);
    assert(two.pending.len() == 1 + rest.len());
    assert(two.pending[0] == view.pending[2]);
    assert(three.pending =~= rest);
    assert(three.asked =~= view.asked + view.pending.take(3));
}

/// A driver that has the frame of a register write before it goes on, three
/// events later, with what follows the frame, and has heard nothing new.
pub proof fn lemma_after_write_frame(
    view: DriverView,
    address: u8,
    value: u8,
    rest: Seq<Action>,
    selected: Event,
    written: Event,
    released: Event,
)
    requires
        view.pending == write_frame(address, value) + rest,
    ensures
        view.after(selected).after(written).after(released) == (DriverView {
            config: view.config,
            asked: view.asked + write_frame(address, value),
            pending: rest,
            awaited: view.awaited,
            heard: view.heard,
            fault: view.fault || selected is Failed || written is Failed || released is Failed,
        }),
{
    let one = view.after(selected);
    let two = one.after(written);
    let three = two.after(released);
    assert(view.pending.len() == 3 + rest.len());
    assert(view.pending[0] == Action::SelectLow);
    assert(one.pending.len() == 2 + rest.len());
    assert(one.pending[0] == view.pending[1]);
    assert(two.pending.len() == 1 + rest.len());
    assert(two.pending[0] == view.pending[2]);
    assert(three.pending =~= rest);
    assert(three.asked =~= view.asked + view.pending.take(3));
}

/// The bring-up ends after six actions whatever their events: the driver is
/// then at rest, under the configuration it was made with, and knows what
/// the identification register held, be it the expected value or not.
pub proof fn lemma_bring_up_completes(
    config: Config,
    selected: Event,
    identified: Event,
    released: Event,
    selected_again: Event,
    written: Event,
    released_again: Event,
)
    ensures
        ({
            let made = DriverView::initial(config);
            let up = made.after(selected).after(identified).after(released).after(
                selected_again,
            ).after(written).after(released_again);
            &&& made.pending == seq![
                Action::SelectLow,
                Action::Transfer { first: READ_FLAG | WHO_AM_I_REGISTER, second: PLACEHOLDER },
                Action::SelectHigh,
                Action::SelectLow,
                Action::Write { first: CONTROL_REGISTER_1, second: config.control_bits() },
                Action::SelectHigh,
            ]
            &&& up.at_rest()
            &&& up.config == config
            &&& up.device_id() == Some(identified.second_byte())
            &&& up.sample() is None
            &&& up.fault == (selected is Failed || identified is Failed || released is Failed
                || selected_again is Failed || written is Failed || released_again is Failed)
        }),
{
    let made = DriverView::initial(config);
    let control = write_frame(CONTROL_REGISTER_1, config.control_bits());
    lemma_after_read_frame(made, WHO_AM_I_REGISTER, control, selected, identified, released);
    let read = made.after(selected).after(identified).after(released);
    assert(control =~= control + Seq::<Action>::empty());
    lemma_after_write_frame(
        read,
        CONTROL_REGISTER_1,
        config.control_bits(),
        Seq::empty(),
        selected_again,
        written,
        released_again,
    );
}

/// A driver at rest that is asked for a sample reads the X, Y and Z output
/// registers in that order. Nine events later it is at rest again, and the
/// sample that waits is made of the second bytes of the three events that
/// answered the exchanges, each read as a signed number. Asked again, it
/// hands that sample out and keeps none.
pub proof fn lemma_sampling_completes(view: DriverView, events: Seq<Event>)
    requires
        view.at_rest(),
        view.sample() is None,
        events.len() == 9,
    ensures
        ({
            let begun = view.polled();
            let done = begun.after(events[0]).after(events[1]).after(events[2]).after(
                events[3],
            ).after(events[4]).after(events[5]).after(events[6]).after(events[7]).after(
                events[8],
            );
            &&& begun.pending == seq![
                Action::SelectLow,
                Action::Transfer { first: READ_FLAG | X_OUTPUT_REGISTER, second: PLACEHOLDER },
                Action::SelectHigh,
                Action::SelectLow,
                Action::Transfer { first: READ_FLAG | Y_OUTPUT_REGISTER, second: PLACEHOLDER },
                Action::SelectHigh,
                Action::SelectLow,
                Action::Transfer { first: READ_FLAG | Z_OUTPUT_REGISTER, second: PLACEHOLDER },
                Action::SelectHigh,
            ]
            &&& done.at_rest()
            &&& done.config == view.config
            &&& done.device_id() == view.device_id()
            &&& done.sample() == Some(
                (
                    signed(events[1].second_byte()),
                    signed(events[4].second_byte()),
                    signed(events[7].second_byte()),
                ),
            )
            &&& done.polled().sample() is None
            &&& done.polled().at_rest()
        }),
{
    let begun = view.polled();
    let y_and_z = read_frame(Y_OUTPUT_REGISTER) + read_frame(Z_OUTPUT_REGISTER);
    let z_only = read_frame(Z_OUTPUT_REGISTER);
    assert(begun.pending =~= read_frame(X_OUTPUT_REGISTER) + y_and_z);
    lemma_after_read_frame(begun, X_OUTPUT_REGISTER, y_and_z, events[0], events[1], events[2]);
    let x_read = begun.after(events[0]).after(events[1]).after(events[2]);
    assert(x_read.awaited =~= seq![Y_OUTPUT_REGISTER, Z_OUTPUT_REGISTER]);
    lemma_after_read_frame(x_read, Y_OUTPUT_REGISTER, z_only, events[3], events[4], events[5]);
    let y_read = x_read.after(events[3]).after(events[4]).after(events[5]);
    assert(y_read.awaited =~= seq![Z_OUTPUT_REGISTER]);
    assert(z_only =~= z_only + Seq::<Action>::empty());
    lemma_after_read_frame(
        y_read,
        Z_OUTPUT_REGISTER,
        Seq::empty(),
        events[6],
        events[7],
        events[8],
    );
}

} // verus!

//! What passes between the driver and whoever owns the bus and the
//! chip-select line: the actions that the driver asks for, the events that
//! answer them, and the shape of the frames they are sent in.

use crate::registers::{PLACEHOLDER, READ_FLAG};
use vstd::prelude::*;

verus! {

/// One thing to carry out on the hardware.
#[derive(Clone, Copy, Debug, PartialEq, Eq, Structural)]
pub enum Action {
    /// Drive the chip-select line low: the device is addressed.
    SelectLow,
    /// Exchange two bytes over the bus in both directions at once.
    Transfer { first: u8, second: u8 },
    /// Send two bytes over the bus.
    Write { first: u8, second: u8 },
    /// Drive the chip-select line high: the device is released.
    SelectHigh,
}

/// How an action ended.
#[derive(Clone, Copy, Debug, PartialEq, Eq, Structural)]
pub enum Event {
    /// The action was carried out.
    Done,
    /// The exchange was carried out and left these two bytes.
    Received { first: u8, second: u8 },
    /// The hardware reported a failure. The driver takes note and goes on.
    Failed,
}

impl Action {
    /// Whether the action moves bytes over the bus.
    pub open spec fn is_exchange(self) -> bool {
        self is Transfer || self is Write
    }
}

impl Event {
    /// The byte that a register read takes from the event that answers its
    /// exchange: the second byte received, or the placeholder where nothing
    /// was received.
    pub open spec fn second_byte(self) -> u8 {
        match self {
            Event::Received { first, second } => second,
            _ => PLACEHOLDER,
        }
    }

    /// The byte that a register read takes from the event that answers its
    /// exchange.
    pub fn reply(self) -> (byte: u8)
        ensures
            byte == self.second_byte(),
    {
        match self {
            Event::Received { first, second } => second,
            _ => PLACEHOLDER,
        }
    }

    /// Whether the event reports a failure.
    pub fn is_failure(self) -> (failure: bool)
        ensures
            failure == (self is Failed),
    {
        match self {
            Event::Failed => true,
            _ => false,
        }
    }
}

/// The frame that reads the register at `address`: the address goes out with
/// the read flag set, followed by the placeholder.
pub open spec fn read_frame(address: u8) -> Seq<Action> {
    seq![
        Action::SelectLow,
        Action::Transfer { first: READ_FLAG | address, second: PLACEHOLDER },
        Action::SelectHigh,
    ]
}

/// The frame that writes `value` to the register at `address`: the address
/// goes out as it is, followed by the value.
pub open spec fn write_frame(address: u8, value: u8) -> Seq<Action> {
    seq![Action::SelectLow, Action::Write { first: address, second: value }, Action::SelectHigh]
}

/// Whether `action` is in its place when `left` actions, itself among them,
/// remain up to the end of whole frames: a frame ends with `SelectHigh`, has
/// one exchange before that and `SelectLow` before the exchange.
pub open spec fn in_place(action: Action, left: int) -> bool {
    if left % 3 == 0 {
        action == Action::SelectLow
    } else if left % 3 == 2 {
        action.is_exchange()
    } else {
        action == Action::SelectHigh
    }
}

/// Counted from its end, the sequence is made of frames. The first frame may
/// have lost its beginning.
pub open spec fn framed(actions: Seq<Action>) -> bool {
    forall|i: int| 0 <= i < actions.len() ==> in_place(#[trigger] actions[i], actions.len() - i)
}

/// The sequence is made of whole frames.
pub open spec fn whole_frames(actions: Seq<Action>) -> bool {
    framed(actions) && actions.len() % 3 == 0
}

/// A frame that reads or writes a register is a whole frame.
pub proof fn lemma_register_frames_are_whole(address: u8, value: u8)
    ensures
        whole_frames(read_frame(address)),
        whole_frames(write_frame(address, value)),
{
}

/// A framed sequence followed by whole frames is framed.
pub proof fn lemma_frames_join(head: Seq<Action>, tail: Seq<Action>)
    requires
        framed(head),
        whole_frames(tail),
    ensures
        framed(head + tail),
        whole_frames(head) ==> whole_frames(head + tail),
{
    let joined = head + tail;
    assert forall|i: int| 0 <= i < joined.len() implies in_place(
        #[trigger] joined[i],
        joined.len() - i,
    ) by {
        if i < head.len() {
            assert(joined[i] == head[i]);
            assert((joined.len() - i) % 3 == (head.len() - i) % 3);
        } else {
            assert(joined[i] == tail[i - head.len()]);
            assert(joined.len() - i == tail.len() - (i - head.len()));
        }
    }
}

/// In whole frames the chip-select line is driven low directly before each
/// exchange and high directly after it, nothing stands between the end of
/// one frame and the beginning of the next, and the line is low only inside
/// a frame: the first action drives it low and the last drives it high.
pub proof fn lemma_chip_select_brackets_each_exchange(actions: Seq<Action>, i: int)
    requires
        whole_frames(actions),
        0 <= i < actions.len(),
    ensures
        actions[0] == Action::SelectLow,
        actions[actions.len() - 1] == Action::SelectHigh,
        actions[i].is_exchange() ==> 0 < i < actions.len() - 1 && actions[i - 1]
            == Action::SelectLow && actions[i + 1] == Action::SelectHigh,
        actions[i] == Action::SelectLow ==> i + 2 < actions.len() && actions[i + 1].is_exchange(),
        actions[i] == Action::SelectHigh && i + 1 < actions.len() ==> actions[i + 1]
            == Action::SelectLow,
{
    let n = actions.len() as int;
    assert(in_place(actions[0], n - 0));
    assert(in_place(actions[n - 1], n - (n - 1)));
    assert(in_place(actions[i], n - i));
    if 0 < i {
        assert(in_place(actions[i - 1], n - (i - 1)));
    }
    if i + 1 < n {
        assert(in_place(actions[i + 1], n - (i + 1)));
    }
}

/// Whether the chip-select line is low once `actions` have been carried
/// out, the line being high before the first of them.
pub open spec fn line_low_after(actions: Seq<Action>) -> bool
    decreases actions.len(),
{
    if actions.len() == 0 {
        false
    } else {
        match actions.last() {
            Action::SelectLow => true,
            Action::SelectHigh => false,
            _ => line_low_after(actions.drop_last()),
        }
    }
}

/// Where what was carried out and what is still to come make whole frames
/// together, the line is low exactly inside a frame: it is high before a
/// frame begins and between two frames, low before the exchange and before
/// the action that ends the frame, and high when nothing is to come.
pub proof fn lemma_line_follows_frames(asked: Seq<Action>, pending: Seq<Action>)
    requires
        whole_frames(asked + pending),
    ensures
        line_low_after(asked) <==> pending.len() % 3 != 0,
        pending.len() > 0 ==> in_place(pending[0], pending.len() as int),
    decreases asked.len(),
{
    let all = asked + pending;
    if pending.len() > 0 {
        assert(all[asked.len() as int] == pending[0]);
        assert(in_place(all[asked.len() as int], all.len() - asked.len()));
    }
    if asked.len() > 0 {
        let i = asked.len() - 1;
        assert(all[i] == asked.last());
        assert(in_place(all[i], all.len() - i));
        if asked.last().is_exchange() {
            let earlier = asked.drop_last();
            let later = seq![asked.last()] + pending;
            assert(earlier + later =~= all);
            lemma_line_follows_frames(earlier, later);
        }
    }
}

} // verus!

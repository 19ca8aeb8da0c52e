//! One register operation: a frame of three actions and, for a read, the
//! byte that it yields.

use crate::bus::{read_frame, write_frame, Action, Event};
use crate::registers::{PLACEHOLDER, READ_FLAG};
use vstd::prelude::*;

verus! {

/// A register operation.
#[derive(Clone, Copy, Debug, PartialEq, Eq, Structural)]
pub enum Request {
    /// Read the register at `address`.
    Read { address: u8 },
    /// Write `value` to the register at `address`.
    Write { address: u8, value: u8 },
}

impl Request {
    /// The actions that carry the operation out, in order.
    pub open spec fn frame(self) -> Seq<Action> {
        match self {
            Request::Read { address } => read_frame(address),
            Request::Write { address, value } => write_frame(address, value),
        }
    }
}

/// What a transaction is, whatever way it is stored.
#[verifier::ext_equal]
pub struct TransactionView {
    /// The operation that the transaction carries out.
    pub request: Request,
    /// The actions still to be carried out, in order.
    pub pending: Seq<Action>,
    /// The byte taken from the exchange, or the placeholder before it.
    pub heard: u8,
    /// Whether an action of the transaction was reported as failed.
    pub failed: bool,
}

impl TransactionView {
    /// The transaction for `request` before any of its actions.
    pub open spec fn begin(request: Request) -> TransactionView {
        TransactionView { request, pending: request.frame(), heard: PLACEHOLDER, failed: false }
    }

    /// The transaction after its next action has ended with `event`. The
    /// event that answers a transfer leaves its second byte. A failure is
    /// noted and changes nothing else. A finished transaction stays as it is.
    pub open spec fn after(self, event: Event) -> TransactionView {
        if self.pending.len() == 0 {
            self
        } else {
            TransactionView {
                request: self.request,
                pending: self.pending.drop_first(),
                heard: if self.pending[0] is Transfer {
                    event.second_byte()
                } else {
                    self.heard
                },
                failed: self.failed || event is Failed,
            }
        }
    }

    /// Whether all actions have been carried out.
    pub open spec fn finished(self) -> bool {
        self.pending.len() == 0
    }

    /// The byte that a finished read has yielded.
    pub open spec fn value(self) -> Option<u8> {
        if self.finished() && self.request is Read {
            Some(self.heard)
        } else {
            None
        }
    }
}

/// The action that is due next.
#[derive(Clone, Copy, Debug, PartialEq, Eq, Structural)]
enum Stage {
    Select,
    Exchange,
    Release,
    Finished,
}

impl Stage {
    /// The number of actions carried out before this stage.
    spec fn performed(self) -> int {
        match self {
            Stage::Select => 0,
            Stage::Exchange => 1,
            Stage::Release => 2,
            Stage::Finished => 3,
        }
    }
}

/// A register operation in progress. It names the actions of its frame one
/// by one and takes the byte of a read from the event that answers the
/// exchange.
#[derive(Clone, Copy, Debug)]
pub struct Transaction {
    request: Request,
    stage: Stage,
    heard: u8,
    failed: bool,
}

impl View for Transaction {
    type V = TransactionView;

    closed spec fn view(&self) -> TransactionView {
        TransactionView {
            request: self.request,
            pending: self.request.frame().skip(self.stage.performed()),
            heard: self.heard,
            failed: self.failed,
        }
    }
}

impl Transaction {
    /// Begins the operation `request`.
    pub fn begin(request: Request) -> (transaction: Transaction)
        ensures
            transaction@ == TransactionView::begin(request),
    {
        let transaction = Transaction {
            request,
            stage: Stage::Select,
            heard: PLACEHOLDER,
            failed: false,
        };
        assert(request.frame().skip(0) =~= request.frame());
        transaction
    }

    /// The operation that the transaction carries out.
    pub fn request(&self) -> (request: Request)
        ensures
            request == self@.request,
    {
        self.request
    }

    /// The action to carry out next, or `None` when the frame is complete.
    pub fn next_action(&self) -> (action: Option<Action>)
        ensures
            action == (if self@.pending.len() == 0 {
                None
            } else {
                Some(self@.pending[0])
            }),
    {
        match self.stage {
            Stage::Select => Some(Action::SelectLow),
            Stage::Exchange => match self.request {
                Request::Read { address } => Some(
                    Action::Transfer { first: READ_FLAG | address, second: PLACEHOLDER },
                ),
                Request::Write { address, value } => Some(
                    Action::Write { first: address, second: value },
                ),
            },
            Stage::Release => Some(Action::SelectHigh),
            Stage::Finished => None,
        }
    }

    /// Tells the transaction how the action that it named last has ended.
    pub fn handle(&mut self, event: Event)
        ensures
            final(self)@ == old(self)@.after(event),
    {
        let failed = self.failed || event.is_failure();
        match self.stage {
            Stage::Select => {
                self.stage = Stage::Exchange;
                self.failed = failed;
            },
            Stage::Exchange => {
                match self.request {
                    Request::Read { address } => {
                        self.heard = event.reply();
                    },
                    Request::Write { address, value } => {},
                }
                self.stage = Stage::Release;
                self.failed = failed;
            },
            Stage::Release => {
                self.stage = Stage::Finished;
                self.failed = failed;
            },
            Stage::Finished => {},
        }
        assert(self@.pending =~= old(self)@.after(event).pending);
    }

    /// Whether all three actions have been carried out.
    pub fn is_finished(&self) -> (finished: bool)
        ensures
            finished == self@.finished(),
    {
        match self.stage {
            Stage::Finished => true,
            _ => false,
        }
    }

    /// The byte that a finished read has yielded; `None` for a write and
    /// while the frame is incomplete.
    pub fn value(&self) -> (value: Option<u8>)
        ensures
            value == self@.value(),
    {
        match (self.stage, self.request) {
            (Stage::Finished, Request::Read { address }) => Some(self.heard),
            _ => None,
        }
    }

    /// Whether an action of the transaction was reported as failed.
    pub fn has_failed(&self) -> (failed: bool)
        ensures
            failed == self@.failed,
    {
        self.failed
    }
}

/// What a transaction has before it is the rest of the frame of its
/// request.
pub proof fn lemma_pending_is_rest_of_frame(transaction: Transaction)
    ensures
        transaction@.pending.len() <= 3,
        transaction@.pending == transaction@.request.frame().skip(
            3 - transaction@.pending.len(),
        ),
{
}

/// A register read sends the address with the read flag set and yields the
/// second byte that the exchange received, whatever the events that answer
/// the chip-select actions and whether or not one of them reports a failure.
pub proof fn lemma_read_yields_second_byte(
    address: u8,
    selected: Event,
    first: u8,
    second: u8,
    released: Event,
)
    ensures
        ({
            let begun = TransactionView::begin(Request::Read { address });
            let exchanged = begun.after(selected).after(Event::Received { first, second });
            &&& begun.pending == seq![
                Action::SelectLow,
                Action::Transfer { first: READ_FLAG | address, second: PLACEHOLDER },
                Action::SelectHigh,
            ]
            &&& begun.value() is None
            &&& exchanged.value() is None
            &&& exchanged.after(released).value() == Some(second)
        }),
{
    let begun = TransactionView::begin(Request::Read { address });
    let selected_view = begun.after(selected);
    let exchanged = selected_view.after(Event::Received { first, second });
    let done = exchanged.after(released);
    assert(selected_view.pending.len() == 2);
    assert(selected_view.pending[0] is Transfer);
    assert(exchanged.pending.len() == 1);
    assert(done.pending.len() == 0);
}

/// A register write sends the address as it is and then the value, and
/// yields no byte.
pub proof fn lemma_write_sends_address_and_value(
    address: u8,
    value: u8,
    selected: Event,
    written: Event,
    released: Event,
)
    ensures
        ({
            let begun = TransactionView::begin(Request::Write { address, value });
            let done = begun.after(selected).after(written).after(released);
            &&& begun.pending == seq![
                Action::SelectLow,
                Action::Write { first: address, second: value },
                Action::SelectHigh,
            ]
            &&& done.finished()
            &&& done.value() is None
        }),
{
    let begun = TransactionView::begin(Request::Write { address, value });
    let one = begun.after(selected);
    let two = one.after(written);
    let done = two.after(released);
    assert(one.pending.len() == 2);
    assert(two.pending.len() == 1);
    assert(done.pending.len() == 0);
}

} // verus!

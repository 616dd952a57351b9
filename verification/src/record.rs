//! The coroutine record as a mathematical value, and the steps that the two
//! sides take on it.
//!
//! Every operation of the engine is stated as one of these steps. A control
//! transfer changes nothing in the record: it only changes which side acts
//! next.

use crate::error::Error;
use crate::raw;
use crate::stack::Segment;
use vstd::prelude::*;

verus! {

/// Where a coroutine is in its life.
#[derive(Debug, Clone, Copy, PartialEq, Eq, Structural)]
pub enum State {
    /// Made, never entered.
    Created,
    /// Entered; its body has not come to an end.
    Running,
    /// Its body has come to an end, by returning or by failing.
    Finished,
    /// Its owner asks it to unwind: set while the body is suspended, seen by
    /// the body when it next wakes.
    ForceUnwind,
}

/// The signal with which a suspended body is made to unwind. It never
/// reaches a resumer.
#[derive(Debug, Clone, Copy, PartialEq, Eq, Structural)]
pub struct ForceUnwind;

/// How the body of a coroutine came to an end.
pub enum Exit<P> {
    /// It returned.
    Returned,
    /// It was unwound by the `ForceUnwind` signal.
    Unwound,
    /// It failed with `payload`; `message` is the text that the payload
    /// carried, if it carried one.
    Panicked { payload: P, message: Option<String> },
}

/// The text of an optional string.
pub open spec fn text_of(s: Option<String>) -> Option<Seq<char>> {
    match s {
        Some(s) => Some(s@),
        None => None,
    }
}

/// The line that reports a failed body: the coroutine's name, or
/// `<unnamed>`, and the failure's message, or `Box<Any>`.
pub open spec fn report_text(name: Option<Seq<char>>, message: Option<Seq<char>>) -> Seq<char> {
    "Coroutine '"@ + (match name {
        Some(n) => n,
        None => "<unnamed>"@,
    }) + "' panicked at '"@ + (match message {
        Some(m) => m,
        None => "Box<Any>"@,
    }) + "'"@
}

/// The text that stands for a coroutine: `Coroutine(` name `)`.
pub open spec fn label_text(name: Option<Seq<char>>) -> Seq<char> {
    "Coroutine("@ + (match name {
        Some(n) => n,
        None => "<unnamed>"@,
    }) + ")"@
}

/// What one pull of the sequence of produced values gives for what a resume
/// returned. A value is the next item, and so is the failure that carries
/// its payload: the one item by which a failed body shows. "No value" ends
/// the sequence, and so does the sentinel, which only repeats that the body
/// failed earlier.
pub open spec fn item_of<T, P>(got: Result<Option<T>, Error<P>>) -> Option<Result<T, Error<P>>> {
    match got {
        Ok(None) => None,
        Ok(Some(x)) => Some(Ok(x)),
        Err(Error::Panicking(p)) => Some(Err(Error::Panicking(p))),
        Err(Error::Panicked) => None,
    }
}

/// A coroutine record: `F` is the entry function, `T` what the two sides
/// exchange, `P` the payload of a failure.
pub struct Record<F, T, P> {
    /// Where the resumer is suspended while the coroutine runs.
    pub parent: raw::Coroutine,
    /// The coroutine's own context and stack, until the stack is reclaimed.
    pub raw_impl: Option<raw::Coroutine>,
    /// The label for diagnostics.
    pub name: Option<Seq<char>>,
    /// The entry function, until the coroutine is entered.
    pub function: Option<F>,
    /// The lifecycle state.
    pub state: State,
    /// The slot through which values and failures cross a transfer.
    pub result: Option<Result<T, Error<P>>>,
    /// The value of the resume that entered the body, until the body takes
    /// it.
    pub initial: Option<T>,
    /// Whether the body ended in a failure.
    pub panicked: bool,
}

impl<F, T, P> Record<F, T, P> {
    /// The record of a coroutine that was just made around `f` on `stack`.
    pub open spec fn spawned(f: F, name: Option<Seq<char>>, stack: Segment) -> Self {
        Record {
            parent: raw::Coroutine { context: None, stack: None },
            raw_impl: Some(raw::Coroutine { context: None, stack: Some(stack) }),
            name,
            function: Some(f),
            state: State::Created,
            result: None,
            initial: None,
            panicked: false,
        }
    }

    /// What every record of the engine satisfies: a coroutine that was never
    /// entered still has its entry function, only a finished body can have
    /// failed, and the slot holds a failure only after the body failed.
    pub open spec fn wf(self) -> bool {
        &&& self.state is Created ==> self.function is Some
        &&& self.panicked ==> self.state is Finished
        &&& (self.result matches Some(Err(_))) ==> self.panicked
    }

    /// The stack segment that the coroutine runs on, if it still owns one.
    pub open spec fn segment(self) -> Option<Segment> {
        match self.raw_impl {
            Some(unit) => unit.stack,
            None => None,
        }
    }

    /// Whether the slot holds a failure.
    pub open spec fn holds_failure(self) -> bool {
        self.result matches Some(Err(_))
    }

    /// One side writes `data` into the slot before it gives control away.
    pub open spec fn sent(self, data: T) -> Self {
        Record { result: Some(Ok(data)), ..self }
    }

    /// The slot is emptied.
    pub open spec fn drained(self) -> Self {
        Record { result: None, ..self }
    }

    /// What the resumer finds in the slot when control comes back to it.
    pub open spec fn received(self) -> Result<Option<T>, Error<P>> {
        match self.result {
            None => Ok(None),
            Some(Ok(x)) => Ok(Some(x)),
            Some(Err(e)) => Err(e),
        }
    }

    /// What the slot holds for the body: the value that the resumer sent,
    /// if it sent one. A failure in the slot is addressed to the resumer.
    pub open spec fn pending(self) -> Option<T> {
        match self.result {
            Some(Ok(x)) => Some(x),
            _ => None,
        }
    }

    /// The record after the body looked into the slot: the slot is emptied,
    /// except of a failure, which stays for the resumer.
    pub open spec fn cleared(self) -> Self {
        if self.holds_failure() {
            self
        } else {
            self.drained()
        }
    }

    /// What the body gets when it takes its data: the value of the resume
    /// that entered it, as long as that has not been taken, else what the
    /// slot holds for it.
    pub open spec fn taken(self) -> Option<T> {
        if self.initial is Some {
            self.initial
        } else {
            self.pending()
        }
    }

    /// The record after the body took its data: what it got is gone from
    /// where it was.
    pub open spec fn after_take(self) -> Self {
        if self.initial is Some {
            Record { initial: None, ..self }
        } else {
            self.cleared()
        }
    }

    /// What the body finds when it wakes from a yield: the order to unwind
    /// where its owner asked for that, else what the resumer sent.
    pub open spec fn observed(self) -> Result<Option<T>, ForceUnwind> {
        if self.state is ForceUnwind {
            Err(ForceUnwind)
        } else {
            Ok(self.pending())
        }
    }

    /// The record after the body woke from a yield: what the resumer sent
    /// is gone from the slot, whether the body got it or was told to unwind
    /// instead.
    pub open spec fn woken(self) -> Self {
        self.cleared()
    }

    /// The coroutine is entered for the first time: it runs, its entry
    /// function has been handed out, and what the resumer sent with this
    /// resume has moved out of the slot to where the body can take it. The
    /// slot is empty, so that the resumer cannot find its own value in it.
    pub open spec fn started(self) -> Self {
        if self.state is Created {
            Record {
                state: State::Running,
                function: None,
                initial: self.pending(),
                result: None,
                ..self
            }
        } else {
            self
        }
    }

    /// The body came to an end. A failure is put into the slot for the
    /// resumer, with its payload; after a return or a forced unwind the
    /// slot is empty, so that the resumer finds no value.
    pub open spec fn finished(self, exit: Exit<P>) -> Self {
        match exit {
            Exit::Panicked { payload, message } => Record {
                state: State::Finished,
                panicked: true,
                result: Some(Err(Error::Panicking(payload))),
                ..self
            },
            _ => Record { state: State::Finished, result: None, ..self },
        }
    }

    /// A finished coroutine was resumed once more: what the resumer sent is
    /// discarded, and after a failure the slot is loaded with the sentinel.
    pub open spec fn parked(self) -> Self {
        Record {
            result: if self.panicked {
                Some(Err(Error::Panicked))
            } else {
                None
            },
            ..self
        }
    }

    /// Whether the stack can be given away: no body is suspended on it
    /// mid-way. That is so before the coroutine is entered and after its
    /// body has come to an end.
    pub open spec fn reclaimable(self) -> bool {
        !(self.state is Running) && !(self.state is ForceUnwind)
    }

    /// The record after its owner tried to reclaim the stack: the stack and
    /// the context are gone, unless a body is still suspended on the stack.
    pub open spec fn reclaimed(self) -> Self {
        if self.reclaimable() {
            Record { raw_impl: None, ..self }
        } else {
            self
        }
    }

    /// The owner lets go of the coroutine: a body that is suspended
    /// mid-way is asked to unwind.
    pub open spec fn unwinding(self) -> Self {
        if self.state is Running {
            Record { state: State::ForceUnwind, ..self }
        } else {
            self
        }
    }
}

} // verus!

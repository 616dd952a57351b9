//! The asymmetric coroutine: the record that a resumer owns, and what each
//! side does to it around a transfer of control.
//!
//! The resumer's side is `resume_with`, `resume`, `next`, `force_unwind` and
//! `reclaim`. The coroutine's side is `start`, `yield_with`, `yield_back`,
//! `take_data`, `finish` and `park`. A transfer stands between a step of one
//! side and the next step of the other; `switch_in`, `switched_out`,
//! `switch_out` and `switched_in` move the contexts that a transfer consumes
//! and hands back.
//!
//! A resume is: `resume_with` where there is a value to send, the transfer
//! into the coroutine, and `resume` (or `next`) when control is back. A
//! yield is: `yield_with` where there is a value to send, the transfer to
//! the resumer, and `yield_back` when control is back.
//!
//! On the coroutine's stack the life of a body is: `start`, which hands out
//! the entry function; the call of that function; `finish` with the way it
//! ended; and then, for ever, a transfer to the resumer followed by `park`.
//!
//! A body that is woken by a resume without a value finds no value.
//!
//! Neither side ever finds in the slot what it wrote itself: each side
//! empties the slot of the other's value as soon as control comes to it.
//! `yield_back` and `park` do so for the coroutine, `resume` and `next` for
//! the resumer. On the first entry there is no yield to wake from, so
//! `start` moves the value of that resume out of the slot and keeps it for
//! the body, which gets it from `take_data`, once. A body that yields
//! without taking it leaves its resumer with no value, not with the
//! resumer's own.

use crate::error::Error;
use crate::options::Options;
use crate::raw;
use crate::record::label_text;
use crate::record::item_of;
use crate::record::report_text;
use crate::record::text_of;
use crate::record::Exit;
use crate::record::ForceUnwind;
use crate::record::Record;
use crate::record::State;
use crate::stack::first_fit;
use crate::stack::AllocError;
use crate::stack::Segment;
use crate::stack::StackPool;
use context::Context;
use vstd::prelude::*;
use vstd::string::*;

verus! {

/// A coroutine, as its resumer owns it: `F` is the entry function, `T` what
/// the two sides exchange, `P` the payload of a failure of the body.
pub struct Coroutine<F, T, P> {
    parent: raw::Coroutine,
    raw_impl: Option<raw::Coroutine>,
    name: Option<String>,
    function: Option<F>,
    state: State,
    result: Option<Result<T, Error<P>>>,
    initial: Option<T>,
    panicked: bool,
}

impl<F, T, P> View for Coroutine<F, T, P> {
    type V = Record<F, T, P>;

    closed spec fn view(&self) -> Record<F, T, P> {
        Record {
            parent: self.parent,
            raw_impl: self.raw_impl,
            name: text_of(self.name),
            function: self.function,
            state: self.state,
            result: self.result,
            initial: self.initial,
            panicked: self.panicked,
        }
    }
}

/// The line that reports a failed body, for the standard error stream.
pub fn panic_report(name: Option<&str>, message: Option<&str>) -> (line: String)
    ensures
        line@ == report_text(
            match name {
                Some(n) => Some(n@),
                None => None,
            },
            match message {
                Some(m) => Some(m@),
                None => None,
            },
        ),
{
    let mut line = String::from_str("Coroutine '");
    match name {
        Some(n) => line.append(n),
        None => line.append("<unnamed>"),
    }
    line.append("' panicked at '");
    match message {
        Some(m) => line.append(m),
        None => line.append("Box<Any>"),
    }
    line.append("'");
    line
}

/// Empties a slot and returns what it held.
fn take_slot<V>(slot: &mut Option<V>) -> (held: Option<V>)
    ensures
        held == *old(slot),
        *final(slot) is None,
    no_unwind
{
    let mut held = None;
    std::mem::swap(slot, &mut held);
    held
}

/// Takes the suspended context out of a unit that may be gone.
fn detach_context(unit: &mut Option<raw::Coroutine>) -> (ctx: Option<Context>)
    ensures
        ctx == (match *old(unit) {
            Some(u) => u.context,
            None => None,
        }),
        *final(unit) == (match *old(unit) {
            Some(u) => Some(raw::Coroutine { context: None, ..u }),
            None => None,
        }),
    no_unwind
{
    match unit {
        Some(u) => u.take_context(),
        None => None,
    }
}

/// Stores a suspended context in a unit that may be gone.
fn attach_context(unit: &mut Option<raw::Coroutine>, ctx: Context)
    ensures
        *final(unit) == (match *old(unit) {
            Some(u) => Some(raw::Coroutine { context: Some(ctx), ..u }),
            None => None,
        }),
    no_unwind
{
    match unit {
        Some(u) => {
            u.set_context(ctx);
        },
        None => {},
    }
}

impl<F, T, P> Coroutine<F, T, P> {
    #[verifier::type_invariant]
    spec fn inv(self) -> bool {
        self@.wf()
    }

    /// Makes a coroutine around `f` that runs on `stack`.
    pub fn with_stack(f: F, name: Option<String>, stack: Segment) -> (coro: Self)
        ensures
            coro@ == Record::<F, T, P>::spawned(f, text_of(name), stack),
            coro@.wf(),
    {
        let mut unit = raw::Coroutine::empty();
        unit.set_stack(stack);
        Coroutine {
            parent: raw::Coroutine::empty(),
            raw_impl: Some(unit),
            name,
            function: Some(f),
            state: State::Created,
            result: None,
            initial: None,
            panicked: false,
        }
    }

    /// Makes a coroutine around `f` with the given options. Its stack comes
    /// from `pool`: the earliest idle segment that is large enough, else a
    /// fresh one. Only the allocation of a fresh segment can fail.
    pub fn spawn_opts(f: F, opts: Options, pool: &mut StackPool) -> (r: Result<Self, AllocError>)
        ensures
            first_fit(old(pool)@, opts.stack_size) < old(pool)@.len() ==> {
                &&& r is Ok
                &&& r->Ok_0@ == Record::<F, T, P>::spawned(
                    f,
                    text_of(opts.name),
                    old(pool)@[first_fit(old(pool)@, opts.stack_size)],
                )
                &&& final(pool)@ == old(pool)@.remove(first_fit(old(pool)@, opts.stack_size))
            },
            first_fit(old(pool)@, opts.stack_size) >= old(pool)@.len() ==> {
                &&& final(pool)@ == old(pool)@
                &&& r is Ok ==> {
                    &&& r->Ok_0@.segment() is Some
                    &&& r->Ok_0@.segment()->0.size() == opts.stack_size
                    &&& r->Ok_0@ == Record::<F, T, P>::spawned(
                        f,
                        text_of(opts.name),
                        r->Ok_0@.segment()->0,
                    )
                }
            },
            r is Ok ==> r->Ok_0@.segment() is Some && r->Ok_0@.segment()->0.size()
                >= opts.stack_size,
            r is Ok ==> r->Ok_0@.wf(),
    {
        match pool.take_stack(opts.stack_size) {
            Ok(stack) => Ok(Self::with_stack(f, opts.name, stack)),
            Err(e) => Err(e),
        }
    }

    /// Makes a coroutine around `f` with the default options.
    pub fn spawn(f: F, pool: &mut StackPool) -> (r: Result<Self, AllocError>)
        ensures
            first_fit(old(pool)@, crate::options::DEFAULT_STACK_SIZE) < old(pool)@.len() ==> {
                &&& r is Ok
                &&& r->Ok_0@ == Record::<F, T, P>::spawned(
                    f,
                    None,
                    old(pool)@[first_fit(old(pool)@, crate::options::DEFAULT_STACK_SIZE)],
                )
                &&& final(pool)@ == old(pool)@.remove(
                    first_fit(old(pool)@, crate::options::DEFAULT_STACK_SIZE),
                )
            },
            first_fit(old(pool)@, crate::options::DEFAULT_STACK_SIZE) >= old(pool)@.len() ==> {
                &&& final(pool)@ == old(pool)@
                &&& r is Ok ==> {
                    &&& r->Ok_0@.segment() is Some
                    &&& r->Ok_0@.segment()->0.size() == crate::options::DEFAULT_STACK_SIZE
                    &&& r->Ok_0@ == Record::<F, T, P>::spawned(f, None, r->Ok_0@.segment()->0)
                }
            },
            r is Ok ==> r->Ok_0@.segment() is Some && r->Ok_0@.segment()->0.size()
                >= crate::options::DEFAULT_STACK_SIZE,
            r is Ok ==> r->Ok_0@.wf(),
    {
        Self::spawn_opts(f, Options::new(), pool)
    }

    /// The coroutine's name, if it was given one.
    pub fn name(&self) -> (name: Option<&str>)
        ensures
            name is Some <==> self@.name is Some,
            name is Some ==> name->0@ == self@.name->0,
    {
        match &self.name {
            Some(s) => Some(s.as_str()),
            None => None,
        }
    }

    /// The text that stands for this coroutine: `Coroutine(` name `)`, with
    /// `<unnamed>` for a coroutine without a name.
    pub fn to_string(&self) -> (text: String)
        ensures
            text@ == label_text(self@.name),
    {
        let mut text = String::from_str("Coroutine(");
        match &self.name {
            Some(s) => text.append(s.as_str()),
            None => text.append("<unnamed>"),
        }
        text.append(")");
        text
    }

    /// The lifecycle state.
    pub fn state(&self) -> (state: State)
        ensures
            state == self@.state,
    {
        self.state
    }

    /// The stack segment that the coroutine runs on, until it is reclaimed.
    pub fn stack(&self) -> (stack: Option<&Segment>)
        ensures
            stack is Some <==> self@.segment() is Some,
            stack is Some ==> *stack->0 == self@.segment()->0,
    {
        match &self.raw_impl {
            Some(unit) => match &unit.stack {
                Some(stack) => Some(stack),
                None => None,
            },
            None => None,
        }
    }

    /// Resumer, before the transfer: puts `data` into the slot, for the
    /// body to find when it wakes. After the transfer, `resume` tells what
    /// came back.
    pub fn resume_with(&mut self, data: T)
        ensures
            final(self)@ == old(self)@.sent(data),
            final(self)@.wf(),
    {
        proof {
            use_type_invariant(&*self);
        }
        self.result = Some(Ok(data));
    }

    /// Resumer, after the transfer: empties the slot and tells what the
    /// coroutine left in it: no value, a value, or the failure of its body.
    pub fn resume(&mut self) -> (got: Result<Option<T>, Error<P>>)
        ensures
            got == old(self)@.received(),
            final(self)@ == old(self)@.drained(),
            final(self)@.wf(),
    {
        proof {
            use_type_invariant(&*self);
        }
        match take_slot(&mut self.result) {
            None => Ok(None),
            Some(Ok(x)) => Ok(Some(x)),
            Some(Err(err)) => Err(err),
        }
    }

    /// Resumer, after the transfer, where the coroutine is read as a
    /// sequence of values: a value is the next item, and so is the failure
    /// of the body, once, with its payload. "No value" ends the sequence,
    /// and after a failure was delivered every further pull ends it too.
    pub fn next(&mut self) -> (item: Option<Result<T, Error<P>>>)
        ensures
            item == item_of(old(self)@.received()),
            final(self)@ == old(self)@.drained(),
            final(self)@.wf(),
    {
        match self.resume() {
            Ok(None) => None,
            Ok(Some(x)) => Some(Ok(x)),
            Err(Error::Panicking(payload)) => Some(Err(Error::Panicking(payload))),
            Err(Error::Panicked) => None,
        }
    }

    /// Body, before the transfer: puts `data` into the slot, for the
    /// resumer to find. After the transfer, `yield_back` tells what the
    /// resumer sent.
    pub fn yield_with(&mut self, data: T)
        ensures
            final(self)@ == old(self)@.sent(data),
            final(self)@.wf(),
    {
        proof {
            use_type_invariant(&*self);
        }
        self.result = Some(Ok(data));
    }

    /// Body, after the transfer: where the owner asked for an unwind, the
    /// signal to raise; else what the resumer sent, or no value where it
    /// sent nothing. Either way the slot is emptied of what the resumer
    /// sent.
    pub fn yield_back(&mut self) -> (got: Result<Option<T>, ForceUnwind>)
        ensures
            got == old(self)@.observed(),
            final(self)@ == old(self)@.woken(),
            final(self)@.wf(),
    {
        let data = self.take_pending();
        match self.state {
            State::ForceUnwind => Err(ForceUnwind),
            _ => Ok(data),
        }
    }

    /// Body: takes what the resumer sent and the body has not seen yet.
    /// That is the value of the resume that entered the body, where there
    /// was one and it has not been taken; else what the slot holds. Each
    /// value is handed out once. A failure in the slot is not the body's to
    /// take: it stays.
    pub fn take_data(&mut self) -> (data: Option<T>)
        ensures
            data == old(self)@.taken(),
            final(self)@ == old(self)@.after_take(),
            final(self)@.wf(),
    {
        proof {
            use_type_invariant(&*self);
        }
        match take_slot(&mut self.initial) {
            Some(x) => Some(x),
            None => self.take_pending(),
        }
    }

    /// Empties the slot of what the resumer sent, and returns it.
    fn take_pending(&mut self) -> (data: Option<T>)
        ensures
            data == old(self)@.pending(),
            final(self)@ == old(self)@.cleared(),
            final(self)@.wf(),
    {
        proof {
            use_type_invariant(&*self);
        }
        match take_slot(&mut self.result) {
            Some(Ok(x)) => Some(x),
            Some(Err(err)) => {
                self.result = Some(Err(err));
                None
            },
            None => None,
        }
    }

    /// Coroutine, on its first entry: the state becomes `Running`, the entry
    /// function is handed out, to be called once, and what the resumer sent
    /// moves out of the slot, to wait for `take_data`. On any later call
    /// nothing changes and nothing is handed out.
    pub fn start(&mut self) -> (f: Option<F>)
        ensures
            final(self)@ == old(self)@.started(),
            f == (if old(self)@.state is Created {
                old(self)@.function
            } else {
                None
            }),
            old(self)@.state is Created ==> f is Some,
            old(self)@.state is Created ==> final(self)@.result is None,
            final(self)@.wf(),
    {
        proof {
            use_type_invariant(&*self);
        }
        match self.state {
            State::Created => {
                self.state = State::Running;
                match take_slot(&mut self.result) {
                    Some(Ok(x)) => {
                        self.initial = Some(x);
                    },
                    _ => {
                        self.initial = None;
                    },
                }
                take_slot(&mut self.function)
            },
            _ => None,
        }
    }

    /// Coroutine, when its body has come to an end: the state becomes
    /// `Finished`. Where the body failed, the failure with its payload is
    /// put into the slot and the line to report is returned. A return and a
    /// forced unwind are not reported, and leave the slot empty.
    pub fn finish(&mut self, exit: Exit<P>) -> (report: Option<String>)
        ensures
            final(self)@ == old(self)@.finished(exit),
            text_of(report) == (match exit {
                Exit::Panicked { payload, message } => Some(
                    report_text(old(self)@.name, text_of(message)),
                ),
                _ => None,
            }),
            final(self)@.wf(),
    {
        proof {
            use_type_invariant(&*self);
        }
        self.state = State::Finished;
        match exit {
            Exit::Panicked { payload, message } => {
                let line = panic_report(
                    self.name(),
                    match &message {
                        Some(m) => Some(m.as_str()),
                        None => None,
                    },
                );
                self.panicked = true;
                self.result = Some(Err(Error::Panicking(payload)));
                Some(line)
            },
            _ => {
                self.result = None;
                None
            },
        }
    }

    /// Coroutine, each time it is resumed after its body has ended: what
    /// the resumer sent is dropped, and after a failure the slot is loaded
    /// with the sentinel, so that the resumer is told again.
    pub fn park(&mut self)
        ensures
            final(self)@ == old(self)@.parked(),
            final(self)@.wf(),
    {
        proof {
            use_type_invariant(&*self);
        }
        if self.panicked {
            self.result = Some(Err(Error::Panicked));
        } else {
            self.result = None;
        }
    }

    /// Owner, when it lets go of the coroutine: a body that is suspended
    /// mid-way is asked to unwind. Returns whether it was: the owner then
    /// resumes the coroutine once more, shielded against whatever the
    /// unwinding raises, before the stack is reclaimed.
    pub fn force_unwind(&mut self) -> (asked: bool)
        ensures
            asked == (old(self)@.state is Running),
            final(self)@ == old(self)@.unwinding(),
            final(self)@.wf(),
    {
        proof {
            use_type_invariant(&*self);
        }
        match self.state {
            State::Running => {
                self.state = State::ForceUnwind;
                true
            },
            _ => false,
        }
    }

    /// Owner, last of all: gives the coroutine's stack segment back to the
    /// pool; the coroutine's context is gone with it. A stack on which a
    /// body is still suspended mid-way holds live frames and is not given
    /// away: in the states `Running` and `ForceUnwind` nothing changes.
    pub fn reclaim(&mut self, pool: &mut StackPool)
        ensures
            final(self)@ == old(self)@.reclaimed(),
            final(pool)@ == (if old(self)@.reclaimable() && old(self)@.segment() is Some {
                old(pool)@.push(old(self)@.segment()->0)
            } else {
                old(pool)@
            }),
            final(self)@.wf(),
    {
        proof {
            use_type_invariant(&*self);
        }
        match self.state {
            State::Running | State::ForceUnwind => {},
            _ => match take_slot(&mut self.raw_impl) {
                Some(unit) => match unit.take_stack() {
                    Some(stack) => pool.give_stack(stack),
                    None => {},
                },
                None => {},
            },
        }
    }

    /// Resumer, about to switch into the coroutine: takes the coroutine's
    /// suspended context out of the record. The switch consumes it.
    pub fn switch_in(&mut self) -> (ctx: Option<Context>)
        ensures
            ctx == (match old(self)@.raw_impl {
                Some(unit) => unit.context,
                None => None,
            }),
            final(self)@ == (Record {
                raw_impl: match old(self)@.raw_impl {
                    Some(unit) => Some(raw::Coroutine { context: None, ..unit }),
                    None => None,
                },
                ..old(self)@
            }),
            final(self)@.wf(),
    {
        proof {
            use_type_invariant(&*self);
        }
        detach_context(&mut self.raw_impl)
    }

    /// Resumer, when control has come back: stores the context in which the
    /// coroutine suspended itself. Without a stack there is nothing to
    /// suspend on, and the context is dropped.
    pub fn switched_out(&mut self, ctx: Context)
        ensures
            final(self)@ == (Record {
                raw_impl: match old(self)@.raw_impl {
                    Some(unit) => Some(raw::Coroutine { context: Some(ctx), ..unit }),
                    None => None,
                },
                ..old(self)@
            }),
            final(self)@.wf(),
    {
        proof {
            use_type_invariant(&*self);
        }
        attach_context(&mut self.raw_impl, ctx);
    }

    /// Coroutine, about to switch back to its resumer: takes the resumer's
    /// suspended context out of the record.
    pub fn switch_out(&mut self) -> (ctx: Option<Context>)
        ensures
            ctx == old(self)@.parent.context,
            final(self)@ == (Record {
                parent: raw::Coroutine { context: None, ..old(self)@.parent },
                ..old(self)@
            }),
            final(self)@.wf(),
    {
        proof {
            use_type_invariant(&*self);
        }
        self.parent.take_context()
    }

    /// Coroutine, when control has come to it: stores the context in which
    /// its resumer is suspended.
    pub fn switched_in(&mut self, parent: Context)
        ensures
            final(self)@ == (Record {
                parent: raw::Coroutine { context: Some(parent), ..old(self)@.parent },
                ..old(self)@
            }),
            final(self)@.wf(),
    {
        proof {
            use_type_invariant(&*self);
        }
        self.parent.set_context(parent);
    }
}

} // verus!

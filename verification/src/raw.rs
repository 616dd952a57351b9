//! The raw transfer unit: one execution context and, where it owns one, the
//! stack segment that context runs on.

use crate::stack::Segment;
use context::Context;
use vstd::prelude::*;

verus! {

/// `Context` of the `context` crate: a suspended state of execution.
/// Nothing is known of what is inside; it is only carried.
#[verifier::external_type_specification]
#[verifier::external_body]
pub struct ExContext(Context);

/// A context and the stack it runs on. The context is absent while nothing
/// is suspended in it: before it is initialised, and while it is the one
/// that runs.
#[derive(Debug)]
pub struct Coroutine {
    /// The suspended context, if any.
    pub context: Option<Context>,
    /// The stack segment that this unit owns, if any.
    pub stack: Option<Segment>,
}

impl Coroutine {
    /// A unit with no context and no stack.
    pub fn empty() -> (unit: Coroutine)
        ensures
            unit.context is None,
            unit.stack is None,
    {
        Coroutine { context: None, stack: None }
    }

    /// A unit made of an initialised context and its stack.
    pub fn new(ctx: Context, stack: Segment) -> (unit: Coroutine)
        ensures
            unit.context == Some(ctx),
            unit.stack == Some(stack),
    {
        Coroutine { context: Some(ctx), stack: Some(stack) }
    }

    /// Gives up the stack; the unit and its context are gone.
    pub fn take_stack(self) -> (stack: Option<Segment>)
        ensures
            stack == self.stack,
    {
        self.stack
    }

    /// The suspended context, if any.
    pub fn context(&self) -> (ctx: Option<&Context>)
        ensures
            ctx is Some <==> self.context is Some,
            ctx is Some ==> *ctx->0 == self.context->0,
    {
        match &self.context {
            Some(ctx) => Some(ctx),
            None => None,
        }
    }

    /// The place of the context, to fill or to empty.
    pub fn context_mut(&mut self) -> (ctx: &mut Option<Context>)
        ensures
            *ctx == old(self).context,
            final(self).context == *final(ctx),
            final(self).stack == old(self).stack,
    {
        &mut self.context
    }

    /// Attaches `stack` and returns the segment that was attached before.
    pub fn set_stack(&mut self, stack: Segment) -> (prev: Option<Segment>)
        ensures
            prev == old(self).stack,
            final(self).stack == Some(stack),
            final(self).context == old(self).context,
    {
        let mut slot = Some(stack);
        std::mem::swap(&mut self.stack, &mut slot);
        slot
    }

    /// Takes the suspended context out, as a switch into it requires: the
    /// switch consumes the context it resumes.
    pub fn take_context(&mut self) -> (ctx: Option<Context>)
        ensures
            ctx == old(self).context,
            final(self).context is None,
            final(self).stack == old(self).stack,
        no_unwind
    {
        let mut slot = None;
        std::mem::swap(&mut self.context, &mut slot);
        slot
    }

    /// Stores the context in which this unit's side has just suspended
    /// itself, and returns the one that was stored before.
    pub fn set_context(&mut self, ctx: Context) -> (prev: Option<Context>)
        ensures
            prev == old(self).context,
            final(self).context == Some(ctx),
            final(self).stack == old(self).stack,
        no_unwind
    {
        let mut slot = Some(ctx);
        std::mem::swap(&mut self.context, &mut slot);
        slot
    }
}

} // verus!

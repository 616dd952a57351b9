//! Stack segments and the pool that keeps idle ones for reuse.

use context::stack::ProtectedFixedSizeStack;
use context::stack::StackError;
use vstd::prelude::*;

verus! {

/// `ProtectedFixedSizeStack` of the `context` crate: stack memory with a
/// guard page. Nothing is known of what is inside; it is only carried.
#[verifier::external_type_specification]
#[verifier::external_body]
pub struct ExProtectedFixedSizeStack(ProtectedFixedSizeStack);

/// `std::io::Error`, which the allocator's refusal carries. Nothing is
/// known of what is inside; it is only carried.
#[verifier::external_type_specification]
#[verifier::external_body]
pub struct ExIoError(std::io::Error);

/// Why a fresh stack segment could not be had.
#[derive(Debug)]
pub enum AllocError {
    /// The request is larger than the platform allows; holds the largest
    /// size that may be asked for.
    ExceedsMaximumSize(usize),
    /// The operating system refused the mapping.
    Io(std::io::Error),
}

/// A region of memory used as a call stack, tagged with the size it was
/// requested for. Only the allocator makes one, so that the tag is always
/// the size that the memory was asked for.
#[derive(Debug)]
pub struct Segment {
    size: usize,
    memory: ProtectedFixedSizeStack,
}

impl Segment {
    /// The size this segment was requested for.
    pub closed spec fn spec_size(&self) -> usize {
        self.size
    }

    /// The memory behind this segment.
    pub closed spec fn spec_memory(&self) -> &ProtectedFixedSizeStack {
        &self.memory
    }

    /// The size this segment was requested for.
    #[verifier::when_used_as_spec(spec_size)]
    pub fn size(&self) -> (n: usize)
        ensures
            n == self.size(),
    {
        self.size
    }

    /// The memory behind this segment.
    #[verifier::when_used_as_spec(spec_memory)]
    pub fn memory(&self) -> (m: &ProtectedFixedSizeStack)
        ensures
            m == self.memory(),
    {
        &self.memory
    }
}

/// Asks `ProtectedFixedSizeStack::new` of the `context` crate for a stack of
/// at least `size` bytes with a guard page. The memory it answers with comes
/// back as a segment tagged with the very `size` that was asked for; a
/// refusal comes back with the error's variants renamed. Whether the request
/// succeeds is up to the machine, so nothing more is claimed.
#[verifier::external_body]
fn allocate(size: usize) -> (r: Result<Segment, AllocError>)
    ensures
        r is Ok ==> r->Ok_0.size() == size,
{
    match ProtectedFixedSizeStack::new(size) {
        Ok(memory) => Ok(Segment { size, memory }),
        Err(StackError::ExceedsMaximumSize(max)) => Err(AllocError::ExceedsMaximumSize(max)),
        Err(StackError::IoError(err)) => Err(AllocError::Io(err)),
    }
}

/// Position of the earliest idle segment that serves a request for `size`
/// bytes, or `idle.len()` where none does.
pub open spec fn first_fit(idle: Seq<Segment>, size: usize) -> int
    decreases idle.len(),
{
    if idle.len() == 0 {
        0
    } else if idle[0].size() >= size {
        0
    } else {
        1 + first_fit(idle.drop_first(), size)
    }
}

/// `first_fit` is the least position whose segment is large enough.
pub proof fn lemma_first_fit(idle: Seq<Segment>, size: usize)
    ensures
        0 <= first_fit(idle, size) <= idle.len(),
        forall|j: int| 0 <= j < first_fit(idle, size) ==> (#[trigger] idle[j]).size() < size,
        first_fit(idle, size) < idle.len() ==> idle[first_fit(idle, size)].size() >= size,
    decreases idle.len(),
{
    if idle.len() > 0 && idle[0].size() < size {
        let rest = idle.drop_first();
        lemma_first_fit(rest, size);
        assert forall|j: int| 0 <= j < first_fit(idle, size) implies (#[trigger] idle[j]).size()
            < size by {
            if j > 0 {
                assert(idle[j] == rest[j - 1]);
            }
        }
    }
}

/// A position is the first fit as soon as it is in range or at the end,
/// every segment before it is too small, and its own segment, if any, is
/// large enough.
pub proof fn lemma_first_fit_is(idle: Seq<Segment>, size: usize, i: int)
    requires
        0 <= i <= idle.len(),
        forall|j: int| 0 <= j < i ==> (#[trigger] idle[j]).size() < size,
        i < idle.len() ==> idle[i].size() >= size,
    ensures
        first_fit(idle, size) == i,
{
    lemma_first_fit(idle, size);
    let k = first_fit(idle, size);
    if k < i {
        assert(idle[k].size() < size);
    } else if i < k {
        assert(idle[i].size() < size);
    }
}

/// Idle stack segments, oldest first.
pub struct StackPool {
    stacks: Vec<Segment>,
}

impl View for StackPool {
    type V = Seq<Segment>;

    closed spec fn view(&self) -> Seq<Segment> {
        self.stacks@
    }
}

impl StackPool {
    /// A pool that holds nothing.
    pub fn new() -> (pool: StackPool)
        ensures
            pool@ == Seq::<Segment>::empty(),
    {
        StackPool { stacks: Vec::new() }
    }

    /// How many segments are idle.
    pub fn len(&self) -> (n: usize)
        ensures
            n == self@.len(),
    {
        self.stacks.len()
    }

    /// Takes the earliest idle segment that is large enough for `size`
    /// bytes out of the pool, if there is one.
    pub fn take_idle(&mut self, size: usize) -> (r: Option<Segment>)
        ensures
            first_fit(old(self)@, size) < old(self)@.len() ==> {
                &&& r == Some(old(self)@[first_fit(old(self)@, size)])
                &&& final(self)@ == old(self)@.remove(first_fit(old(self)@, size))
            },
            first_fit(old(self)@, size) >= old(self)@.len() ==> {
                &&& r is None
                &&& final(self)@ == old(self)@
            },
            r is Some ==> r->0.size() >= size,
    {
        let mut i: usize = 0;
        while i < self.stacks.len()
            invariant
                0 <= i <= self.stacks.len(),
                self.stacks@ == old(self).stacks@,
                forall|j: int| 0 <= j < i ==> (#[trigger] self.stacks@[j]).size() < size,
            decreases self.stacks.len() - i,
        {
            if self.stacks[i].size() >= size {
                proof {
                    lemma_first_fit_is(self.stacks@, size, i as int);
                }
                let found = self.stacks.remove(i);
                return Some(found);
            }
            i += 1;
        }
        proof {
            lemma_first_fit_is(self.stacks@, size, i as int);
        }
        None
    }

    /// Hands out a segment for `size` bytes: an idle one where the pool has
    /// one that is large enough, else a fresh one from the allocator. Only
    /// the allocator can fail.
    pub fn take_stack(&mut self, size: usize) -> (r: Result<Segment, AllocError>)
        ensures
            first_fit(old(self)@, size) < old(self)@.len() ==> {
                &&& r is Ok
                &&& r->Ok_0 == old(self)@[first_fit(old(self)@, size)]
                &&& final(self)@ == old(self)@.remove(first_fit(old(self)@, size))
            },
            first_fit(old(self)@, size) >= old(self)@.len() ==> {
                &&& final(self)@ == old(self)@
                &&& r is Ok ==> r->Ok_0.size() == size
            },
            r is Ok ==> r->Ok_0.size() >= size,
    {
        match self.take_idle(size) {
            Some(segment) => Ok(segment),
            None => allocate(size),
        }
    }

    /// Puts a segment back for later reuse. Its memory is neither freed nor
    /// looked into.
    pub fn give_stack(&mut self, stack: Segment)
        ensures
            final(self)@ == old(self)@.push(stack),
    {
        self.stacks.push(stack);
    }
}

/// A segment that was given back serves the next request that it is large
/// enough for: no fresh segment is allocated, and where no older idle
/// segment fits, it is the very segment that was given and the pool is as it
/// was before.
pub proof fn lemma_given_stack_is_reused(idle: Seq<Segment>, stack: Segment, size: usize)
    requires
        size <= stack.size(),
    ensures
        first_fit(idle.push(stack), size) < idle.push(stack).len(),
        first_fit(idle, size) < idle.len() ==> first_fit(idle.push(stack), size) == first_fit(
            idle,
            size,
        ),
        first_fit(idle, size) >= idle.len() ==> {
            &&& idle.push(stack)[first_fit(idle.push(stack), size)] == stack
            &&& idle.push(stack).remove(first_fit(idle.push(stack), size)) == idle
        },
{
    let given = idle.push(stack);
    lemma_first_fit(idle, size);
    let k = first_fit(idle, size);
    assert forall|j: int| 0 <= j < k implies (#[trigger] given[j]).size() < size by {
        assert(given[j] == idle[j]);
    }
    lemma_first_fit_is(given, size, k);
    if k >= idle.len() {
        assert(given.remove(k) =~= idle);
    }
}

} // verus!

//! What a coroutine is made with.

use vstd::prelude::*;

verus! {

/// The stack size of a coroutine that is made without options: 2 MiB.
pub const DEFAULT_STACK_SIZE: usize = 2 * 1024 * 1024;

/// The options of a new coroutine.
#[derive(Debug)]
pub struct Options {
    /// How many bytes of stack the coroutine asks for.
    pub stack_size: usize,
    /// A label for diagnostics.
    pub name: Option<String>,
}

impl Options {
    /// The default options: the default stack size and no name.
    pub fn new() -> (opts: Options)
        ensures
            opts.stack_size == DEFAULT_STACK_SIZE,
            opts.name is None,
    {
        Options { stack_size: DEFAULT_STACK_SIZE, name: None }
    }

    /// The same options with another stack size.
    pub fn stack_size(self, size: usize) -> (opts: Options)
        ensures
            opts.stack_size == size,
            opts.name == self.name,
    {
        Options { stack_size: size, name: self.name }
    }

    /// The same options with a name.
    pub fn name(self, name: String) -> (opts: Options)
        ensures
            opts.stack_size == self.stack_size,
            opts.name == Some(name),
    {
        Options { stack_size: self.stack_size, name: Some(name) }
    }
}

impl Default for Options {
    fn default() -> (opts: Options)
        ensures
            opts.stack_size == DEFAULT_STACK_SIZE,
            opts.name is None,
    {
        Options::new()
    }
}

} // verus!

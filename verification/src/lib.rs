//! Resource-management core of an embeddable WebAssembly virtual machine.
//!
//! Runtime resources (tables, and by the same shape memories, globals and
//! functions) live inside a [`Store`] and are reached only through cheap,
//! copyable handles. All mutation goes through bounds-checked accessors, and
//! a handle is tagged with the identity of its owning store so that a handle
//! minted against one execution context cannot silently be applied to
//! another. A deduplicating constant pool stores bytecode immediate operands
//! compactly, and a module builder accumulates declared function signatures.

pub mod arena;
pub mod builder;
pub mod const_pool;
pub mod func;
pub mod index;
pub mod limits;
pub mod store;
pub mod table;
pub mod untyped;

pub use arena::Arena;
pub use builder::{FuncType, Module, ModuleBuilder, ValType};
pub use const_pool::{ConstPool, ConstRef};
pub use func::FuncRef;
pub use index::Index;
pub use limits::ResizableLimits;
pub use store::{Store, Stored};
pub use table::{Table, TableEntity, TableError, TableIdx};
pub use untyped::UntypedValue;

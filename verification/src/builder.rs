//! A builder for a WebAssembly module.
//!
//! The builder accumulates declared function-type signatures during
//! decoding; each push returns a freshly assigned sequential index that
//! later bytecode generation consumes. Finalization consumes the builder
//! and yields the immutable module.

use vstd::prelude::*;

verus! {

/// A WebAssembly value type.
#[derive(Debug, Copy, Clone, PartialEq, Eq, Structural)]
pub enum ValType {
    /// A 32-bit integer.
    I32,
    /// A 64-bit integer.
    I64,
    /// A 32-bit float.
    F32,
    /// A 64-bit float.
    F64,
}

/// A function-type signature: the value types of the parameters and of the
/// results.
#[derive(Debug, Clone)]
pub struct FuncType {
    params: Vec<ValType>,
    results: Vec<ValType>,
}

impl FuncType {
    /// The value types of the parameters.
    pub closed spec fn spec_params(self) -> Seq<ValType> {
        self.params@
    }

    /// The value types of the results.
    pub closed spec fn spec_results(self) -> Seq<ValType> {
        self.results@
    }

    /// Creates a new function-type signature.
    pub fn new(params: Vec<ValType>, results: Vec<ValType>) -> (r: Self)
        ensures
            r.spec_params() == params@,
            r.spec_results() == results@,
    {
        Self { params, results }
    }

    /// Returns the value types of the parameters.
    pub fn params(&self) -> (r: &Vec<ValType>)
        ensures
            r@ == self.spec_params(),
    {
        &self.params
    }

    /// Returns the value types of the results.
    pub fn results(&self) -> (r: &Vec<ValType>)
        ensures
            r@ == self.spec_results(),
    {
        &self.results
    }
}

/// An immutable WebAssembly module, here reduced to the declared
/// function-type signatures this core accumulates; everything else a full
/// module holds is out of this core's scope.
#[derive(Debug)]
pub struct Module {
    func_types: Vec<FuncType>,
}

impl View for Module {
    type V = Seq<FuncType>;

    closed spec fn view(&self) -> Seq<FuncType> {
        self.func_types@
    }
}

impl Module {
    /// Returns the declared function-type signatures, in declaration order.
    pub fn func_types(&self) -> (r: &Vec<FuncType>)
        ensures
            r@ == self@,
    {
        &self.func_types
    }
}

/// A builder for a WebAssembly [`Module`].
#[derive(Debug)]
pub struct ModuleBuilder {
    func_types: Vec<FuncType>,
}

impl View for ModuleBuilder {
    type V = Seq<FuncType>;

    closed spec fn view(&self) -> Seq<FuncType> {
        self.func_types@
    }
}

impl Default for ModuleBuilder {
    /// Creates a builder with no declared signatures.
    fn default() -> (r: Self)
        ensures
            r@ == Seq::<FuncType>::empty(),
    {
        Self { func_types: Vec::new() }
    }
}

impl ModuleBuilder {
    /// Pushes the given [`FuncType`] to the module under construction.
    ///
    /// Returns the raw `u32` index assigned to the pushed signature:
    /// indices are handed out sequentially, starting at 0. A count beyond
    /// 32-bit range is an internal module-size limit violation, not a
    /// recoverable user error, and is therefore excluded by precondition.
    pub fn push_func_type(&mut self, func_type: FuncType) -> (index: u32)
        requires
            old(self)@.len() <= u32::MAX,
        ensures
            index == old(self)@.len(),
            final(self)@ == old(self)@.push(func_type),
    {
        let index = self.func_types.len() as u32;
        self.func_types.push(func_type);
        index
    }

    /// Finishes construction of the WebAssembly [`Module`].
    ///
    /// Finalization consumes the builder, one way: the module holds
    /// exactly the signatures that were pushed, in push order.
    pub fn finish(self) -> (r: Module)
        ensures
            r@ == self@,
    {
        Module { func_types: self.func_types }
    }
}

} // verus!

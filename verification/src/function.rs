//! Typed handles to resolved functions, bounded by the engine's lifetime.
//!
//! A resolved address is only meaningful while the engine that produced it
//! is alive; [`Function`] ties the address to a borrow of the engine's
//! symbol state, so the handle cannot outlive the engine. The signature the
//! caller asserts is carried as a marker type; one call form exists per
//! arity up to a fixed maximum. Narrower invalidation — removing the
//! resource tracker that scopes the function's code — is not expressible in
//! the handle and remains a caller obligation.

use core::marker::PhantomData;
use vstd::prelude::*;

use crate::session::{SymbolTable, FIRST_SYMBOL_ADDRESS};

verus! {

/// The seal keeping the family of callable signature markers closed: only
/// this crate can mark a type as a callable signature.
pub trait SealedUnsafeFunctionPointer: Copy {

}

/// A marker for the signature a caller asserts a resolved function to have.
pub trait UnsafeFunctionPointer: SealedUnsafeFunctionPointer {

}

impl<F: SealedUnsafeFunctionPointer> UnsafeFunctionPointer for F {

}

/// The signature of a function taking no argument.
#[derive(Clone, Copy, Debug)]
pub struct SignatureArity0;

/// The signature of a function taking one argument.
#[derive(Clone, Copy, Debug)]
pub struct SignatureArity1;

/// The signature of a function taking two arguments.
#[derive(Clone, Copy, Debug)]
pub struct SignatureArity2;

/// The signature of a function taking three arguments.
#[derive(Clone, Copy, Debug)]
pub struct SignatureArity3;

impl SealedUnsafeFunctionPointer for SignatureArity0 {

}

impl SealedUnsafeFunctionPointer for SignatureArity1 {

}

impl SealedUnsafeFunctionPointer for SignatureArity2 {

}

impl SealedUnsafeFunctionPointer for SignatureArity3 {

}

/// A resolved function: a non-null address bound to the engine state that
/// produced it, tagged with the signature the caller asserted.
#[derive(Debug)]
pub struct Function<'jit, F: UnsafeFunctionPointer> {
    /// The symbol state of the engine the function was resolved by.
    pub table: &'jit SymbolTable,
    /// The resolved address.
    pub addr: u64,
    /// The asserted signature.
    pub signature: PhantomData<F>,
}

impl<'jit, F: UnsafeFunctionPointer> Function<'jit, F> {
    /// The handle is well formed while its address resolves into the symbol
    /// state it is bound to.
    pub open spec fn wf(self) -> bool {
        &&& self.table.wf()
        &&& FIRST_SYMBOL_ADDRESS <= self.addr
        &&& self.addr - FIRST_SYMBOL_ADDRESS < self.table.entries@.len()
    }

    /// The value the function behind the resolved address returns.
    pub open spec fn spec_value(self) -> u64 {
        self.table.entries@[self.addr - FIRST_SYMBOL_ADDRESS].value
    }

    /// The position the address resolves to in the symbol state.
    fn index(&self) -> (r: usize)
        requires
            self.wf(),
        ensures
            r == self.addr - FIRST_SYMBOL_ADDRESS,
            r < self.table.entries@.len(),
    {
        (self.addr - FIRST_SYMBOL_ADDRESS) as usize
    }
}

impl<'jit> Function<'jit, SignatureArity0> {
    /// Calls the resolved function with no argument.
    pub fn call(&self) -> (r: u64)
        requires
            self.wf(),
        ensures
            r == self.spec_value(),
    {
        let i = self.index();
        self.table.entries[i].value
    }
}

impl<'jit> Function<'jit, SignatureArity1> {
    /// Calls the resolved function with one argument.
    pub fn call(&self, _arg1: u64) -> (r: u64)
        requires
            self.wf(),
        ensures
            r == self.spec_value(),
    {
        let i = self.index();
        self.table.entries[i].value
    }
}

impl<'jit> Function<'jit, SignatureArity2> {
    /// Calls the resolved function with two arguments.
    pub fn call(&self, _arg1: u64, _arg2: u64) -> (r: u64)
        requires
            self.wf(),
        ensures
            r == self.spec_value(),
    {
        let i = self.index();
        self.table.entries[i].value
    }
}

impl<'jit> Function<'jit, SignatureArity3> {
    /// Calls the resolved function with three arguments.
    pub fn call(&self, _arg1: u64, _arg2: u64, _arg3: u64) -> (r: u64)
        requires
            self.wf(),
        ensures
            r == self.spec_value(),
    {
        let i = self.index();
        self.table.entries[i].value
    }
}

} // verus!

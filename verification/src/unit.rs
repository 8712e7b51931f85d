//! Units handed to the engine: IR modules and object buffers.
//!
//! Both are externally produced value types; this crate only ingests them.
//! The engine cares about one observable aspect of a unit: the symbols the
//! unit defines and, for each, the value the compiled function returns once
//! the symbol is called. A unit is consumed exactly once by an ingestion
//! call, whether that call succeeds or fails.

use vstd::prelude::*;
use vstd::slice::slice_to_vec;
use vstd::string::StringSliceAdditionalSpecFns;

verus! {

/// One symbol a unit defines: a name and the value the compiled function
/// behind the symbol returns when called.
#[derive(Debug)]
pub struct SymbolDef {
    /// The symbol name, as the bytes the native layer expects.
    pub name: Vec<u8>,
    /// The value the function behind the symbol returns.
    pub value: u64,
}

/// Distinct logical names have distinct byte forms: the byte encoding a
/// name is ingested and looked up under determines the name.
pub proof fn lemma_name_bytes_injective(a: &str, b: &str)
    requires
        a@ != b@,
    ensures
        a.spec_bytes() != b.spec_bytes(),
{
    broadcast use vstd::utf8::encode_utf8_decode_utf8;

    assert(vstd::utf8::decode_utf8(vstd::utf8::encode_utf8(a@)) == a@);
    assert(vstd::utf8::decode_utf8(vstd::utf8::encode_utf8(b@)) == b@);
}

/// Compares two byte strings for equality.
pub fn bytes_eq(a: &Vec<u8>, b: &Vec<u8>) -> (r: bool)
    ensures
        r == (a@ == b@),
{
    if a.len() != b.len() {
        return false;
    }
    let mut i: usize = 0;
    while i < a.len()
        invariant
            a@.len() == b@.len(),
            i <= a@.len(),
            forall|j: int| 0 <= j < i ==> a@[j] == b@[j],
        decreases a@.len() - i,
    {
        if a[i] != b[i] {
            return false;
        }
        i += 1;
    }
    proof {
        assert(a@ =~= b@);
    }
    true
}

/// Whether a sequence of definitions has pairwise distinct names.
pub open spec fn names_unique(defs: Seq<SymbolDef>) -> bool {
    forall|i: int, j: int|
        #![trigger defs[i], defs[j]]
        0 <= i < j < defs.len() ==> defs[i].name@ != defs[j].name@
}

/// Whether some definition in `defs` carries the name `name`.
pub open spec fn defs_contain(defs: Seq<SymbolDef>, name: Seq<u8>) -> bool {
    exists|i: int| 0 <= i < defs.len() && defs[i].name@ == name
}

impl SymbolDef {
    /// A definition for `name` whose function returns `value`.
    pub fn new(name: &str, value: u64) -> (r: SymbolDef)
        ensures
            r.name@ == name.spec_bytes(),
            r.value == value,
    {
        SymbolDef { name: slice_to_vec(name.as_bytes()), value }
    }
}

/// A thread-safe IR module awaiting ingestion, abstracted to the symbols it
/// will define once compiled.
#[derive(Debug)]
pub struct ThreadSafeModule {
    /// The symbols the module defines.
    pub defs: Vec<SymbolDef>,
}

impl ThreadSafeModule {
    /// An empty module.
    pub fn new() -> (r: ThreadSafeModule)
        ensures
            r.defs@.len() == 0,
    {
        ThreadSafeModule { defs: Vec::new() }
    }

    /// Appends a definition of `name` whose function returns `value`.
    pub fn add_symbol(&mut self, name: &str, value: u64)
        ensures
            final(self).defs@.len() == old(self).defs@.len() + 1,
            final(self).defs@.drop_last() == old(self).defs@,
            final(self).defs@.last().name@ == name.spec_bytes(),
            final(self).defs@.last().value == value,
    {
        let def = SymbolDef::new(name, value);
        self.defs.push(def);
    }
}

/// A precompiled object buffer awaiting ingestion, abstracted to the symbols
/// its contents define. A registered object transformer may rewrite or
/// replace the contents before they are linked.
#[derive(Debug)]
pub struct ObjectBuffer {
    /// The symbols the buffer's contents define.
    pub defs: Vec<SymbolDef>,
}

impl ObjectBuffer {
    /// An empty buffer.
    pub fn new() -> (r: ObjectBuffer)
        ensures
            r.defs@.len() == 0,
    {
        ObjectBuffer { defs: Vec::new() }
    }

    /// Appends a definition of `name` whose function returns `value`.
    pub fn add_symbol(&mut self, name: &str, value: u64)
        ensures
            final(self).defs@.len() == old(self).defs@.len() + 1,
            final(self).defs@.drop_last() == old(self).defs@,
            final(self).defs@.last().name@ == name.spec_bytes(),
            final(self).defs@.last().value == value,
    {
        let def = SymbolDef::new(name, value);
        self.defs.push(def);
    }

    /// Empties the buffer, invalidating its contents.
    pub fn invalidate(&mut self)
        ensures
            final(self).defs@.len() == 0,
    {
        self.defs.clear();
    }
}

} // verus!

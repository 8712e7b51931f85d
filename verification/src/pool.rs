//! The engine-wide symbol string pool and the mangling convention.
//!
//! Mangling applies the target's global prefix to a logical name; the result
//! is interned in a pool shared across the engine, which hands out owned
//! entries. The pool never stores the same string twice: interning an
//! already-present string leaves the pool unchanged.

use vstd::prelude::*;
use vstd::slice::slice_to_vec;
use vstd::string::StringSliceAdditionalSpecFns;

use crate::unit::bytes_eq;

verus! {

/// The mangled form of `name` under `prefix`: the prefix byte is prepended,
/// or nothing when the target uses the empty prefix.
pub open spec fn spec_mangle(prefix: u8, name: Seq<u8>) -> Seq<u8> {
    if prefix == 0 {
        name
    } else {
        seq![prefix] + name
    }
}

/// Applies the target's global prefix to a logical name.
pub fn mangle_bytes(prefix: u8, name: &str) -> (r: Vec<u8>)
    ensures
        r@ == spec_mangle(prefix, name.spec_bytes()),
{
    let mut v = slice_to_vec(name.as_bytes());
    if prefix != 0 {
        v.insert(0, prefix);
        proof {
            assert(v@ =~= seq![prefix] + name.spec_bytes());
        }
    }
    v
}

/// An owned entry of the symbol string pool.
#[derive(Debug)]
pub struct SymbolStringPoolEntry {
    /// The position of the interned string in the pool.
    pub id: usize,
    /// The interned string.
    pub bytes: Vec<u8>,
}

impl SymbolStringPoolEntry {
    /// The interned string this entry refers to.
    pub fn get_string(&self) -> (r: &Vec<u8>)
        ensures
            r@ == self.bytes@,
    {
        &self.bytes
    }
}

/// The pool of interned symbol strings, in interning order.
#[derive(Debug)]
pub struct SymbolStringPool {
    /// The interned strings; pairwise distinct.
    pub strings: Vec<Vec<u8>>,
}

impl SymbolStringPool {
    /// The pool is well formed while it stores no string twice.
    pub open spec fn wf(self) -> bool {
        forall|i: int, j: int|
            #![trigger self.strings@[i], self.strings@[j]]
            0 <= i < j < self.strings@.len() ==> self.strings@[i]@ != self.strings@[j]@
    }

    /// Whether the pool already stores `b`.
    pub open spec fn spec_contains(self, b: Seq<u8>) -> bool {
        exists|i: int| 0 <= i < self.strings@.len() && #[trigger] self.strings@[i]@ == b
    }

    /// An empty pool.
    pub fn new() -> (r: SymbolStringPool)
        ensures
            r.wf(),
            r.strings@.len() == 0,
    {
        SymbolStringPool { strings: Vec::new() }
    }

    /// Interns `bytes`, returning an owned entry that refers to the pooled
    /// string. A string that is already pooled is not stored again, and the
    /// entry refers to the existing position.
    pub fn intern(&mut self, bytes: Vec<u8>) -> (r: SymbolStringPoolEntry)
        requires
            old(self).wf(),
        ensures
            final(self).wf(),
            r.bytes@ == bytes@,
            r.id < final(self).strings@.len(),
            final(self).strings@[r.id as int]@ == bytes@,
            old(self).spec_contains(bytes@) ==> *final(self) == *old(self),
            !old(self).spec_contains(bytes@) ==> {
                &&& final(self).strings@.len() == old(self).strings@.len() + 1
                &&& final(self).strings@.subrange(0, old(self).strings@.len() as int) == old(
                    self,
                ).strings@
                &&& r.id == old(self).strings@.len()
            },
    {
        let mut i: usize = 0;
        while i < self.strings.len()
            invariant
                *self == *old(self),
                self.wf(),
                i <= self.strings@.len(),
                forall|j: int| 0 <= j < i ==> #[trigger] self.strings@[j]@ != bytes@,
            decreases self.strings@.len() - i,
        {
            if bytes_eq(&self.strings[i], &bytes) {
                return SymbolStringPoolEntry { id: i, bytes };
            }
            i += 1;
        }
        let ghost prev = self.strings@;
        let id = self.strings.len();
        let stored = clone_bytes(&bytes);
        self.strings.push(stored);
        proof {
            assert(self.strings@.subrange(0, prev.len() as int) =~= prev);
            assert forall|x: int, y: int|
                0 <= x < y < self.strings@.len() implies #[trigger] self.strings@[x]@
                != #[trigger] self.strings@[y]@ by {
                if y < prev.len() {
                    assert(self.strings@[x] == prev[x] && self.strings@[y] == prev[y]);
                } else {
                    assert(self.strings@[y]@ == bytes@);
                    assert(self.strings@[x] == prev[x]);
                }
            }
        }
        SymbolStringPoolEntry { id, bytes }
    }
}

/// Copies a byte string.
pub fn clone_bytes(b: &Vec<u8>) -> (r: Vec<u8>)
    ensures
        r@ == b@,
{
    slice_to_vec(b.as_slice())
}

} // verus!

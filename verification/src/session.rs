//! The execution session's symbol state.
//!
//! A [`SymbolTable`] records every symbol definition the engine has accepted,
//! in ingestion order, each tagged with the library or resource tracker it
//! was ingested into. Accepted definitions have pairwise distinct names, and
//! every definition resolves to a distinct non-null address derived from its
//! position, so a successful lookup can never surface the null address.

use vstd::prelude::*;

use crate::error::{LLVMError, LLVMErrorKind};
use crate::unit::{bytes_eq, defs_contain, names_unique, SymbolDef};

verus! {

/// The address the first accepted definition resolves to; later definitions
/// follow in steps of one. Keeping it above zero makes every resolved
/// address non-null.
pub const FIRST_SYMBOL_ADDRESS: u64 = 0x1000;

/// The most definitions one engine accepts.
pub const MAX_SYMBOLS: usize = 0x1000_0000;

/// Where a unit's definitions were ingested: directly into a dynamic
/// library, or scoped to a resource tracker so they can later be removed as
/// a unit.
#[derive(Clone, Copy, Debug, PartialEq, Eq, Structural)]
pub enum IngestTarget {
    /// Ingested into the library with this identifier.
    Library { library: u64 },
    /// Scoped to the resource tracker with this identifier.
    Tracker { tracker: u64 },
}

/// One accepted symbol definition.
#[derive(Debug)]
pub struct SymbolEntry {
    /// The symbol name.
    pub name: Vec<u8>,
    /// The value the function behind the symbol returns.
    pub value: u64,
    /// The library or tracker the definition was ingested into.
    pub target: IngestTarget,
}

/// Every symbol definition the engine has accepted, in ingestion order.
#[derive(Debug)]
pub struct SymbolTable {
    /// The accepted definitions; names are pairwise distinct.
    pub entries: Vec<SymbolEntry>,
}

/// The address a definition at position `i` resolves to.
pub open spec fn spec_addr_of(i: int) -> u64 {
    (FIRST_SYMBOL_ADDRESS + i) as u64
}

impl SymbolTable {
    /// The table is well formed while it holds at most [`MAX_SYMBOLS`]
    /// definitions with pairwise distinct names.
    pub open spec fn wf(self) -> bool {
        &&& self.entries@.len() <= MAX_SYMBOLS
        &&& forall|i: int, j: int|
            #![trigger self.entries@[i], self.entries@[j]]
            0 <= i < j < self.entries@.len() ==> self.entries@[i].name@ != self.entries@[j].name@
    }

    /// Whether some accepted definition carries the name `name`.
    pub open spec fn defines(self, name: Seq<u8>) -> bool {
        exists|i: int| 0 <= i < self.entries@.len() && #[trigger] self.entries@[i].name@ == name
    }

    /// The position of the definition named `name`.
    pub open spec fn index_of(self, name: Seq<u8>) -> int {
        choose|i: int| 0 <= i < self.entries@.len() && #[trigger] self.entries@[i].name@ == name
    }

    /// What a lookup of `name` resolves to: the address of its definition,
    /// or nothing if no accepted definition carries the name.
    pub open spec fn spec_lookup(self, name: Seq<u8>) -> Option<u64> {
        if self.defines(name) {
            Some(spec_addr_of(self.index_of(name)))
        } else {
            None
        }
    }

    /// Whether ingesting `defs` must be refused for a name conflict: a name
    /// repeated inside the unit, or one that an accepted definition already
    /// carries.
    pub open spec fn spec_has_conflict(self, defs: Seq<SymbolDef>) -> bool {
        ||| !names_unique(defs)
        ||| exists|k: int| 0 <= k < defs.len() && self.defines(#[trigger] defs[k].name@)
    }

    /// The relation between the table before and after a successful
    /// ingestion of `defs` into `target`: the accepted definitions are kept
    /// unchanged and the unit's definitions follow them in order.
    pub open spec fn spec_added(
        self,
        pre: Self,
        defs: Seq<SymbolDef>,
        target: IngestTarget,
    ) -> bool {
        &&& self.entries@.len() == pre.entries@.len() + defs.len()
        &&& self.entries@.subrange(0, pre.entries@.len() as int) == pre.entries@
        &&& forall|k: int|
            0 <= k < defs.len() ==> {
                let e = #[trigger] self.entries@[pre.entries@.len() + k];
                &&& e.name@ == defs[k].name@
                &&& e.value == defs[k].value
                &&& e.target == target
            }
    }

    /// An empty table.
    pub fn new() -> (r: SymbolTable)
        ensures
            r.wf(),
            r.entries@.len() == 0,
    {
        SymbolTable { entries: Vec::new() }
    }

    /// The number of accepted definitions.
    pub fn len(&self) -> (r: usize)
        ensures
            r == self.entries@.len(),
    {
        self.entries.len()
    }

    /// Finds the position of the definition named `name`, if any.
    pub fn find(&self, name: &Vec<u8>) -> (r: Option<usize>)
        requires
            self.wf(),
        ensures
            match r {
                Some(i) => {
                    &&& i < self.entries@.len()
                    &&& self.entries@[i as int].name@ == name@
                    &&& self.defines(name@)
                    &&& self.index_of(name@) == i
                },
                None => !self.defines(name@),
            },
    {
        let mut i: usize = 0;
        while i < self.entries.len()
            invariant
                self.wf(),
                i <= self.entries@.len(),
                forall|j: int| 0 <= j < i ==> #[trigger] self.entries@[j].name@ != name@,
            decreases self.entries@.len() - i,
        {
            if bytes_eq(&self.entries[i].name, name) {
                return Some(i);
            }
            i += 1;
        }
        None
    }

    /// The address the definition at position `i` resolves to.
    pub fn address_of(&self, i: usize) -> (r: u64)
        requires
            self.wf(),
            i < self.entries@.len(),
        ensures
            r == spec_addr_of(i as int),
            r != 0,
    {
        FIRST_SYMBOL_ADDRESS + (i as u64)
    }

    /// Ingests the definitions of one unit into `target`.
    ///
    /// The unit is refused whole with [`LLVMErrorKind::CapacityExceeded`]
    /// when it does not fit, and with [`LLVMErrorKind::DuplicateSymbol`] when
    /// it repeats a name or redefines an accepted one; it is accepted exactly
    /// otherwise, and a refusal leaves the table unchanged.
    pub fn add_defs(&mut self, defs: Vec<SymbolDef>, target: IngestTarget) -> (r: Result<
        (),
        LLVMError,
    >)
        requires
            old(self).wf(),
        ensures
            final(self).wf(),
            old(self).entries@.len() + defs@.len() > MAX_SYMBOLS <==> r == Err::<(), LLVMError>(
                (LLVMError { kind: LLVMErrorKind::CapacityExceeded }),
            ),
            (old(self).entries@.len() + defs@.len() <= MAX_SYMBOLS && old(self).spec_has_conflict(
                defs@,
            )) <==> r == Err::<(), LLVMError>(
                (LLVMError { kind: LLVMErrorKind::DuplicateSymbol }),
            ),
            r is Err ==> *final(self) == *old(self),
            r is Ok <==> (old(self).entries@.len() + defs@.len() <= MAX_SYMBOLS && !old(
                self,
            ).spec_has_conflict(defs@)),
            r is Ok ==> final(self).spec_added(*old(self), defs@, target),
    {
        let ghost pre = *self;
        if defs.len() > MAX_SYMBOLS - self.entries.len() {
            return Err(LLVMError { kind: LLVMErrorKind::CapacityExceeded });
        }
        let mut k: usize = 0;
        while k < defs.len()
            invariant
                pre == *old(self),
                *self == pre,
                self.wf(),
                pre.entries@.len() + defs@.len() <= MAX_SYMBOLS,
                k <= defs@.len(),
                forall|x: int| 0 <= x < k ==> !self.defines(#[trigger] defs@[x].name@),
                forall|x: int, y: int|
                    #![trigger defs@[x], defs@[y]]
                    0 <= x < y < k ==> defs@[x].name@ != defs@[y].name@,
            decreases defs@.len() - k,
        {
            if self.find(&defs[k].name).is_some() {
                proof {
                    assert(self.defines(defs@[k as int].name@));
                    assert(self.spec_has_conflict(defs@));
                }
                return Err(LLVMError { kind: LLVMErrorKind::DuplicateSymbol });
            }
            let mut j: usize = 0;
            while j < k
                invariant
                    pre == *old(self),
                    *self == pre,
                    self.wf(),
                    pre.entries@.len() + defs@.len() <= MAX_SYMBOLS,
                    k < defs@.len(),
                    j <= k,
                    forall|x: int| 0 <= x < j ==> #[trigger] defs@[x].name@ != defs@[k as int].name@,
            decreases k - j,
            {
                if bytes_eq(&defs[j].name, &defs[k].name) {
                    proof {
                        assert(defs@[j as int].name@ == defs@[k as int].name@);
                        assert(!names_unique(defs@));
                        assert(self.spec_has_conflict(defs@));
                    }
                    return Err(LLVMError { kind: LLVMErrorKind::DuplicateSymbol });
                }
                j += 1;
            }
            k += 1;
        }
        proof {
            assert(!self.spec_has_conflict(defs@));
        }
        let ghost defs0 = defs@;
        let mut rest = defs;
        while rest.len() > 0
            invariant
                pre == *old(self),
                self.wf(),
                pre.entries@.len() + defs0.len() <= MAX_SYMBOLS,
                self.entries@.len() + rest@.len() == pre.entries@.len() + defs0.len(),
                self.entries@.len() >= pre.entries@.len(),
                rest@ == defs0.subrange(
                    defs0.len() - rest@.len(),
                    defs0.len() as int,
                ),
                self.entries@.subrange(0, pre.entries@.len() as int) == pre.entries@,
                forall|x: int|
                    0 <= x < self.entries@.len() - pre.entries@.len() ==> {
                        let e = #[trigger] self.entries@[pre.entries@.len() + x];
                        &&& e.name@ == defs0[x].name@
                        &&& e.value == defs0[x].value
                        &&& e.target == target
                    },
                forall|x: int, y: int|
                    #![trigger defs0[x], defs0[y]]
                    0 <= x < y < defs0.len() ==> defs0[x].name@ != defs0[y].name@,
                forall|x: int| 0 <= x < defs0.len() ==> !pre.defines(#[trigger] defs0[x].name@),
            decreases rest@.len(),
        {
            let ghost prev_entries = self.entries@;
            let ghost pre_len = pre.entries@.len() as int;
            let ghost x = prev_entries.len() - pre_len;
            proof {
                assert(rest@[0] == defs0[x]);
            }
            let d = rest.remove(0);
            let entry = SymbolEntry { name: d.name, value: d.value, target };
            self.entries.push(entry);
            proof {
                assert(rest@ =~= defs0.subrange(defs0.len() - rest@.len(), defs0.len() as int));
                assert(self.entries@ == prev_entries.push(
                    (SymbolEntry { name: d.name, value: d.value, target }),
                ));
                assert(self.entries@.subrange(0, pre_len) =~= prev_entries.subrange(0, pre_len));
                assert forall|i: int| 0 <= i < pre_len implies self.entries@[i]
                    == pre.entries@[i] by {
                    assert(self.entries@.subrange(0, pre_len)[i] == self.entries@[i]);
                }
                let n = self.entries@.len() - 1;
                assert forall|i: int| 0 <= i < n implies self.entries@[i].name@
                    != self.entries@[n].name@ by {
                    assert(self.entries@[n].name@ == defs0[x].name@);
                    if i < pre_len {
                        assert(!pre.defines(defs0[x].name@));
                        assert(pre.entries@[i].name@ != defs0[x].name@);
                    } else {
                        let y = i - pre_len;
                        assert(self.entries@[i] == prev_entries[pre_len + y]);
                        assert(prev_entries[pre_len + y].name@ == defs0[y].name@);
                        assert(defs0[y].name@ != defs0[x].name@);
                    }
                }
            }
        }
        Ok(())
    }
}

/// Every name defined by an accepted definition resolves, and never to the
/// null address: looked up in a well-formed table, a defined name yields an
/// address distinct from zero.
pub proof fn lemma_defined_resolves_nonzero(t: SymbolTable, name: Seq<u8>)
    requires
        t.wf(),
        t.defines(name),
    ensures
        t.spec_lookup(name) is Some,
        t.spec_lookup(name)->Some_0 != 0,
{
}

/// A successful ingestion keeps every earlier definition resolving to the
/// address it already had, and makes every name of the ingested unit
/// defined. Chained over a sequence of successful ingestions, every name any
/// of them defined stays resolvable to a non-null address.
pub proof fn lemma_ingestion_preserves_and_defines(
    pre: SymbolTable,
    post: SymbolTable,
    defs: Seq<SymbolDef>,
    target: IngestTarget,
    name: Seq<u8>,
)
    requires
        pre.wf(),
        post.wf(),
        post.spec_added(pre, defs, target),
        pre.defines(name) || defs_contain(defs, name),
    ensures
        post.defines(name),
        pre.defines(name) ==> post.spec_lookup(name) == pre.spec_lookup(name),
        post.spec_lookup(name) is Some,
        post.spec_lookup(name)->Some_0 != 0,
{
    if pre.defines(name) {
        let i = pre.index_of(name);
        assert(post.entries@[i] == pre.entries@[i]);
        assert(post.defines(name));
        let j = post.index_of(name);
        assert(post.entries@[j].name@ == name);
        if i != j {
            assert(false);
        }
    } else {
        let k = choose|k: int| 0 <= k < defs.len() && defs[k].name@ == name;
        assert(post.entries@[pre.entries@.len() + k].name@ == name);
        assert(post.defines(name));
    }
    lemma_defined_resolves_nonzero(post, name);
}

} // verus!

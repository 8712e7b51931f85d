//! The execution engine facade.
//!
//! An [`LLJIT`] owns one native engine handle and the session state behind
//! it: the symbols accepted so far, the interned string pool, the target
//! descriptors the engine was configured with, and the registered object
//! transformer. Modules and object buffers are ingested by ownership
//! transfer — the unit is consumed whether the call succeeds or fails —
//! and accepted definitions resolve to non-null addresses for the engine's
//! whole lifetime.

use vstd::prelude::*;
use vstd::slice::slice_to_vec;
use vstd::string::StringSliceAdditionalSpecFns;

use crate::builder::LLJITBuilder;
use crate::error::{BuildError, LLVMError, LLVMErrorKind};
use crate::function::{Function, UnsafeFunctionPointer};
use crate::handle::OwnedHandle;
use crate::pool::{mangle_bytes, spec_mangle, SymbolStringPool, SymbolStringPoolEntry};
use crate::session::{spec_addr_of, IngestTarget, SymbolTable, MAX_SYMBOLS};
use crate::transform::{object_transform_layer_transform_function, ObjectTransformer};
use crate::unit::{ObjectBuffer, SymbolDef, ThreadSafeModule};

verus! {

/// The identifier of the always-present main dynamic library.
pub const MAIN_DYLIB_ID: u64 = 0;

/// The identifier of the object-linking layer the engine constructs when no
/// creator is registered.
pub const DEFAULT_OBJECT_LAYER_ID: u64 = 0;

/// The model value of the native engine handle.
pub const NATIVE_LLJIT_HANDLE: u64 = 2;

/// The identifier the first resource tracker of an engine receives.
pub const FIRST_TRACKER_ID: u64 = 1;

/// A dynamic library: a namespace within the engine holding a set of
/// symbols. A borrowed reference with no independent disposal; the main
/// library always exists.
#[derive(Clone, Copy, Debug, PartialEq, Eq, Structural)]
pub struct JITDylib {
    /// The library's identifier within its engine.
    pub id: u64,
}

/// A resource tracker: a handle scoping a removable subset of a library's
/// contents, usable as an ingestion target in place of the library itself.
#[derive(Clone, Copy, Debug, PartialEq, Eq, Structural)]
pub struct ResourceTracker {
    /// The tracker's identifier within its engine.
    pub id: u64,
    /// The library the tracker scopes.
    pub dylib: u64,
}

/// A borrowed reference to the engine's execution session.
#[derive(Clone, Copy, Debug, PartialEq, Eq, Structural)]
pub struct ExecutionSession {
    /// The native handle of the engine the session belongs to.
    pub engine_handle: u64,
}

/// A borrowed reference to the pipeline stage turning object bytes into
/// loaded, executable code.
#[derive(Clone, Copy, Debug, PartialEq, Eq, Structural)]
pub struct ObjectLayer {
    /// Which linking layer this is.
    pub id: u64,
}

/// A borrowed reference to the pipeline stage transforming intermediate
/// representation before compilation.
#[derive(Clone, Copy, Debug, PartialEq, Eq, Structural)]
pub struct IRTransformLayer {
    /// The native handle of the engine the layer belongs to.
    pub engine_handle: u64,
}

/// The execution engine: owns the native engine handle and the session
/// state reached through it.
#[derive(Debug)]
pub struct LLJIT<T: ObjectTransformer> {
    /// Custody of the native engine handle.
    pub handle: OwnedHandle,
    /// Every symbol definition accepted so far.
    pub table: SymbolTable,
    /// The engine-wide pool of interned symbol strings.
    pub pool: SymbolStringPool,
    /// The target triple the engine was configured for.
    pub triple: Vec<u8>,
    /// The target's data-layout descriptor.
    pub data_layout: Vec<u8>,
    /// The target's global symbol prefix; zero when the target uses none.
    pub global_prefix: u8,
    /// The registered object transformer, if any; replaced whole on
    /// re-registration.
    pub object_transformer: Option<T>,
    /// The object-linking layer the engine was constructed with.
    pub linking_layer: ObjectLayer,
    /// The identifier the next resource tracker will receive.
    pub next_tracker: u64,
}

impl<T: ObjectTransformer> LLJIT<T> {
    /// The engine is well formed while it holds custody of its live native
    /// handle and its session state is consistent.
    pub open spec fn wf(self) -> bool {
        &&& self.handle.wf()
        &&& self.handle.armed
        &&& !self.handle.disposed
        &&& self.table.wf()
        &&& self.pool.wf()
    }

    /// Whether the engine's configuration — everything but the symbol
    /// state, pool and transformer — is unchanged from `pre`.
    pub open spec fn same_configuration(self, pre: Self) -> bool {
        &&& self.handle == pre.handle
        &&& self.triple == pre.triple
        &&& self.data_layout == pre.data_layout
        &&& self.global_prefix == pre.global_prefix
        &&& self.linking_layer == pre.linking_layer
        &&& self.next_tracker == pre.next_tracker
    }

    /// The relation registration establishes: the engine is unchanged but
    /// for its registration cell, which now holds exactly `object_transformer`.
    pub open spec fn spec_registered(self, pre: Self, object_transformer: T) -> bool {
        &&& self.same_configuration(pre)
        &&& self.table == pre.table
        &&& self.pool == pre.pool
        &&& self.object_transformer == Some(object_transformer)
    }

    /// A freshly constructed engine for the given target descriptors:
    /// nothing ingested, nothing interned, no transformer registered.
    pub open spec fn spec_fresh(
        self,
        triple: Seq<u8>,
        data_layout: Seq<u8>,
        global_prefix: u8,
    ) -> bool {
        &&& self.wf()
        &&& self.table.entries@.len() == 0
        &&& self.pool.strings@.len() == 0
        &&& self.object_transformer is None
        &&& self.triple@ == triple
        &&& self.data_layout@ == data_layout
        &&& self.global_prefix == global_prefix
        &&& self.next_tracker == FIRST_TRACKER_ID
    }

    /// Creates an engine with the default builder: host configuration,
    /// default linking layer.
    pub fn create() -> (r: Result<LLJIT<T>, BuildError>)
        ensures
            r is Ok,
            r is Ok ==> {
                let engine = r->Ok_0;
                &&& engine.spec_fresh(
                    crate::builder::spec_host_triple(),
                    crate::builder::spec_host_data_layout(),
                    crate::builder::HOST_GLOBAL_PREFIX,
                )
                &&& engine.linking_layer.id == DEFAULT_OBJECT_LAYER_ID
            },
    {
        let builder: LLJITBuilder<crate::builder::DefaultObjectLinkingLayerCreator> =
            LLJITBuilder::create();
        builder.build()
    }

    /// Returns the always-present main dynamic library; never fails.
    pub fn get_main_jit_dylib(&self) -> (r: JITDylib)
        ensures
            r.id == MAIN_DYLIB_ID,
    {
        JITDylib { id: MAIN_DYLIB_ID }
    }

    /// Creates a resource tracker scoping a removable subset of
    /// `jit_dylib`'s contents; each tracker of an engine is distinct.
    pub fn create_resource_tracker(&mut self, jit_dylib: &JITDylib) -> (r: ResourceTracker)
        requires
            old(self).wf(),
            old(self).next_tracker < u64::MAX,
        ensures
            final(self).wf(),
            r.id == old(self).next_tracker,
            r.dylib == jit_dylib.id,
            final(self).next_tracker == old(self).next_tracker + 1,
            final(self).handle == old(self).handle,
            final(self).table == old(self).table,
            final(self).pool == old(self).pool,
            final(self).triple == old(self).triple,
            final(self).data_layout == old(self).data_layout,
            final(self).global_prefix == old(self).global_prefix,
            final(self).object_transformer == old(self).object_transformer,
            final(self).linking_layer == old(self).linking_layer,
    {
        let id = self.next_tracker;
        self.next_tracker = self.next_tracker + 1;
        ResourceTracker { id, dylib: jit_dylib.id }
    }

    /// Ingests `module` into `jit_dylib`, consuming it whether the call
    /// succeeds or fails. The module is refused exactly when it does not fit
    /// or conflicts on a symbol name; a refusal leaves the engine unchanged.
    pub fn add_module(&mut self, jit_dylib: &JITDylib, module: ThreadSafeModule) -> (r: Result<
        (),
        LLVMError,
    >)
        requires
            old(self).wf(),
        ensures
            final(self).wf(),
            final(self).same_configuration(*old(self)),
            final(self).pool == old(self).pool,
            final(self).object_transformer == old(self).object_transformer,
            r is Ok <==> (old(self).table.entries@.len() + module.defs@.len() <= MAX_SYMBOLS && !old(
                self,
            ).table.spec_has_conflict(module.defs@)),
            r is Ok ==> final(self).table.spec_added(
                old(self).table,
                module.defs@,
                (IngestTarget::Library { library: jit_dylib.id }),
            ),
            r is Err ==> final(self).table == old(self).table,
            old(self).table.entries@.len() + module.defs@.len() > MAX_SYMBOLS <==> r == Err::<
                (),
                LLVMError,
            >((LLVMError { kind: LLVMErrorKind::CapacityExceeded })),
            (old(self).table.entries@.len() + module.defs@.len() <= MAX_SYMBOLS && old(
                self,
            ).table.spec_has_conflict(module.defs@)) <==> r == Err::<(), LLVMError>(
                (LLVMError { kind: LLVMErrorKind::DuplicateSymbol }),
            ),
    {
        self.table.add_defs(module.defs, IngestTarget::Library { library: jit_dylib.id })
    }

    /// Ingests `module` scoped to `rt` instead of a library; the same
    /// contract as [`LLJIT::add_module`] otherwise.
    pub fn add_module_with_rt(&mut self, rt: &ResourceTracker, module: ThreadSafeModule) -> (r:
        Result<(), LLVMError>)
        requires
            old(self).wf(),
        ensures
            final(self).wf(),
            final(self).same_configuration(*old(self)),
            final(self).pool == old(self).pool,
            final(self).object_transformer == old(self).object_transformer,
            r is Ok <==> (old(self).table.entries@.len() + module.defs@.len() <= MAX_SYMBOLS && !old(
                self,
            ).table.spec_has_conflict(module.defs@)),
            r is Ok ==> final(self).table.spec_added(
                old(self).table,
                module.defs@,
                (IngestTarget::Tracker { tracker: rt.id }),
            ),
            r is Err ==> final(self).table == old(self).table,
            old(self).table.entries@.len() + module.defs@.len() > MAX_SYMBOLS <==> r == Err::<
                (),
                LLVMError,
            >((LLVMError { kind: LLVMErrorKind::CapacityExceeded })),
            (old(self).table.entries@.len() + module.defs@.len() <= MAX_SYMBOLS && old(
                self,
            ).table.spec_has_conflict(module.defs@)) <==> r == Err::<(), LLVMError>(
                (LLVMError { kind: LLVMErrorKind::DuplicateSymbol }),
            ),
    {
        self.table.add_defs(module.defs, IngestTarget::Tracker { tracker: rt.id })
    }

    /// Ingests `object_buffer` into `jit_dylib`, consuming it whether the
    /// call succeeds or fails. A registered transformer is applied first:
    /// the contents it leaves, not the original ones, are what gets linked,
    /// and if it reports failure the buffer is invalidated and the add fails
    /// with the transformer's error. Any failure leaves the symbol state
    /// unchanged.
    pub fn add_object_file(&mut self, jit_dylib: &JITDylib, object_buffer: ObjectBuffer) -> (r:
        Result<(), LLVMError>)
        requires
            old(self).wf(),
        ensures
            final(self).wf(),
            final(self).same_configuration(*old(self)),
            final(self).pool == old(self).pool,
            final(self).object_transformer is Some <==> old(self).object_transformer is Some,
            r is Err ==> final(self).table == old(self).table,
            r is Ok ==> exists|linked: Seq<SymbolDef>|
                final(self).table.spec_added(
                    old(self).table,
                    linked,
                    (IngestTarget::Library { library: jit_dylib.id }),
                ),
            old(self).object_transformer is None ==> {
                &&& final(self).object_transformer is None
                &&& (r is Ok <==> (old(self).table.entries@.len() + object_buffer.defs@.len()
                    <= MAX_SYMBOLS && !old(self).table.spec_has_conflict(object_buffer.defs@)))
                &&& (r is Ok ==> final(self).table.spec_added(
                    old(self).table,
                    object_buffer.defs@,
                    (IngestTarget::Library { library: jit_dylib.id }),
                ))
            },
    {
        let target = IngestTarget::Library { library: jit_dylib.id };
        let mut buffer = object_buffer;
        let transformed = object_transform_layer_transform_function(
            &mut self.object_transformer,
            &mut buffer,
        );
        if let Err(e) = transformed {
            return Err(e);
        }
        let ghost linked = buffer.defs@;
        let r = self.table.add_defs(buffer.defs, target);
        proof {
            if r is Ok {
                assert(self.table.spec_added(old(self).table, linked, target));
            }
        }
        r
    }

    /// Ingests `object_buffer` scoped to `rt` instead of a library; the
    /// same contract as [`LLJIT::add_object_file`] otherwise.
    pub fn add_object_file_with_rt(&mut self, rt: &ResourceTracker, object_buffer: ObjectBuffer)
        -> (r: Result<(), LLVMError>)
        requires
            old(self).wf(),
        ensures
            final(self).wf(),
            final(self).same_configuration(*old(self)),
            final(self).pool == old(self).pool,
            final(self).object_transformer is Some <==> old(self).object_transformer is Some,
            r is Err ==> final(self).table == old(self).table,
            r is Ok ==> exists|linked: Seq<SymbolDef>|
                final(self).table.spec_added(
                    old(self).table,
                    linked,
                    (IngestTarget::Tracker { tracker: rt.id }),
                ),
            old(self).object_transformer is None ==> {
                &&& final(self).object_transformer is None
                &&& (r is Ok <==> (old(self).table.entries@.len() + object_buffer.defs@.len()
                    <= MAX_SYMBOLS && !old(self).table.spec_has_conflict(object_buffer.defs@)))
                &&& (r is Ok ==> final(self).table.spec_added(
                    old(self).table,
                    object_buffer.defs@,
                    (IngestTarget::Tracker { tracker: rt.id }),
                ))
            },
    {
        let target = IngestTarget::Tracker { tracker: rt.id };
        let mut buffer = object_buffer;
        let transformed = object_transform_layer_transform_function(
            &mut self.object_transformer,
            &mut buffer,
        );
        if let Err(e) = transformed {
            return Err(e);
        }
        let ghost linked = buffer.defs@;
        let r = self.table.add_defs(buffer.defs, target);
        proof {
            if r is Ok {
                assert(self.table.spec_added(old(self).table, linked, target));
            }
        }
        r
    }

    /// Resolves `name` — exact, already in the form the native layer
    /// expects — to its address. Succeeds exactly for names defined by an
    /// accepted unit, with a non-null address; a name never defined fails
    /// with the diagnostic error, and the null address is never surfaced as
    /// success.
    pub fn get_function_address(&self, name: &str) -> (r: Result<u64, LLVMError>)
        requires
            self.wf(),
        ensures
            self.table.defines(name.spec_bytes()) <==> r is Ok,
            self.table.defines(name.spec_bytes()) ==> r == Ok::<u64, LLVMError>(
                self.table.spec_lookup(name.spec_bytes())->Some_0,
            ),
            r is Ok ==> r->Ok_0 != 0,
            !self.table.defines(name.spec_bytes()) ==> r == Err::<u64, LLVMError>(
                (LLVMError { kind: LLVMErrorKind::SymbolNotFound }),
            ),
    {
        let key = slice_to_vec(name.as_bytes());
        match self.table.find(&key) {
            Some(i) => {
                let addr = self.table.address_of(i);
                if addr == 0 {
                    return Err(LLVMError { kind: LLVMErrorKind::NullAddress });
                }
                Ok(addr)
            },
            None => Err(LLVMError { kind: LLVMErrorKind::SymbolNotFound }),
        }
    }

    /// Resolves `name` like [`LLJIT::get_function_address`] and wraps the
    /// address as a typed callable bound to this engine's borrow. The caller
    /// asserts the signature marker matches the compiled function; the
    /// handle cannot outlive the engine, though later tracker removal or
    /// engine mutation may still invalidate it.
    pub fn get_function<F: UnsafeFunctionPointer>(&self, name: &str) -> (r: Result<
        Function<'_, F>,
        LLVMError,
    >)
        requires
            self.wf(),
        ensures
            self.table.defines(name.spec_bytes()) <==> r is Ok,
            r is Ok ==> {
                let f = r->Ok_0;
                &&& f.wf()
                &&& f.addr == self.table.spec_lookup(name.spec_bytes())->Some_0
                &&& f.spec_value() == self.table.entries@[self.table.index_of(
                    name.spec_bytes(),
                )].value
            },
            !self.table.defines(name.spec_bytes()) ==> r == Err::<Function<'_, F>, LLVMError>(
                (LLVMError { kind: LLVMErrorKind::SymbolNotFound }),
            ),
    {
        let key = slice_to_vec(name.as_bytes());
        match self.table.find(&key) {
            Some(i) => {
                let addr = self.table.address_of(i);
                Ok(Function { table: &self.table, addr, signature: core::marker::PhantomData })
            },
            None => Err(LLVMError { kind: LLVMErrorKind::SymbolNotFound }),
        }
    }

    /// Returns the engine's execution session.
    pub fn get_execution_session(&self) -> (r: ExecutionSession)
        ensures
            r.engine_handle == self.handle.raw,
    {
        ExecutionSession { engine_handle: self.handle.as_raw() }
    }

    /// The target triple the engine was configured for.
    pub fn get_triple(&self) -> (r: &Vec<u8>)
        ensures
            r@ == self.triple@,
    {
        &self.triple
    }

    /// The global symbol prefix character of the engine's data layout;
    /// the null character when the target uses none.
    pub fn get_global_prefix(&self) -> (r: char)
        ensures
            r == self.global_prefix as char,
    {
        self.global_prefix as char
    }

    /// Mangles `unmangled_name` according to the engine's data layout,
    /// interns the result in the engine-wide string pool, and returns an
    /// owned entry referring to it.
    pub fn mangle_and_intern(&mut self, unmangled_name: &str) -> (r: SymbolStringPoolEntry)
        requires
            old(self).wf(),
        ensures
            final(self).wf(),
            final(self).same_configuration(*old(self)),
            final(self).table == old(self).table,
            final(self).object_transformer == old(self).object_transformer,
            r.bytes@ == spec_mangle(old(self).global_prefix, unmangled_name.spec_bytes()),
            r.id < final(self).pool.strings@.len(),
            final(self).pool.strings@[r.id as int]@ == r.bytes@,
            old(self).pool.spec_contains(r.bytes@) ==> final(self).pool == old(self).pool,
            !old(self).pool.spec_contains(r.bytes@) ==> {
                &&& final(self).pool.strings@.len() == old(self).pool.strings@.len() + 1
                &&& final(self).pool.strings@.subrange(0, old(self).pool.strings@.len() as int)
                    == old(self).pool.strings@
                &&& r.id == old(self).pool.strings@.len()
            },
    {
        let bytes = mangle_bytes(self.global_prefix, unmangled_name);
        self.pool.intern(bytes)
    }

    /// Returns the engine's object-linking layer.
    pub fn get_object_linking_layer(&self) -> (r: ObjectLayer)
        ensures
            r == self.linking_layer,
    {
        self.linking_layer
    }

    /// Returns the engine's IR transform layer.
    pub fn get_ir_transform_layer(&self) -> (r: IRTransformLayer)
        ensures
            r.engine_handle == self.handle.raw,
    {
        IRTransformLayer { engine_handle: self.handle.as_raw() }
    }

    /// The target's data-layout descriptor.
    pub fn get_data_layout(&self) -> (r: &Vec<u8>)
        ensures
            r@ == self.data_layout@,
    {
        &self.data_layout
    }

    /// Registers `object_transformer` to be invoked before each object
    /// buffer is linked. Exactly one transformer is active at a time: any
    /// previously registered one is replaced whole and dropped now, and is
    /// never invoked again. Register before any ingestion that could
    /// trigger it.
    pub fn set_object_transformer(&mut self, object_transformer: T)
        requires
            old(self).wf(),
        ensures
            final(self).wf(),
            final(self).spec_registered(*old(self), object_transformer),
    {
        self.object_transformer = Some(object_transformer);
    }
}

/// Re-registration replaces whole: after registering one transformer and
/// then another, the engine's single registration cell holds exactly the
/// second one, so the replaced transformer is no longer reachable from the
/// engine state and no later ingestion can consult it. That the replaced
/// one is also reclaimed exactly once at replacement is given by move
/// semantics of the cell.
pub proof fn lemma_reregistration_replaces_whole<T: ObjectTransformer>(
    e0: LLJIT<T>,
    e1: LLJIT<T>,
    e2: LLJIT<T>,
    t1: T,
    t2: T,
)
    requires
        e1.spec_registered(e0, t1),
        e2.spec_registered(e1, t2),
    ensures
        e2.object_transformer == Some(t2),
        e2.object_transformer == Some(t1) ==> t2 == t1,
{
}

/// Every name an accepted ingestion defined keeps resolving to the same
/// non-null address across later successful ingestions, whichever library
/// or tracker those went to: engine-level restatement over the symbol
/// state relation the ingestion contracts use.
pub proof fn lemma_engine_lookups_stable(
    pre: SymbolTable,
    post: SymbolTable,
    linked: Seq<SymbolDef>,
    target: IngestTarget,
    name: Seq<u8>,
)
    requires
        pre.wf(),
        post.wf(),
        post.spec_added(pre, linked, target),
        pre.defines(name),
    ensures
        post.spec_lookup(name) == pre.spec_lookup(name),
        post.spec_lookup(name) is Some,
        post.spec_lookup(name)->Some_0 != 0,
        pre.spec_lookup(name)->Some_0 == spec_addr_of(pre.index_of(name)),
{
    crate::session::lemma_ingestion_preserves_and_defines(pre, post, linked, target, name);
}

} // verus!

//! The engine builder.
//!
//! An [`LLJITBuilder`] accumulates configuration — a target-machine builder
//! and, optionally, a custom object-linking-layer creator — and is consumed
//! by exactly one construction attempt. On a successful build, and on a
//! build that fails with an engine diagnostic, custody of the builder's
//! native handle transfers into the engine constructor, which consumes it
//! whatever it reports; only a target-initialization failure happens before
//! the transfer, and then the builder disposes the handle itself.

use vstd::prelude::*;

use crate::error::{BuildError, LLVMError, LLVMErrorKind};
use crate::handle::OwnedHandle;
use crate::lljit::{
    ExecutionSession, ObjectLayer, DEFAULT_OBJECT_LAYER_ID, FIRST_TRACKER_ID, LLJIT,
    NATIVE_LLJIT_HANDLE,
};
use crate::pool::SymbolStringPool;
use crate::session::SymbolTable;
use crate::transform::ObjectTransformer;

verus! {

/// The model value of the native builder handle.
pub const NATIVE_LLJIT_BUILDER_HANDLE: u64 = 1;

/// The global symbol prefix of the host target.
pub const HOST_GLOBAL_PREFIX: u8 = 0;

/// The triple detected for the host target.
pub open spec fn spec_host_triple() -> Seq<u8> {
    seq![0x68u8, 0x6fu8, 0x73u8, 0x74u8]
}

/// The data-layout descriptor detected for the host target.
pub open spec fn spec_host_data_layout() -> Seq<u8> {
    seq![0x65u8]
}

/// Target-machine configuration awaiting transfer into a builder: the
/// target descriptors the engine will report, and whether the host's native
/// support for that target can be initialized.
#[derive(Debug)]
pub struct JITTargetMachineBuilder {
    /// The target triple.
    pub triple: Vec<u8>,
    /// The target's data-layout descriptor.
    pub data_layout: Vec<u8>,
    /// The target's global symbol prefix; zero when the target uses none.
    pub global_prefix: u8,
    /// Whether the host's native code-generation support for this target
    /// can be initialized.
    pub native_target_available: bool,
}

impl JITTargetMachineBuilder {
    /// Configuration for an explicitly described target.
    pub fn new(
        triple: Vec<u8>,
        data_layout: Vec<u8>,
        global_prefix: u8,
        native_target_available: bool,
    ) -> (r: JITTargetMachineBuilder)
        ensures
            r.triple == triple,
            r.data_layout == data_layout,
            r.global_prefix == global_prefix,
            r.native_target_available == native_target_available,
    {
        JITTargetMachineBuilder { triple, data_layout, global_prefix, native_target_available }
    }

    /// Detects the host's target configuration.
    pub fn detect_host() -> (r: JITTargetMachineBuilder)
        ensures
            r.triple@ == spec_host_triple(),
            r.data_layout@ == spec_host_data_layout(),
            r.global_prefix == HOST_GLOBAL_PREFIX,
            r.native_target_available,
    {
        let mut triple: Vec<u8> = Vec::new();
        triple.push(0x68);
        triple.push(0x6f);
        triple.push(0x73);
        triple.push(0x74);
        let mut data_layout: Vec<u8> = Vec::new();
        data_layout.push(0x65);
        proof {
            assert(triple@ =~= spec_host_triple());
            assert(data_layout@ =~= spec_host_data_layout());
        }
        JITTargetMachineBuilder {
            triple,
            data_layout,
            global_prefix: HOST_GLOBAL_PREFIX,
            native_target_available: true,
        }
    }
}

/// User-supplied logic constructing the object-linking layer while the
/// engine is built. Instances are consumed by
/// [`LLJITBuilder::set_object_linking_layer_creator`] and may be invoked
/// from a thread the registering caller does not control.
pub trait ObjectLinkingLayerCreator {
    /// Creates the object-linking layer for `execution_session`.
    fn create_object_linking_layer(
        &mut self,
        execution_session: ExecutionSession,
        triple: &Vec<u8>,
    ) -> ObjectLayer;
}

/// The creator the engine falls back to when none is registered: the
/// default linking layer.
#[derive(Debug)]
pub struct DefaultObjectLinkingLayerCreator;

impl ObjectLinkingLayerCreator for DefaultObjectLinkingLayerCreator {
    fn create_object_linking_layer(
        &mut self,
        _execution_session: ExecutionSession,
        _triple: &Vec<u8>,
    ) -> ObjectLayer {
        ObjectLayer { id: DEFAULT_OBJECT_LAYER_ID }
    }
}

/// Routes the engine's linking-layer construction into the registration
/// cell: with no creator registered the default layer is used; with one
/// registered, whatever layer the creator returns is what the engine is
/// constructed with.
pub fn object_linking_layer_creator_function<C: ObjectLinkingLayerCreator>(
    ctx: &mut Option<C>,
    execution_session: ExecutionSession,
    triple: &Vec<u8>,
) -> (r: ObjectLayer)
    ensures
        *old(ctx) is None ==> r.id == DEFAULT_OBJECT_LAYER_ID && *final(ctx) is None,
        *final(ctx) is Some <==> *old(ctx) is Some,
{
    match ctx {
        None => ObjectLayer { id: DEFAULT_OBJECT_LAYER_ID },
        Some(creator) => creator.create_object_linking_layer(execution_session, triple),
    }
}

/// Accumulates configuration for one engine construction.
#[derive(Debug)]
pub struct LLJITBuilder<C: ObjectLinkingLayerCreator> {
    /// Custody of the native builder handle.
    pub handle: OwnedHandle,
    /// The stored target-machine configuration, if any; the host's is
    /// detected otherwise.
    pub jit_target_machine_builder: Option<JITTargetMachineBuilder>,
    /// The registered linking-layer creator, if any; replaced whole on
    /// re-registration.
    pub object_linking_layer_creator: Option<C>,
}

impl<C: ObjectLinkingLayerCreator> LLJITBuilder<C> {
    /// The builder is well formed while it holds custody of its live
    /// native handle.
    pub open spec fn wf(self) -> bool {
        &&& self.handle.wf()
        &&& self.handle.armed
        &&& !self.handle.disposed
    }

    /// Creates a builder with the default native configuration.
    pub fn create() -> (r: LLJITBuilder<C>)
        ensures
            r.wf(),
            r.handle.raw == NATIVE_LLJIT_BUILDER_HANDLE,
            r.jit_target_machine_builder is None,
            r.object_linking_layer_creator is None,
    {
        LLJITBuilder {
            handle: OwnedHandle::new(NATIVE_LLJIT_BUILDER_HANDLE),
            jit_target_machine_builder: None,
            object_linking_layer_creator: None,
        }
    }

    /// Stores the target-machine configuration the engine will be
    /// constructed with, consuming it; any previously stored one is
    /// replaced whole.
    pub fn set_jit_target_machine_builder(
        self,
        jit_target_machine_builder: JITTargetMachineBuilder,
    ) -> (r: LLJITBuilder<C>)
        ensures
            r.handle == self.handle,
            r.jit_target_machine_builder == Some(jit_target_machine_builder),
            r.object_linking_layer_creator == self.object_linking_layer_creator,
    {
        LLJITBuilder {
            handle: self.handle,
            jit_target_machine_builder: Some(jit_target_machine_builder),
            object_linking_layer_creator: self.object_linking_layer_creator,
        }
    }

    /// Registers the creator that will construct the engine's
    /// object-linking layer. Exactly one creator is stored at a time: any
    /// previously registered one is replaced whole and dropped now, and is
    /// never invoked.
    pub fn set_object_linking_layer_creator<C2: ObjectLinkingLayerCreator>(
        self,
        object_linking_layer_creator: C2,
    ) -> (r: LLJITBuilder<C2>)
        ensures
            r.spec_creator_registered(self, object_linking_layer_creator),
    {
        LLJITBuilder {
            handle: self.handle,
            jit_target_machine_builder: self.jit_target_machine_builder,
            object_linking_layer_creator: Some(object_linking_layer_creator),
        }
    }

    /// The relation creator registration establishes: the builder is
    /// unchanged but for its registration cell, which now holds exactly the
    /// registered creator.
    pub open spec fn spec_creator_registered<C2: ObjectLinkingLayerCreator>(
        self,
        pre: LLJITBuilder<C2>,
        object_linking_layer_creator: C,
    ) -> bool {
        &&& self.handle == pre.handle
        &&& self.jit_target_machine_builder == pre.jit_target_machine_builder
        &&& self.object_linking_layer_creator == Some(object_linking_layer_creator)
    }

    /// Builds the engine, consuming the builder.
    ///
    /// Exactly one of three things happens. If the host's native target
    /// support cannot be initialized, the build fails with the distinct
    /// target-initialization report and the builder disposes its handle
    /// itself. Otherwise custody of the builder handle transfers into the
    /// engine construction, which consumes it whatever it reports: with an
    /// unusable configuration the build fails with the engine diagnostic,
    /// and otherwise it succeeds with a fresh engine carrying the
    /// configured target descriptors.
    pub fn build<T: ObjectTransformer>(self) -> (r: Result<LLJIT<T>, BuildError>)
        requires
            self.wf(),
        ensures
            match self.jit_target_machine_builder {
                Some(cfg) => {
                    &&& (!cfg.native_target_available <==> r == Err::<LLJIT<T>, BuildError>(
                        BuildError::TargetInitialization,
                    ))
                    &&& ((cfg.native_target_available && cfg.triple@.len() == 0) <==> r == Err::<
                        LLJIT<T>,
                        BuildError,
                    >(BuildError::Diagnostic((LLVMError { kind: LLVMErrorKind::InvalidConfiguration }))))
                    &&& (r is Ok <==> (cfg.native_target_available && cfg.triple@.len() > 0))
                    &&& (r is Ok ==> r->Ok_0.spec_fresh(
                        cfg.triple@,
                        cfg.data_layout@,
                        cfg.global_prefix,
                    ))
                },
                None => {
                    &&& r is Ok
                    &&& r->Ok_0.spec_fresh(
                        spec_host_triple(),
                        spec_host_data_layout(),
                        HOST_GLOBAL_PREFIX,
                    )
                },
            },
            (r is Ok && self.object_linking_layer_creator is None)
                ==> r->Ok_0.linking_layer.id == DEFAULT_OBJECT_LAYER_ID,
    {
        let LLJITBuilder { mut handle, jit_target_machine_builder, object_linking_layer_creator } =
            self;
        let cfg = match jit_target_machine_builder {
            Some(c) => c,
            None => JITTargetMachineBuilder::detect_host(),
        };
        if !cfg.native_target_available {
            handle.dispose();
            return Err(BuildError::TargetInitialization);
        }
        let _transferred = handle.release();
        if cfg.triple.len() == 0 {
            return Err(BuildError::Diagnostic(LLVMError { kind: LLVMErrorKind::InvalidConfiguration }));
        }
        let mut creator = object_linking_layer_creator;
        let linking_layer = object_linking_layer_creator_function(
            &mut creator,
            ExecutionSession { engine_handle: NATIVE_LLJIT_HANDLE },
            &cfg.triple,
        );
        Ok(
            LLJIT {
                handle: OwnedHandle::new(NATIVE_LLJIT_HANDLE),
                table: SymbolTable::new(),
                pool: SymbolStringPool::new(),
                triple: cfg.triple,
                data_layout: cfg.data_layout,
                global_prefix: cfg.global_prefix,
                object_transformer: None,
                linking_layer,
                next_tracker: FIRST_TRACKER_ID,
            },
        )
    }
}

/// Re-registration replaces whole on the builder side too: after
/// registering one linking-layer creator and then another, the builder's
/// single registration cell holds exactly the second one, so the replaced
/// creator is never invoked by the later engine construction. That the
/// replaced one is also reclaimed exactly once at replacement is given by
/// move semantics of the cell.
pub proof fn lemma_creator_reregistration_replaces_whole<
    C1: ObjectLinkingLayerCreator,
    C2: ObjectLinkingLayerCreator,
>(
    b0: LLJITBuilder<C1>,
    b1: LLJITBuilder<C2>,
    b2: LLJITBuilder<C2>,
    c1: C2,
    c2: C2,
)
    requires
        b1.spec_creator_registered(b0, c1),
        b2.spec_creator_registered(b1, c2),
    ensures
        b2.object_linking_layer_creator == Some(c2),
        b2.object_linking_layer_creator == Some(c1) ==> c2 == c1,
{
}

} // verus!

use std::cell::Cell;
use std::rc::Rc;

use lljit::builder::{JITTargetMachineBuilder, LLJITBuilder, ObjectLinkingLayerCreator};
use lljit::builder::DefaultObjectLinkingLayerCreator;
use lljit::error::{BuildError, LLVMError, LLVMErrorKind};
use lljit::function::SignatureArity0;
use lljit::lljit::{ExecutionSession, ObjectLayer, DEFAULT_OBJECT_LAYER_ID, LLJIT};
use lljit::transform::ObjectTransformer;
use lljit::unit::{ObjectBuffer, ThreadSafeModule};

#[derive(Debug)]
struct NopTransformer;

impl ObjectTransformer for NopTransformer {
    fn transform(&mut self, _object_in_out: &mut ObjectBuffer) -> Result<(), LLVMError> {
        Ok(())
    }
}

#[test]
fn default_build_reports_host_configuration() {
    let builder: LLJITBuilder<DefaultObjectLinkingLayerCreator> = LLJITBuilder::create();
    let engine = builder
        .build::<NopTransformer>()
        .expect("LLJITBuilder::build failed");
    assert_eq!(engine.get_triple().as_slice(), b"host");
    assert_eq!(engine.get_data_layout().as_slice(), b"e");
    assert_eq!(engine.get_global_prefix(), '\0');
    assert_eq!(engine.get_object_linking_layer().id, DEFAULT_OBJECT_LAYER_ID);
}

#[test]
fn configured_build_reports_configured_target() {
    let config = JITTargetMachineBuilder::new(b"riscv64-unknown-elf".to_vec(), b"E".to_vec(), b'_', true);
    let builder: LLJITBuilder<DefaultObjectLinkingLayerCreator> = LLJITBuilder::create();
    let engine = builder
        .set_jit_target_machine_builder(config)
        .build::<NopTransformer>()
        .expect("LLJITBuilder::build failed");
    assert_eq!(engine.get_triple().as_slice(), b"riscv64-unknown-elf");
    assert_eq!(engine.get_data_layout().as_slice(), b"E");
    assert_eq!(engine.get_global_prefix(), '_');
}

#[test]
fn unavailable_native_target_fails_build_distinctly() {
    let config = JITTargetMachineBuilder::new(b"wasm32-unknown".to_vec(), b"e".to_vec(), 0, false);
    let builder: LLJITBuilder<DefaultObjectLinkingLayerCreator> = LLJITBuilder::create();
    let err = builder
        .set_jit_target_machine_builder(config)
        .build::<NopTransformer>()
        .unwrap_err();
    assert!(matches!(err, BuildError::TargetInitialization));
    assert_eq!(err.get_message(), "native target initialization failed");
}

#[test]
fn unusable_configuration_fails_build_with_diagnostic() {
    let config = JITTargetMachineBuilder::new(Vec::new(), b"e".to_vec(), 0, true);
    let builder: LLJITBuilder<DefaultObjectLinkingLayerCreator> = LLJITBuilder::create();
    let err = builder
        .set_jit_target_machine_builder(config)
        .build::<NopTransformer>()
        .unwrap_err();
    match err {
        BuildError::Diagnostic(diagnostic) => {
            assert_eq!(diagnostic.kind, LLVMErrorKind::InvalidConfiguration);
        }
        BuildError::TargetInitialization => panic!("wrong failure shape"),
    }
}

#[test]
fn two_independent_builders_build_two_clean_engines() {
    let first_builder: LLJITBuilder<DefaultObjectLinkingLayerCreator> = LLJITBuilder::create();
    let second_builder: LLJITBuilder<DefaultObjectLinkingLayerCreator> = LLJITBuilder::create();

    let mut first: LLJIT<NopTransformer> = first_builder.build().expect("first build failed");
    let mut second: LLJIT<NopTransformer> = second_builder.build().expect("second build failed");

    let first_jd = first.get_main_jit_dylib();
    let mut module = ThreadSafeModule::new();
    module.add_symbol("one", 1);
    first.add_module(&first_jd, module).unwrap();

    let second_jd = second.get_main_jit_dylib();
    let mut module = ThreadSafeModule::new();
    module.add_symbol("two", 2);
    second.add_module(&second_jd, module).unwrap();

    assert_eq!(first.get_function::<SignatureArity0>("one").unwrap().call(), 1);
    assert_eq!(second.get_function::<SignatureArity0>("two").unwrap().call(), 2);

    // Both teardown paths run cleanly, each disposing its own engine once.
    drop(first);
    drop(second);
}

struct CountingCreator {
    layer_id: u64,
    invocations: Rc<Cell<u32>>,
    drops: Rc<Cell<u32>>,
}

impl ObjectLinkingLayerCreator for CountingCreator {
    fn create_object_linking_layer(
        &mut self,
        _execution_session: ExecutionSession,
        _triple: &Vec<u8>,
    ) -> ObjectLayer {
        self.invocations.set(self.invocations.get() + 1);
        ObjectLayer { id: self.layer_id }
    }
}

impl Drop for CountingCreator {
    fn drop(&mut self) {
        self.drops.set(self.drops.get() + 1);
    }
}

#[test]
fn custom_creator_builds_the_linking_layer() {
    let invocations = Rc::new(Cell::new(0));
    let drops = Rc::new(Cell::new(0));
    let creator = CountingCreator { layer_id: 7, invocations: invocations.clone(), drops: drops.clone() };

    let builder: LLJITBuilder<DefaultObjectLinkingLayerCreator> = LLJITBuilder::create();
    let engine = builder
        .set_object_linking_layer_creator(creator)
        .build::<NopTransformer>()
        .expect("LLJITBuilder::build failed");
    assert_eq!(invocations.get(), 1);
    assert_eq!(engine.get_object_linking_layer().id, 7);
    drop(engine);
    assert_eq!(drops.get(), 1);
}

#[test]
fn replacing_creator_drops_old_once_and_never_invokes_it() {
    let first_invocations = Rc::new(Cell::new(0));
    let first_drops = Rc::new(Cell::new(0));
    let second_invocations = Rc::new(Cell::new(0));
    let second_drops = Rc::new(Cell::new(0));

    let builder: LLJITBuilder<DefaultObjectLinkingLayerCreator> = LLJITBuilder::create();
    let builder = builder.set_object_linking_layer_creator(CountingCreator {
        layer_id: 3,
        invocations: first_invocations.clone(),
        drops: first_drops.clone(),
    });
    let builder = builder.set_object_linking_layer_creator(CountingCreator {
        layer_id: 4,
        invocations: second_invocations.clone(),
        drops: second_drops.clone(),
    });
    // The replaced creator is dropped exactly once, at replacement.
    assert_eq!(first_drops.get(), 1);

    let engine = builder
        .build::<NopTransformer>()
        .expect("LLJITBuilder::build failed");
    assert_eq!(first_invocations.get(), 0);
    assert_eq!(second_invocations.get(), 1);
    assert_eq!(engine.get_object_linking_layer().id, 4);
}

#[test]
fn engine_accessors_expose_session_and_layers() {
    let mut engine: LLJIT<NopTransformer> = LLJIT::create().expect("LLJIT::create failed");
    let session = engine.get_execution_session();
    let ir_layer = engine.get_ir_transform_layer();
    assert_eq!(session.engine_handle, ir_layer.engine_handle);

    // Mangling under the host's empty global prefix leaves the name as is,
    // and interning the same name twice refers to the same pool entry.
    let entry = engine.mangle_and_intern("hello_world");
    assert_eq!(entry.get_string().as_slice(), b"hello_world");
    let again = engine.mangle_and_intern("hello_world");
    assert_eq!(again.id, entry.id);
}

#[test]
fn mangling_applies_the_configured_global_prefix() {
    let config = JITTargetMachineBuilder::new(b"host".to_vec(), b"o".to_vec(), b'_', true);
    let builder: LLJITBuilder<DefaultObjectLinkingLayerCreator> = LLJITBuilder::create();
    let mut engine: LLJIT<NopTransformer> = builder
        .set_jit_target_machine_builder(config)
        .build()
        .expect("LLJITBuilder::build failed");
    let entry = engine.mangle_and_intern("main");
    assert_eq!(entry.get_string().as_slice(), b"_main");
    let other = engine.mangle_and_intern("other");
    assert_ne!(other.id, entry.id);
}

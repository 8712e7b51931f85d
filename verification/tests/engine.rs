use std::cell::Cell;
use std::rc::Rc;

use lljit::error::{LLVMError, LLVMErrorKind};
use lljit::function::{SignatureArity0, SignatureArity2};
use lljit::lljit::{LLJIT, MAIN_DYLIB_ID};
use lljit::session::FIRST_SYMBOL_ADDRESS;
use lljit::transform::ObjectTransformer;
use lljit::unit::{ObjectBuffer, ThreadSafeModule};

#[derive(Debug)]
struct NopTransformer;

impl ObjectTransformer for NopTransformer {
    fn transform(&mut self, _object_in_out: &mut ObjectBuffer) -> Result<(), LLVMError> {
        Ok(())
    }
}

#[test]
fn end_to_end_default_build_add_resolve_call() {
    let mut engine: LLJIT<NopTransformer> = LLJIT::create().expect("LLJIT::create failed");
    let main_jd = engine.get_main_jit_dylib();
    assert_eq!(main_jd.id, MAIN_DYLIB_ID);

    let mut module = ThreadSafeModule::new();
    module.add_symbol("answer", 42);
    engine
        .add_module(&main_jd, module)
        .expect("LLJIT::add_module failed");

    let addr = engine
        .get_function_address("answer")
        .expect("LLJIT::get_function_address failed");
    assert_ne!(addr, 0);

    let func = engine
        .get_function::<SignatureArity0>("answer")
        .expect("LLJIT::get_function failed");
    assert_eq!(func.call(), 42);
}

#[test]
fn lookup_of_undefined_name_fails_deterministically() {
    let mut engine: LLJIT<NopTransformer> = LLJIT::create().expect("LLJIT::create failed");
    let main_jd = engine.get_main_jit_dylib();

    for _ in 0..3 {
        let err = engine.get_function_address("never_defined").unwrap_err();
        assert_eq!(err.kind, LLVMErrorKind::SymbolNotFound);
    }

    let mut module = ThreadSafeModule::new();
    module.add_symbol("unrelated", 5);
    engine.add_module(&main_jd, module).unwrap();

    let err = engine.get_function_address("never_defined").unwrap_err();
    assert_eq!(err.kind, LLVMErrorKind::SymbolNotFound);
    let err = engine.get_function::<SignatureArity0>("never_defined").unwrap_err();
    assert_eq!(err.kind, LLVMErrorKind::SymbolNotFound);
}

#[test]
fn every_added_symbol_resolves_to_distinct_nonzero_address() {
    let mut engine: LLJIT<NopTransformer> = LLJIT::create().expect("LLJIT::create failed");
    let main_jd = engine.get_main_jit_dylib();

    let mut first = ThreadSafeModule::new();
    first.add_symbol("alpha", 1);
    first.add_symbol("beta", 2);
    engine.add_module(&main_jd, first).unwrap();

    let mut second = ThreadSafeModule::new();
    second.add_symbol("gamma", 3);
    engine.add_module(&main_jd, second).unwrap();

    let a = engine.get_function_address("alpha").unwrap();
    let b = engine.get_function_address("beta").unwrap();
    let c = engine.get_function_address("gamma").unwrap();
    assert!(a != 0 && b != 0 && c != 0);
    assert!(a != b && b != c && a != c);

    // Addresses follow ingestion order from the first symbol address.
    assert_eq!(a, FIRST_SYMBOL_ADDRESS);
    assert_eq!(b, FIRST_SYMBOL_ADDRESS + 1);
    assert_eq!(c, FIRST_SYMBOL_ADDRESS + 2);

    // Addresses are stable across later ingestions.
    let mut third = ThreadSafeModule::new();
    third.add_symbol("delta", 4);
    engine.add_module(&main_jd, third).unwrap();
    assert_eq!(engine.get_function_address("alpha").unwrap(), a);
    assert_eq!(engine.get_function_address("beta").unwrap(), b);
}

#[test]
fn duplicate_symbol_across_modules_is_rejected_and_state_kept() {
    let mut engine: LLJIT<NopTransformer> = LLJIT::create().expect("LLJIT::create failed");
    let main_jd = engine.get_main_jit_dylib();

    let mut first = ThreadSafeModule::new();
    first.add_symbol("dup", 10);
    engine.add_module(&main_jd, first).unwrap();
    let addr = engine.get_function_address("dup").unwrap();

    let mut second = ThreadSafeModule::new();
    second.add_symbol("fresh", 11);
    second.add_symbol("dup", 12);
    let err = engine.add_module(&main_jd, second).unwrap_err();
    assert_eq!(err.kind, LLVMErrorKind::DuplicateSymbol);

    // The refused module left nothing behind, and the old definition stands.
    assert_eq!(engine.get_function_address("dup").unwrap(), addr);
    let err = engine.get_function_address("fresh").unwrap_err();
    assert_eq!(err.kind, LLVMErrorKind::SymbolNotFound);
    let func = engine.get_function::<SignatureArity0>("dup").unwrap();
    assert_eq!(func.call(), 10);
}

#[test]
fn duplicate_symbol_inside_one_module_is_rejected() {
    let mut engine: LLJIT<NopTransformer> = LLJIT::create().expect("LLJIT::create failed");
    let main_jd = engine.get_main_jit_dylib();

    let mut module = ThreadSafeModule::new();
    module.add_symbol("twice", 1);
    module.add_symbol("twice", 2);
    let err = engine.add_module(&main_jd, module).unwrap_err();
    assert_eq!(err.kind, LLVMErrorKind::DuplicateSymbol);
    let err = engine.get_function_address("twice").unwrap_err();
    assert_eq!(err.kind, LLVMErrorKind::SymbolNotFound);
}

#[test]
fn call_forms_ignore_arguments_and_return_declared_value() {
    let mut engine: LLJIT<NopTransformer> = LLJIT::create().expect("LLJIT::create failed");
    let main_jd = engine.get_main_jit_dylib();
    let mut module = ThreadSafeModule::new();
    module.add_symbol("binary", 77);
    engine.add_module(&main_jd, module).unwrap();

    let func = engine.get_function::<SignatureArity2>("binary").unwrap();
    assert_eq!(func.call(1, 2), 77);
}

struct RewritingTransformer;

impl ObjectTransformer for RewritingTransformer {
    fn transform(&mut self, object_in_out: &mut ObjectBuffer) -> Result<(), LLVMError> {
        let mut replacement = ObjectBuffer::new();
        replacement.add_symbol("rewritten", 99);
        *object_in_out = replacement;
        Ok(())
    }
}

#[test]
fn transformer_rewrite_links_new_content_not_original() {
    let mut engine: LLJIT<RewritingTransformer> = LLJIT::create().expect("LLJIT::create failed");
    let main_jd = engine.get_main_jit_dylib();
    engine.set_object_transformer(RewritingTransformer);

    let mut buffer = ObjectBuffer::new();
    buffer.add_symbol("original", 1);
    engine
        .add_object_file(&main_jd, buffer)
        .expect("LLJIT::add_object_file failed");

    let func = engine.get_function::<SignatureArity0>("rewritten").unwrap();
    assert_eq!(func.call(), 99);
    let err = engine.get_function_address("original").unwrap_err();
    assert_eq!(err.kind, LLVMErrorKind::SymbolNotFound);
}

struct FailingTransformer;

impl ObjectTransformer for FailingTransformer {
    fn transform(&mut self, _object_in_out: &mut ObjectBuffer) -> Result<(), LLVMError> {
        Err(LLVMError::new(LLVMErrorKind::TransformFailed))
    }
}

#[test]
fn transformer_failure_fails_the_add_and_links_nothing() {
    let mut engine: LLJIT<FailingTransformer> = LLJIT::create().expect("LLJIT::create failed");
    let main_jd = engine.get_main_jit_dylib();
    engine.set_object_transformer(FailingTransformer);

    let mut buffer = ObjectBuffer::new();
    buffer.add_symbol("doomed", 1);
    let err = engine.add_object_file(&main_jd, buffer).unwrap_err();
    assert_eq!(err.kind, LLVMErrorKind::TransformFailed);
    let err = engine.get_function_address("doomed").unwrap_err();
    assert_eq!(err.kind, LLVMErrorKind::SymbolNotFound);
}

struct CountingTransformer {
    symbol: &'static str,
    invocations: Rc<Cell<u32>>,
    drops: Rc<Cell<u32>>,
}

impl ObjectTransformer for CountingTransformer {
    fn transform(&mut self, object_in_out: &mut ObjectBuffer) -> Result<(), LLVMError> {
        self.invocations.set(self.invocations.get() + 1);
        let mut replacement = ObjectBuffer::new();
        replacement.add_symbol(self.symbol, 1);
        *object_in_out = replacement;
        Ok(())
    }
}

impl Drop for CountingTransformer {
    fn drop(&mut self) {
        self.drops.set(self.drops.get() + 1);
    }
}

#[test]
fn replacing_transformer_drops_old_once_and_never_invokes_it_again() {
    let first_invocations = Rc::new(Cell::new(0));
    let first_drops = Rc::new(Cell::new(0));
    let second_invocations = Rc::new(Cell::new(0));
    let second_drops = Rc::new(Cell::new(0));

    {
        let mut engine: LLJIT<CountingTransformer> =
            LLJIT::create().expect("LLJIT::create failed");
        let main_jd = engine.get_main_jit_dylib();
        engine.set_object_transformer(CountingTransformer {
            symbol: "from_first",
            invocations: first_invocations.clone(),
            drops: first_drops.clone(),
        });
        let mut buffer = ObjectBuffer::new();
        buffer.add_symbol("payload_one", 1);
        engine.add_object_file(&main_jd, buffer).unwrap();
        assert_eq!(first_invocations.get(), 1);

        engine.set_object_transformer(CountingTransformer {
            symbol: "from_second",
            invocations: second_invocations.clone(),
            drops: second_drops.clone(),
        });
        // The replaced transformer is dropped exactly once, at replacement.
        assert_eq!(first_drops.get(), 1);

        let mut buffer = ObjectBuffer::new();
        buffer.add_symbol("payload_two", 2);
        engine.add_object_file(&main_jd, buffer).unwrap();
        // Only the new transformer runs after replacement.
        assert_eq!(first_invocations.get(), 1);
        assert_eq!(second_invocations.get(), 1);
        assert!(engine.get_function_address("from_second").is_ok());
    }
    // Tearing the engine down reclaims the active transformer exactly once.
    assert_eq!(first_drops.get(), 1);
    assert_eq!(second_drops.get(), 1);
}

#[test]
fn trackers_scope_ingestion_and_get_distinct_identifiers() {
    let mut engine: LLJIT<NopTransformer> = LLJIT::create().expect("LLJIT::create failed");
    let main_jd = engine.get_main_jit_dylib();
    let first_rt = engine.create_resource_tracker(&main_jd);
    let second_rt = engine.create_resource_tracker(&main_jd);
    assert_ne!(first_rt.id, second_rt.id);
    assert_eq!(first_rt.dylib, main_jd.id);

    let mut module = ThreadSafeModule::new();
    module.add_symbol("tracked", 21);
    engine
        .add_module_with_rt(&first_rt, module)
        .expect("LLJIT::add_module_with_rt failed");
    assert_ne!(engine.get_function_address("tracked").unwrap(), 0);

    let mut buffer = ObjectBuffer::new();
    buffer.add_symbol("tracked_object", 22);
    engine
        .add_object_file_with_rt(&second_rt, buffer)
        .expect("LLJIT::add_object_file_with_rt failed");
    let func = engine.get_function::<SignatureArity0>("tracked_object").unwrap();
    assert_eq!(func.call(), 22);
}

#[test]
fn error_messages_name_the_failure() {
    let err = LLVMError::new(LLVMErrorKind::SymbolNotFound);
    assert_eq!(err.get_message(), "symbol not found");
    let err = LLVMError::new(LLVMErrorKind::DuplicateSymbol);
    assert_eq!(err.get_message(), "duplicate symbol definition");
}

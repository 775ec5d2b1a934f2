use wasmer::cli::{
    CompilerConfig, CompilerKind, ConfigError, Features, RuntimeOptions, RuntimeType, Target,
    WasmFeatures,
};
use wasmer::engine::BackendKind;
use wasmer::handle::StoreIdSource;

#[test]
fn default_runtime_is_the_optimizing_compiler() {
    let opts = RuntimeOptions::default();
    assert_eq!(opts.get_rt(), Ok(RuntimeType::Cranelift));
}

#[test]
fn runtime_flags_follow_the_fixed_precedence() {
    let mut opts = RuntimeOptions::default();
    opts.wasmi = true;
    assert_eq!(opts.get_rt(), Ok(RuntimeType::Wasmi));
    opts.v8 = true;
    assert_eq!(opts.get_rt(), Ok(RuntimeType::V8));
    opts.wamr = true;
    assert_eq!(opts.get_rt(), Ok(RuntimeType::Wamr));
    opts.singlepass = true;
    assert_eq!(opts.get_rt(), Ok(RuntimeType::Singlepass));
    opts.llvm = true;
    assert_eq!(opts.get_rt(), Ok(RuntimeType::LLVM));
    opts.cranelift = true;
    assert_eq!(opts.get_rt(), Ok(RuntimeType::Cranelift));
}

#[test]
fn enabled_lists_the_selectable_runtimes() {
    assert_eq!(
        RuntimeType::enabled(),
        vec![
            RuntimeType::Singlepass,
            RuntimeType::Cranelift,
            RuntimeType::LLVM,
            RuntimeType::V8,
            RuntimeType::Wamr,
        ]
    );
}

#[test]
fn runtime_names() {
    assert_eq!(RuntimeType::Singlepass.as_str(), "singlepass");
    assert_eq!(RuntimeType::Cranelift.as_str(), "cranelift");
    assert_eq!(RuntimeType::LLVM.as_str(), "llvm");
    assert_eq!(RuntimeType::V8.as_str(), "v8");
    assert_eq!(RuntimeType::Wamr.as_str(), "wamr");
    assert_eq!(RuntimeType::Wasmi.as_str(), "wasmi");
    assert_eq!(RuntimeType::Headless.as_str(), "headless");
}

#[test]
fn features_threads_on_by_default_and_disable_wins() {
    let opts = RuntimeOptions::default();
    let out = opts.get_features(Features::default()).unwrap();
    assert!(out.threads);
    assert!(!out.simd);

    let mut opts = RuntimeOptions::default();
    opts.features.disable_threads = true;
    let out = opts.get_features(Features::default()).unwrap();
    assert!(!out.threads);
}

#[test]
fn features_all_turns_everything_on() {
    let mut opts = RuntimeOptions::default();
    opts.features.all = true;
    opts.features.disable_threads = true;
    let out = opts.get_features(Features::default()).unwrap();
    assert!(out.threads);
    assert!(out.simd);
    assert!(out.multi_value);
    assert!(out.bulk_memory);
    assert!(out.reference_types);
}

#[test]
fn features_baseline_is_kept() {
    let opts = RuntimeOptions::default();
    let mut base = Features::default();
    base.simd = true;
    let out = opts.get_features(base).unwrap();
    assert!(out.simd);
}

#[test]
fn feature_flags_turn_single_features_on() {
    let mut opts = RuntimeOptions::default();
    opts.features = WasmFeatures {
        simd: true,
        multi_value: true,
        ..WasmFeatures::default()
    };
    let out = opts.get_features(Features::default()).unwrap();
    assert!(out.simd);
    assert!(out.multi_value);
    assert!(!out.bulk_memory);
    assert!(!out.reference_types);
}

#[test]
fn compiler_config_records_the_choice() {
    let mut opts = RuntimeOptions::default();
    opts.singlepass = true;
    opts.enable_verifier = true;
    let c = opts.get_compiler_config(&RuntimeType::Singlepass).unwrap();
    assert_eq!(
        c,
        CompilerConfig {
            kind: CompilerKind::Singlepass,
            enable_verifier: true,
            llvm_debug_dir: None,
        }
    );
}

#[test]
fn llvm_config_keeps_the_debug_directory() {
    let mut opts = RuntimeOptions::default();
    opts.llvm = true;
    opts.llvm_debug_dir = Some(String::from("ir-dumps"));
    let c = opts.get_compiler_config(&RuntimeType::LLVM).unwrap();
    assert_eq!(c.kind, CompilerKind::LLVM);
    assert_eq!(c.llvm_debug_dir, Some(String::from("ir-dumps")));
}

#[test]
fn headless_cannot_be_configured_as_a_compiler() {
    let opts = RuntimeOptions::default();
    assert_eq!(
        opts.get_compiler_config(&RuntimeType::Headless),
        Err(ConfigError::HeadlessCompiler)
    );
}

#[test]
fn get_engine_matches_the_selected_runtime() {
    let mut ids = StoreIdSource::new();
    let mut opts = RuntimeOptions::default();
    let e = opts.get_engine().unwrap();
    assert_eq!(e.kind(), BackendKind::Sys);

    opts.wamr = true;
    let e = opts.get_engine().unwrap();
    assert_eq!(e.kind(), BackendKind::Wamr);
    assert!(e.is_wamr());

    let s = opts.get_store(&mut ids).unwrap();
    assert_eq!(s.objects.backend(), BackendKind::Wamr);
}

#[test]
fn get_store_for_target_uses_fresh_identities() {
    let mut ids = StoreIdSource::new();
    let opts = RuntimeOptions::default();
    let target = Target::default();
    let a = opts.get_store_for_target(&target, &mut ids).unwrap();
    let b = opts.get_store_for_target(&target, &mut ids).unwrap();
    assert_ne!(a.id(), b.id());
    assert_eq!(a.objects.backend(), BackendKind::Sys);
}

#[test]
fn engine_facade_accessors() {
    let e: wasmer::engine::Engine = wasmer::wamr::Engine::new().into();
    assert!(e.is_wamr());
    assert_eq!(e.as_wamr().deterministic_id(), "wamr");
    let mut e = e;
    let _inner: &mut wasmer::wamr::Engine = e.as_wamr_mut();
    let inner: wasmer::wamr::Engine = e.into_wamr();
    assert_eq!(inner.deterministic_id(), "wamr");
    assert_eq!(wasmer::wamr::default_engine().deterministic_id(), "wamr");
    assert_eq!(wasmer::sys::Engine::new().deterministic_id(), "sys");
    assert_eq!(wasmer::wasmi::Engine::new().deterministic_id(), "wasmi");
    assert_eq!(wasmer::v8::Engine::new().deterministic_id(), "v8");
    assert_eq!(wasmer::js::Engine::new().deterministic_id(), "js");
    assert_eq!(wasmer::jsc::Engine::new().deterministic_id(), "jsc");
}

//! Runtime selection: the decisions that pick one backend, one compiler
//! configuration and one feature set from the flags an embedder or a
//! command line hands in. Engine construction itself is a pure value
//! here; reading flags and reporting errors to a terminal stay with the
//! caller.

use crate::engine::{BackendKind, Engine, RuntimeEngine};
use crate::handle::StoreIdSource;
use crate::store::Store;
use vstd::prelude::*;

verus! {

/// The WebAssembly proposals that can be switched on by flags.
#[derive(Clone, Copy, Debug, PartialEq, Eq, Structural, Default)]
pub struct WasmFeatures {
    /// Enable the SIMD proposal.
    pub simd: bool,
    /// Disable the threads proposal, which is on by default.
    pub disable_threads: bool,
    /// Enable the reference-types proposal.
    pub reference_types: bool,
    /// Enable the multi-value proposal.
    pub multi_value: bool,
    /// Enable the bulk-memory proposal.
    pub bulk_memory: bool,
    /// Enable every pre-standard proposal at once.
    pub all: bool,
}

/// The feature set a compiler is configured with.
#[derive(Clone, Copy, Debug, PartialEq, Eq, Structural, Default)]
pub struct Features {
    pub threads: bool,
    pub multi_value: bool,
    pub simd: bool,
    pub bulk_memory: bool,
    pub reference_types: bool,
}

/// The machine a compiler targets. The host target carries no further
/// detail the selection logic reads.
#[derive(Clone, Copy, Debug, PartialEq, Eq, Structural, Default)]
pub struct Target {}

/// The runtime picked for a store: one of the three compilers of the
/// native backend, one of the alternative runtimes, or the headless
/// engine that only loads precompiled modules.
#[derive(Clone, Copy, Debug, PartialEq, Eq, Structural)]
pub enum RuntimeType {
    Singlepass,
    Cranelift,
    LLVM,
    V8,
    Wamr,
    Wasmi,
    Headless,
}

impl RuntimeType {
    /// The runtimes this build can select by flag.
    pub fn enabled() -> (r: Vec<RuntimeType>)
        ensures
            r@ == seq![
                RuntimeType::Singlepass,
                RuntimeType::Cranelift,
                RuntimeType::LLVM,
                RuntimeType::V8,
                RuntimeType::Wamr,
            ],
    {
        let mut r: Vec<RuntimeType> = Vec::new();
        r.push(RuntimeType::Singlepass);
        r.push(RuntimeType::Cranelift);
        r.push(RuntimeType::LLVM);
        r.push(RuntimeType::V8);
        r.push(RuntimeType::Wamr);
        proof {
            assert(r@ =~= seq![
                RuntimeType::Singlepass,
                RuntimeType::Cranelift,
                RuntimeType::LLVM,
                RuntimeType::V8,
                RuntimeType::Wamr,
            ]);
        }
        r
    }

    /// The name this runtime goes by.
    pub fn as_str(&self) -> (r: &'static str)
        ensures
            *self == RuntimeType::Singlepass ==> r@ == "singlepass"@,
            *self == RuntimeType::Cranelift ==> r@ == "cranelift"@,
            *self == RuntimeType::LLVM ==> r@ == "llvm"@,
            *self == RuntimeType::V8 ==> r@ == "v8"@,
            *self == RuntimeType::Wamr ==> r@ == "wamr"@,
            *self == RuntimeType::Wasmi ==> r@ == "wasmi"@,
            *self == RuntimeType::Headless ==> r@ == "headless"@,
    {
        match *self {
            RuntimeType::Singlepass => "singlepass",
            RuntimeType::Cranelift => "cranelift",
            RuntimeType::LLVM => "llvm",
            RuntimeType::V8 => "v8",
            RuntimeType::Wamr => "wamr",
            RuntimeType::Wasmi => "wasmi",
            RuntimeType::Headless => "headless",
        }
    }
}

/// Why a selection was refused.
#[derive(Clone, Copy, Debug, PartialEq, Eq, Structural)]
pub enum ConfigError {
    /// The headless engine cannot be chosen as a compiler.
    HeadlessCompiler,
}

/// The compiler a configuration names.
#[derive(Clone, Copy, Debug, PartialEq, Eq, Structural)]
pub enum CompilerKind {
    Singlepass,
    Cranelift,
    LLVM,
}

/// A compiler configuration: which compiler, whether its internal
/// verifier runs, and where the optimizing compiler writes its
/// intermediate files, if anywhere.
#[derive(Clone, Debug, PartialEq, Eq)]
pub struct CompilerConfig {
    pub kind: CompilerKind,
    pub enable_verifier: bool,
    pub llvm_debug_dir: Option<String>,
}

/// The flags that pick a runtime, mirroring the command line: at most
/// one runtime flag is meant to be set; with several set, the fixed
/// precedence below decides, and with none, the platform default wins.
#[derive(Clone, Debug, PartialEq, Eq, Default)]
pub struct RuntimeOptions {
    pub singlepass: bool,
    pub cranelift: bool,
    pub llvm: bool,
    pub v8: bool,
    pub wamr: bool,
    pub wasmi: bool,
    /// Run the compiler's internal verification.
    pub enable_verifier: bool,
    /// Where the optimizing compiler dumps its intermediate files.
    pub llvm_debug_dir: Option<String>,
    /// The feature flags.
    pub features: WasmFeatures,
}

impl RuntimeOptions {
    /// The runtime these flags select: the first set flag in the fixed
    /// precedence order, or the platform default with none set.
    pub open spec fn spec_rt(&self) -> RuntimeType {
        if self.cranelift {
            RuntimeType::Cranelift
        } else if self.llvm {
            RuntimeType::LLVM
        } else if self.singlepass {
            RuntimeType::Singlepass
        } else if self.wamr {
            RuntimeType::Wamr
        } else if self.v8 {
            RuntimeType::V8
        } else if self.wasmi {
            RuntimeType::Wasmi
        } else {
            RuntimeType::Cranelift
        }
    }

    /// Pick the runtime the flags ask for. With every runtime present
    /// in this build, some runtime can always be picked.
    pub fn get_rt(&self) -> (r: Result<RuntimeType, ConfigError>)
        ensures
            r == Ok::<RuntimeType, ConfigError>(self.spec_rt()),
    {
        if self.cranelift {
            Ok(RuntimeType::Cranelift)
        } else if self.llvm {
            Ok(RuntimeType::LLVM)
        } else if self.singlepass {
            Ok(RuntimeType::Singlepass)
        } else if self.wamr {
            Ok(RuntimeType::Wamr)
        } else if self.v8 {
            Ok(RuntimeType::V8)
        } else if self.wasmi {
            Ok(RuntimeType::Wasmi)
        } else {
            Ok(RuntimeType::Cranelift)
        }
    }

    /// The features a compiler ends up with, given a baseline: threads
    /// stay on unless disabled without `all`; each proposal flag, or
    /// `all`, turns its feature on; a feature already on in the
    /// baseline stays on.
    pub open spec fn spec_features(&self, base: Features) -> Features {
        Features {
            threads: !self.features.disable_threads || self.features.all,
            multi_value: base.multi_value || self.features.multi_value || self.features.all,
            simd: base.simd || self.features.simd || self.features.all,
            bulk_memory: base.bulk_memory || self.features.bulk_memory || self.features.all,
            reference_types: base.reference_types || self.features.reference_types
                || self.features.all,
        }
    }

    /// Apply the feature flags to a baseline feature set.
    pub fn get_features(&self, features: Features) -> (r: Result<Features, ConfigError>)
        ensures
            r == Ok::<Features, ConfigError>(self.spec_features(features)),
    {
        let mut features = features;
        if !self.features.disable_threads || self.features.all {
            features.threads = true;
        }
        if self.features.disable_threads && !self.features.all {
            features.threads = false;
        }
        if self.features.multi_value || self.features.all {
            features.multi_value = true;
        }
        if self.features.simd || self.features.all {
            features.simd = true;
        }
        if self.features.bulk_memory || self.features.all {
            features.bulk_memory = true;
        }
        if self.features.reference_types || self.features.all {
            features.reference_types = true;
        }
        Ok(features)
    }

    /// The compiler configuration the flags ask for. Only a compiler of
    /// the native backend can be configured here: the alternative
    /// runtimes carry no compiler, and asking is a configuration error
    /// excluded up front; the headless engine is refused.
    pub fn get_compiler_config(&self, rt: &RuntimeType) -> (r: Result<CompilerConfig, ConfigError>)
        requires
            !(*rt == RuntimeType::V8 || *rt == RuntimeType::Wamr || *rt == RuntimeType::Wasmi),
        ensures
            *rt == RuntimeType::Headless ==> (r matches Err(e) && e == ConfigError::HeadlessCompiler),
            *rt == RuntimeType::Singlepass ==> (r matches Ok(c) && c == (CompilerConfig {
                kind: CompilerKind::Singlepass,
                enable_verifier: self.enable_verifier,
                llvm_debug_dir: None::<String>,
            })),
            *rt == RuntimeType::Cranelift ==> (r matches Ok(c) && c == (CompilerConfig {
                kind: CompilerKind::Cranelift,
                enable_verifier: self.enable_verifier,
                llvm_debug_dir: None::<String>,
            })),
            *rt == RuntimeType::LLVM ==> (r matches Ok(c) && c.kind == CompilerKind::LLVM
                && c.enable_verifier == self.enable_verifier && c.llvm_debug_dir
                == self.llvm_debug_dir),
    {
        match *rt {
            RuntimeType::Headless => Err(ConfigError::HeadlessCompiler),
            RuntimeType::Singlepass => Ok(
                CompilerConfig {
                    kind: CompilerKind::Singlepass,
                    enable_verifier: self.enable_verifier,
                    llvm_debug_dir: None,
                },
            ),
            RuntimeType::Cranelift => Ok(
                CompilerConfig {
                    kind: CompilerKind::Cranelift,
                    enable_verifier: self.enable_verifier,
                    llvm_debug_dir: None,
                },
            ),
            RuntimeType::LLVM => {
                let dir = match &self.llvm_debug_dir {
                    Some(d) => Some(d.clone()),
                    None => None,
                };
                Ok(
                    CompilerConfig {
                        kind: CompilerKind::LLVM,
                        enable_verifier: self.enable_verifier,
                        llvm_debug_dir: dir,
                    },
                )
            },
            _ => unreached(),
        }
    }

    /// The compiler's baseline feature set for a target.
    pub fn default_features_for_target(&self, _target: &Target) -> (r: Features)
        ensures
            r == (Features {
                threads: false,
                multi_value: false,
                simd: false,
                bulk_memory: false,
                reference_types: false,
            }),
    {
        Features {
            threads: false,
            multi_value: false,
            simd: false,
            bulk_memory: false,
            reference_types: false,
        }
    }

    /// Build a native-backend engine for the target from the selected
    /// compiler configuration and features.
    pub fn get_compiler_engine_for_target(&self, target: &Target) -> (r: Result<
        Engine,
        ConfigError,
    >)
        requires
            !(self.spec_rt() == RuntimeType::V8 || self.spec_rt() == RuntimeType::Wamr
                || self.spec_rt() == RuntimeType::Wasmi),
        ensures
            r matches Ok(e) && e.spec_kind() == BackendKind::Sys,
    {
        let rt = match self.get_rt() {
            Ok(rt) => rt,
            Err(e) => {
                return Err(e);
            },
        };
        let config = match self.get_compiler_config(&rt) {
            Ok(c) => c,
            Err(e) => {
                return Err(e);
            },
        };
        let base = self.default_features_for_target(target);
        let _features = match self.get_features(base) {
            Ok(f) => f,
            Err(e) => {
                return Err(e);
            },
        };
        let _ = config;
        Ok(Engine(RuntimeEngine::Sys(crate::sys::Engine::new())))
    }

    /// The engine for a target under a picked runtime: the alternative
    /// runtimes are engines of their own, anything else goes through the
    /// compiler path.
    pub fn get_engine_for_target_and_rt(&self, target: &Target, rt: &RuntimeType) -> (r: Result<
        Engine,
        ConfigError,
    >)
        requires
            (*rt == RuntimeType::V8 || *rt == RuntimeType::Wamr || *rt == RuntimeType::Wasmi) || !(
            self.spec_rt() == RuntimeType::V8 || self.spec_rt() == RuntimeType::Wamr
                || self.spec_rt() == RuntimeType::Wasmi),
        ensures
            *rt == RuntimeType::V8 ==> (r matches Ok(e) && e.spec_kind() == BackendKind::V8),
            *rt == RuntimeType::Wamr ==> (r matches Ok(e) && e.spec_kind() == BackendKind::Wamr),
            *rt == RuntimeType::Wasmi ==> (r matches Ok(e) && e.spec_kind() == BackendKind::Wasmi),
            !(*rt == RuntimeType::V8 || *rt == RuntimeType::Wamr || *rt == RuntimeType::Wasmi)
                ==> (r matches Ok(e) && e.spec_kind() == BackendKind::Sys),
    {
        match *rt {
            RuntimeType::V8 => Ok(Engine(RuntimeEngine::V8(crate::v8::Engine::new()))),
            RuntimeType::Wamr => Ok(Engine(RuntimeEngine::Wamr(crate::wamr::Engine::new()))),
            RuntimeType::Wasmi => Ok(Engine(RuntimeEngine::Wasmi(crate::wasmi::Engine::new()))),
            _ => self.get_compiler_engine_for_target(target),
        }
    }

    /// The engine for a target under the runtime the flags select.
    pub fn get_engine_for_target(&self, target: &Target) -> (r: Result<Engine, ConfigError>)
        ensures
            r matches Ok(e) && e.spec_kind() == spec_backend_of_rt(self.spec_rt()),
    {
        let rt = match self.get_rt() {
            Ok(rt) => rt,
            Err(e) => {
                return Err(e);
            },
        };
        self.get_engine_for_target_and_rt(target, &rt)
    }

    /// The engine the flags select, for the host target.
    pub fn get_engine(&self) -> (r: Result<Engine, ConfigError>)
        ensures
            r matches Ok(e) && e.spec_kind() == spec_backend_of_rt(self.spec_rt()),
    {
        let target = Target {  };
        self.get_engine_for_target(&target)
    }

    /// A store for a given target: pick the runtime, build its engine,
    /// and create the store under a fresh identity.
    pub fn get_store_for_target(&self, target: &Target, ids: &mut StoreIdSource) -> (r: Result<
        Store,
        ConfigError,
    >)
        requires
            old(ids).next_id() < u64::MAX,
        ensures
            r matches Ok(s) && s.wf() && s.spec_backend() == spec_backend_of_rt(self.spec_rt())
                && s.spec_id() == crate::handle::StoreId(old(ids).next_id()),
            final(ids).next_id() == old(ids).next_id() + 1,
    {
        let rt = match self.get_rt() {
            Ok(rt) => rt,
            Err(e) => {
                return Err(e);
            },
        };
        let engine = match self.get_engine_for_target_and_rt(target, &rt) {
            Ok(e) => e,
            Err(e) => {
                return Err(e);
            },
        };
        Ok(Store::new(engine, ids))
    }

    /// A store for the host target.
    pub fn get_store(&self, ids: &mut StoreIdSource) -> (r: Result<Store, ConfigError>)
        requires
            old(ids).next_id() < u64::MAX,
        ensures
            r matches Ok(s) && s.wf() && s.spec_backend() == spec_backend_of_rt(self.spec_rt())
                && s.spec_id() == crate::handle::StoreId(old(ids).next_id()),
            final(ids).next_id() == old(ids).next_id() + 1,
    {
        let target = Target {  };
        self.get_store_for_target(&target, ids)
    }
}

/// The backend a picked runtime runs on: the three compilers share the
/// native backend, each alternative runtime is a backend of its own,
/// and the headless engine loads into the native backend too.
pub open spec fn spec_backend_of_rt(rt: RuntimeType) -> BackendKind {
    match rt {
        RuntimeType::Singlepass => BackendKind::Sys,
        RuntimeType::Cranelift => BackendKind::Sys,
        RuntimeType::LLVM => BackendKind::Sys,
        RuntimeType::V8 => BackendKind::V8,
        RuntimeType::Wamr => BackendKind::Wamr,
        RuntimeType::Wasmi => BackendKind::Wasmi,
        RuntimeType::Headless => BackendKind::Sys,
    }
}

} // verus!

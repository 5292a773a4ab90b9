//! A memory-safe layer over a native, stateful disassembly engine.
//!
//! The engine itself is reached by the application through its C interface;
//! this library holds everything that can be decided without it: bounded
//! views over fixed-capacity arrays, the architecture-tagged instruction
//! detail, the owning instruction result set, the engine handle's
//! bookkeeping and the configuration builder's commit protocol.
#![allow(non_camel_case_types)]
#![allow(non_upper_case_globals)]

pub mod arch;
pub mod bounded;
pub mod builder;
pub mod consts;
pub mod engine;
pub mod insn;
pub mod pointer_iter;
pub mod text;

pub use arch::{
    cs_arm, cs_arm64, cs_mips, cs_ppc, cs_sparc, cs_sysz, cs_x86, cs_xcore, ArchDetail, Operand,
};
pub use bounded::BoundedArray;
pub use builder::{BuildSession, BuildStep, Builder, EngineOption, SkipdataConfig};
pub use consts::{cs_arch, cs_err, cs_mode, cs_opt_type, cs_opt_value, csh, CsResult};
pub use engine::{Capstone, Instructions};
pub use insn::{cs_detail, cs_insn};
pub use pointer_iter::PointerIter;

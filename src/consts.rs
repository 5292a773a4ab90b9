use vstd::prelude::*;

verus! {

/// An architecture identifier.
pub type cs_arch = u32;

/// A mode identifier; modes are bit flags combined per architecture.
pub type cs_mode = u32;

/// An engine error code; zero means success.
pub type cs_err = u32;

/// The kind of an engine option.
pub type cs_opt_type = u32;

/// The value of an engine option.
pub type cs_opt_value = u32;

/// The opaque token that identifies one engine context.
pub type csh = usize;

/// Either a value or the engine's error code.
pub type CsResult<T> = Result<T, cs_err>;

pub const CS_ARCH_ARM: cs_arch = 0;
pub const CS_ARCH_ARM64: cs_arch = 1;
pub const CS_ARCH_MIPS: cs_arch = 2;
pub const CS_ARCH_X86: cs_arch = 3;
pub const CS_ARCH_PPC: cs_arch = 4;
pub const CS_ARCH_SPARC: cs_arch = 5;
pub const CS_ARCH_SYSZ: cs_arch = 6;
pub const CS_ARCH_XCORE: cs_arch = 7;
pub const CS_ARCH_MAX: cs_arch = 8;
pub const CS_ARCH_ALL: cs_arch = 0xFFFF;

pub const CS_MODE_LITTLE_ENDIAN: cs_mode = 0;
pub const CS_MODE_ARM: cs_mode = 0;
pub const CS_MODE_16: cs_mode = 2;
pub const CS_MODE_32: cs_mode = 4;
pub const CS_MODE_64: cs_mode = 8;
pub const CS_MODE_THUMB: cs_mode = 16;
pub const CS_MODE_MCLASS: cs_mode = 32;
pub const CS_MODE_V8: cs_mode = 64;
pub const CS_MODE_MICRO: cs_mode = 16;
pub const CS_MODE_MIPS3: cs_mode = 32;
pub const CS_MODE_MIPS32R6: cs_mode = 64;
pub const CS_MODE_MIPSGP64: cs_mode = 128;
pub const CS_MODE_V9: cs_mode = 16;
pub const CS_MODE_BIG_ENDIAN: cs_mode = 0x8000_0000;
pub const CS_MODE_MIPS32: cs_mode = 4;
pub const CS_MODE_MIPS64: cs_mode = 8;

pub const CS_OPT_SYNTAX: cs_opt_type = 1;
pub const CS_OPT_DETAIL: cs_opt_type = 2;
pub const CS_OPT_MODE: cs_opt_type = 3;
pub const CS_OPT_MEM: cs_opt_type = 4;
pub const CS_OPT_SKIPDATA: cs_opt_type = 5;
pub const CS_OPT_SKIPDATA_SETUP: cs_opt_type = 6;

pub const CS_OPT_OFF: cs_opt_value = 0;
pub const CS_OPT_ON: cs_opt_value = 3;
pub const CS_OPT_SYNTAX_DEFAULT: cs_opt_value = 0;
pub const CS_OPT_SYNTAX_INTEL: cs_opt_value = 1;
pub const CS_OPT_SYNTAX_ATT: cs_opt_value = 2;
pub const CS_OPT_SYNTAX_NOREGNAME: cs_opt_value = 3;

pub const CS_ERR_OK: cs_err = 0;
pub const CS_ERR_MEM: cs_err = 1;
pub const CS_ERR_ARCH: cs_err = 2;
pub const CS_ERR_HANDLE: cs_err = 3;
pub const CS_ERR_CSH: cs_err = 4;
pub const CS_ERR_MODE: cs_err = 5;
pub const CS_ERR_OPTION: cs_err = 6;
pub const CS_ERR_DETAIL: cs_err = 7;
pub const CS_ERR_MEMSETUP: cs_err = 8;
pub const CS_ERR_VERSION: cs_err = 9;
pub const CS_ERR_DIET: cs_err = 10;
pub const CS_ERR_SKIPDATA: cs_err = 11;
pub const CS_ERR_X86_ATT: cs_err = 12;
pub const CS_ERR_X86_INTEL: cs_err = 13;

} // verus!

//! System call interface: the saved registers and the decoded requests.
pub mod x64;

use vstd::prelude::*;

verus! {

/// The registers that the system call entry saves.
#[derive(Debug, Clone, Copy, PartialEq, Eq, Structural)]
pub struct Registers {
    pub r15: u64,
    pub r14: u64,
    pub r13: u64,
    pub r12: u64,
    pub rbp: u64,
    pub rbx: u64,
    pub rfl: u64,
    pub rsp: u64,
}

/// The severity of a kernel log request.
#[derive(Debug, Clone, Copy, PartialEq, Eq, Structural)]
pub enum LogLevel {
    Error,
    Warn,
    Info,
    Debug,
    Trace,
}

/// A decoded system call.
#[derive(Debug, Clone, Copy, PartialEq, Eq, Structural)]
pub enum SyscallScheme {
    /// The vector names no system call.
    UnhandledVector(u64),
    /// Log the `str_len` bytes at `str_ptr` at `level`.
    Klog { level: LogLevel, str_ptr: u64, str_len: u64 },
}

/// The system call vectors the kernel serves: a kernel log request at each
/// of four levels.
#[derive(Debug, Clone, Copy, PartialEq, Eq, Structural)]
pub enum SyscallVector {
    KlogInfo,
    KlogError,
    KlogDebug,
    KlogTrace,
}

/// The level a log vector asks for.
pub open spec fn spec_klog_level(vector: SyscallVector) -> LogLevel {
    match vector {
        SyscallVector::KlogInfo => LogLevel::Info,
        SyscallVector::KlogError => LogLevel::Error,
        SyscallVector::KlogDebug => LogLevel::Debug,
        SyscallVector::KlogTrace => LogLevel::Trace,
    }
}

/// Decodes a system call: `vector` is the raw vector, and `decoded` what it
/// names, or `None` where it names no system call the kernel serves. A log
/// request takes the string's address from the first argument and its
/// length from the second; an unknown vector is reported as it came.
pub fn sanitize(vector: u64, decoded: Option<SyscallVector>, arg0: u64, arg1: u64) -> (r:
    SyscallScheme)
    ensures
        r == match decoded {
            Some(kind) => SyscallScheme::Klog {
                level: spec_klog_level(kind),
                str_ptr: arg0,
                str_len: arg1,
            },
            None => SyscallScheme::UnhandledVector(vector),
        },
{
    match decoded {
        Some(SyscallVector::KlogInfo) => SyscallScheme::Klog {
            level: LogLevel::Info,
            str_ptr: arg0,
            str_len: arg1,
        },
        Some(SyscallVector::KlogError) => SyscallScheme::Klog {
            level: LogLevel::Error,
            str_ptr: arg0,
            str_len: arg1,
        },
        Some(SyscallVector::KlogDebug) => SyscallScheme::Klog {
            level: LogLevel::Debug,
            str_ptr: arg0,
            str_len: arg1,
        },
        Some(SyscallVector::KlogTrace) => SyscallScheme::Klog {
            level: LogLevel::Trace,
            str_ptr: arg0,
            str_len: arg1,
        },
        None => SyscallScheme::UnhandledVector(vector),
    }
}

} // verus!

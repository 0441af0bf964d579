use vstd::prelude::*;

verus! {

/// The failure kinds a host operation can report back to the interpreter.
///
/// Two tiers live side by side here: contract-level failures (a storage read
/// failed, gas ran out, memory was addressed out of bounds, ...) that untrusted
/// bytecode can trigger, and host-invariant failures (`InvalidGasState`) that
/// signal the host's own bookkeeping is broken.
#[derive(Debug, Clone, PartialEq)]
pub enum Error {
    /// Storage read error
    StorageReadError,
    /// Storage update error
    StorageUpdateError,
    /// Memory access violation
    MemoryAccessViolation,
    /// Native code resulted in suicide
    Suicide,
    /// Suicide was requested but couldn't complete
    SuicideAbort,
    /// Invalid gas state inside interpreter
    InvalidGasState,
    /// Query of the balance resulted in an error
    BalanceQueryError,
    /// Failed allocation
    AllocationFailed,
    /// Gas limit reached
    GasLimit,
    /// Unknown runtime function
    Unknown,
    /// Passed string had invalid utf-8 encoding
    BadUtf8,
    /// Log event error
    Log,
    /// Other error in native code
    Other,
    /// Syscall signature mismatch
    InvalidSyscall,
    /// Panic with message
    Panic(String),
}

/// The classes of fault the interpreter can hand back to this layer.
/// Embedders classify the interpreter's native error into one of these
/// before converting it to an [`Error`].
#[derive(Debug, Clone, Copy, PartialEq, Eq, Structural)]
pub enum InterpreterFault {
    /// The module failed validation.
    Validation,
    /// Module instantiation failed.
    Instantiation,
    /// A function-level fault.
    Function,
    /// A table access fault.
    Table,
    /// A fault in the memory subsystem.
    Memory,
    /// A global-variable fault.
    Global,
    /// An argument had the wrong shape (arity or type mismatch).
    Value,
    /// Execution trapped.
    Trap,
    /// A host-level fault.
    Host,
}

impl vstd::std_specs::convert::FromSpecImpl<InterpreterFault> for Error {
    open spec fn obeys_from_spec() -> bool {
        true
    }

    open spec fn from_spec(fault: InterpreterFault) -> Error {
        match fault {
            InterpreterFault::Value => Error::InvalidSyscall,
            InterpreterFault::Memory => Error::MemoryAccessViolation,
            _ => Error::Other,
        }
    }
}

impl From<InterpreterFault> for Error {
    /// Total conversion from interpreter faults: an argument-shape mismatch
    /// becomes `InvalidSyscall`, a memory-subsystem fault becomes
    /// `MemoryAccessViolation`, and every other fault becomes `Other`.
    fn from(fault: InterpreterFault) -> Error {
        match fault {
            InterpreterFault::Value => Error::InvalidSyscall,
            InterpreterFault::Memory => Error::MemoryAccessViolation,
            _ => Error::Other,
        }
    }
}

impl Error {
    /// A human-readable description of the failure kind.
    pub fn message(&self) -> (r: String)
        ensures
            self == Error::StorageReadError ==> r@ == "Storage read error"@,
            self == Error::StorageUpdateError ==> r@ == "Storage update error"@,
            self == Error::MemoryAccessViolation ==> r@ == "Memory access violation"@,
            self == Error::SuicideAbort ==> r@ == "Attempt to suicide resulted in an error"@,
            self == Error::InvalidGasState ==> r@ == "Invalid gas state"@,
            self == Error::BalanceQueryError ==> r@ == "Balance query resulted in an error"@,
            self == Error::Suicide ==> r@ == "Suicide result"@,
            self == Error::Unknown ==> r@ == "Unknown runtime function invoked"@,
            self == Error::AllocationFailed ==> r@ == "Memory allocation failed (OOM)"@,
            self == Error::BadUtf8 ==> r@ == "String encoding is bad utf-8 sequence"@,
            self == Error::GasLimit ==> r@ == "Invocation resulted in gas limit violated"@,
            self == Error::Log ==> r@ == "Error occured while logging an event"@,
            self == Error::InvalidSyscall ==> r@ == "Invalid syscall signature encountered at runtime"@,
            self == Error::Other ==> r@ == "Other unspecified error"@,
            self matches Error::Panic(msg) ==> r@ == "Panic: "@ + msg@,
    {
        match self {
            Error::StorageReadError => String::from_str("Storage read error"),
            Error::StorageUpdateError => String::from_str("Storage update error"),
            Error::MemoryAccessViolation => String::from_str("Memory access violation"),
            Error::SuicideAbort => String::from_str("Attempt to suicide resulted in an error"),
            Error::InvalidGasState => String::from_str("Invalid gas state"),
            Error::BalanceQueryError => String::from_str("Balance query resulted in an error"),
            Error::Suicide => String::from_str("Suicide result"),
            Error::Unknown => String::from_str("Unknown runtime function invoked"),
            Error::AllocationFailed => String::from_str("Memory allocation failed (OOM)"),
            Error::BadUtf8 => String::from_str("String encoding is bad utf-8 sequence"),
            Error::GasLimit => String::from_str("Invocation resulted in gas limit violated"),
            Error::Log => String::from_str("Error occured while logging an event"),
            Error::InvalidSyscall => String::from_str("Invalid syscall signature encountered at runtime"),
            Error::Other => String::from_str("Other unspecified error"),
            Error::Panic(msg) => String::from_str("Panic: ").concat(msg.as_str()),
        }
    }
}

} // verus!

use wasm_runtime::error::{Error, InterpreterFault};

#[test]
fn fault_conversion_is_total_and_exact() {
    assert_eq!(Error::from(InterpreterFault::Value), Error::InvalidSyscall);
    assert_eq!(
        Error::from(InterpreterFault::Memory),
        Error::MemoryAccessViolation
    );
    assert_eq!(Error::from(InterpreterFault::Validation), Error::Other);
    assert_eq!(Error::from(InterpreterFault::Instantiation), Error::Other);
    assert_eq!(Error::from(InterpreterFault::Function), Error::Other);
    assert_eq!(Error::from(InterpreterFault::Table), Error::Other);
    assert_eq!(Error::from(InterpreterFault::Global), Error::Other);
    assert_eq!(Error::from(InterpreterFault::Trap), Error::Other);
    assert_eq!(Error::from(InterpreterFault::Host), Error::Other);
}

#[test]
fn messages_describe_each_kind() {
    assert_eq!(Error::StorageReadError.message(), "Storage read error");
    assert_eq!(Error::GasLimit.message(), "Invocation resulted in gas limit violated");
    assert_eq!(Error::MemoryAccessViolation.message(), "Memory access violation");
    assert_eq!(Error::InvalidGasState.message(), "Invalid gas state");
    assert_eq!(Error::Unknown.message(), "Unknown runtime function invoked");
    assert_eq!(
        Error::InvalidSyscall.message(),
        "Invalid syscall signature encountered at runtime"
    );
    assert_eq!(Error::Panic("boom".to_string()).message(), "Panic: boom");
}

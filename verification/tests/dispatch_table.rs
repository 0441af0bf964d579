use wasm_runtime::dispatch::{
    DispatchError, RuntimeArgs, RuntimeValue, GAS_FUNC, RET_FUNC, STORAGE_READ_FUNC,
};
use wasm_runtime::error::Error;
use wasm_runtime::ext::{MapExt, Schedule};
use wasm_runtime::memory::LinearMemory;
use wasm_runtime::runtime::Runtime;
use wasm_runtime::types::{Address, RuntimeContext, U256};

fn runtime(ceiling: u64, sload_gas: u64) -> Runtime<MapExt> {
    let ext = MapExt::new(Schedule { sload_gas }, false);
    let memory = LinearMemory::create(1).unwrap();
    let context = RuntimeContext {
        address: Address::zero(),
        sender: Address::zero(),
        origin: Address::zero(),
        code_address: Address::zero(),
        value: U256::zero(),
    };
    Runtime::with_params(ext, memory, ceiling, Vec::new(), context)
}

#[test]
fn dispatch_routes_each_registered_index() {
    let mut rt = runtime(1000, 200);

    let gas_args = vec![RuntimeValue::I32(50)];
    let r = rt.invoke_index(GAS_FUNC, RuntimeArgs { values: &gas_args });
    assert_eq!(r, Ok(None));
    assert_eq!(rt.gas_left(), Ok(950));

    rt.memory.write_bytes(10, &[4, 5]).unwrap();
    let ret_args = vec![RuntimeValue::I32(10), RuntimeValue::I32(2)];
    let r = rt.invoke_index(RET_FUNC, RuntimeArgs { values: &ret_args });
    assert_eq!(r, Ok(None));
    assert_eq!(rt.result().to_vec(), vec![4, 5]);

    let sr_args = vec![RuntimeValue::I32(0), RuntimeValue::I32(64)];
    let r = rt.invoke_index(STORAGE_READ_FUNC, RuntimeArgs { values: &sr_args });
    assert_eq!(r, Ok(None));
    assert_eq!(rt.gas_left(), Ok(750));
}

#[test]
fn dispatch_surfaces_host_failures_as_traps() {
    let mut rt = runtime(100, 0);
    let gas_args = vec![RuntimeValue::I32(150)];
    let r = rt.invoke_index(GAS_FUNC, RuntimeArgs { values: &gas_args });
    assert_eq!(r, Err(DispatchError::Host(Error::GasLimit)));
    assert_eq!(rt.gas_left(), Ok(100));
}

#[test]
fn unknown_index_is_fatal_and_distinct() {
    let mut rt = runtime(100, 0);
    let args = vec![RuntimeValue::I32(1)];
    let r = rt.invoke_index(9, RuntimeArgs { values: &args });
    assert_eq!(r, Err(DispatchError::UnknownIndex(9)));
    // fatal: no contract-level error kind, nothing was executed or charged
    assert!(!matches!(r, Err(DispatchError::Host(_))));
    assert_eq!(rt.gas_left(), Ok(100));
    assert!(rt.result().is_empty());
}

use vstd::prelude::*;
use crate::error::{Error, InterpreterFault};
use crate::ext::Ext;
use crate::runtime::{Runtime, gas_op_post, ret_post, storage_read_post};

verus! {

/// A value travelling between the interpreter's stack and a host function.
#[derive(Debug, Clone, Copy, PartialEq, Eq, Structural)]
pub enum RuntimeValue {
    /// A 32-bit integer.
    I32(i32),
    /// A 64-bit integer.
    I64(i64),
}

/// The raw argument list the interpreter hands a host call.
#[derive(Clone, Copy)]
pub struct RuntimeArgs<'a> {
    /// The values as they sit on the interpreter's stack.
    pub values: &'a [RuntimeValue],
}

/// The 32-bit value at argument position `i`, or nothing when the position
/// is missing or holds a value of another type.
pub open spec fn arg_u32(vals: Seq<RuntimeValue>, i: int) -> Option<u32> {
    if 0 <= i < vals.len() {
        match vals[i] {
            RuntimeValue::I32(v) => Some(v as u32),
            RuntimeValue::I64(_) => None,
        }
    } else {
        None
    }
}

impl<'a> RuntimeArgs<'a> {
    /// Decodes argument `index` as a 32-bit value. A missing argument, or
    /// one of another type, is an argument-shape mismatch and converts to
    /// `InvalidSyscall`.
    pub fn nth_u32(&self, index: usize) -> (r: Result<u32, Error>)
        ensures
            arg_u32(self.values@, index as int) matches Some(v) ==> r == Ok::<u32, Error>(v),
            arg_u32(self.values@, index as int) is None ==> r == Err::<u32, Error>(
                Error::InvalidSyscall,
            ),
    {
        if index < self.values.len() {
            match self.values[index] {
                RuntimeValue::I32(v) => Ok(v as u32),
                RuntimeValue::I64(_) => Err(Error::from(InterpreterFault::Value)),
            }
        } else {
            Err(Error::from(InterpreterFault::Value))
        }
    }
}

/// Import index the interpreter resolves for the storage-read function.
pub const STORAGE_READ_FUNC: usize = 0;

/// Import index the interpreter resolves for the return function.
pub const RET_FUNC: usize = 1;

/// Import index the interpreter resolves for the gas-report function.
pub const GAS_FUNC: usize = 2;

/// How a dispatched host call fails: either a contract-level error the
/// interpreter surfaces to bytecode as a deterministic trap, or the fatal
/// discovery that no operation is registered at the invoked index.
#[derive(Debug, Clone, PartialEq)]
pub enum DispatchError {
    /// A host operation reported a contract-level failure.
    Host(Error),
    /// No operation is registered at this index: the dispatch table and the
    /// interpreter's resolved imports have come apart. This is a fatal
    /// configuration fault, distinct from every contract-level error kind;
    /// the embedder must abort the invocation rather than let bytecode
    /// continue.
    UnknownIndex(usize),
}

impl<E: Ext> Runtime<E> {
    /// Routes a host call to the operation registered at `index`: the fixed
    /// mapping the interpreter's import resolution was built against. An
    /// operation that yields no value reports success as an empty result;
    /// an unrecognized index is fatal (`UnknownIndex`), never a
    /// contract-level error.
    pub fn invoke_index(&mut self, index: usize, args: RuntimeArgs) -> (r: Result<
        Option<RuntimeValue>,
        DispatchError,
    >)
        ensures
            index == STORAGE_READ_FUNC ==> (match r {
                Ok(v) => v is None && storage_read_post(
                    *old(self),
                    *final(self),
                    args.values@,
                    Ok(()),
                ),
                Err(DispatchError::Host(e)) => storage_read_post(
                    *old(self),
                    *final(self),
                    args.values@,
                    Err(e),
                ),
                Err(DispatchError::UnknownIndex(_)) => false,
            }),
            index == RET_FUNC ==> (match r {
                Ok(v) => v is None && ret_post(*old(self), *final(self), args.values@, Ok(())),
                Err(DispatchError::Host(e)) => ret_post(
                    *old(self),
                    *final(self),
                    args.values@,
                    Err(e),
                ),
                Err(DispatchError::UnknownIndex(_)) => false,
            }),
            index == GAS_FUNC ==> (match r {
                Ok(v) => v is None && gas_op_post(*old(self), *final(self), args.values@, Ok(())),
                Err(DispatchError::Host(e)) => gas_op_post(
                    *old(self),
                    *final(self),
                    args.values@,
                    Err(e),
                ),
                Err(DispatchError::UnknownIndex(_)) => false,
            }),
            index != STORAGE_READ_FUNC && index != RET_FUNC && index != GAS_FUNC ==> r == Err::<
                Option<RuntimeValue>,
                DispatchError,
            >(DispatchError::UnknownIndex(index)) && *final(self) == *old(self),
    {
        if index == STORAGE_READ_FUNC {
            match self.storage_read(args) {
                Ok(()) => Ok(None),
                Err(e) => Err(DispatchError::Host(e)),
            }
        } else if index == RET_FUNC {
            match self.ret(args) {
                Ok(()) => Ok(None),
                Err(e) => Err(DispatchError::Host(e)),
            }
        } else if index == GAS_FUNC {
            match self.gas(args) {
                Ok(()) => Ok(None),
                Err(e) => Err(DispatchError::Host(e)),
            }
        } else {
            Err(DispatchError::UnknownIndex(index))
        }
    }
}

} // verus!

use vstd::prelude::*;
use crate::dispatch::{RuntimeArgs, arg_u32};
use crate::dispatch::RuntimeValue;
use crate::error::Error;
use crate::ext::{Ext, Schedule, stored_value};
use crate::gas::GasMeter;
use crate::memory::LinearMemory;
use crate::types::{H256, RuntimeContext};

verus! {

/// The aggregate host object serving one contract invocation: gas state, the
/// world-state environment, the interpreter's linear memory, the call-data
/// bytes and the output buffer. Created per invocation and consumed by
/// `dissolve` when execution completes.
pub struct Runtime<E: Ext> {
    /// Gas accounting for this invocation.
    pub gas: GasMeter,
    /// The world-state environment, exclusively held for the whole call.
    pub ext: E,
    /// Immutable identity data for this call.
    pub context: RuntimeContext,
    /// The interpreter's linear memory.
    pub memory: LinearMemory,
    /// The raw call-data bytes supplied by the caller.
    pub args: Vec<u8>,
    /// The output buffer; empty until `ret` fills it.
    pub result: Vec<u8>,
}

/// What the gas-report operation does: everything but the consumed counter
/// is kept; the amount decoded from the first argument is charged verbatim,
/// or `GasLimit` reported with the meter untouched.
pub open spec fn gas_op_post<E: Ext>(
    pre: Runtime<E>,
    post: Runtime<E>,
    vals: Seq<RuntimeValue>,
    r: Result<(), Error>,
) -> bool {
    &&& post.ext == pre.ext
    &&& post.context == pre.context
    &&& post.memory@ == pre.memory@
    &&& post.args@ == pre.args@
    &&& post.result@ == pre.result@
    &&& post.gas.ceiling == pre.gas.ceiling
    &&& match arg_u32(vals, 0) {
        None => r == Err::<(), Error>(Error::InvalidSyscall) && post.gas == pre.gas,
        Some(amount) => {
            if pre.gas.consumed + amount <= pre.gas.ceiling {
                r == Ok::<(), Error>(()) && post.gas.consumed == pre.gas.consumed + amount
            } else {
                r == Err::<(), Error>(Error::GasLimit) && post.gas == pre.gas
            }
        },
    }
}

/// What the return operation does: the `len` bytes found at `ptr` at call
/// time replace the result buffer wholesale (a second call overwrites, never
/// appends); everything else is kept. An out-of-bounds range is a memory
/// access violation that leaves the buffer as it was.
pub open spec fn ret_post<E: Ext>(
    pre: Runtime<E>,
    post: Runtime<E>,
    vals: Seq<RuntimeValue>,
    r: Result<(), Error>,
) -> bool {
    &&& post.ext == pre.ext
    &&& post.context == pre.context
    &&& post.memory@ == pre.memory@
    &&& post.args@ == pre.args@
    &&& post.gas == pre.gas
    &&& match arg_u32(vals, 0) {
        None => r == Err::<(), Error>(Error::InvalidSyscall) && post.result@ == pre.result@,
        Some(ptr) => match arg_u32(vals, 1) {
            None => r == Err::<(), Error>(Error::InvalidSyscall) && post.result@ == pre.result@,
            Some(len) => {
                if ptr + len <= pre.memory@.len() {
                    r == Ok::<(), Error>(()) && post.result@ == pre.memory@.subrange(
                        ptr as int,
                        ptr + len,
                    )
                } else {
                    r == Err::<(), Error>(Error::MemoryAccessViolation) && post.result@
                        == pre.result@
                }
            },
        },
    }
}

/// What the storage-read operation does, step by step in the protocol's
/// order: read a 32-byte key at `key_ptr`, query the environment, charge the
/// schedule's storage-load price, then write the value at `val_ptr`. The
/// only outcome left open is the environment's own right to fail the read
/// (`StorageReadError`, with nothing changed); every other branch is pinned:
/// a bad argument is `InvalidSyscall`, an out-of-bounds key read is a
/// violation with nothing changed, exhausted gas is `GasLimit` with nothing
/// changed, and an out-of-bounds value write is a violation reported after
/// the price was already charged (the read was performed and priced).
pub open spec fn storage_read_post<E: Ext>(
    pre: Runtime<E>,
    post: Runtime<E>,
    vals: Seq<RuntimeValue>,
    r: Result<(), Error>,
) -> bool {
    let sload = pre.ext.schedule_view().sload_gas;
    &&& post.ext.storage_view() == pre.ext.storage_view()
    &&& post.ext.schedule_view() == pre.ext.schedule_view()
    &&& post.context == pre.context
    &&& post.args@ == pre.args@
    &&& post.result@ == pre.result@
    &&& post.gas.ceiling == pre.gas.ceiling
    &&& match arg_u32(vals, 0) {
        None => r == Err::<(), Error>(Error::InvalidSyscall) && post.memory@ == pre.memory@
            && post.gas == pre.gas,
        Some(key_ptr) => {
            if key_ptr + 32 > pre.memory@.len() {
                r == Err::<(), Error>(Error::MemoryAccessViolation) && post.memory@ == pre.memory@
                    && post.gas == pre.gas
            } else {
                match arg_u32(vals, 1) {
                    None => r == Err::<(), Error>(Error::InvalidSyscall) && post.memory@
                        == pre.memory@ && post.gas == pre.gas,
                    Some(val_ptr) => {
                        let key = pre.memory@.subrange(key_ptr as int, key_ptr + 32);
                        let value = stored_value(pre.ext.storage_view(), key);
                        if r == Err::<(), Error>(Error::StorageReadError) {
                            post.memory@ == pre.memory@ && post.gas == pre.gas
                        } else if pre.gas.consumed + sload > pre.gas.ceiling {
                            r == Err::<(), Error>(Error::GasLimit) && post.memory@ == pre.memory@
                                && post.gas == pre.gas
                        } else if val_ptr + value.len() <= pre.memory@.len() {
                            r == Ok::<(), Error>(()) && value.len() == 32 && post.gas.consumed
                                == pre.gas.consumed + sload && post.memory@ == pre.memory@.subrange(
                                0,
                                val_ptr as int,
                            ) + value + pre.memory@.subrange(
                                val_ptr + value.len(),
                                pre.memory@.len() as int,
                            )
                        } else {
                            r == Err::<(), Error>(Error::MemoryAccessViolation)
                                && post.gas.consumed == pre.gas.consumed + sload && post.memory@
                                == pre.memory@
                        }
                    },
                }
            }
        },
    }
}

/// A successful return operation fills the result buffer with exactly the
/// `len` bytes found at `ptr` at call time — so a read-only view taken
/// afterwards shows those bytes and nothing else.
pub proof fn lemma_ret_fills_result<E: Ext>(
    pre: Runtime<E>,
    post: Runtime<E>,
    vals: Seq<RuntimeValue>,
    ptr: u32,
    len: u32,
)
    requires
        ret_post(pre, post, vals, Ok(())),
        arg_u32(vals, 0) == Some(ptr),
        arg_u32(vals, 1) == Some(len),
    ensures
        ptr + len <= pre.memory@.len(),
        post.result@ == pre.memory@.subrange(ptr as int, ptr + len),
{
}

/// A second successful return operation overwrites the buffer rather than
/// appending: afterwards the buffer holds exactly what the second call's
/// arguments name, whatever the first call left there.
pub proof fn lemma_second_ret_overwrites<E: Ext>(
    pre: Runtime<E>,
    mid: Runtime<E>,
    post: Runtime<E>,
    vals1: Seq<RuntimeValue>,
    vals2: Seq<RuntimeValue>,
    ptr2: u32,
    len2: u32,
)
    requires
        ret_post(pre, mid, vals1, Ok(())),
        ret_post(mid, post, vals2, Ok(())),
        arg_u32(vals2, 0) == Some(ptr2),
        arg_u32(vals2, 1) == Some(len2),
    ensures
        ptr2 + len2 <= pre.memory@.len(),
        post.result@ == pre.memory@.subrange(ptr2 as int, ptr2 + len2),
{
}

impl<E: Ext> Runtime<E> {
    /// A new runtime for one contract invocation with the given parameters:
    /// nothing consumed, nothing returned yet.
    pub fn with_params(
        ext: E,
        memory: LinearMemory,
        gas_limit: u64,
        args: Vec<u8>,
        context: RuntimeContext,
    ) -> (r: Runtime<E>)
        ensures
            r.gas.consumed == 0,
            r.gas.ceiling == gas_limit,
            r.ext == ext,
            r.memory@ == memory@,
            r.args@ == args@,
            r.result@ == Seq::<u8>::empty(),
            r.context == context,
    {
        Runtime {
            gas: GasMeter::new(gas_limit),
            ext,
            context,
            memory,
            args,
            result: Vec::new(),
        }
    }

    /// Reads the 32-byte hash found in linear memory at `ptr`.
    fn h256_at(&self, ptr: u32) -> (r: Result<H256, Error>)
        ensures
            ptr + 32 <= self.memory@.len() ==> (r matches Ok(h) && h@ == self.memory@.subrange(
                ptr as int,
                ptr + 32,
            )),
            ptr + 32 > self.memory@.len() ==> r == Err::<H256, Error>(
                Error::MemoryAccessViolation,
            ),
    {
        self.memory.read_fixed_hash(ptr)
    }

    /// Attempts to add `amount` to the consumed counter; on failure the
    /// meter — and everything else — is unchanged.
    fn charge_gas(&mut self, amount: u64) -> (r: bool)
        ensures
            r == (old(self).gas.consumed + amount <= old(self).gas.ceiling),
            r ==> final(self).gas.consumed == old(self).gas.consumed + amount,
            !r ==> final(self).gas == old(self).gas,
            final(self).gas.ceiling == old(self).gas.ceiling,
            final(self).ext == old(self).ext,
            final(self).memory@ == old(self).memory@,
            final(self).args@ == old(self).args@,
            final(self).result@ == old(self).result@,
            final(self).context == old(self).context,
    {
        self.gas.charge_gas(amount)
    }

    /// Charges gas according to a pricing function evaluated against the
    /// current fee schedule. The price is computed first — even when the
    /// charge then fails with `GasLimit` and leaves the meter unchanged.
    pub fn charge<F: FnOnce(&Schedule) -> u64>(&mut self, f: F) -> (r: Result<(), Error>)
        requires
            forall|s: &Schedule| #[trigger] call_requires(f, (s,)),
        ensures
            final(self).ext == old(self).ext,
            final(self).context == old(self).context,
            final(self).memory@ == old(self).memory@,
            final(self).args@ == old(self).args@,
            final(self).result@ == old(self).result@,
            final(self).gas.ceiling == old(self).gas.ceiling,
            r is Ok ==> exists|amount: u64|
                {
                    &&& #[trigger] call_ensures(f, (&old(self).ext.schedule_view(),), amount)
                    &&& old(self).gas.consumed + amount <= old(self).gas.ceiling
                    &&& final(self).gas.consumed == old(self).gas.consumed + amount
                },
            r is Err ==> r == Err::<(), Error>(Error::GasLimit) && final(self).gas == old(
                self,
            ).gas && exists|amount: u64|
                {
                    &&& #[trigger] call_ensures(f, (&old(self).ext.schedule_view(),), amount)
                    &&& old(self).gas.consumed + amount > old(self).gas.ceiling
                },
    {
        let sched = self.ext.schedule();
        let amount = f(&sched);
        if !self.charge_gas(amount) {
            Err(Error::GasLimit)
        } else {
            Ok(())
        }
    }

    /// Reads a 32-byte key at the first argument's pointer, queries the
    /// environment's storage, charges the storage-load price, and writes the
    /// value into memory at the second argument's pointer — in exactly that
    /// order, which prices the read after performing it.
    pub fn storage_read(&mut self, args: RuntimeArgs) -> (r: Result<(), Error>)
        ensures
            storage_read_post(*old(self), *final(self), args.values@, r),
    {
        let key_ptr = args.nth_u32(0)?;
        let key = self.h256_at(key_ptr)?;
        let val_ptr = args.nth_u32(1)?;
        let value = match self.ext.storage_at(&key) {
            Ok(v) => v,
            Err(_) => {
                return Err(Error::StorageReadError);
            },
        };
        let price = |schedule: &Schedule| -> (a: u64)
            ensures
                a == schedule.sload_gas,
            {
                schedule.sload_gas
            };
        self.charge(price)?;
        self.memory.write_bytes(val_ptr, value.as_slice())?;
        Ok(())
    }

    /// The active fee schedule, read from the environment.
    pub fn schedule(&self) -> (r: Schedule)
        ensures
            r == self.ext.schedule_view(),
    {
        self.ext.schedule()
    }

    /// Copies `len` bytes from memory at `ptr` into the result buffer,
    /// replacing any earlier content: the sole way bytecode produces output.
    pub fn ret(&mut self, args: RuntimeArgs) -> (r: Result<(), Error>)
        ensures
            ret_post(*old(self), *final(self), args.values@, r),
    {
        let ptr = args.nth_u32(0)?;
        let len = args.nth_u32(1)?;
        let data = self.memory.read_bytes(ptr, len)?;
        self.result = data;
        Ok(())
    }

    /// A read-only view of the current result buffer.
    pub fn result(&self) -> (r: &[u8])
        ensures
            r@ == self.result@,
    {
        self.result.as_slice()
    }

    /// Consumes the runtime, yielding ownership of the result buffer to the
    /// caller: the terminal operation of the lifecycle.
    pub fn dissolve(self) -> (r: Vec<u8>)
        ensures
            r@ == self.result@,
    {
        self.result
    }

    /// The gas still available for execution; `InvalidGasState` signals that
    /// the host's own bookkeeping is broken (consumed ran past the ceiling).
    pub fn gas_left(&self) -> (r: Result<u64, Error>)
        ensures
            r is Ok <==> self.gas.consumed <= self.gas.ceiling,
            r matches Ok(g) ==> g == self.gas.ceiling - self.gas.consumed,
            r matches Err(e) ==> e == Error::InvalidGasState,
    {
        self.gas.gas_left()
    }

    /// Charges the amount passed on the wasm stack verbatim, so compiled
    /// code can report its own costs; fails with `GasLimit` on exhaustion.
    pub fn gas(&mut self, args: RuntimeArgs) -> (r: Result<(), Error>)
        ensures
            gas_op_post(*old(self), *final(self), args.values@, r),
    {
        let amount = args.nth_u32(0)?;
        if self.charge_gas(amount as u64) {
            Ok(())
        } else {
            Err(Error::GasLimit)
        }
    }
}

} // verus!

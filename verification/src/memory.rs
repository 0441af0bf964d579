use vstd::prelude::*;
use crate::error::Error;
use crate::types::H256;

verus! {

#[verifier::external_type_specification]
#[verifier::external_body]
#[verifier::reject_recursive_types(T)]
pub struct ExStore<T>(wasmi::Store<T>);

#[verifier::external_type_specification]
#[verifier::external_body]
pub struct ExMemory(wasmi::Memory);

#[verifier::external_type_specification]
#[verifier::external_body]
pub struct ExMemoryError(wasmi::errors::MemoryError);

/// The bytes held by the linear memory `mem` that lives in `store`.
pub uninterp spec fn mem_bytes(store: wasmi::Store<()>, mem: wasmi::Memory) -> Seq<u8>;

/// The interpreter's linear memory: a flat, bounds-checked, byte-addressable
/// region. Every pointer handed to a host operation is resolved through this
/// bridge and never dereferenced raw, because pointer values originate from
/// untrusted bytecode.
///
/// The store and the memory handle are created together by [`LinearMemory::create`],
/// so the handle is always owned by the store it is resolved against.
pub struct LinearMemory {
    store: wasmi::Store<()>,
    mem: wasmi::Memory,
}

impl View for LinearMemory {
    type V = Seq<u8>;

    closed spec fn view(&self) -> Seq<u8> {
        mem_bytes(self.store, self.mem)
    }
}

impl LinearMemory {
    /// Relies on wasmi's `Engine`, `Store::new`, `MemoryType::new` and
    /// `Memory::new`: allocates a fresh linear memory of `pages` 64 KiB
    /// pages, zero-filled, in a store of its own. `MemoryType::new` panics
    /// above 65536 pages (the 32-bit wasm limit), so larger requests are
    /// excluded; a failed allocation is reported as `AllocationFailed`.
    #[verifier::external_body]
    pub fn create(pages: u32) -> (r: Result<LinearMemory, Error>)
        requires
            pages <= 65536,
        ensures
            r matches Ok(m) ==> m@ == Seq::new(pages as nat * 65536, |i: int| 0u8),
    {
        let engine = wasmi::Engine::default();
        let mut store = wasmi::Store::new(&engine, ());
        let ty = wasmi::MemoryType::new(pages, None);
        match wasmi::Memory::new(&mut store, ty) {
            Ok(mem) => Ok(LinearMemory { store, mem }),
            Err(_) => Err(Error::AllocationFailed),
        }
    }

    /// Relies on wasmi's `Memory::read`: fills a buffer from
    /// `memory[offset..offset + len]` and succeeds exactly when that range
    /// lies within the memory's bounds, failing with a memory error
    /// otherwise (out-of-range reads touch nothing).
    #[verifier::external_body]
    fn read_raw(&self, offset: u32, len: u32) -> (r: Result<Vec<u8>, wasmi::errors::MemoryError>)
        ensures
            r matches Ok(v) ==> offset + len <= mem_bytes(self.store, self.mem).len()
                && v@ == mem_bytes(self.store, self.mem).subrange(offset as int, offset + len),
            r is Err ==> offset + len > mem_bytes(self.store, self.mem).len(),
    {
        let mut buf = vec![0u8; len as usize];
        match self.mem.read(&self.store, offset as usize, &mut buf) {
            Ok(()) => Ok(buf),
            Err(e) => Err(e),
        }
    }

    /// Relies on wasmi's `Memory::write`: copies `data` to
    /// `memory[offset..offset + data.len()]` and succeeds exactly when that
    /// range lies within the memory's bounds; on failure the memory is left
    /// untouched (no partial write, no write past the bound).
    #[verifier::external_body]
    fn write_raw(&mut self, offset: u32, data: &[u8]) -> (r: Result<(), wasmi::errors::MemoryError>)
        ensures
            r is Ok ==> offset + data@.len() <= mem_bytes(old(self).store, old(self).mem).len()
                && mem_bytes(final(self).store, final(self).mem)
                    == mem_bytes(old(self).store, old(self).mem).subrange(0, offset as int) + data@
                        + mem_bytes(old(self).store, old(self).mem).subrange(
                            offset + data@.len(),
                            mem_bytes(old(self).store, old(self).mem).len() as int,
                        ),
            r is Err ==> offset + data@.len() > mem_bytes(old(self).store, old(self).mem).len()
                && mem_bytes(final(self).store, final(self).mem)
                    == mem_bytes(old(self).store, old(self).mem),
    {
        self.mem.write(&mut self.store, offset as usize, data)
    }

    /// Reads `len` bytes starting at `ptr`. A range that exceeds the
    /// memory's bound yields `MemoryAccessViolation` and reads nothing.
    pub fn read_bytes(&self, ptr: u32, len: u32) -> (r: Result<Vec<u8>, Error>)
        ensures
            ptr + len <= self@.len()
                ==> (r matches Ok(v) && v@ == self@.subrange(ptr as int, ptr + len)),
            ptr + len > self@.len() ==> r == Err::<Vec<u8>, Error>(Error::MemoryAccessViolation),
    {
        match self.read_raw(ptr, len) {
            Ok(v) => Ok(v),
            Err(_) => Err(Error::MemoryAccessViolation),
        }
    }

    /// Writes `bytes` starting at `ptr`. A range that exceeds the memory's
    /// bound yields `MemoryAccessViolation` and leaves the memory untouched.
    pub fn write_bytes(&mut self, ptr: u32, bytes: &[u8]) -> (r: Result<(), Error>)
        ensures
            ptr + bytes@.len() <= old(self)@.len() ==> (r == Ok::<(), Error>(()) && final(self)@
                == old(self)@.subrange(0, ptr as int) + bytes@
                    + old(self)@.subrange(ptr + bytes@.len(), old(self)@.len() as int)),
            ptr + bytes@.len() > old(self)@.len()
                ==> (r == Err::<(), Error>(Error::MemoryAccessViolation)
                    && final(self)@ == old(self)@),
    {
        match self.write_raw(ptr, bytes) {
            Ok(()) => Ok(()),
            Err(_) => Err(Error::MemoryAccessViolation),
        }
    }

    /// Reads exactly 32 bytes at `ptr` into a fixed-size hash value. Fails
    /// with `MemoryAccessViolation` when `[ptr, ptr + 32)` is out of bounds.
    pub fn read_fixed_hash(&self, ptr: u32) -> (r: Result<H256, Error>)
        ensures
            ptr + 32 <= self@.len()
                ==> (r matches Ok(h) && h@ == self@.subrange(ptr as int, ptr + 32)),
            ptr + 32 > self@.len() ==> r == Err::<H256, Error>(Error::MemoryAccessViolation),
    {
        match self.read_bytes(ptr, 32) {
            Ok(v) => {
                match H256::from_bytes(v) {
                    Some(h) => Ok(h),
                    None => Err(Error::MemoryAccessViolation),
                }
            },
            Err(e) => Err(e),
        }
    }
}

} // verus!

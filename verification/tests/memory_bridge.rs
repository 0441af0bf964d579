use wasm_runtime::error::Error;
use wasm_runtime::memory::LinearMemory;

const PAGE: u32 = 65536;

#[test]
fn fresh_memory_is_zero_filled() {
    let mem = LinearMemory::create(1).unwrap();
    let all = mem.read_bytes(0, PAGE).unwrap();
    assert_eq!(all.len(), PAGE as usize);
    assert!(all.iter().all(|b| *b == 0));
}

#[test]
fn write_then_read_round_trip() {
    let mut mem = LinearMemory::create(1).unwrap();
    mem.write_bytes(100, &[1, 2, 3]).unwrap();
    // one byte of untouched memory on each side of the written range
    assert_eq!(mem.read_bytes(99, 5).unwrap(), vec![0, 1, 2, 3, 0]);
}

#[test]
fn read_past_the_bound_is_a_violation() {
    let mem = LinearMemory::create(1).unwrap();
    assert_eq!(mem.read_bytes(PAGE - 4, 4).unwrap(), vec![0, 0, 0, 0]);
    assert_eq!(mem.read_bytes(PAGE - 3, 4), Err(Error::MemoryAccessViolation));
    assert_eq!(mem.read_bytes(PAGE, 1), Err(Error::MemoryAccessViolation));
}

#[test]
fn write_past_the_bound_touches_nothing() {
    let mut mem = LinearMemory::create(1).unwrap();
    assert_eq!(
        mem.write_bytes(PAGE - 2, &[7, 7, 7]),
        Err(Error::MemoryAccessViolation)
    );
    // the in-range prefix was not written either: no partial write
    assert_eq!(mem.read_bytes(PAGE - 3, 3).unwrap(), vec![0, 0, 0]);
}

#[test]
fn read_fixed_hash_reads_exactly_32_bytes() {
    let mut mem = LinearMemory::create(1).unwrap();
    let pattern: Vec<u8> = (0..32).map(|i| i as u8).collect();
    mem.write_bytes(8, &pattern).unwrap();
    let h = mem.read_fixed_hash(8).unwrap();
    assert_eq!(h.as_slice(), &pattern[..]);
}

#[test]
fn read_fixed_hash_out_of_bounds_is_a_violation() {
    let mem = LinearMemory::create(1).unwrap();
    assert!(mem.read_fixed_hash(PAGE - 32).is_ok());
    assert!(matches!(
        mem.read_fixed_hash(PAGE - 31),
        Err(Error::MemoryAccessViolation)
    ));
}

use vstd::prelude::*;
use crate::memory::HostError;

verus! {

/// Price of a contract-to-contract call.
pub const CALL_CONTRACT_GAS: u64 = 10;
/// Fixed part of the price of deploying or migrating a contract.
pub const CONTRACT_CREATE_GAS: u64 = 20000000;
/// Size of one priced unit of deployed code, in bytes.
pub const PER_UNIT_CODE_LEN: u64 = 1024;
/// Price of each whole unit of deployed code.
pub const UINT_DEPLOY_CODE_LEN_GAS: u64 = 200000;
/// Price of a storage read.
pub const STORAGE_GET_GAS: u64 = 200;
/// Price of each started chunk of a storage write.
pub const STORAGE_PUT_GAS: u64 = 4000;
/// Price of a storage delete.
pub const STORAGE_DELETE_GAS: u64 = 100;
/// Size of one priced chunk of a storage write, in bytes.
pub const STORAGE_CHUNK_LEN: u64 = 1024;

/// Number of started chunks in `n` bytes, at least one.
pub open spec fn storage_chunks(n: int) -> int {
    if n == 0 { 1 } else { (n + 1023) / 1024 }
}

/// Price of writing a key of `k` bytes and a value of `v` bytes.
pub open spec fn spec_storage_write_cost(k: int, v: int) -> int {
    storage_chunks(k + v) * STORAGE_PUT_GAS
}

/// Price of deploying or migrating `code_len` bytes of code: whole units only.
pub open spec fn spec_deploy_cost(code_len: int) -> int {
    CONTRACT_CREATE_GAS + (code_len / PER_UNIT_CODE_LEN as int) * UINT_DEPLOY_CODE_LEN_GAS
}

/// Gas for storing a key of `klen` bytes and a value of `vlen` bytes: each
/// started chunk of 1024 bytes is priced, and an empty pair costs one chunk.
pub fn storage_write_cost(klen: u32, vlen: u32) -> (r: u64)
    ensures
        r == spec_storage_write_cost(klen as int, vlen as int),
{
    let total: u64 = klen as u64 + vlen as u64;
    if total != 0 {
        let chunks: u64 = (total + (STORAGE_CHUNK_LEN - 1)) / STORAGE_CHUNK_LEN;
        assert(chunks <= 8388608);
        chunks * STORAGE_PUT_GAS
    } else {
        STORAGE_PUT_GAS
    }
}

/// Gas for deploying or migrating `code_len` bytes of code: a fixed price plus
/// a price per whole unit, the remainder below one unit being free.
pub fn deploy_cost(code_len: u32) -> (r: u64)
    ensures
        r == spec_deploy_cost(code_len as int),
{
    let units: u64 = code_len as u64 / PER_UNIT_CODE_LEN;
    assert(units <= 4194304);
    CONTRACT_CREATE_GAS + units * UINT_DEPLOY_CODE_LEN_GAS
}

/// Takes `amount` from the budget `gas`; when the budget does not cover it,
/// fails with `GasExhausted` and leaves the budget as it was.
pub fn charge(gas: &mut u64, amount: u64) -> (r: Result<(), HostError>)
    ensures
        r is Ok <==> amount <= *old(gas),
        r is Ok ==> *final(gas) == *old(gas) - amount,
        r is Err ==> *final(gas) == *old(gas) && r->Err_0 == HostError::GasExhausted,
{
    if amount > *gas {
        Err(HostError::GasExhausted)
    } else {
        *gas = *gas - amount;
        Ok(())
    }
}

/// The chunks of a storage write are the ceiling of its size over the chunk
/// length: they cover every byte, and one fewer would not; an empty write is
/// one chunk.
pub proof fn lemma_storage_chunks_ceiling(k: u32, v: u32)
    ensures
        k as int + v == 0 ==> storage_chunks(k + v) == 1,
        k as int + v > 0 ==> storage_chunks(k + v) * 1024 >= k + v && (storage_chunks(k + v) - 1)
            * 1024 < k + v,
        spec_storage_write_cost(k as int, v as int) == storage_chunks(k + v) * STORAGE_PUT_GAS,
{
}

} // verus!

use vstd::prelude::*;
use crate::context::ChainContext;
use crate::fault::{WasmjitResult, RESULT_SUCCESS};
use crate::gas::{
    charge, deploy_cost, spec_deploy_cost, spec_storage_write_cost, storage_write_cost,
    CALL_CONTRACT_GAS, STORAGE_DELETE_GAS, STORAGE_GET_GAS,
};
use crate::memory::{in_bounds, min_len, overwrite, ByteSlice, HostError, LinearMemory};

verus! {

/// Length of a contract address in bytes.
pub const ADDRESS_LEN: u32 = 20;

/// The bytes of memory `mem` from `p`, `l` of them.
pub open spec fn region(mem: Seq<u8>, p: u32, l: u32) -> Seq<u8> {
    mem.subrange(p as int, p + l)
}

/// Budget left after trying to charge `cost` to `gas`.
pub open spec fn gas_after(gas: u64, cost: u64) -> u64 {
    if cost <= gas { (gas - cost) as u64 } else { gas }
}

/// A value returned by the chain service together with its result.
#[derive(Clone, Debug, PartialEq, Eq)]
pub struct wasmjit_u32 {
    pub v: u32,
    pub res: WasmjitResult,
}

/// A 64-bit value returned by the chain service together with its result.
#[derive(Clone, Debug, PartialEq, Eq)]
pub struct wasmjit_u64 {
    pub v: u64,
    pub res: WasmjitResult,
}

/// What a contract deployment or migration hands to the chain service.
#[derive(Clone, Debug, PartialEq, Eq)]
pub struct ContractDeploy {
    pub service_index: u64,
    pub code: Vec<u8>,
    pub vm_type: u32,
    pub name: Vec<u8>,
    pub version: Vec<u8>,
    pub author: Vec<u8>,
    pub email: Vec<u8>,
    pub desc: Vec<u8>,
    /// Where the new contract's address is to be written.
    pub address: ByteSlice,
}

/// An operation that a host call asks of the chain service, once its gas is
/// paid and its memory regions are read.
#[derive(Clone, Debug, PartialEq, Eq)]
pub enum ChainRequest {
    Debug { data: Vec<u8> },
    Notify { service_index: u64, data: Vec<u8> },
    StorageRead { service_index: u64, key: Vec<u8>, value: ByteSlice, offset: u32 },
    StorageWrite { service_index: u64, key: Vec<u8>, value: Vec<u8> },
    StorageDelete { service_index: u64, key: Vec<u8> },
    ContractCreate(ContractDeploy),
    ContractMigrate(ContractDeploy),
    ContractDestroy { service_index: u64 },
    CallContract { address: Vec<u8>, input: Vec<u8> },
}

/// Copies `l` bytes at `p` out of memory, after checking them against its size.
fn read_region(mem: &LinearMemory, p: u32, l: u32) -> (r: Result<Vec<u8>, HostError>)
    ensures
        r is Ok <==> in_bounds(p, l, mem@.len()),
        r is Ok ==> r->Ok_0@ == region(mem@, p, l),
        r is Err ==> r->Err_0 == HostError::OutOfBounds,
{
    let s = mem.translate(p, l)?;
    Ok(mem.read(s))
}

/// Debug log: hands the bytes at `data_ptr` to the host's debug sink; free.
pub fn ontio_debug(mem: &LinearMemory, data_ptr: u32, l: u32) -> (r: Result<
    ChainRequest,
    HostError,
>)
    ensures
        r is Ok <==> in_bounds(data_ptr, l, mem@.len()),
        r is Ok ==> (r->Ok_0 matches ChainRequest::Debug { data } && data@ == region(
            mem@,
            data_ptr,
            l,
        )),
        r is Err ==> r->Err_0 == HostError::OutOfBounds,
{
    let data = read_region(mem, data_ptr, l)?;
    Ok(ChainRequest::Debug { data })
}

/// Notify: hands the bytes at `ptr` to the event log of the current frame; free.
pub fn ontio_notify(ctx: &ChainContext, mem: &LinearMemory, ptr: u32, l: u32) -> (r: Result<
    ChainRequest,
    HostError,
>)
    ensures
        r is Ok <==> in_bounds(ptr, l, mem@.len()),
        r is Ok ==> (r->Ok_0 matches ChainRequest::Notify { service_index, data }
            && service_index == ctx.service_index && data@ == region(mem@, ptr, l)),
        r is Err ==> r->Err_0 == HostError::OutOfBounds,
{
    let data = read_region(mem, ptr, l)?;
    Ok(ChainRequest::Notify { service_index: ctx.wasmjit_service_index(), data })
}

/// Storage read: charges the read price, then asks for the value under the
/// key at `key_ptr`, to be copied into the buffer at `val` from `offset` on.
pub fn ontio_storage_read(
    ctx: &mut ChainContext,
    mem: &LinearMemory,
    key_ptr: u32,
    klen: u32,
    val: u32,
    vlen: u32,
    offset: u32,
) -> (r: Result<ChainRequest, HostError>)
    ensures
        final(ctx).gas == gas_after(old(ctx).gas, STORAGE_GET_GAS),
        final(ctx).same_but_gas(old(ctx)),
        r is Ok <==> STORAGE_GET_GAS <= old(ctx).gas && in_bounds(key_ptr, klen, mem@.len())
            && in_bounds(val, vlen, mem@.len()),
        STORAGE_GET_GAS > old(ctx).gas ==> r == Err::<ChainRequest, HostError>(
            HostError::GasExhausted,
        ),
        STORAGE_GET_GAS <= old(ctx).gas && r is Err ==> r->Err_0 == HostError::OutOfBounds,
        r is Ok ==> (r->Ok_0 matches ChainRequest::StorageRead {
            service_index,
            key,
            value,
            offset: o,
        } && service_index == old(ctx).service_index && key@ == region(mem@, key_ptr, klen)
            && value == (ByteSlice { start: val, len: vlen }) && o == offset),
{
    charge(&mut ctx.gas, STORAGE_GET_GAS)?;
    let key = read_region(mem, key_ptr, klen)?;
    let value = mem.translate(val, vlen)?;
    Ok(ChainRequest::StorageRead { service_index: ctx.wasmjit_service_index(), key, value, offset })
}

/// Storage write: charges by the size of key and value, then asks to store
/// the value at `val` under the key at `key_ptr`.
pub fn ontio_storage_write(
    ctx: &mut ChainContext,
    mem: &LinearMemory,
    key_ptr: u32,
    klen: u32,
    val: u32,
    vlen: u32,
) -> (r: Result<ChainRequest, HostError>)
    ensures
        ({
            let cost = spec_storage_write_cost(klen as int, vlen as int);
            &&& final(ctx).gas == if cost <= old(ctx).gas {
                old(ctx).gas - cost
            } else {
                old(ctx).gas as int
            }
            &&& r is Ok <==> cost <= old(ctx).gas && in_bounds(key_ptr, klen, mem@.len())
                && in_bounds(val, vlen, mem@.len())
            &&& cost > old(ctx).gas ==> r == Err::<ChainRequest, HostError>(
                HostError::GasExhausted,
            )
            &&& cost <= old(ctx).gas && r is Err ==> r->Err_0 == HostError::OutOfBounds
        }),
        final(ctx).same_but_gas(old(ctx)),
        r is Ok ==> (r->Ok_0 matches ChainRequest::StorageWrite { service_index, key, value }
            && service_index == old(ctx).service_index && key@ == region(mem@, key_ptr, klen)
            && value@ == region(mem@, val, vlen)),
{
    let cost = storage_write_cost(klen, vlen);
    charge(&mut ctx.gas, cost)?;
    let key = read_region(mem, key_ptr, klen)?;
    let value = read_region(mem, val, vlen)?;
    Ok(ChainRequest::StorageWrite { service_index: ctx.wasmjit_service_index(), key, value })
}

/// Storage delete: charges the delete price, then asks to remove the key at
/// `key_ptr`.
pub fn ontio_storage_delete(
    ctx: &mut ChainContext,
    mem: &LinearMemory,
    key_ptr: u32,
    klen: u32,
) -> (r: Result<ChainRequest, HostError>)
    ensures
        final(ctx).gas == gas_after(old(ctx).gas, STORAGE_DELETE_GAS),
        final(ctx).same_but_gas(old(ctx)),
        r is Ok <==> STORAGE_DELETE_GAS <= old(ctx).gas && in_bounds(key_ptr, klen, mem@.len()),
        STORAGE_DELETE_GAS > old(ctx).gas ==> r == Err::<ChainRequest, HostError>(
            HostError::GasExhausted,
        ),
        STORAGE_DELETE_GAS <= old(ctx).gas && r is Err ==> r->Err_0 == HostError::OutOfBounds,
        r is Ok ==> (r->Ok_0 matches ChainRequest::StorageDelete { service_index, key }
            && service_index == old(ctx).service_index && key@ == region(mem@, key_ptr, klen)),
{
    charge(&mut ctx.gas, STORAGE_DELETE_GAS)?;
    let key = read_region(mem, key_ptr, klen)?;
    Ok(ChainRequest::StorageDelete { service_index: ctx.wasmjit_service_index(), key })
}

/// Contract call: charges the call price, then asks to call the contract
/// whose address is at `contract_addr` with the input at `input_ptr`.
pub fn ontio_call_contract(
    ctx: &mut ChainContext,
    mem: &LinearMemory,
    contract_addr: u32,
    input_ptr: u32,
    inputlen: u32,
) -> (r: Result<ChainRequest, HostError>)
    ensures
        final(ctx).gas == gas_after(old(ctx).gas, CALL_CONTRACT_GAS),
        final(ctx).same_but_gas(old(ctx)),
        r is Ok <==> CALL_CONTRACT_GAS <= old(ctx).gas && in_bounds(input_ptr, inputlen, mem@.len())
            && in_bounds(contract_addr, ADDRESS_LEN, mem@.len()),
        CALL_CONTRACT_GAS > old(ctx).gas ==> r == Err::<ChainRequest, HostError>(
            HostError::GasExhausted,
        ),
        CALL_CONTRACT_GAS <= old(ctx).gas && r is Err ==> r->Err_0 == HostError::OutOfBounds,
        r is Ok ==> (r->Ok_0 matches ChainRequest::CallContract { address, input }
            && address@ == region(mem@, contract_addr, ADDRESS_LEN)
            && input@ == region(mem@, input_ptr, inputlen)),
{
    charge(&mut ctx.gas, CALL_CONTRACT_GAS)?;
    let input = read_region(mem, input_ptr, inputlen)?;
    let address = read_region(mem, contract_addr, ADDRESS_LEN)?;
    Ok(ChainRequest::CallContract { address, input })
}

/// All the regions of a deployment lie inside a memory of `mem_len` bytes.
pub open spec fn deploy_fits(
    mem_len: nat,
    code_ptr: u32,
    code_len: u32,
    name_ptr: u32,
    name_len: u32,
    ver_ptr: u32,
    ver_len: u32,
    author_ptr: u32,
    author_len: u32,
    email_ptr: u32,
    email_len: u32,
    desc_ptr: u32,
    desc_len: u32,
    newaddress_ptr: u32,
) -> bool {
    &&& in_bounds(code_ptr, code_len, mem_len)
    &&& in_bounds(name_ptr, name_len, mem_len)
    &&& in_bounds(ver_ptr, ver_len, mem_len)
    &&& in_bounds(author_ptr, author_len, mem_len)
    &&& in_bounds(email_ptr, email_len, mem_len)
    &&& in_bounds(desc_ptr, desc_len, mem_len)
    &&& in_bounds(newaddress_ptr, ADDRESS_LEN, mem_len)
}

/// `d` is the deployment that the arguments describe in memory `mem`.
pub open spec fn deploy_is(
    d: ContractDeploy,
    service_index: u64,
    mem: Seq<u8>,
    code_ptr: u32,
    code_len: u32,
    vm_type: u32,
    name_ptr: u32,
    name_len: u32,
    ver_ptr: u32,
    ver_len: u32,
    author_ptr: u32,
    author_len: u32,
    email_ptr: u32,
    email_len: u32,
    desc_ptr: u32,
    desc_len: u32,
    newaddress_ptr: u32,
) -> bool {
    &&& d.service_index == service_index
    &&& d.vm_type == vm_type
    &&& d.code@ == region(mem, code_ptr, code_len)
    &&& d.name@ == region(mem, name_ptr, name_len)
    &&& d.version@ == region(mem, ver_ptr, ver_len)
    &&& d.author@ == region(mem, author_ptr, author_len)
    &&& d.email@ == region(mem, email_ptr, email_len)
    &&& d.desc@ == region(mem, desc_ptr, desc_len)
    &&& d.address == (ByteSlice { start: newaddress_ptr, len: ADDRESS_LEN })
}

/// Reads every region of a deployment, in the order of the arguments.
fn read_deploy(
    service_index: u64,
    mem: &LinearMemory,
    code_ptr: u32,
    code_len: u32,
    vm_type: u32,
    name_ptr: u32,
    name_len: u32,
    ver_ptr: u32,
    ver_len: u32,
    author_ptr: u32,
    author_len: u32,
    email_ptr: u32,
    email_len: u32,
    desc_ptr: u32,
    desc_len: u32,
    newaddress_ptr: u32,
) -> (r: Result<ContractDeploy, HostError>)
    ensures
        r is Ok <==> deploy_fits(
            mem@.len(),
            code_ptr, code_len, name_ptr, name_len, ver_ptr, ver_len, author_ptr, author_len,
            email_ptr, email_len, desc_ptr, desc_len, newaddress_ptr,
        ),
        r is Err ==> r->Err_0 == HostError::OutOfBounds,
        r is Ok ==> deploy_is(
            r->Ok_0,
            service_index,
            mem@,
            code_ptr, code_len, vm_type, name_ptr, name_len, ver_ptr, ver_len, author_ptr,
            author_len, email_ptr, email_len, desc_ptr, desc_len, newaddress_ptr,
        ),
{
    let code = read_region(mem, code_ptr, code_len)?;
    let name = read_region(mem, name_ptr, name_len)?;
    let version = read_region(mem, ver_ptr, ver_len)?;
    let author = read_region(mem, author_ptr, author_len)?;
    let email = read_region(mem, email_ptr, email_len)?;
    let desc = read_region(mem, desc_ptr, desc_len)?;
    let address = mem.translate(newaddress_ptr, ADDRESS_LEN)?;
    Ok(ContractDeploy { service_index, code, vm_type, name, version, author, email, desc, address })
}

/// Contract create: charges the deployment price, then asks to register the
/// code at `code_ptr` with its description as a new contract.
pub fn ontio_contract_create(
    ctx: &mut ChainContext,
    mem: &LinearMemory,
    code_ptr: u32,
    code_len: u32,
    vm_type: u32,
    name_ptr: u32,
    name_len: u32,
    ver_ptr: u32,
    ver_len: u32,
    author_ptr: u32,
    author_len: u32,
    email_ptr: u32,
    email_len: u32,
    desc_ptr: u32,
    desc_len: u32,
    newaddress_ptr: u32,
) -> (r: Result<ChainRequest, HostError>)
    ensures
        ({
            let cost = spec_deploy_cost(code_len as int);
            &&& final(ctx).gas == if cost <= old(ctx).gas {
                old(ctx).gas - cost
            } else {
                old(ctx).gas as int
            }
            &&& r is Ok <==> cost <= old(ctx).gas && deploy_fits(
                mem@.len(),
                code_ptr, code_len, name_ptr, name_len, ver_ptr, ver_len, author_ptr, author_len,
                email_ptr, email_len, desc_ptr, desc_len, newaddress_ptr,
            )
            &&& cost > old(ctx).gas ==> r == Err::<ChainRequest, HostError>(
                HostError::GasExhausted,
            )
            &&& cost <= old(ctx).gas && r is Err ==> r->Err_0 == HostError::OutOfBounds
        }),
        final(ctx).same_but_gas(old(ctx)),
        r is Ok ==> (r->Ok_0 matches ChainRequest::ContractCreate(d) && deploy_is(
            d,
            old(ctx).service_index,
            mem@,
            code_ptr, code_len, vm_type, name_ptr, name_len, ver_ptr, ver_len, author_ptr,
            author_len, email_ptr, email_len, desc_ptr, desc_len, newaddress_ptr,
        )),
{
    let cost = deploy_cost(code_len);
    charge(&mut ctx.gas, cost)?;
    let d = read_deploy(
        ctx.wasmjit_service_index(),
        mem,
        code_ptr, code_len, vm_type, name_ptr, name_len, ver_ptr, ver_len, author_ptr, author_len,
        email_ptr, email_len, desc_ptr, desc_len, newaddress_ptr,
    )?;
    Ok(ChainRequest::ContractCreate(d))
}

/// Contract migrate: charges the deployment price, then asks to replace the
/// current contract by the code at `code_ptr` with its description.
pub fn ontio_contract_migrate(
    ctx: &mut ChainContext,
    mem: &LinearMemory,
    code_ptr: u32,
    code_len: u32,
    vm_type: u32,
    name_ptr: u32,
    name_len: u32,
    ver_ptr: u32,
    ver_len: u32,
    author_ptr: u32,
    author_len: u32,
    email_ptr: u32,
    email_len: u32,
    desc_ptr: u32,
    desc_len: u32,
    newaddress_ptr: u32,
) -> (r: Result<ChainRequest, HostError>)
    ensures
        ({
            let cost = spec_deploy_cost(code_len as int);
            &&& final(ctx).gas == if cost <= old(ctx).gas {
                old(ctx).gas - cost
            } else {
                old(ctx).gas as int
            }
            &&& r is Ok <==> cost <= old(ctx).gas && deploy_fits(
                mem@.len(),
                code_ptr, code_len, name_ptr, name_len, ver_ptr, ver_len, author_ptr, author_len,
                email_ptr, email_len, desc_ptr, desc_len, newaddress_ptr,
            )
            &&& cost > old(ctx).gas ==> r == Err::<ChainRequest, HostError>(
                HostError::GasExhausted,
            )
            &&& cost <= old(ctx).gas && r is Err ==> r->Err_0 == HostError::OutOfBounds
        }),
        final(ctx).same_but_gas(old(ctx)),
        r is Ok ==> (r->Ok_0 matches ChainRequest::ContractMigrate(d) && deploy_is(
            d,
            old(ctx).service_index,
            mem@,
            code_ptr, code_len, vm_type, name_ptr, name_len, ver_ptr, ver_len, author_ptr,
            author_len, email_ptr, email_len, desc_ptr, desc_len, newaddress_ptr,
        )),
{
    let cost = deploy_cost(code_len);
    charge(&mut ctx.gas, cost)?;
    let d = read_deploy(
        ctx.wasmjit_service_index(),
        mem,
        code_ptr, code_len, vm_type, name_ptr, name_len, ver_ptr, ver_len, author_ptr, author_len,
        email_ptr, email_len, desc_ptr, desc_len, newaddress_ptr,
    )?;
    Ok(ChainRequest::ContractMigrate(d))
}

/// Contract destroy: asks to destroy the current contract; free.
pub fn ontio_contract_destroy(ctx: &ChainContext) -> (r: ChainRequest)
    ensures
        r == (ChainRequest::ContractDestroy { service_index: ctx.service_index }),
{
    ChainRequest::ContractDestroy { service_index: ctx.wasmjit_service_index() }
}

/// Finishes a storage read: on success copies what the service returned into
/// the value buffer, as far as it reaches, and returns the service's count.
pub fn storage_read_done(
    mem: &mut LinearMemory,
    value: ByteSlice,
    reply: &wasmjit_u32,
    data: &Vec<u8>,
) -> (r: Result<u32, HostError>)
    requires
        value.fits(old(mem)@.len()),
    ensures
        r is Ok <==> reply.res.kind == RESULT_SUCCESS,
        r is Ok ==> r->Ok_0 == reply.v && final(mem)@ == overwrite(
            old(mem)@,
            value.start as int,
            data@.subrange(0, min_len(data@.len() as int, value.len as int)),
        ),
        r is Err ==> reply.res.error_is(r->Err_0) && final(mem)@ == old(mem)@,
{
    reply.res.check_wasmjit_result()?;
    mem.write(value, data);
    Ok(reply.v)
}

/// Finishes a contract call: on success returns the length of the callee's
/// output.
pub fn call_contract_done(ctx: &ChainContext, res: &WasmjitResult) -> (r: Result<u32, HostError>)
    requires
        ctx.wf(),
    ensures
        r is Ok <==> res.kind == RESULT_SUCCESS,
        r is Ok ==> r->Ok_0 == ctx.call_output@.len(),
        r is Err ==> res.error_is(r->Err_0),
{
    res.check_wasmjit_result()?;
    Ok(ctx.call_output_len())
}

/// Finishes a contract deployment or migration: on success writes the new
/// address into the buffer asked for and returns the address length.
pub fn contract_deploy_done(
    mem: &mut LinearMemory,
    address: ByteSlice,
    res: &WasmjitResult,
    new_address: &Vec<u8>,
) -> (r: Result<u32, HostError>)
    requires
        address.fits(old(mem)@.len()),
    ensures
        r is Ok <==> res.kind == RESULT_SUCCESS,
        r is Ok ==> r->Ok_0 == ADDRESS_LEN && final(mem)@ == overwrite(
            old(mem)@,
            address.start as int,
            new_address@.subrange(0, min_len(new_address@.len() as int, address.len as int)),
        ),
        r is Err ==> res.error_is(r->Err_0) && final(mem)@ == old(mem)@,
{
    res.check_wasmjit_result()?;
    mem.write(address, new_address);
    Ok(ADDRESS_LEN)
}

/// Finishes a contract destroy. Execution never goes on after it: on success
/// the contract is marked as returned and the sandbox unwinds with an empty
/// trap; a failure unwinds it with the service's error.
pub fn contract_destroy_done(ctx: &mut ChainContext, res: &WasmjitResult) -> (r: HostError)
    ensures
        res.kind == RESULT_SUCCESS ==> (r matches HostError::Trap(m) && m@.len() == 0)
            && final(ctx).from_return,
        res.kind != RESULT_SUCCESS ==> res.error_is(r) && final(ctx).from_return
            == old(ctx).from_return,
        final(ctx).gas == old(ctx).gas,
        final(ctx).exec_step == old(ctx).exec_step,
        final(ctx).service_index == old(ctx).service_index,
        final(ctx).call_output@ == old(ctx).call_output@,
        final(ctx).output@ == old(ctx).output@,
{
    match res.check_wasmjit_result() {
        Ok(()) => {
            ctx.set_from_return();
            HostError::Trap(Vec::new())
        },
        Err(e) => e,
    }
}

} // verus!

use vstd::prelude::*;
use crate::memory::HostError;

verus! {

/// Result code: the operation succeeded.
pub const RESULT_SUCCESS: u32 = 0;
/// Result code: the operation was rejected; sandboxed execution must stop.
pub const RESULT_TRAP: u32 = 1;
/// Result code: a defect on the host side.
pub const RESULT_INTERNAL: u32 = 2;

/// A result as the engine and the chain service report it: a numeric kind
/// and a UTF-8 message.
#[derive(Clone, Debug, PartialEq, Eq)]
pub struct WasmjitResult {
    pub kind: u32,
    pub msg: Vec<u8>,
}

/// The three outcome classes of any call across the boundary.
#[derive(Clone, Debug, PartialEq, Eq)]
pub enum CallResult {
    Success,
    Trap(Vec<u8>),
    InternalFault(Vec<u8>),
}

impl WasmjitResult {
    /// `e` is the error that this (failed) result stands for.
    pub open spec fn error_is(self, e: HostError) -> bool {
        if self.kind == RESULT_TRAP {
            e matches HostError::Trap(m) && m@ == self.msg@
        } else {
            e matches HostError::Internal(m) && m@ == self.msg@
        }
    }

    /// Builds a result from its kind and the bytes of its message.
    pub fn wasmjit_construct_result(msg: Vec<u8>, kind: u32) -> (r: Self)
        ensures
            r.kind == kind,
            r.msg@ == msg@,
    {
        WasmjitResult { kind, msg }
    }

    /// A successful result with no message.
    pub fn success() -> (r: Self)
        ensures
            r.kind == RESULT_SUCCESS,
            r.msg@.len() == 0,
    {
        WasmjitResult { kind: RESULT_SUCCESS, msg: Vec::new() }
    }

    /// Sorts the result into one of the three classes; a code that is neither
    /// success nor trap is an internal fault.
    pub fn classify(&self) -> (r: CallResult)
        ensures
            self.kind == RESULT_SUCCESS <==> r is Success,
            self.kind == RESULT_TRAP <==> r is Trap,
            r is Trap ==> r->Trap_0@ == self.msg@,
            r is InternalFault ==> r->InternalFault_0@ == self.msg@,
    {
        if self.kind == RESULT_SUCCESS {
            CallResult::Success
        } else if self.kind == RESULT_TRAP {
            CallResult::Trap(self.msg.clone())
        } else {
            CallResult::InternalFault(self.msg.clone())
        }
    }

    /// Lets a host call go on after a success; a trap becomes the error the
    /// sandbox is unwound with, any other code an internal fault.
    pub fn check_wasmjit_result(&self) -> (r: Result<(), HostError>)
        ensures
            r is Ok <==> self.kind == RESULT_SUCCESS,
            r is Err ==> self.error_is(r->Err_0),
    {
        if self.kind == RESULT_SUCCESS {
            Ok(())
        } else if self.kind == RESULT_TRAP {
            Err(HostError::Trap(self.msg.clone()))
        } else {
            Err(HostError::Internal(self.msg.clone()))
        }
    }
}

} // verus!

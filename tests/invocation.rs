use wasmjit_onto_interface::context::ChainContext;
use wasmjit_onto_interface::dispatch::ontio_call_contract;
use wasmjit_onto_interface::fault::{WasmjitResult, RESULT_INTERNAL, RESULT_SUCCESS, RESULT_TRAP};
use wasmjit_onto_interface::gas::CALL_CONTRACT_GAS;
use wasmjit_onto_interface::invoke::{wasmjit_ret, Action, InvocationController, Phase};
use wasmjit_onto_interface::memory::{HostError, LinearMemory};

fn finished(a: Action) -> wasmjit_ret {
    match a {
        Action::Finish(r) => r,
        other => panic!("expected the end, got {:?}", other),
    }
}

#[test]
fn malformed_module_ends_before_invoke() {
    let mut c = InvocationController::new(5000);
    assert!(matches!(c.start(), Action::Instantiate));
    let fail = WasmjitResult::wasmjit_construct_result(b"invalid magic".to_vec(), 3);
    let out = finished(c.instantiated(fail));
    assert_eq!(out.exec_step, 0);
    assert_eq!(out.gas_left, 5000);
    assert!(out.buffer.is_empty());
    assert_eq!(out.res.kind, 3);
    assert_eq!(out.res.msg, b"invalid magic".to_vec());
    assert_eq!(c.current_phase(), Phase::Done);
}

#[test]
fn full_run_takes_output_then_destroys_once() {
    let mut c = InvocationController::new(5000);
    assert!(matches!(c.start(), Action::Instantiate));
    assert!(matches!(c.instantiated(WasmjitResult::success()), Action::Invoke));
    assert_eq!(c.current_phase(), Phase::Invoking);
    assert!(matches!(c.invoked(WasmjitResult::success(), 42, 1234), Action::TakeOutput));
    assert!(matches!(c.output_taken(vec![7, 8, 9]), Action::Destroy));
    assert_eq!(c.current_phase(), Phase::Destroying);
    let out = finished(c.destroyed());
    assert_eq!(out.exec_step, 42);
    assert_eq!(out.gas_left, 1234);
    assert_eq!(out.buffer, vec![7, 8, 9]);
    assert_eq!(out.res.kind, RESULT_SUCCESS);
    assert_eq!(c.current_phase(), Phase::Done);
}

#[test]
fn trapped_run_still_reports_counters_and_output() {
    let mut c = InvocationController::new(5000);
    c.start();
    c.instantiated(WasmjitResult::success());
    let trap = WasmjitResult::wasmjit_construct_result(b"unreachable".to_vec(), RESULT_TRAP);
    assert!(matches!(c.invoked(trap, 17, 4000), Action::TakeOutput));
    assert!(matches!(c.output_taken(vec![]), Action::Destroy));
    let out = finished(c.destroyed());
    assert_eq!(out.exec_step, 17);
    assert_eq!(out.gas_left, 4000);
    assert_eq!(out.res.kind, RESULT_TRAP);
    assert_eq!(out.res.msg, b"unreachable".to_vec());
}

#[test]
fn fault_while_running_destroys_then_reports_internal() {
    let mut c = InvocationController::new(5000);
    c.start();
    c.instantiated(WasmjitResult::success());
    assert!(matches!(c.fault(b"host bug".to_vec()), Action::Destroy));
    let out = finished(c.destroyed());
    assert_eq!(out.exec_step, 0);
    assert_eq!(out.gas_left, 0);
    assert!(out.buffer.is_empty());
    assert_eq!(out.res.kind, RESULT_INTERNAL);
    assert_eq!(out.res.msg, b"host bug".to_vec());
}

#[test]
fn fault_before_instance_reports_internal() {
    let mut c = InvocationController::new(5000);
    c.start();
    let out = finished(c.fault(b"oops".to_vec()));
    assert_eq!(out.exec_step, 0);
    assert_eq!(out.gas_left, 0);
    assert_eq!(out.res.kind, RESULT_INTERNAL);
    assert_eq!(c.current_phase(), Phase::Done);
}

#[test]
fn fault_during_destroy_does_not_destroy_again() {
    let mut c = InvocationController::new(5000);
    c.start();
    c.instantiated(WasmjitResult::success());
    c.invoked(WasmjitResult::success(), 1, 2);
    c.output_taken(vec![1]);
    let out = finished(c.fault(b"destroy failed".to_vec()));
    assert_eq!(out.res.kind, RESULT_INTERNAL);
}

#[test]
fn internal_fault_report() {
    let out = wasmjit_ret::internal_fault(b"panic".to_vec());
    assert_eq!(out.exec_step, 0);
    assert_eq!(out.gas_left, 0);
    assert!(out.buffer.is_empty());
    assert_eq!(out.res.kind, RESULT_INTERNAL);
    assert_eq!(out.res.msg, b"panic".to_vec());
}

#[test]
fn call_contract_bounds_fault_ends_invocation_with_partial_use() {
    let mem = LinearMemory::new(vec![0u8; 64]);
    let mut ctx = ChainContext::new(1000, 1);
    let mut c = InvocationController::new(ctx.get_gas());
    c.start();
    c.instantiated(WasmjitResult::success());
    ctx.set_exec_step(25);
    let err = ontio_call_contract(&mut ctx, &mem, 60, 0, 0).unwrap_err();
    assert_eq!(err, HostError::OutOfBounds);
    let res = WasmjitResult::wasmjit_construct_result(b"wasmjit: access out of bound".to_vec(), RESULT_TRAP);
    c.invoked(res, ctx.get_exec_step(), ctx.get_gas());
    let taken = ctx.take_output();
    c.output_taken(taken);
    let out = finished(c.destroyed());
    assert_eq!(out.exec_step, 25);
    assert_eq!(out.gas_left, 1000 - CALL_CONTRACT_GAS);
    assert_eq!(out.res.kind, RESULT_TRAP);
}

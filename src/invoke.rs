use vstd::prelude::*;
use crate::fault::{WasmjitResult, RESULT_INTERNAL, RESULT_SUCCESS};

verus! {

/// What one top-level invocation reports: steps executed, gas left, the
/// output gathered and how it ended.
#[derive(Debug)]
pub struct wasmjit_ret {
    pub exec_step: u64,
    pub gas_left: u64,
    pub buffer: Vec<u8>,
    pub res: WasmjitResult,
}

impl wasmjit_ret {
    /// The report of an invocation that failed on the host side: nothing is
    /// counted as consumed and no output is handed out.
    pub fn internal_fault(msg: Vec<u8>) -> (r: Self)
        ensures
            r.exec_step == 0,
            r.gas_left == 0,
            r.buffer@.len() == 0,
            r.res.kind == RESULT_INTERNAL,
            r.res.msg@ == msg@,
    {
        wasmjit_ret {
            exec_step: 0,
            gas_left: 0,
            buffer: Vec::new(),
            res: WasmjitResult { kind: RESULT_INTERNAL, msg },
        }
    }

    fn duplicate(&self) -> (r: Self)
        ensures
            r.exec_step == self.exec_step,
            r.gas_left == self.gas_left,
            r.buffer@ == self.buffer@,
            r.res.kind == self.res.kind,
            r.res.msg@ == self.res.msg@,
    {
        wasmjit_ret {
            exec_step: self.exec_step,
            gas_left: self.gas_left,
            buffer: self.buffer.clone(),
            res: WasmjitResult { kind: self.res.kind, msg: self.res.msg.clone() },
        }
    }
}

/// Where an invocation stands.
#[derive(Clone, Copy, Debug, PartialEq, Eq, Structural)]
pub enum Phase {
    Created,
    Instantiating,
    Invoking,
    TakingOutput,
    Destroying,
    Done,
}

/// A step in the record of an invocation: an action asked of the engine, or
/// the report that the instance exists.
pub enum Step {
    Instantiate,
    InstanceReady,
    Invoke,
    TakeOutput,
    Destroy,
    Finish,
}

/// What the engine is to do next.
#[derive(Debug)]
pub enum Action {
    /// Instantiate the module with the chain resolver.
    Instantiate,
    /// Run the instance's entry point.
    Invoke,
    /// Drain the output gathered by the instance.
    TakeOutput,
    /// Destroy the instance.
    Destroy,
    /// The invocation is over, with this report.
    Finish(wasmjit_ret),
}

/// The records that each phase can stand at.
pub open spec fn history_fits(phase: Phase, h: Seq<Step>) -> bool {
    match phase {
        Phase::Created => h =~= Seq::<Step>::empty(),
        Phase::Instantiating => h =~= seq![Step::Instantiate],
        Phase::Invoking => h =~= seq![Step::Instantiate, Step::InstanceReady, Step::Invoke],
        Phase::TakingOutput => h =~= seq![
            Step::Instantiate,
            Step::InstanceReady,
            Step::Invoke,
            Step::TakeOutput,
        ],
        Phase::Destroying => h =~= seq![
            Step::Instantiate,
            Step::InstanceReady,
            Step::Invoke,
            Step::TakeOutput,
            Step::Destroy,
        ] || h =~= seq![Step::Instantiate, Step::InstanceReady, Step::Invoke, Step::Destroy],
        Phase::Done => h =~= seq![Step::Finish] || h =~= seq![Step::Instantiate, Step::Finish]
            || h =~= seq![
            Step::Instantiate,
            Step::InstanceReady,
            Step::Invoke,
            Step::TakeOutput,
            Step::Destroy,
            Step::Finish,
        ] || h =~= seq![
            Step::Instantiate,
            Step::InstanceReady,
            Step::Invoke,
            Step::Destroy,
            Step::Finish,
        ],
    }
}

/// Runs one invocation: instantiate, invoke, read the counters, take the
/// output, and only then destroy the instance.
pub struct InvocationController {
    phase: Phase,
    initial_gas: u64,
    pending: wasmjit_ret,
    history: Ghost<Seq<Step>>,
}

impl InvocationController {
    pub closed spec fn phase(&self) -> Phase {
        self.phase
    }

    /// The actions asked for so far, with the report of a ready instance.
    pub closed spec fn history(&self) -> Seq<Step> {
        self.history@
    }

    /// Gas in the chain context when the invocation began.
    pub closed spec fn initial_gas(&self) -> u64 {
        self.initial_gas
    }

    /// The report being assembled.
    pub closed spec fn pending(&self) -> wasmjit_ret {
        self.pending
    }

    pub closed spec fn wf(&self) -> bool {
        history_fits(self.phase, self.history@)
    }

    /// A controller for an invocation against a context holding `initial_gas`.
    pub fn new(initial_gas: u64) -> (r: Self)
        ensures
            r.wf(),
            r.phase() == Phase::Created,
            r.initial_gas() == initial_gas,
            r.history() == Seq::<Step>::empty(),
    {
        InvocationController {
            phase: Phase::Created,
            initial_gas,
            pending: wasmjit_ret::internal_fault(Vec::new()),
            history: Ghost(Seq::empty()),
        }
    }

    pub fn current_phase(&self) -> (r: Phase)
        ensures
            r == self.phase(),
    {
        self.phase
    }

    /// Begins: the module is to be instantiated.
    pub fn start(&mut self) -> (r: Action)
        requires
            old(self).wf(),
            old(self).phase() == Phase::Created,
        ensures
            final(self).wf(),
            r is Instantiate,
            final(self).phase() == Phase::Instantiating,
            final(self).initial_gas() == old(self).initial_gas(),
            final(self).history() == old(self).history().push(Step::Instantiate),
    {
        self.phase = Phase::Instantiating;
        self.history = Ghost(self.history@.push(Step::Instantiate));
        Action::Instantiate
    }

    /// Takes the result of instantiation. A failure ends the invocation at
    /// once: no step executed, the initial gas untouched, no output, and the
    /// instantiation's result; nothing is invoked or destroyed.
    pub fn instantiated(&mut self, res: WasmjitResult) -> (r: Action)
        requires
            old(self).wf(),
            old(self).phase() == Phase::Instantiating,
        ensures
            final(self).wf(),
            final(self).initial_gas() == old(self).initial_gas(),
            res.kind == RESULT_SUCCESS ==> r is Invoke && final(self).phase() == Phase::Invoking
                && final(self).history() == old(self).history().push(Step::InstanceReady).push(
                Step::Invoke,
            ),
            res.kind != RESULT_SUCCESS ==> (r matches Action::Finish(o) && o.exec_step == 0
                && o.gas_left == old(self).initial_gas() && o.buffer@.len() == 0 && o.res.kind
                == res.kind && o.res.msg@ == res.msg@) && final(self).phase() == Phase::Done
                && final(self).history() == old(self).history().push(Step::Finish),
    {
        if res.kind == RESULT_SUCCESS {
            self.phase = Phase::Invoking;
            self.history = Ghost(self.history@.push(Step::InstanceReady).push(Step::Invoke));
            Action::Invoke
        } else {
            self.phase = Phase::Done;
            self.history = Ghost(self.history@.push(Step::Finish));
            Action::Finish(
                wasmjit_ret { exec_step: 0, gas_left: self.initial_gas, buffer: Vec::new(), res },
            )
        }
    }

    /// Takes the result of the run, whatever it was, with the step and gas
    /// counters read from the instance; the output is to be taken next.
    pub fn invoked(&mut self, res: WasmjitResult, exec_step: u64, gas_left: u64) -> (r: Action)
        requires
            old(self).wf(),
            old(self).phase() == Phase::Invoking,
        ensures
            final(self).wf(),
            r is TakeOutput,
            final(self).phase() == Phase::TakingOutput,
            final(self).initial_gas() == old(self).initial_gas(),
            final(self).history() == old(self).history().push(Step::TakeOutput),
            final(self).pending().exec_step == exec_step,
            final(self).pending().gas_left == gas_left,
            final(self).pending().res.kind == res.kind,
            final(self).pending().res.msg@ == res.msg@,
    {
        self.pending.exec_step = exec_step;
        self.pending.gas_left = gas_left;
        self.pending.res = res;
        self.phase = Phase::TakingOutput;
        self.history = Ghost(self.history@.push(Step::TakeOutput));
        Action::TakeOutput
    }

    /// Takes the drained output; the instance is to be destroyed next.
    pub fn output_taken(&mut self, buffer: Vec<u8>) -> (r: Action)
        requires
            old(self).wf(),
            old(self).phase() == Phase::TakingOutput,
        ensures
            final(self).wf(),
            r is Destroy,
            final(self).phase() == Phase::Destroying,
            final(self).initial_gas() == old(self).initial_gas(),
            final(self).history() == old(self).history().push(Step::Destroy),
            final(self).pending().exec_step == old(self).pending().exec_step,
            final(self).pending().gas_left == old(self).pending().gas_left,
            final(self).pending().res.kind == old(self).pending().res.kind,
            final(self).pending().res.msg@ == old(self).pending().res.msg@,
            final(self).pending().buffer@ == buffer@,
    {
        self.pending.buffer = buffer;
        self.phase = Phase::Destroying;
        self.history = Ghost(self.history@.push(Step::Destroy));
        Action::Destroy
    }

    /// The instance is gone: the invocation ends with the report assembled.
    pub fn destroyed(&mut self) -> (r: Action)
        requires
            old(self).wf(),
            old(self).phase() == Phase::Destroying,
        ensures
            final(self).wf(),
            final(self).phase() == Phase::Done,
            final(self).initial_gas() == old(self).initial_gas(),
            final(self).history() == old(self).history().push(Step::Finish),
            r matches Action::Finish(o) && o.exec_step == old(self).pending().exec_step
                && o.gas_left == old(self).pending().gas_left && o.buffer@ == old(
                self,
            ).pending().buffer@ && o.res.kind == old(self).pending().res.kind && o.res.msg@
                == old(self).pending().res.msg@,
    {
        self.phase = Phase::Done;
        self.history = Ghost(self.history@.push(Step::Finish));
        Action::Finish(self.pending.duplicate())
    }

    /// A fault on the host side. Where an instance exists and is not yet
    /// asked to be destroyed, it is destroyed first; the invocation then ends
    /// as an internal fault with nothing counted and no output.
    pub fn fault(&mut self, msg: Vec<u8>) -> (r: Action)
        requires
            old(self).wf(),
            old(self).phase() != Phase::Done,
        ensures
            final(self).wf(),
            final(self).initial_gas() == old(self).initial_gas(),
            old(self).phase() == Phase::Invoking || old(self).phase() == Phase::TakingOutput
                ==> r is Destroy && final(self).phase() == Phase::Destroying
                && final(self).history() == old(self).history().push(Step::Destroy)
                && final(self).pending().exec_step == 0 && final(self).pending().gas_left == 0
                && final(self).pending().buffer@.len() == 0 && final(self).pending().res.kind
                == RESULT_INTERNAL && final(self).pending().res.msg@ == msg@,
            !(old(self).phase() == Phase::Invoking || old(self).phase() == Phase::TakingOutput)
                ==> (r matches Action::Finish(o) && o.exec_step == 0 && o.gas_left == 0
                && o.buffer@.len() == 0 && o.res.kind == RESULT_INTERNAL && o.res.msg@ == msg@)
                && final(self).phase() == Phase::Done && final(self).history() == old(
                self,
            ).history().push(Step::Finish),
    {
        match self.phase {
            Phase::Invoking | Phase::TakingOutput => {
                self.pending = wasmjit_ret::internal_fault(msg);
                self.phase = Phase::Destroying;
                self.history = Ghost(self.history@.push(Step::Destroy));
                Action::Destroy
            },
            _ => {
                self.phase = Phase::Done;
                self.history = Ghost(self.history@.push(Step::Finish));
                Action::Finish(wasmjit_ret::internal_fault(msg))
            },
        }
    }
}

/// Over the record of any invocation: the instance is destroyed at most once
/// and its output is never taken after the destroy; and once the invocation
/// is over, the instance was destroyed exactly when it had been made.
pub proof fn lemma_destroy_once(c: &InvocationController)
    requires
        c.wf(),
    ensures
        forall|i: int, j: int|
            #![trigger c.history()[i], c.history()[j]]
            0 <= i < j < c.history().len() && c.history()[i] is Destroy ==> !(
            c.history()[j] is Destroy) && !(c.history()[j] is TakeOutput),
        c.phase() == Phase::Done ==> ((exists|i: int|
            0 <= i < c.history().len() && #[trigger] c.history()[i] is InstanceReady) <==> (exists|
            i: int,
        |
            0 <= i < c.history().len() && #[trigger] c.history()[i] is Destroy)),
{
    let h = c.history();
    if c.phase() == Phase::Done {
        if h.len() >= 5 {
            assert(h[1] is InstanceReady);
            assert(h[h.len() - 2] is Destroy);
        } else {
            assert forall|i: int| 0 <= i < h.len() implies !(#[trigger] h[i] is Destroy)
                && !(h[i] is InstanceReady) by {}
        }
    }
}

} // verus!

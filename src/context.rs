use vstd::prelude::*;

verus! {

/// The chain context of one invocation: gas and step counters, the frame that
/// host calls apply to, the output of the last inner call and the output
/// gathered for the caller.
pub struct ChainContext {
    pub gas: u64,
    pub exec_step: u64,
    pub service_index: u64,
    pub call_output: Vec<u8>,
    pub output: Vec<u8>,
    pub from_return: bool,
}

impl ChainContext {
    /// Lengths that the boundary reports as `u32` fit in one.
    pub open spec fn wf(&self) -> bool {
        self.call_output@.len() <= u32::MAX
    }

    /// Everything but the gas budget is the same in `self` and `o`.
    pub open spec fn same_but_gas(&self, o: &ChainContext) -> bool {
        &&& self.exec_step == o.exec_step
        &&& self.service_index == o.service_index
        &&& self.call_output@ == o.call_output@
        &&& self.output@ == o.output@
        &&& self.from_return == o.from_return
    }

    /// A fresh context with the given budget for the given frame.
    pub fn new(gas: u64, service_index: u64) -> (r: Self)
        ensures
            r.wf(),
            r.gas == gas,
            r.exec_step == 0,
            r.service_index == service_index,
            r.call_output@.len() == 0,
            r.output@.len() == 0,
            !r.from_return,
    {
        ChainContext {
            gas,
            exec_step: 0,
            service_index,
            call_output: Vec::new(),
            output: Vec::new(),
            from_return: false,
        }
    }

    /// The frame that host calls of this context apply to.
    pub fn wasmjit_service_index(&self) -> (r: u64)
        ensures
            r == self.service_index,
    {
        self.service_index
    }

    /// Records the output of an inner contract call, as a copy of `data`.
    pub fn wasmjit_set_calloutput(&mut self, data: &Vec<u8>)
        requires
            data@.len() <= u32::MAX,
        ensures
            final(self).wf(),
            final(self).call_output@ == data@,
            final(self).gas == old(self).gas,
            final(self).exec_step == old(self).exec_step,
            final(self).service_index == old(self).service_index,
            final(self).output@ == old(self).output@,
            final(self).from_return == old(self).from_return,
    {
        self.call_output = data.clone();
    }

    /// Length of the output of the last inner contract call.
    pub fn call_output_len(&self) -> (r: u32)
        requires
            self.wf(),
        ensures
            r == self.call_output@.len(),
    {
        self.call_output.len() as u32
    }

    /// Marks the contract as having returned.
    pub fn set_from_return(&mut self)
        ensures
            final(self).from_return,
            final(self).gas == old(self).gas,
            final(self).exec_step == old(self).exec_step,
            final(self).service_index == old(self).service_index,
            final(self).call_output@ == old(self).call_output@,
            final(self).output@ == old(self).output@,
    {
        self.from_return = true;
    }

    /// Hands out the gathered output and leaves it empty.
    pub fn take_output(&mut self) -> (r: Vec<u8>)
        ensures
            r@ == old(self).output@,
            final(self).output@.len() == 0,
            final(self).gas == old(self).gas,
            final(self).exec_step == old(self).exec_step,
            final(self).service_index == old(self).service_index,
            final(self).call_output@ == old(self).call_output@,
            final(self).from_return == old(self).from_return,
    {
        let out = self.output.clone();
        self.output = Vec::new();
        out
    }

    pub fn get_gas(&self) -> (r: u64)
        ensures
            r == self.gas,
    {
        self.gas
    }

    pub fn set_gas(&mut self, gas: u64)
        ensures
            final(self).gas == gas,
            final(self).same_but_gas(old(self)),
    {
        self.gas = gas;
    }

    pub fn get_exec_step(&self) -> (r: u64)
        ensures
            r == self.exec_step,
    {
        self.exec_step
    }

    pub fn set_exec_step(&mut self, exec_step: u64)
        ensures
            final(self).exec_step == exec_step,
            final(self).gas == old(self).gas,
            final(self).service_index == old(self).service_index,
            final(self).call_output@ == old(self).call_output@,
            final(self).output@ == old(self).output@,
            final(self).from_return == old(self).from_return,
    {
        self.exec_step = exec_step;
    }
}

} // verus!

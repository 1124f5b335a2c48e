use vstd::prelude::*;
use vstd::slice::slice_to_vec;
use vstd::string::StringSliceAdditionalSpecFns;

verus! {

/// A validated range of the sandbox's linear memory: `len` bytes from `start`.
#[derive(Clone, Copy, Debug, PartialEq, Eq, Structural)]
pub struct ByteSlice {
    pub start: u32,
    pub len: u32,
}

impl ByteSlice {
    /// Last position (exclusive) covered by the slice.
    pub open spec fn end(self) -> int {
        self.start + self.len
    }

    /// The slice lies inside a memory of `mem_len` bytes.
    pub open spec fn fits(self, mem_len: nat) -> bool {
        self.end() <= u32::MAX && self.end() <= mem_len
    }
}

/// Whether `offset + len` stays inside a memory of `mem_len` bytes without
/// the sum overflowing a `u32`.
pub open spec fn in_bounds(offset: u32, len: u32, mem_len: nat) -> bool {
    offset + len <= u32::MAX && offset + len <= mem_len
}

/// The sandbox's linear memory as it stands during one host call.
pub struct LinearMemory {
    pub bytes: Vec<u8>,
}

impl View for LinearMemory {
    type V = Seq<u8>;

    open spec fn view(&self) -> Seq<u8> {
        self.bytes@
    }
}

/// Why a host call could not go on.
#[derive(Clone, Debug, PartialEq, Eq)]
pub enum HostError {
    /// An offset/length pair reaches past the end of linear memory.
    OutOfBounds,
    /// The gas budget does not cover the price of the call.
    GasExhausted,
    /// The chain service rejected the operation, with its message.
    Trap(Vec<u8>),
    /// A defect on the host side, with its message.
    Internal(Vec<u8>),
}

impl HostError {
    /// The message that the sandbox is unwound with.
    pub fn message(&self) -> (r: Vec<u8>)
        ensures
            self is OutOfBounds ==> r@ == "wasmjit: access out of bound".spec_bytes(),
            self is GasExhausted ==> r@ == "wasmjit: gas exhausted".spec_bytes(),
            self matches HostError::Trap(m) ==> r@ == m@,
            self matches HostError::Internal(m) ==> r@ == m@,
    {
        match self {
            HostError::OutOfBounds => slice_to_vec("wasmjit: access out of bound".as_bytes()),
            HostError::GasExhausted => slice_to_vec("wasmjit: gas exhausted".as_bytes()),
            HostError::Trap(m) => m.clone(),
            HostError::Internal(m) => m.clone(),
        }
    }
}

impl LinearMemory {
    pub fn new(bytes: Vec<u8>) -> (r: Self)
        ensures
            r@ == bytes@,
    {
        LinearMemory { bytes }
    }

    pub fn len(&self) -> (r: usize)
        ensures
            r == self@.len(),
    {
        self.bytes.len()
    }

    /// Checks `offset` and `len` against the current size of memory and, when
    /// they fit, hands back the slice they describe.
    pub fn translate(&self, offset: u32, len: u32) -> (r: Result<ByteSlice, HostError>)
        ensures
            in_bounds(offset, len, self@.len()) <==> r is Ok,
            r is Ok ==> r->Ok_0 == (ByteSlice { start: offset, len }),
            r is Err ==> r->Err_0 == HostError::OutOfBounds,
    {
        match offset.checked_add(len) {
            None => Err(HostError::OutOfBounds),
            Some(end) => {
                if (end as usize) > self.bytes.len() {
                    Err(HostError::OutOfBounds)
                } else {
                    Ok(ByteSlice { start: offset, len })
                }
            },
        }
    }

    /// Copies the bytes of a slice out of memory.
    pub fn read(&self, s: ByteSlice) -> (r: Vec<u8>)
        requires
            s.fits(self@.len()),
        ensures
            r@ == self@.subrange(s.start as int, s.end()),
    {
        let mut out: Vec<u8> = Vec::with_capacity(s.len as usize);
        let mut i: usize = s.start as usize;
        let end: usize = (s.start + s.len) as usize;
        while i < end
            invariant
                s.start <= i <= end,
                end == s.end(),
                end <= self@.len(),
                out@ == self@.subrange(s.start as int, i as int),
            decreases end - i,
        {
            out.push(self.bytes[i]);
            i = i + 1;
            assert(out@ =~= self@.subrange(s.start as int, i as int));
        }
        out
    }

    /// Writes the first `min(data.len(), s.len)` bytes of `data` at the start
    /// of a slice; the rest of memory is left as it was.
    pub fn write(&mut self, s: ByteSlice, data: &Vec<u8>) -> (n: usize)
        requires
            s.fits(old(self)@.len()),
        ensures
            n == min_len(data@.len() as int, s.len as int),
            final(self)@.len() == old(self)@.len(),
            final(self)@ == overwrite(old(self)@, s.start as int, data@.subrange(0, n as int)),
    {
        let n: usize = if data.len() < s.len as usize { data.len() } else { s.len as usize };
        let mut i: usize = 0;
        while i < n
            invariant
                n == min_len(data@.len() as int, s.len as int),
                i <= n,
                s.start + n <= old(self)@.len(),
                s.start + n <= u32::MAX,
                self@.len() == old(self)@.len(),
                self@ == overwrite(old(self)@, s.start as int, data@.subrange(0, i as int)),
            decreases n - i,
        {
            let pos: usize = s.start as usize + i;
            self.bytes.set(pos, data[i]);
            i = i + 1;
            assert(self@ =~= overwrite(old(self)@, s.start as int, data@.subrange(0, i as int)));
        }
        n
    }
}

/// `m` with the bytes of `data` laid over it from position `at`.
pub open spec fn overwrite(m: Seq<u8>, at: int, data: Seq<u8>) -> Seq<u8> {
    Seq::new(m.len(), |i: int| if at <= i < at + data.len() { data[i - at] } else { m[i] })
}

/// The smaller of two lengths.
pub open spec fn min_len(a: int, b: int) -> int {
    if a < b { a } else { b }
}

} // verus!

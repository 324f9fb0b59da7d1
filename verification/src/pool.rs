//! The pool of mapped capture buffers.
//!
//! The device grants a number of buffers; the pool holds one mapping for
//! each buffer mapped so far, in index order, and never more than were
//! granted. Mappings leave the pool one at a time, the last one first, each
//! on its way to being unmapped.

use vstd::prelude::*;

verus! {

/// A request for buffers. The client fills in the count it would like; the
/// device answers with the count it grants.
#[derive(Clone, Copy, Debug, PartialEq, Eq)]
pub struct RequestedBuffers {
    pub count: u32,
    pub buffer_type: u32,
    pub memory_type: u32,
}

/// What the device tells about one of its buffers.
#[derive(Clone, Copy, Debug, PartialEq, Eq)]
pub struct BufferInfo {
    pub index: u32,
    /// The length of the buffer in bytes.
    pub length: u32,
    /// Where the buffer lies on the device descriptor.
    pub offset: u32,
}

/// A window of process memory over one buffer of the device.
#[derive(Clone, Copy, Debug, PartialEq, Eq)]
pub struct MappedBuffer {
    pub index: u32,
    pub base_address: usize,
    /// The length that was mapped, and that must be unmapped.
    pub length: u32,
}

/// Whether each mapping of `buffers` stands at the place of its index.
pub open spec fn in_index_order(buffers: Seq<MappedBuffer>) -> bool {
    forall|i: int| 0 <= i < buffers.len() ==> (#[trigger] buffers[i]).index == i
}

/// The live mappings of a session.
pub struct BufferPool {
    granted: u32,
    buffers: Vec<MappedBuffer>,
}

impl View for BufferPool {
    type V = Seq<MappedBuffer>;

    /// The live mappings, in index order.
    closed spec fn view(&self) -> Seq<MappedBuffer> {
        self.buffers@
    }
}

impl BufferPool {
    /// The number of buffers that the device granted.
    pub closed spec fn limit(&self) -> u32 {
        self.granted
    }

    /// The pool holds no more mappings than buffers were granted, and holds
    /// them in index order.
    pub open spec fn wf(&self) -> bool {
        &&& self@.len() <= self.limit()
        &&& in_index_order(self@)
    }

    /// An empty pool for `granted` buffers.
    pub fn new(granted: u32) -> (pool: Self)
        ensures
            pool.wf(),
            pool@ == Seq::<MappedBuffer>::empty(),
            pool.limit() == granted,
    {
        BufferPool { granted, buffers: Vec::new() }
    }

    /// The number of buffers that the device granted.
    pub fn granted(&self) -> (n: u32)
        ensures
            n == self.limit(),
    {
        self.granted
    }

    /// The number of live mappings.
    pub fn len(&self) -> (n: u32)
        requires
            self.wf(),
        ensures
            n == self@.len(),
    {
        self.buffers.len() as u32
    }

    /// Whether no mapping is live.
    pub fn is_empty(&self) -> (b: bool)
        ensures
            b == (self@.len() == 0),
    {
        self.buffers.len() == 0
    }

    /// Whether every granted buffer is mapped.
    pub fn is_complete(&self) -> (b: bool)
        requires
            self.wf(),
        ensures
            b == (self@.len() == self.limit()),
    {
        self.buffers.len() as u32 == self.granted
    }

    /// Takes in the mapping of the next buffer, if a granted buffer is still
    /// unmapped. The mapping gets the next index.
    pub fn record(&mut self, base_address: usize, length: u32) -> (recorded: Option<MappedBuffer>)
        requires
            old(self).wf(),
        ensures
            final(self).wf(),
            final(self).limit() == old(self).limit(),
            old(self)@.len() < old(self).limit() ==> recorded == Some(
                MappedBuffer { index: old(self)@.len() as u32, base_address, length },
            ) && final(self)@ == old(self)@.push(recorded.unwrap()),
            old(self)@.len() >= old(self).limit() ==> recorded.is_none() && final(self)@ == old(
                self,
            )@,
    {
        let count: u32 = self.buffers.len() as u32;
        if count < self.granted {
            let buffer = MappedBuffer { index: count, base_address, length };
            self.buffers.push(buffer);
            Some(buffer)
        } else {
            None
        }
    }

    /// Hands out the last mapping for release. The pool no longer holds it.
    pub fn release_last(&mut self) -> (released: Option<MappedBuffer>)
        requires
            old(self).wf(),
        ensures
            final(self).wf(),
            final(self).limit() == old(self).limit(),
            old(self)@.len() > 0 ==> released == Some(old(self)@.last()) && final(self)@ == old(
                self,
            )@.drop_last(),
            old(self)@.len() == 0 ==> released.is_none() && final(self)@ == old(self)@,
    {
        self.buffers.pop()
    }

    /// The last mapping, the one that `release_last` would hand out.
    pub fn last(&self) -> (buffer: Option<MappedBuffer>)
        ensures
            self@.len() > 0 ==> buffer == Some(self@.last()),
            self@.len() == 0 ==> buffer.is_none(),
    {
        let n: usize = self.buffers.len();
        if n > 0 {
            Some(self.buffers[n - 1])
        } else {
            None
        }
    }

    /// The mapping of the buffer with the given index, if it is live.
    pub fn get(&self, index: u32) -> (buffer: Option<MappedBuffer>)
        requires
            self.wf(),
        ensures
            index < self@.len() ==> buffer == Some(self@[index as int]) && buffer.unwrap().index
                == index,
            index >= self@.len() ==> buffer.is_none(),
    {
        if (index as usize) < self.buffers.len() {
            Some(self.buffers[index as usize])
        } else {
            None
        }
    }
}

} // verus!

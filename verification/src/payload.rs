//! Events and blocks, as the context sees them.
//!
//! The context never looks into an event or a block. It holds each in its
//! encoded form, a run of bytes, and copies, frames or forwards that.

use vstd::prelude::*;

verus! {

/// A domain event in its encoded form.
#[derive(Clone, Debug, PartialEq, Eq)]
pub struct Event {
    pub payload: Vec<u8>,
}

/// A ledger block in its encoded form.
#[derive(Clone, Debug, PartialEq, Eq)]
pub struct Block {
    pub payload: Vec<u8>,
}

impl View for Event {
    type V = Seq<u8>;

    open spec fn view(&self) -> Seq<u8> {
        self.payload@
    }
}

impl View for Block {
    type V = Seq<u8>;

    open spec fn view(&self) -> Seq<u8> {
        self.payload@
    }
}

/// A fresh vector with the bytes of `bytes`.
fn copy_bytes(bytes: &Vec<u8>) -> (copy: Vec<u8>)
    ensures
        copy@ == bytes@,
{
    let mut copy: Vec<u8> = Vec::new();
    let mut i: usize = 0;
    while i < bytes.len()
        invariant
            i <= bytes.len(),
            copy@ == bytes@.subrange(0, i as int),
        decreases bytes.len() - i,
    {
        copy.push(bytes[i]);
        i = i + 1;
    }
    copy
}

impl Event {
    /// An event with the given encoding.
    pub fn new(payload: Vec<u8>) -> (evt: Event)
        ensures
            evt@ == payload@,
    {
        Event { payload }
    }
}

impl Block {
    /// A block with the given encoding.
    pub fn new(payload: Vec<u8>) -> (block: Block)
        ensures
            block@ == payload@,
    {
        Block { payload }
    }

    /// An independent copy of the block.
    pub fn duplicate(&self) -> (copy: Block)
        ensures
            copy@ == self@,
    {
        Block { payload: copy_bytes(&self.payload) }
    }
}

} // verus!

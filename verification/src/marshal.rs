//! The marshaling protocol: how the arguments of a call cross the boundary.
//!
//! The caller packs the arguments into one buffer, slot after slot, in the
//! order in which they are declared, the receiver first where there is one.
//! A slot is exactly as large as what it holds and there is nothing between
//! the slots: no padding, no tag. The callee reads the slots back in the
//! same order, as the same types. An argument that is passed by value lies
//! in its slot itself; any other leaves a pointer there, to storage that
//! stays the caller's.
//!
//! Numbers lie in their slots least significant byte first, as they lie in
//! memory on the machines this library is used on. A pointer takes eight
//! bytes.
use vstd::bytes::{
    lemma_auto_spec_u32_to_from_le_bytes, lemma_auto_spec_u64_to_from_le_bytes,
    spec_u32_from_le_bytes, spec_u32_to_le_bytes, spec_u64_from_le_bytes, spec_u64_to_le_bytes,
    u32_from_le_bytes, u32_to_le_bytes, u64_from_le_bytes, u64_to_le_bytes,
};
use vstd::prelude::*;
use vstd::slice::slice_subrange;

use crate::context::Ptr;
use crate::ids::extend_bytes;
use crate::model::{ArgumentKind, ArgumentKindView};

verus! {

/// The size of the slot of a pointer.
pub const PTR_SIZE: usize = 8;

/// The size of the slot of an argument whose value takes `value_size`
/// bytes: that of the value where the argument is passed by value, that
/// of a pointer otherwise.
pub open spec fn slot_size_of(kind: ArgumentKindView, value_size: nat) -> nat {
    if kind.by_reference() {
        PTR_SIZE as nat
    } else {
        value_size
    }
}

/// The size of the slot of an argument whose value takes `value_size`
/// bytes.
pub fn slot_size(kind: &ArgumentKind, value_size: usize) -> (size: usize)
    ensures
        size == slot_size_of(kind@, value_size as nat),
{
    match kind {
        ArgumentKind::Default => value_size,
        ArgumentKind::DefaultValue(_) => value_size,
        ArgumentKind::Out => PTR_SIZE,
        ArgumentKind::Ref => PTR_SIZE,
        ArgumentKind::In => PTR_SIZE,
    }
}

/// The sizes added up: the size of the buffer that holds slots of these
/// sizes, and the offset of the slot that would come after them.
pub open spec fn total_size(sizes: Seq<usize>) -> nat
    decreases sizes.len(),
{
    if sizes.len() == 0 {
        0
    } else {
        total_size(sizes.drop_last()) + sizes.last() as nat
    }
}

/// The size of the buffer that holds slots of these sizes, unless it is
/// more than a buffer can be.
pub fn args_size(sizes: &Vec<usize>) -> (total: Option<usize>)
    ensures
        match total {
            Some(total) => total == total_size(sizes@),
            None => total_size(sizes@) > usize::MAX,
        },
{
    let mut total: usize = 0;
    let mut i: usize = 0;
    while i < sizes.len()
        invariant
            i <= sizes.len(),
            total == total_size(sizes@.take(i as int)),
        decreases sizes.len() - i,
    {
        proof {
            assert(sizes@.take(i + 1).drop_last() =~= sizes@.take(i as int));
        }
        if sizes[i] > usize::MAX - total {
            proof {
                lemma_total_size_grows(sizes@, i + 1);
            }
            return None;
        }
        total = total + sizes[i];
        i += 1;
    }
    assert(sizes@.take(sizes.len() as int) =~= sizes@);
    Some(total)
}

/// The first `k` sizes add up to no more than all of them.
pub proof fn lemma_total_size_grows(sizes: Seq<usize>, k: int)
    requires
        0 <= k <= sizes.len(),
    ensures
        total_size(sizes.take(k)) <= total_size(sizes),
    decreases sizes.len() - k,
{
    if k == sizes.len() {
        assert(sizes.take(k) =~= sizes);
    } else {
        assert(sizes.take(k + 1).drop_last() =~= sizes.take(k));
        lemma_total_size_grows(sizes, k + 1);
    }
}

/// The slot of a pointer.
pub open spec fn ptr_bytes(p: Ptr) -> Seq<u8> {
    spec_u64_to_le_bytes(p.addr as u64)
}

/// The slot of a `u32`.
pub open spec fn u32_bytes(v: u32) -> Seq<u8> {
    spec_u32_to_le_bytes(v)
}

/// The slot of a `u64`.
pub open spec fn u64_bytes(v: u64) -> Seq<u8> {
    spec_u64_to_le_bytes(v)
}

/// The `u64` in the slot at offset `at`, if the buffer holds such a slot.
pub open spec fn u64_at(buffer: Seq<u8>, at: int) -> Option<u64> {
    if 0 <= at && at + 8 <= buffer.len() {
        Some(spec_u64_from_le_bytes(buffer.subrange(at, at + 8)))
    } else {
        None
    }
}

/// The `u32` in the slot at offset `at`, if the buffer holds such a slot.
pub open spec fn u32_at(buffer: Seq<u8>, at: int) -> Option<u32> {
    if 0 <= at && at + 4 <= buffer.len() {
        Some(spec_u32_from_le_bytes(buffer.subrange(at, at + 4)))
    } else {
        None
    }
}

/// The pointer in the slot at offset `at`, if the buffer holds such a slot
/// and what is in it is an address of this machine.
pub open spec fn ptr_at(buffer: Seq<u8>, at: int) -> Option<Ptr> {
    match u64_at(buffer, at) {
        Some(addr) => if addr <= usize::MAX {
            Some(Ptr { addr: addr as usize })
        } else {
            None
        },
        None => None,
    }
}

/// An operation that was to produce a value returned the null address. The
/// protocol has no other way to signal that a call failed, and none to
/// recover from it.
#[derive(PartialEq, Eq, Structural, Debug, Clone, Copy)]
pub struct NullResult;

/// What a caller makes of the address that an operation returned which is
/// declared to produce a value: the address, which the caller now owns, or
/// an error where it is null. A null address never stands for "no value".
pub fn check_result(result: Ptr) -> (r: Result<Ptr, NullResult>)
    ensures
        r == (if result.addr == 0 {
            Err::<Ptr, NullResult>(NullResult)
        } else {
            Ok::<Ptr, NullResult>(result)
        }),
{
    if result.is_null() {
        Err(NullResult)
    } else {
        Ok(result)
    }
}

/// The buffer into which a caller packs the arguments of one call.
pub struct ArgBuffer {
    bytes: Vec<u8>,
}

impl View for ArgBuffer {
    type V = Seq<u8>;

    closed spec fn view(&self) -> Seq<u8> {
        self.bytes@
    }
}

impl ArgBuffer {
    /// A buffer without slots.
    pub fn new() -> (buffer: Self)
        ensures
            buffer@ == Seq::<u8>::empty(),
    {
        Self { bytes: Vec::new() }
    }

    /// The size of the buffer: what is passed as `args_size`, and the
    /// offset of the next slot.
    pub fn size(&self) -> (size: usize)
        ensures
            size == self@.len(),
    {
        self.bytes.len()
    }

    /// Appends the slot of a pointer: the receiver, or an argument that is
    /// passed by reference.
    pub fn push_ptr(&mut self, p: Ptr)
        ensures
            final(self)@ == old(self)@ + ptr_bytes(p),
    {
        let slot = u64_to_le_bytes(p.addr as u64);
        extend_bytes(&mut self.bytes, &slot);
    }

    /// Appends the slot of a `u32` that is passed by value.
    pub fn push_u32(&mut self, v: u32)
        ensures
            final(self)@ == old(self)@ + u32_bytes(v),
    {
        let slot = u32_to_le_bytes(v);
        extend_bytes(&mut self.bytes, &slot);
    }

    /// Appends the slot of a `u64` that is passed by value.
    pub fn push_u64(&mut self, v: u64)
        ensures
            final(self)@ == old(self)@ + u64_bytes(v),
    {
        let slot = u64_to_le_bytes(v);
        extend_bytes(&mut self.bytes, &slot);
    }

    /// The packed bytes.
    pub fn into_bytes(self) -> (bytes: Vec<u8>)
        ensures
            bytes@ == self@,
    {
        self.bytes
    }
}

/// Reads the slots of a buffer back, one after the other.
pub struct ArgReader {
    bytes: Vec<u8>,
    pos: usize,
}

pub ghost struct ArgReaderView {
    pub buffer: Seq<u8>,
    /// The offset of the slot that is read next.
    pub pos: int,
}

impl View for ArgReader {
    type V = ArgReaderView;

    closed spec fn view(&self) -> ArgReaderView {
        ArgReaderView { buffer: self.bytes@, pos: self.pos as int }
    }
}

impl ArgReader {
    #[verifier::type_invariant]
    spec fn well_formed(self) -> bool {
        self.pos <= self.bytes@.len()
    }

    /// A reader at the first slot of the buffer.
    pub fn new(bytes: Vec<u8>) -> (reader: Self)
        ensures
            reader@ == (ArgReaderView { buffer: bytes@, pos: 0 }),
    {
        Self { bytes, pos: 0 }
    }

    /// The offset of the slot that is read next.
    pub fn position(&self) -> (pos: usize)
        ensures
            pos == self@.pos,
    {
        self.pos
    }

    /// Reads the slot of a `u64` and moves on by its size. Where the
    /// buffer ends before the slot does, nothing is read.
    pub fn read_u64(&mut self) -> (r: Option<u64>)
        ensures
            r == u64_at(old(self)@.buffer, old(self)@.pos),
            final(self)@ == (ArgReaderView {
                pos: if r is Some {
                    old(self)@.pos + 8
                } else {
                    old(self)@.pos
                },
                ..old(self)@
            }),
    {
        proof {
            use_type_invariant(&*self);
        }
        if self.bytes.len() - self.pos < 8 {
            return None;
        }
        let slot = slice_subrange(self.bytes.as_slice(), self.pos, self.pos + 8);
        let value = u64_from_le_bytes(slot);
        self.pos = self.pos + 8;
        Some(value)
    }

    /// Reads the slot of a `u32` and moves on by its size. Where the
    /// buffer ends before the slot does, nothing is read.
    pub fn read_u32(&mut self) -> (r: Option<u32>)
        ensures
            r == u32_at(old(self)@.buffer, old(self)@.pos),
            final(self)@ == (ArgReaderView {
                pos: if r is Some {
                    old(self)@.pos + 4
                } else {
                    old(self)@.pos
                },
                ..old(self)@
            }),
    {
        proof {
            use_type_invariant(&*self);
        }
        if self.bytes.len() - self.pos < 4 {
            return None;
        }
        let slot = slice_subrange(self.bytes.as_slice(), self.pos, self.pos + 4);
        let value = u32_from_le_bytes(slot);
        self.pos = self.pos + 4;
        Some(value)
    }

    /// Reads the slot of a pointer and moves on by its size. Where the
    /// buffer ends before the slot does, or what is in the slot is no
    /// address of this machine, nothing is read.
    pub fn read_ptr(&mut self) -> (r: Option<Ptr>)
        ensures
            r == ptr_at(old(self)@.buffer, old(self)@.pos),
            final(self)@ == (ArgReaderView {
                pos: if r is Some {
                    old(self)@.pos + 8
                } else {
                    old(self)@.pos
                },
                ..old(self)@
            }),
    {
        proof {
            use_type_invariant(&*self);
        }
        if self.bytes.len() - self.pos < 8 {
            return None;
        }
        let slot = slice_subrange(self.bytes.as_slice(), self.pos, self.pos + 8);
        let addr = u64_from_le_bytes(slot);
        if addr > usize::MAX as u64 {
            return None;
        }
        self.pos = self.pos + 8;
        Some(Ptr { addr: addr as usize })
    }
}

/// Marshaling round trip. Pack a receiver and after it a `u32`; read a
/// pointer and after it a `u32`, in this same order: what is read is the
/// receiver and the number, bit for bit. The buffer is as large as the two
/// slots together.
pub proof fn lemma_marshaling_round_trip(before: Seq<u8>, this: Ptr, times: u32)
    ensures
        ({
            let buffer = before + ptr_bytes(this) + u32_bytes(times);
            &&& buffer.len() == before.len() + 8 + 4
            &&& ptr_at(buffer, before.len() as int) == Some(this)
            &&& u32_at(buffer, (before.len() + 8) as int) == Some(times)
        }),
{
    lemma_auto_spec_u64_to_from_le_bytes();
    lemma_auto_spec_u32_to_from_le_bytes();
    let buffer = before + ptr_bytes(this) + u32_bytes(times);
    let at = before.len() as int;
    assert(buffer.subrange(at, at + 8) =~= ptr_bytes(this));
    assert(buffer.subrange(at + 8, at + 12) =~= u32_bytes(times));
}

} // verus!

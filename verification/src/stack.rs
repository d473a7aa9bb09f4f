//! The interpreter's stack: a fixed-size byte buffer that grows toward
//! offset 0, read and written at arbitrary offsets through accessors that
//! check every access against the buffer.

use crate::bytes::{le_u16, le_u32, le_u64, load_u16, load_u32, load_u64, splice, u16_le, u32_le, u64_le};
use crate::fault::Fault;
use vstd::prelude::*;

verus! {

/// The mathematical content of a stack: its bytes and its stack pointer.
#[verifier::ext_equal]
pub struct StackView {
    pub bytes: Seq<u8>,
    pub sp: int,
}

impl StackView {
    /// The stack pointer lies within the buffer.
    pub open spec fn wf(self) -> bool {
        0 <= self.sp <= self.bytes.len()
    }

    /// `width` bytes from `pos` on lie within the buffer.
    pub open spec fn holds(self, pos: int, width: int) -> bool {
        0 <= pos && pos + width <= self.bytes.len()
    }

    /// The byte at `pos`.
    pub open spec fn u8_at(self, pos: int) -> u8 {
        self.bytes[pos]
    }

    /// The little-endian 16-bit value at `pos`.
    pub open spec fn u16_at(self, pos: int) -> u16 {
        le_u16(self.bytes.subrange(pos, pos + 2))
    }

    /// The little-endian 32-bit value at `pos`.
    pub open spec fn u32_at(self, pos: int) -> u32 {
        le_u32(self.bytes.subrange(pos, pos + 4))
    }

    /// The little-endian 64-bit value at `pos`.
    pub open spec fn u64_at(self, pos: int) -> u64 {
        le_u64(self.bytes.subrange(pos, pos + 8))
    }

    /// The stack with `data` stored from `pos` on.
    pub open spec fn with_bytes(self, pos: int, data: Seq<u8>) -> StackView {
        StackView { bytes: splice(self.bytes, pos, data), sp: self.sp }
    }

    /// The stack with the byte `v` stored at `pos`.
    pub open spec fn with_u8(self, pos: int, v: u8) -> StackView {
        self.with_bytes(pos, seq![v])
    }

    /// The stack with `v` stored at `pos`, least significant byte first.
    pub open spec fn with_u16(self, pos: int, v: u16) -> StackView {
        self.with_bytes(pos, u16_le(v))
    }

    /// The stack with `v` stored at `pos`, least significant byte first.
    pub open spec fn with_u32(self, pos: int, v: u32) -> StackView {
        self.with_bytes(pos, u32_le(v))
    }

    /// The stack with `v` stored at `pos`, least significant byte first.
    pub open spec fn with_u64(self, pos: int, v: u64) -> StackView {
        self.with_bytes(pos, u64_le(v))
    }

    /// The stack with its stack pointer at `sp`.
    pub open spec fn with_sp(self, sp: int) -> StackView {
        StackView { bytes: self.bytes, sp }
    }

    /// The stack after `v` is pushed; meaningful where four bytes are free.
    pub open spec fn pushed_u32(self, v: u32) -> StackView {
        self.with_sp(self.sp - 4).with_u32(self.sp - 4, v)
    }

    /// The stack after `v` is pushed; meaningful where eight bytes are free.
    pub open spec fn pushed_u64(self, v: u64) -> StackView {
        self.with_sp(self.sp - 8).with_u64(self.sp - 8, v)
    }
}

/// What an accessor that only reads gives back: the value where the access
/// is within the buffer, a bounds violation otherwise.
pub open spec fn checked<T>(within: bool, value: T) -> Result<T, Fault> {
    if within {
        Ok(value)
    } else {
        Err(Fault::StackBoundsViolation)
    }
}

/// What an accessor that writes does: it gives `Ok` and leaves `after` where
/// the access is within the buffer, and otherwise reports a bounds violation
/// and changes nothing.
pub open spec fn updated(
    within: bool,
    before: StackView,
    expected: StackView,
    r: Result<(), Fault>,
    after: StackView,
) -> bool {
    if within {
        r == Ok::<(), Fault>(()) && after =~= expected
    } else {
        r == Err::<(), Fault>(Fault::StackBoundsViolation) && after == before
    }
}

/// A stack of bytes with its stack pointer.
pub struct VmStack {
    bytes: Vec<u8>,
    sp: usize,
}

impl View for VmStack {
    type V = StackView;

    closed spec fn view(&self) -> StackView {
        StackView { bytes: self.bytes@, sp: self.sp as int }
    }
}

impl VmStack {
    #[verifier::type_invariant]
    spec fn inv(self) -> bool {
        self.sp <= self.bytes@.len()
    }

    /// An empty stack of `size` zero bytes: the stack pointer is at the end.
    pub fn new(size: usize) -> (s: VmStack)
        ensures
            s@.bytes == Seq::new(size as nat, |i: int| 0u8),
            s@.sp == size,
            s@.wf(),
    {
        let bytes: Vec<u8> = vec![0u8; size];
        assert(bytes@ =~= Seq::new(size as nat, |i: int| 0u8));
        VmStack { bytes, sp: size }
    }

    /// The size of the buffer.
    pub fn len(&self) -> (n: usize)
        ensures
            n == self@.bytes.len(),
            self@.wf(),
    {
        proof {
            use_type_invariant(self);
        }
        self.bytes.len()
    }

    /// The stack pointer: the offset of the lowest byte in use.
    pub fn sp(&self) -> (sp: usize)
        ensures
            sp == self@.sp,
            self@.wf(),
    {
        proof {
            use_type_invariant(self);
        }
        self.sp
    }

    /// Whether `width` bytes from `pos` on lie within the buffer.
    pub fn holds(&self, pos: usize, width: usize) -> (r: bool)
        ensures
            r == self@.holds(pos as int, width as int),
            r ==> pos + width <= usize::MAX,
            self@.wf(),
    {
        proof {
            use_type_invariant(self);
        }
        let len: usize = self.bytes.len();
        width <= len && pos <= len - width
    }

    /// Moves the stack pointer to `sp`, where that lies within the buffer.
    pub fn set_sp(&mut self, sp: usize) -> (r: Result<(), Fault>)
        ensures
            updated(sp <= old(self)@.bytes.len(), old(self)@, old(self)@.with_sp(sp as int), r, final(self)@),
            final(self)@.wf(),
    {
        proof {
            use_type_invariant(&*self);
        }
        if sp <= self.bytes.len() {
            self.sp = sp;
            Ok(())
        } else {
            Err(Fault::StackBoundsViolation)
        }
    }

    /// Frees `size` bytes: the stack pointer moves up, no byte changes.
    pub fn release(&mut self, size: usize) -> (r: Result<(), Fault>)
        ensures
            updated(
                old(self)@.sp + size <= old(self)@.bytes.len(),
                old(self)@,
                old(self)@.with_sp(old(self)@.sp + size),
                r,
                final(self)@,
            ),
            final(self)@.wf(),
    {
        proof {
            use_type_invariant(&*self);
        }
        if size <= self.bytes.len() - self.sp {
            self.sp = self.sp + size;
            Ok(())
        } else {
            Err(Fault::StackBoundsViolation)
        }
    }

    /// Claims `size` bytes: the stack pointer moves down, no byte changes.
    pub fn reserve(&mut self, size: usize) -> (r: Result<(), Fault>)
        ensures
            updated(
                size <= old(self)@.sp,
                old(self)@,
                old(self)@.with_sp(old(self)@.sp - size),
                r,
                final(self)@,
            ),
            final(self)@.wf(),
    {
        proof {
            use_type_invariant(&*self);
        }
        if size <= self.sp {
            self.sp = self.sp - size;
            Ok(())
        } else {
            Err(Fault::StackBoundsViolation)
        }
    }

    /// The byte at `pos`.
    pub fn read_u8(&self, pos: usize) -> (r: Result<u8, Fault>)
        ensures
            r == checked(self@.holds(pos as int, 1), self@.u8_at(pos as int)),
            self@.wf(),
    {
        if self.holds(pos, 1) {
            Ok(self.bytes[pos])
        } else {
            Err(Fault::StackBoundsViolation)
        }
    }

    /// The little-endian 16-bit value at `pos`.
    pub fn read_u16(&self, pos: usize) -> (r: Result<u16, Fault>)
        ensures
            r == checked(self@.holds(pos as int, 2), self@.u16_at(pos as int)),
            self@.wf(),
    {
        if self.holds(pos, 2) {
            Ok(load_u16(&self.bytes, pos))
        } else {
            Err(Fault::StackBoundsViolation)
        }
    }

    /// The little-endian 32-bit value at `pos`.
    pub fn read_u32(&self, pos: usize) -> (r: Result<u32, Fault>)
        ensures
            r == checked(self@.holds(pos as int, 4), self@.u32_at(pos as int)),
            self@.wf(),
    {
        if self.holds(pos, 4) {
            Ok(load_u32(&self.bytes, pos))
        } else {
            Err(Fault::StackBoundsViolation)
        }
    }

    /// The little-endian 64-bit value at `pos`.
    pub fn read_u64(&self, pos: usize) -> (r: Result<u64, Fault>)
        ensures
            r == checked(self@.holds(pos as int, 8), self@.u64_at(pos as int)),
            self@.wf(),
    {
        if self.holds(pos, 8) {
            Ok(load_u64(&self.bytes, pos))
        } else {
            Err(Fault::StackBoundsViolation)
        }
    }

    /// Stores one byte at `pos`.
    pub fn write_u8(&mut self, pos: usize, v: u8) -> (r: Result<(), Fault>)
        ensures
            updated(
                old(self)@.holds(pos as int, 1),
                old(self)@,
                old(self)@.with_u8(pos as int, v),
                r,
                final(self)@,
            ),
            final(self)@.wf(),
    {
        if self.holds(pos, 1) {
            proof {
                use_type_invariant(&*self);
            }
            self.bytes[pos] = v;
            assert(self.bytes@ =~= splice(old(self).bytes@, pos as int, seq![v]));
            Ok(())
        } else {
            Err(Fault::StackBoundsViolation)
        }
    }

    /// Stores `v` at `pos` as two bytes, least significant first.
    pub fn write_u16(&mut self, pos: usize, v: u16) -> (r: Result<(), Fault>)
        ensures
            updated(
                old(self)@.holds(pos as int, 2),
                old(self)@,
                old(self)@.with_u16(pos as int, v),
                r,
                final(self)@,
            ),
            final(self)@.wf(),
    {
        if self.holds(pos, 2) {
            proof {
                use_type_invariant(&*self);
            }
            self.bytes[pos] = (v % 0x100) as u8;
            self.bytes[pos + 1] = (v / 0x100) as u8;
            assert(self.bytes@ =~= splice(old(self).bytes@, pos as int, u16_le(v)));
            Ok(())
        } else {
            Err(Fault::StackBoundsViolation)
        }
    }

    /// Stores `v` at `pos` as four bytes, least significant first.
    pub fn write_u32(&mut self, pos: usize, v: u32) -> (r: Result<(), Fault>)
        ensures
            updated(
                old(self)@.holds(pos as int, 4),
                old(self)@,
                old(self)@.with_u32(pos as int, v),
                r,
                final(self)@,
            ),
            final(self)@.wf(),
    {
        if self.holds(pos, 4) {
            proof {
                use_type_invariant(&*self);
            }
            self.bytes[pos] = (v % 0x100) as u8;
            self.bytes[pos + 1] = (v / 0x100 % 0x100) as u8;
            self.bytes[pos + 2] = (v / 0x1_0000 % 0x100) as u8;
            self.bytes[pos + 3] = (v / 0x100_0000) as u8;
            assert(self.bytes@ =~= splice(old(self).bytes@, pos as int, u32_le(v)));
            Ok(())
        } else {
            Err(Fault::StackBoundsViolation)
        }
    }

    /// Stores `v` at `pos` as eight bytes, least significant first.
    pub fn write_u64(&mut self, pos: usize, v: u64) -> (r: Result<(), Fault>)
        ensures
            updated(
                old(self)@.holds(pos as int, 8),
                old(self)@,
                old(self)@.with_u64(pos as int, v),
                r,
                final(self)@,
            ),
            final(self)@.wf(),
    {
        if self.holds(pos, 8) {
            let lo: u32 = (v % 0x1_0000_0000) as u32;
            let hi: u32 = (v / 0x1_0000_0000) as u32;
            let first = self.write_u32(pos, lo);
            let second = self.write_u32(pos + 4, hi);
            assert(self.bytes@ =~= splice(old(self).bytes@, pos as int, u64_le(v)));
            Ok(())
        } else {
            Err(Fault::StackBoundsViolation)
        }
    }

    /// Copies `count` bytes from `src` to `dst`. The bytes copied are those
    /// that lay at `src` before the copy, also where the two ranges meet.
    pub fn copy_within(&mut self, src: usize, dst: usize, count: usize) -> (r: Result<(), Fault>)
        ensures
            updated(
                old(self)@.holds(src as int, count as int) && old(self)@.holds(
                    dst as int,
                    count as int,
                ),
                old(self)@,
                old(self)@.with_bytes(
                    dst as int,
                    old(self)@.bytes.subrange(src as int, src + count),
                ),
                r,
                final(self)@,
            ),
            final(self)@.wf(),
    {
        if !self.holds(src, count) || !self.holds(dst, count) {
            return Err(Fault::StackBoundsViolation);
        }
        proof {
            use_type_invariant(&*self);
        }
        let mut copied: Vec<u8> = Vec::new();
        let mut i: usize = 0;
        while i < count
            invariant
                i <= count,
                src + count <= self.bytes.len(),
                copied@ == self.bytes@.subrange(src as int, src + i),
            decreases count - i,
        {
            copied.push(self.bytes[src + i]);
            assert(copied@ =~= self.bytes@.subrange(src as int, src + i + 1));
            i = i + 1;
        }
        let ghost before = self.bytes@;
        let mut k: usize = 0;
        while k < count
            invariant
                k <= count,
                copied@.len() == count,
                dst + count <= self.bytes.len(),
                self.bytes@.len() == before.len(),
                self.sp == old(self).sp,
                self.sp <= self.bytes@.len(),
                before == old(self).bytes@,
                copied@ == before.subrange(src as int, src + count),
                self.bytes@ == splice(before, dst as int, copied@.subrange(0, k as int)),
            decreases count - k,
        {
            self.bytes[dst + k] = copied[k];
            assert(self.bytes@ =~= splice(before, dst as int, copied@.subrange(0, k + 1)));
            k = k + 1;
        }
        assert(copied@.subrange(0, count as int) =~= copied@);
        Ok(())
    }

    /// Pushes a 32-bit value: four bytes are claimed and `v` is stored there.
    pub fn push_u32(&mut self, v: u32) -> (r: Result<(), Fault>)
        ensures
            updated(4 <= old(self)@.sp, old(self)@, old(self)@.pushed_u32(v), r, final(self)@),
            final(self)@.wf(),
    {
        proof {
            use_type_invariant(&*self);
        }
        self.reserve(4)?;
        let sp: usize = self.sp();
        self.write_u32(sp, v)
    }

    /// Pushes a 64-bit value: eight bytes are claimed and `v` is stored there.
    pub fn push_u64(&mut self, v: u64) -> (r: Result<(), Fault>)
        ensures
            updated(8 <= old(self)@.sp, old(self)@, old(self)@.pushed_u64(v), r, final(self)@),
            final(self)@.wf(),
    {
        proof {
            use_type_invariant(&*self);
        }
        self.reserve(8)?;
        let sp: usize = self.sp();
        self.write_u64(sp, v)
    }

    /// Pops a 32-bit value: the four bytes at the stack pointer are read and
    /// freed. Where fewer are in the buffer nothing changes.
    pub fn pop_u32(&mut self) -> (r: Result<u32, Fault>)
        ensures
            r == checked(old(self)@.holds(old(self)@.sp, 4), old(self)@.u32_at(old(self)@.sp)),
            final(self)@ == (if r is Ok {
                old(self)@.with_sp(old(self)@.sp + 4)
            } else {
                old(self)@
            }),
            final(self)@.wf(),
    {
        let sp: usize = self.sp();
        let v: u32 = self.read_u32(sp)?;
        self.release(4)?;
        Ok(v)
    }
}

} // verus!

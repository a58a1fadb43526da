//! Flat 64KB byte store with region-based address resolution: the 2KB RAM is
//! mirrored four times over the low addresses, the PPU and APU register
//! regions are access errors, and the rest passes through to cartridge space.
use vstd::prelude::*;

verus! {

/// Number of bytes in the full 16-bit address space.
pub const MEM_SIZE: usize = 0x10000;

/// A read or write landed in a bus region that this machine does not
/// implement; the offending logical address is attached.
#[derive(Debug)]
pub enum MemoryError {
    PPUAccessViolation(u16),
    APUAccessViolation(u16),
}

/// The address bus: a flat byte array addressable over the whole 16-bit
/// range, owned by the calling context.
pub struct Memory {
    pub mem: Vec<u8>,
}

/// Resolution of a logical address to a physical index, per the NES memory
/// map. The whole PPU register span (mirrors included) and the APU/IO span
/// are access errors rather than storage.
pub open spec fn spec_resolve(addr: u16) -> Result<int, MemoryError> {
    if addr <= 0x1FFF {
        Ok((addr & 0x7FF) as int)
    } else if addr <= 0x3FFF {
        Err(MemoryError::PPUAccessViolation(addr))
    } else if addr <= 0x401F {
        Err(MemoryError::APUAccessViolation(addr))
    } else {
        Ok(addr as int)
    }
}

/// What a single-byte read at `addr` returns over a memory image `mem`.
pub open spec fn spec_read8(mem: Seq<u8>, addr: u16) -> Result<u8, MemoryError> {
    match spec_resolve(addr) {
        Ok(i) => Ok(mem[i]),
        Err(e) => Err(e),
    }
}

/// What a two-byte little-endian read at `addr` returns: the resolved index
/// supplies the low byte and the next physical index the high byte.
pub open spec fn spec_read16(mem: Seq<u8>, addr: u16) -> Result<u16, MemoryError> {
    match spec_resolve(addr) {
        Ok(i) => Ok((mem[i] + 256 * mem[i + 1]) as u16),
        Err(e) => Err(e),
    }
}

impl View for Memory {
    type V = Seq<u8>;

    open spec fn view(&self) -> Seq<u8> {
        self.mem@
    }
}

impl Memory {
    /// The backing array always spans the whole 64KB space.
    pub open spec fn wf(&self) -> bool {
        self.mem@.len() == MEM_SIZE
    }

    /// Fresh bus with every byte zeroed.
    pub fn new() -> (m: Memory)
        ensures
            m.wf(),
            forall|i: int| 0 <= i < MEM_SIZE ==> m@[i] == 0u8,
    {
        let mut v: Vec<u8> = Vec::new();
        while v.len() < MEM_SIZE
            invariant
                v@.len() <= MEM_SIZE,
                forall|i: int| 0 <= i < v@.len() ==> v@[i] == 0u8,
            decreases MEM_SIZE - v@.len(),
        {
            v.push(0u8);
        }
        Memory { mem: v }
    }

    /// Raw bulk write used to install program images; it bypasses address
    /// resolution. A write that would overrun the 64KB space is rejected by
    /// the precondition, so callers must bound it themselves.
    pub fn write(&mut self, index: u16, inp: &[u8])
        requires
            old(self).wf(),
            index + inp@.len() <= MEM_SIZE,
        ensures
            final(self).wf(),
            final(self)@.len() == old(self)@.len(),
            forall|i: int|
                index <= i < index + inp@.len() ==> final(self)@[i] == inp@[i - index],
            forall|i: int|
                0 <= i < MEM_SIZE && !(index <= i < index + inp@.len()) ==> final(self)@[i]
                    == old(self)@[i],
    {
        let idx = index as usize;
        let mut k: usize = 0;
        while k < inp.len()
            invariant
                self.wf(),
                old(self).wf(),
                idx == index,
                idx + inp@.len() <= MEM_SIZE,
                k <= inp@.len(),
                forall|i: int| idx <= i < idx + k ==> self@[i] == inp@[i - idx],
                forall|i: int|
                    0 <= i < MEM_SIZE && !(idx <= i < idx + k) ==> self@[i] == old(self)@[i],
            decreases inp@.len() - k,
        {
            let b = inp[k];
            let ghost prev = self@;
            self.mem[idx + k] = b;
            proof {
                assert(self@ == prev.update(idx + k, b));
            }
            k = k + 1;
        }
    }

    /// Read one byte through address resolution.
    pub fn read8(&self, addr: u16) -> (r: Result<u8, MemoryError>)
        requires
            self.wf(),
        ensures
            r == spec_read8(self@, addr),
    {
        match self.resolve_address(addr) {
            Ok(raddr) => Ok(self.mem[raddr]),
            Err(err) => Err(err),
        }
    }

    /// Read a little-endian 16-bit value: low byte at the resolved index,
    /// high byte at the next physical index. The top address is excluded
    /// because its high byte would fall outside the 64KB space.
    pub fn read16(&self, addr: u16) -> (r: Result<u16, MemoryError>)
        requires
            self.wf(),
            addr != 0xFFFF,
        ensures
            r == spec_read16(self@, addr),
    {
        match self.resolve_address(addr) {
            Ok(raddr) => {
                let lo = self.mem[raddr];
                let hi = self.mem[raddr + 1];
                Ok(lo as u16 + (hi as u16) * 256)
            },
            Err(err) => Err(err),
        }
    }

    /// Write one byte through address resolution; on a region error the
    /// memory is unchanged.
    pub fn write8(&mut self, addr: u16, val: u8) -> (r: Result<(), MemoryError>)
        requires
            old(self).wf(),
        ensures
            final(self).wf(),
            match spec_resolve(addr) {
                Ok(i) => r is Ok && final(self)@ == old(self)@.update(i, val),
                Err(e) => r == Err::<(), MemoryError>(e) && final(self)@ == old(self)@,
            },
    {
        match self.resolve_address(addr) {
            Ok(raddr) => {
                self.mem[raddr] = val;
                Ok(())
            },
            Err(err) => Err(err),
        }
    }

    /// Write a little-endian 16-bit value at the resolved index and the next
    /// physical index; on a region error the memory is unchanged.
    pub fn write16(&mut self, addr: u16, val: u16) -> (r: Result<(), MemoryError>)
        requires
            old(self).wf(),
            addr != 0xFFFF,
        ensures
            final(self).wf(),
            match spec_resolve(addr) {
                Ok(i) => r is Ok && final(self)@ == old(self)@.update(i, (val % 256) as u8).update(
                    i + 1,
                    (val / 256) as u8,
                ),
                Err(e) => r == Err::<(), MemoryError>(e) && final(self)@ == old(self)@,
            },
    {
        match self.resolve_address(addr) {
            Ok(raddr) => {
                self.mem[raddr] = (val % 256) as u8;
                self.mem[raddr + 1] = (val / 256) as u8;
                Ok(())
            },
            Err(err) => Err(err),
        }
    }

    /// Resolve a logical address to a physical index per the NES memory map.
    fn resolve_address(&self, addr: u16) -> (r: Result<usize, MemoryError>)
        ensures
            match r {
                Ok(i) => spec_resolve(addr) == Ok::<int, MemoryError>(i as int) && i <= addr && i
                    < MEM_SIZE,
                Err(e) => spec_resolve(addr) == Err::<int, MemoryError>(e),
            },
    {
        if addr <= 0x1FFF {
            proof {
                assert((addr & 0x7FF) <= addr && (addr & 0x7FF) < 0x800) by (bit_vector);
            }
            return Ok((addr & 0x7FF) as usize);
        }
        if addr <= 0x3FFF {
            return Err(MemoryError::PPUAccessViolation(addr));
        }
        if addr <= 0x401F {
            return Err(MemoryError::APUAccessViolation(addr));
        }
        Ok(addr as usize)
    }
}

} // verus!

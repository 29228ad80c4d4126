//! Plain memory regions: the 2 KiB CPU work RAM, the 2 KiB nametable RAM,
//! the 32-byte palette RAM with its sprite/background mirroring fold, and the
//! 256-byte OAM with its wrap-around DMA fill.

use vstd::prelude::*;

verus! {

/// A value masked with $07FF indexes a 2 KiB region.
pub proof fn lemma_mask_07ff(a: u16)
    by (bit_vector)
    ensures
        a & 0x07FF < 0x0800,
{
}

/// A value masked with $1F indexes the 32-byte palette.
pub proof fn lemma_mask_1f(a: u16)
    by (bit_vector)
    ensures
        a & 0x1F < 0x20,
{
}

/// 2 KiB of CPU work RAM, mirrored across $0000-$1FFF by the bus: every
/// access folds the address with $07FF.
pub struct Ram {
    pub data: Vec<u8>,
}

impl View for Ram {
    type V = Seq<u8>;

    open spec fn view(&self) -> Seq<u8> {
        self.data@
    }
}

impl Ram {
    pub open spec fn wf(&self) -> bool {
        self@.len() == 0x0800
    }

    pub fn new() -> (r: Ram)
        ensures
            r.wf(),
            r@ == Seq::new(0x0800nat, |i: int| 0u8),
    {
        let mut data: Vec<u8> = Vec::new();
        let mut i: usize = 0;
        while i < 0x0800
            invariant
                i <= 0x0800,
                data@.len() == i,
                forall|j: int| 0 <= j < i ==> data@[j] == 0u8,
            decreases 0x0800 - i,
        {
            data.push(0);
            i = i + 1;
        }
        proof {
            assert(data@ =~= Seq::new(0x0800nat, |i: int| 0u8));
        }
        Ram { data }
    }

    pub fn read(&self, address: u16) -> (r: u8)
        requires
            self.wf(),
        ensures
            r == self@[(address & 0x07FF) as int],
    {
        proof {
            lemma_mask_07ff(address);
        }
        let index = (address & 0x07FF) as usize;
        self.data[index]
    }

    pub fn write(&mut self, address: u16, value: u8)
        requires
            old(self).wf(),
        ensures
            final(self).wf(),
            final(self)@ == old(self)@.update((address & 0x07FF) as int, value),
    {
        proof {
            lemma_mask_07ff(address);
        }
        let index = (address & 0x07FF) as usize;
        self.data.set(index, value);
    }
}

/// 2 KiB of nametable RAM; the mirroring fold chosen by the mapper is out of
/// scope beyond storage, so the region mirrors with the same $07FF mask.
pub struct Vram {
    pub data: Vec<u8>,
}

impl View for Vram {
    type V = Seq<u8>;

    open spec fn view(&self) -> Seq<u8> {
        self.data@
    }
}

impl Vram {
    pub open spec fn wf(&self) -> bool {
        self@.len() == 0x0800
    }

    pub fn new() -> (r: Vram)
        ensures
            r.wf(),
            r@ == Seq::new(0x0800nat, |i: int| 0u8),
    {
        let ram = Ram::new();
        Vram { data: ram.data }
    }

    pub fn read(&self, address: u16) -> (r: u8)
        requires
            self.wf(),
        ensures
            r == self@[(address & 0x07FF) as int],
    {
        proof {
            lemma_mask_07ff(address);
        }
        let index = (address & 0x07FF) as usize;
        self.data[index]
    }

    pub fn write(&mut self, address: u16, value: u8)
        requires
            old(self).wf(),
        ensures
            final(self).wf(),
            final(self)@ == old(self)@.update((address & 0x07FF) as int, value),
    {
        proof {
            lemma_mask_07ff(address);
        }
        let index = (address & 0x07FF) as usize;
        self.data.set(index, value);
    }
}

/// The palette slot an address lands in: the address is masked with $1F, and
/// the sprite transparent entries $10/$14/$18/$1C fold onto the matching
/// background entries $00/$04/$08/$0C.
pub open spec fn spec_palette_index(address: u16) -> int {
    let index = (address & 0x1F) as int;
    if index >= 0x10 && index % 4 == 0 {
        index - 0x10
    } else {
        index
    }
}

/// 32 bytes of palette RAM.
pub struct Palette {
    pub data: Vec<u8>,
}

impl View for Palette {
    type V = Seq<u8>;

    open spec fn view(&self) -> Seq<u8> {
        self.data@
    }
}

impl Palette {
    pub open spec fn wf(&self) -> bool {
        self@.len() == 0x20
    }

    pub fn new() -> (r: Palette)
        ensures
            r.wf(),
            r@ == Seq::new(0x20nat, |i: int| 0u8),
    {
        let mut data: Vec<u8> = Vec::new();
        let mut i: usize = 0;
        while i < 0x20
            invariant
                i <= 0x20,
                data@.len() == i,
                forall|j: int| 0 <= j < i ==> data@[j] == 0u8,
            decreases 0x20 - i,
        {
            data.push(0);
            i = i + 1;
        }
        proof {
            assert(data@ =~= Seq::new(0x20nat, |i: int| 0u8));
        }
        Palette { data }
    }

    /// Fold a PPU address into its palette slot.
    fn normalize(address: u16) -> (r: usize)
        ensures
            r == spec_palette_index(address),
            r < 0x20,
    {
        proof {
            lemma_mask_1f(address);
        }
        let index = address & 0x1F;
        if index >= 0x10 && index % 4 == 0 {
            (index - 0x10) as usize
        } else {
            index as usize
        }
    }

    pub fn read(&self, address: u16) -> (r: u8)
        requires
            self.wf(),
        ensures
            r == self@[spec_palette_index(address)],
    {
        let index = Self::normalize(address);
        self.data[index]
    }

    pub fn write(&mut self, address: u16, value: u8)
        requires
            old(self).wf(),
        ensures
            final(self).wf(),
            final(self)@ == old(self)@.update(spec_palette_index(address), value),
    {
        let index = Self::normalize(address);
        self.data.set(index, value);
    }
}

/// Where the source byte for OAM slot `k` sits when a DMA fill starts at
/// byte `start`: the copy begins at `start` and wraps back to offset 0.
pub open spec fn spec_oam_source_index(start: u8, k: int) -> int {
    if k >= start {
        k - start
    } else {
        k + 0x100 - start
    }
}

/// OAM contents after a wrap-around DMA fill from a 256-byte source.
pub open spec fn spec_oam_after_dma(start: u8, source: Seq<u8>) -> Seq<u8> {
    Seq::new(0x100nat, |k: int| source[spec_oam_source_index(start, k)])
}

/// The 256-byte object attribute memory, initialized to $FF.
pub struct Oam {
    pub data: Vec<u8>,
}

impl View for Oam {
    type V = Seq<u8>;

    open spec fn view(&self) -> Seq<u8> {
        self.data@
    }
}

impl Oam {
    pub open spec fn wf(&self) -> bool {
        self@.len() == 0x100
    }

    pub fn new() -> (r: Oam)
        ensures
            r.wf(),
            r@ == Seq::new(0x100nat, |i: int| 0xFFu8),
    {
        let mut data: Vec<u8> = Vec::new();
        let mut i: usize = 0;
        while i < 0x100
            invariant
                i <= 0x100,
                data@.len() == i,
                forall|j: int| 0 <= j < i ==> data@[j] == 0xFFu8,
            decreases 0x100 - i,
        {
            data.push(0xFF);
            i = i + 1;
        }
        proof {
            assert(data@ =~= Seq::new(0x100nat, |i: int| 0xFFu8));
        }
        Oam { data }
    }

    /// Copy the 256 source bytes into OAM beginning at byte `start`,
    /// wrapping back to offset 0 at the end of the region.
    pub fn dma_write(&mut self, start_address: u8, source: &Vec<u8>)
        requires
            old(self).wf(),
            source@.len() == 0x100,
        ensures
            final(self).wf(),
            final(self)@ == spec_oam_after_dma(start_address, source@),
    {
        let mut j: usize = 0;
        while j < 0x100
            invariant
                j <= 0x100,
                self@.len() == 0x100,
                source@.len() == 0x100,
                forall|k: int|
                    0 <= k < 0x100 ==> self@[k] == (if 0 <= spec_oam_source_index(start_address, k)
                        < j {
                        source@[spec_oam_source_index(start_address, k)]
                    } else {
                        old(self)@[k]
                    }),
            decreases 0x100 - j,
        {
            let raw = (start_address as usize) + j;
            let slot = if raw >= 0x100 {
                raw - 0x100
            } else {
                raw
            };
            assert(spec_oam_source_index(start_address, slot as int) == j as int);
            self.data.set(slot, source[j]);
            j = j + 1;
        }
        proof {
            assert(self@ =~= spec_oam_after_dma(start_address, source@));
        }
    }
}

} // verus!

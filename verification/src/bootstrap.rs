use vstd::prelude::*;

verus! {

/// The five linker-provided addresses that delimit the BSS region, the
/// DATA region in RAM, and the load image of DATA in flash. Only the
/// numeric values are meaningful.
#[derive(Clone, Copy, Debug, PartialEq, Eq, Structural)]
pub struct LinkerMap {
    /// Start of BSS in RAM.
    pub sbss: usize,
    /// One past the end of BSS in RAM.
    pub ebss: usize,
    /// Start of DATA in RAM (run address).
    pub sdata: usize,
    /// One past the end of DATA in RAM.
    pub edata: usize,
    /// Load address of DATA in flash.
    pub sidata: usize,
}

impl LinkerMap {
    /// Both regions lie inside the modelled RAM, the DATA load image lies
    /// inside the modelled flash, and BSS and DATA do not overlap.
    pub open spec fn wf(self, ram_base: int, ram_len: int, flash_base: int, flash_len: int) -> bool {
        &&& ram_base <= self.sbss <= self.ebss <= ram_base + ram_len
        &&& ram_base <= self.sdata <= self.edata <= ram_base + ram_len
        &&& flash_base <= self.sidata
        &&& self.sidata + (self.edata - self.sdata) <= flash_base + flash_len
        &&& (self.ebss <= self.sdata || self.edata <= self.sbss)
    }
}

/// Writes zero to every byte of `ram[lo..hi)` and touches nothing else.
pub fn zero_region(ram: &mut Vec<u8>, lo: usize, hi: usize)
    requires
        lo <= hi <= old(ram).len(),
    ensures
        final(ram).len() == old(ram).len(),
        forall|i: int| lo <= i < hi ==> final(ram)@[i] == 0u8,
        forall|i: int| 0 <= i < old(ram).len() && !(lo <= i < hi) ==> final(ram)@[i] == old(ram)@[i],
{
    let mut j: usize = lo;
    while j < hi
        invariant
            lo <= j <= hi <= ram.len(),
            ram.len() == old(ram).len(),
            forall|i: int| lo <= i < j ==> ram@[i] == 0u8,
            forall|i: int| 0 <= i < old(ram).len() && !(lo <= i < j) ==> ram@[i] == old(ram)@[i],
        decreases hi - j,
    {
        ram[j] = 0;
        j = j + 1;
    }
}

/// Copies `len` bytes from `src[src_lo..)` into `dst[dst_lo..)` and touches
/// nothing else.
pub fn copy_region(dst: &mut Vec<u8>, dst_lo: usize, src: &Vec<u8>, src_lo: usize, len: usize)
    requires
        dst_lo + len <= old(dst).len(),
        src_lo + len <= src.len(),
    ensures
        final(dst).len() == old(dst).len(),
        forall|i: int| dst_lo <= i < dst_lo + len
            ==> #[trigger] final(dst)@[i] == src@[i - dst_lo + src_lo],
        forall|i: int| 0 <= i < old(dst).len() && !(dst_lo <= i < dst_lo + len)
            ==> final(dst)@[i] == old(dst)@[i],
{
    let mut j: usize = 0;
    while j < len
        invariant
            j <= len,
            dst_lo + len <= dst.len(),
            src_lo + len <= src.len(),
            dst.len() == old(dst).len(),
            forall|i: int| dst_lo <= i < dst_lo + j ==> #[trigger] dst@[i] == src@[i - dst_lo + src_lo],
            forall|i: int| 0 <= i < old(dst).len() && !(dst_lo <= i < dst_lo + j) ==> dst@[i] == old(dst)@[i],
        decreases len - j,
    {
        dst[dst_lo + j] = src[src_lo + j];
        j = j + 1;
    }
}

/// Reset-time memory initialization, the steps the reset handler performs
/// before it may call any code that touches static storage: zero the bytes
/// of `[sbss, ebss)` and copy the `edata - sdata` bytes loaded at `sidata`
/// in flash to their run addresses at `[sdata, edata)` in RAM.
///
/// `ram` models the RAM bytes starting at address `ram_base`; `flash`
/// models the flash bytes starting at `flash_base`. Every RAM byte outside
/// the two regions keeps its value; empty regions are valid and leave RAM
/// untouched.
pub fn reset(ram: &mut Vec<u8>, ram_base: usize, flash: &Vec<u8>, flash_base: usize, lm: &LinkerMap)
    requires
        lm.wf(ram_base as int, old(ram).len() as int, flash_base as int, flash.len() as int),
    ensures
        final(ram).len() == old(ram).len(),
        forall|i: int| lm.sbss - ram_base <= i < lm.ebss - ram_base
            ==> #[trigger] final(ram)@[i] == 0u8,
        forall|i: int| lm.sdata - ram_base <= i < lm.edata - ram_base
            ==> #[trigger] final(ram)@[i] == flash@[i - (lm.sdata - ram_base) + (lm.sidata - flash_base)],
        forall|i: int| 0 <= i < old(ram).len()
            && !(lm.sbss - ram_base <= i < lm.ebss - ram_base)
            && !(lm.sdata - ram_base <= i < lm.edata - ram_base)
            ==> #[trigger] final(ram)@[i] == old(ram)@[i],
{
    zero_region(ram, lm.sbss - ram_base, lm.ebss - ram_base);
    copy_region(ram, lm.sdata - ram_base, flash, lm.sidata - flash_base, lm.edata - lm.sdata);
}

/// An empty BSS and an empty DATA region leave every RAM byte unchanged:
/// in that case the reset initialization performs no writes.
pub proof fn lemma_reset_empty_regions_unchanged(
    before: Seq<u8>,
    after: Seq<u8>,
    ram_base: int,
    lm: LinkerMap,
)
    requires
        lm.sbss == lm.ebss,
        lm.sdata == lm.edata,
        after.len() == before.len(),
        forall|i: int| 0 <= i < before.len()
            && !(lm.sbss - ram_base <= i < lm.ebss - ram_base)
            && !(lm.sdata - ram_base <= i < lm.edata - ram_base)
            ==> #[trigger] after[i] == before[i],
    ensures
        after =~= before,
{
}

} // verus!

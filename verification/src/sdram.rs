//! External SDRAM of the STM32F469I-Discovery board.
//!
//! The IS42S32400F-6BL SDRAM sits on FMC bank 1 (0xC000_0000, 16 MiB, 32-bit
//! data bus, 12-bit address, 4 internal banks). The FMC bring-up maps it; this
//! module keeps the mapped base address and describes the region handed out.

use vstd::prelude::*;

verus! {

broadcast use vstd::layout::layout_of_primitives;

/// Total external SDRAM capacity in bytes.
pub const SDRAM_SIZE_BYTES: usize = 16 * 1024 * 1024;

/// Number of 32-bit words covered by the quick smoke test (4 KiB).
pub const SDRAM_QUICK_TEST_WORDS: usize = 1024;

/// Pattern written by the quick smoke test.
pub const SDRAM_QUICK_TEST_PATTERN: u32 = 0xDEAD_BEEF;

/// A memory region of `len` elements starting at address `base`.
#[derive(Clone, Copy, Debug, PartialEq, Eq, Structural)]
pub struct SdramRegion {
    /// Address of the first element.
    pub base: usize,
    /// Number of elements.
    pub len: usize,
}

/// FMC SDRAM controller for the IS42S32400F-6BL device, after initialization.
pub struct SdramCtrl {
    base: usize,
}

impl SdramCtrl {
    /// Address the SDRAM is mapped at.
    pub closed spec fn spec_base(&self) -> usize {
        self.base
    }

    /// Controller for an SDRAM that the FMC has mapped at address `base`.
    pub fn from_base_address(base: usize) -> (c: Self)
        ensures
            c.spec_base() == base,
    {
        SdramCtrl { base }
    }

    /// Return the SDRAM base address.
    pub fn base_address(&self) -> (a: usize)
        ensures
            a == self.spec_base(),
    {
        self.base
    }

    /// The whole SDRAM as elements of type `T`: as many as fit in its 16 MiB.
    fn into_slice<T>(self) -> (r: SdramRegion)
        requires
            vstd::layout::size_of::<T>() > 0,
        ensures
            r.base == self.spec_base(),
            r.len == SDRAM_SIZE_BYTES as nat / vstd::layout::size_of::<T>(),
    {
        let len = SDRAM_SIZE_BYTES / core::mem::size_of::<T>();
        SdramRegion { base: self.base, len }
    }

    /// Consume the controller and yield the full SDRAM region as `u16` elements.
    ///
    /// This is the entire 16 MiB SDRAM region — not a framebuffer view. Callers
    /// are responsible for sub-slicing into framebuffers and any DMA/cache
    /// coherency, and must ensure no other code aliases this memory. This is a
    /// one-shot operation: the controller is consumed.
    pub fn into_raw_slice(self) -> (r: SdramRegion)
        ensures
            r.base == self.spec_base(),
            r.len == SDRAM_SIZE_BYTES / 2,
            r.len * 2 == SDRAM_SIZE_BYTES,
    {
        self.into_slice::<u16>()
    }

    /// Consume the controller and yield the full SDRAM region as bytes.
    pub fn into_bytes(self) -> (r: SdramRegion)
        ensures
            r.base == self.spec_base(),
            r.len == SDRAM_SIZE_BYTES,
    {
        self.into_slice::<u8>()
    }

    /// Run a quick destructive SDRAM smoke test over `words`, the first 4 KiB of
    /// the SDRAM: write the pattern 0xDEAD_BEEF everywhere, read it back, then
    /// clear the words to zero. Returns `false` if any word read back differently.
    pub fn test_quick(&mut self, words: &mut [u32]) -> (ok: bool)
        requires
            old(words)@.len() == SDRAM_QUICK_TEST_WORDS,
        ensures
            ok,
            final(self).spec_base() == old(self).spec_base(),
            final(words)@.len() == SDRAM_QUICK_TEST_WORDS,
            forall|i: int| 0 <= i < SDRAM_QUICK_TEST_WORDS ==> #[trigger] final(words)@[i] == 0,
    {
        let n = words.len();
        let mut i: usize = 0;
        while i < n
            invariant
                n == words@.len(),
                i <= n,
                forall|j: int| 0 <= j < i ==> #[trigger] words@[j] == SDRAM_QUICK_TEST_PATTERN,
            decreases n - i,
        {
            words[i] = SDRAM_QUICK_TEST_PATTERN;
            i = i + 1;
        }
        let mut j: usize = 0;
        while j < n
            invariant
                n == words@.len(),
                j <= n,
                forall|k: int| 0 <= k < n ==> #[trigger] words@[k] == SDRAM_QUICK_TEST_PATTERN,
            decreases n - j,
        {
            if words[j] != SDRAM_QUICK_TEST_PATTERN {
                return false;
            }
            j = j + 1;
        }
        let mut k: usize = 0;
        while k < n
            invariant
                n == words@.len(),
                k <= n,
                forall|m: int| 0 <= m < k ==> #[trigger] words@[m] == 0,
            decreases n - k,
        {
            words[k] = 0;
            k = k + 1;
        }
        true
    }
}

} // verus!

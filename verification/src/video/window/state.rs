//! The state of a window as a set of named flags.

use vstd::prelude::*;

verus! {

/// Every bit that belongs to a named flag.
pub const WINDOW_FLAGS_KNOWN: u32 = 0x3000_7fff;

/// A named property of a window.
#[derive(Debug, Clone, Copy, PartialEq, Eq, Structural)]
pub enum WindowFlag {
    Fullscreen,
    FullscreenDesktop,
    OpenGl,
    Vulkan,
    Metal,
    Shown,
    Hidden,
    Borderless,
    Resizable,
    Minimized,
    Maximized,
    InputGrabbed,
    InputFocus,
    MouseFocus,
    Foreign,
    AllowHighDpi,
    MouseCapture,
}

impl WindowFlag {
    /// The bits that the native layer sets for this flag. Desktop
    /// fullscreen takes the fullscreen bit and one more.
    pub open spec fn mask(self) -> u32 {
        match self {
            WindowFlag::Fullscreen => 0x0000_0001,
            WindowFlag::OpenGl => 0x0000_0002,
            WindowFlag::Shown => 0x0000_0004,
            WindowFlag::Hidden => 0x0000_0008,
            WindowFlag::Borderless => 0x0000_0010,
            WindowFlag::Resizable => 0x0000_0020,
            WindowFlag::Minimized => 0x0000_0040,
            WindowFlag::Maximized => 0x0000_0080,
            WindowFlag::InputGrabbed => 0x0000_0100,
            WindowFlag::InputFocus => 0x0000_0200,
            WindowFlag::MouseFocus => 0x0000_0400,
            WindowFlag::Foreign => 0x0000_0800,
            WindowFlag::FullscreenDesktop => 0x0000_1001,
            WindowFlag::AllowHighDpi => 0x0000_2000,
            WindowFlag::MouseCapture => 0x0000_4000,
            WindowFlag::Vulkan => 0x1000_0000,
            WindowFlag::Metal => 0x2000_0000,
        }
    }

    /// The bits that the native layer sets for this flag.
    pub fn bits(&self) -> (bits: u32)
        ensures
            bits == self.mask(),
    {
        match self {
            WindowFlag::Fullscreen => 0x0000_0001,
            WindowFlag::OpenGl => 0x0000_0002,
            WindowFlag::Shown => 0x0000_0004,
            WindowFlag::Hidden => 0x0000_0008,
            WindowFlag::Borderless => 0x0000_0010,
            WindowFlag::Resizable => 0x0000_0020,
            WindowFlag::Minimized => 0x0000_0040,
            WindowFlag::Maximized => 0x0000_0080,
            WindowFlag::InputGrabbed => 0x0000_0100,
            WindowFlag::InputFocus => 0x0000_0200,
            WindowFlag::MouseFocus => 0x0000_0400,
            WindowFlag::Foreign => 0x0000_0800,
            WindowFlag::FullscreenDesktop => 0x0000_1001,
            WindowFlag::AllowHighDpi => 0x0000_2000,
            WindowFlag::MouseCapture => 0x0000_4000,
            WindowFlag::Vulkan => 0x1000_0000,
            WindowFlag::Metal => 0x2000_0000,
        }
    }

    /// The bits of every flag are among the known bits.
    pub proof fn mask_is_known(flag: WindowFlag)
        ensures
            flag.mask() & WINDOW_FLAGS_KNOWN == flag.mask(),
    {
        assert(0x0000_0001u32 & 0x3000_7fff == 0x0000_0001 && 0x0000_0002u32 & 0x3000_7fff
            == 0x0000_0002 && 0x0000_0004u32 & 0x3000_7fff == 0x0000_0004 && 0x0000_0008u32
            & 0x3000_7fff == 0x0000_0008 && 0x0000_0010u32 & 0x3000_7fff == 0x0000_0010
            && 0x0000_0020u32 & 0x3000_7fff == 0x0000_0020 && 0x0000_0040u32 & 0x3000_7fff
            == 0x0000_0040 && 0x0000_0080u32 & 0x3000_7fff == 0x0000_0080 && 0x0000_0100u32
            & 0x3000_7fff == 0x0000_0100 && 0x0000_0200u32 & 0x3000_7fff == 0x0000_0200
            && 0x0000_0400u32 & 0x3000_7fff == 0x0000_0400 && 0x0000_0800u32 & 0x3000_7fff
            == 0x0000_0800 && 0x0000_1001u32 & 0x3000_7fff == 0x0000_1001 && 0x0000_2000u32
            & 0x3000_7fff == 0x0000_2000 && 0x0000_4000u32 & 0x3000_7fff == 0x0000_4000
            && 0x1000_0000u32 & 0x3000_7fff == 0x1000_0000 && 0x2000_0000u32 & 0x3000_7fff
            == 0x2000_0000) by (bit_vector);
    }
}

/// The named flags that are set on a window.
#[derive(Debug, Clone, Copy, PartialEq, Eq, Structural)]
pub struct WindowState {
    bits: u32,
}

impl WindowState {
    #[verifier::type_invariant]
    spec fn only_known_bits(self) -> bool {
        self.bits & WINDOW_FLAGS_KNOWN == self.bits
    }

    /// The bits of the flags that are set.
    pub closed spec fn bits_of(self) -> u32 {
        self.bits
    }

    /// Whether every bit of `flag` is set.
    pub open spec fn has(self, flag: WindowFlag) -> bool {
        self.bits_of() & flag.mask() == flag.mask()
    }

    /// The state that the native flag bits stand for. Bits that belong to
    /// no named flag are dropped.
    pub fn from_bits_truncate(bits: u32) -> (state: WindowState)
        ensures
            state.bits_of() == bits & WINDOW_FLAGS_KNOWN,
            forall|flag: WindowFlag| #[trigger]
                state.has(flag) <==> bits & flag.mask() == flag.mask(),
    {
        let kept = bits & WINDOW_FLAGS_KNOWN;
        assert(kept & 0x3000_7fff == kept) by (bit_vector)
            requires
                kept == bits & 0x3000_7fff,
        ;
        let state = WindowState { bits: kept };
        assert forall|flag: WindowFlag| #[trigger]
            state.has(flag) <==> bits & flag.mask() == flag.mask() by {
            WindowState::truncation_keeps_flags(state, bits, flag);
        }
        state
    }

    /// The bits of the flags that are set, which are all known bits.
    pub fn bits(&self) -> (bits: u32)
        ensures
            bits == self.bits_of(),
            bits & WINDOW_FLAGS_KNOWN == bits,
    {
        proof {
            use_type_invariant(self);
        }
        self.bits
    }

    /// Whether `flag` is set.
    pub fn contains(&self, flag: WindowFlag) -> (set: bool)
        ensures
            set == self.has(flag),
    {
        let mask = flag.bits();
        self.bits & mask == mask
    }

    /// Dropping the unknown bits changes no named flag: a flag is set in
    /// the state made from `bits` exactly when all its bits are set in
    /// `bits`.
    pub proof fn truncation_keeps_flags(state: WindowState, bits: u32, flag: WindowFlag)
        requires
            state.bits_of() == bits & WINDOW_FLAGS_KNOWN,
        ensures
            state.has(flag) <==> bits & flag.mask() == flag.mask(),
    {
        WindowFlag::mask_is_known(flag);
        let mask = flag.mask();
        let kept = state.bits_of();
        assert((kept & mask == mask) <==> (bits & mask == mask)) by (bit_vector)
            requires
                kept == bits & 0x3000_7fff,
                mask & 0x3000_7fff == mask,
        ;
    }
}

} // verus!

//! The wire schemes: each has its own format tag and says whether the
//! whitening layer runs underneath the authenticated encryption.

use vstd::prelude::*;

verus! {

/// Format tag of the current scheme: the ASCII bytes `SQEP4.0-LITE`.
pub const LITE_TAG: [u8; 12] = [0x53, 0x51, 0x45, 0x50, 0x34, 0x2e, 0x30, 0x2d, 0x4c, 0x49, 0x54, 0x45];

/// Format tag of the earlier scheme: the ASCII bytes `SQEP3.9`.
pub const LEGACY_TAG: [u8; 7] = [0x53, 0x51, 0x45, 0x50, 0x33, 0x2e, 0x39];

/// Which frame layout a cipher speaks.
#[derive(Clone, Copy, Debug, PartialEq, Eq, Structural)]
pub enum Scheme {
    /// Whitened payload under the tag `SQEP4.0-LITE`.
    Lite,
    /// Plain payload under the tag `SQEP3.9`.
    Legacy,
}

impl Scheme {
    /// The format tag that opens every frame of this scheme.
    pub open spec fn tag(self) -> Seq<u8> {
        match self {
            Scheme::Lite => LITE_TAG@,
            Scheme::Legacy => LEGACY_TAG@,
        }
    }

    /// Whether the payload is whitened before it is sealed.
    pub open spec fn masks(self) -> bool {
        self == Scheme::Lite
    }

    /// The format tag as bytes.
    pub fn format_tag(&self) -> (tag: &'static [u8])
        ensures
            tag@ == self.tag(),
            tag@.len() <= 12,
    {
        match self {
            Scheme::Lite => LITE_TAG.as_slice(),
            Scheme::Legacy => LEGACY_TAG.as_slice(),
        }
    }

    /// Whether the whitening layer is part of this scheme.
    pub fn masking(&self) -> (on: bool)
        ensures
            on == self.masks(),
    {
        match self {
            Scheme::Lite => true,
            Scheme::Legacy => false,
        }
    }
}

} // verus!

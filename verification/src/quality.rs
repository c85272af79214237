//! Audio quality identifiers and their fallback order.

use vstd::prelude::*;

verus! {

/// An audio format offered by the backend, identified by a numeric id.
#[derive(Clone, Copy, Debug, PartialEq, Eq, Structural)]
pub enum Quality {
    /// Lossy MP3, format id 5.
    Mp3,
    /// CD quality FLAC (16 bit / 44.1 kHz), format id 6.
    Cd,
    /// Hi-res FLAC up to 24 bit / 96 kHz, format id 7.
    HiRes96,
    /// Hi-res FLAC up to 24 bit / 192 kHz, format id 27.
    HiRes192,
}

/// The numeric format id the backend uses for a quality.
pub open spec fn quality_id_spec(q: Quality) -> u32 {
    match q {
        Quality::Mp3 => 5,
        Quality::Cd => 6,
        Quality::HiRes96 => 7,
        Quality::HiRes192 => 27,
    }
}

/// The fixed fallback order, highest fidelity first.
pub open spec fn fallback_order_spec() -> Seq<Quality> {
    seq![Quality::HiRes192, Quality::HiRes96, Quality::Cd, Quality::Mp3]
}

impl Quality {
    /// The numeric format id sent in request parameters.
    pub fn id(&self) -> (r: u32)
        ensures
            r == quality_id_spec(*self),
    {
        match self {
            Quality::Mp3 => 5,
            Quality::Cd => 6,
            Quality::HiRes96 => 7,
            Quality::HiRes192 => 27,
        }
    }

    /// All qualities ordered from highest to lowest fidelity.
    pub fn fallback_order() -> (r: Vec<Quality>)
        ensures
            r@ == fallback_order_spec(),
    {
        let mut v: Vec<Quality> = Vec::new();
        v.push(Quality::HiRes192);
        v.push(Quality::HiRes96);
        v.push(Quality::Cd);
        v.push(Quality::Mp3);
        proof {
            assert(v@ =~= fallback_order_spec());
        }
        v
    }
}

} // verus!

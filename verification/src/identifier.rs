//! The identifiers that level data carries, and which of them are supported.

use vstd::prelude::*;
use vstd::string::StringSliceAdditionalSpecFns;
use vstd::utf8::encode_utf8_decode_utf8;

verus! {

/// The grid value of a spike tile, the only supported grid value.
pub const SPIKE_GRID_VALUE: i32 = 2;

/// Whether `name` is the name of a supported entity: one of the two crystals.
pub open spec fn is_crystal_name(name: Seq<char>) -> bool {
    name == "RedCrystal"@ || name == "GreenCrystal"@
}

/// What the level data says a placed object is: the value of its grid cell,
/// or the name of its entity.
#[derive(Clone, Copy, Debug)]
pub enum RawIdentifier<'a> {
    GridValue(i32),
    Name(&'a str),
}

impl<'a> RawIdentifier<'a> {
    /// Whether classification accepts this identifier.
    pub open spec fn is_supported(self) -> bool {
        match self {
            RawIdentifier::GridValue(value) => value == SPIKE_GRID_VALUE,
            RawIdentifier::Name(name) => is_crystal_name(name@),
        }
    }
}

/// Whether `name` is the name of a supported entity.
pub fn is_crystal(name: &str) -> (b: bool)
    ensures
        b == is_crystal_name(name@),
{
    same_text(name, "RedCrystal") || same_text(name, "GreenCrystal")
}

/// Whether two strings hold the same characters, decided on their bytes.
fn same_text(a: &str, b: &str) -> (same: bool)
    ensures
        same == (a@ == b@),
{
    let x = a.as_bytes();
    let y = b.as_bytes();
    proof {
        // Equal encodings decode to equal texts.
        encode_utf8_decode_utf8(a@);
        encode_utf8_decode_utf8(b@);
    }
    if x.len() != y.len() {
        return false;
    }
    let mut i: usize = 0;
    while i < x.len()
        invariant
            i <= x.len(),
            x.len() == y.len(),
            forall|j: int| 0 <= j < i ==> x@[j] == y@[j],
            x@ == a.spec_bytes(),
            y@ == b.spec_bytes(),
        decreases x.len() - i,
    {
        if x[i] != y[i] {
            return false;
        }
        i += 1;
    }
    assert(x@ =~= y@);
    true
}

} // verus!

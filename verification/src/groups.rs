//! Collision-group labels and packed sets of them.
//!
//! A shape belongs to some groups (its membership) and interacts with some
//! groups (its filter mask). Both are sets over the closed family of labels
//! below, held in one machine word so that combining them never allocates.

use vstd::prelude::*;

verus! {

/// A named collision group.
#[derive(Clone, Copy, Debug, PartialEq, Eq, Structural)]
pub enum GroupLabel {
    PlayerCollider,
    PlayerSensor,
    Terrain,
    LightRay,
    WhiteRay,
}

impl GroupLabel {
    /// The bit that stands for this label in a packed set.
    pub open spec fn spec_bit(self) -> u32 {
        match self {
            GroupLabel::PlayerCollider => 0x01,
            GroupLabel::PlayerSensor => 0x02,
            GroupLabel::Terrain => 0x04,
            GroupLabel::LightRay => 0x08,
            GroupLabel::WhiteRay => 0x10,
        }
    }

    /// The bit that stands for this label in a packed set.
    #[verifier::when_used_as_spec(spec_bit)]
    pub fn bit(self) -> (b: u32)
        ensures
            b == self.spec_bit(),
    {
        match self {
            GroupLabel::PlayerCollider => 0x01,
            GroupLabel::PlayerSensor => 0x02,
            GroupLabel::Terrain => 0x04,
            GroupLabel::LightRay => 0x08,
            GroupLabel::WhiteRay => 0x10,
        }
    }
}

/// The contribution of `label` to the mask of `labels`: its bit if it is a
/// member, nothing otherwise.
pub open spec fn bit_if_member(labels: Set<GroupLabel>, label: GroupLabel) -> int {
    if labels.contains(label) {
        label.spec_bit() as int
    } else {
        0
    }
}

/// The word that packs `labels`: the sum of the bits of its members.
pub open spec fn mask_of(labels: Set<GroupLabel>) -> int {
    bit_if_member(labels, GroupLabel::PlayerCollider)
        + bit_if_member(labels, GroupLabel::PlayerSensor)
        + bit_if_member(labels, GroupLabel::Terrain)
        + bit_if_member(labels, GroupLabel::LightRay)
        + bit_if_member(labels, GroupLabel::WhiteRay)
}

/// A set of group labels, packed into one word.
///
/// Its view is the mathematical set of the labels it holds.
#[derive(Clone, Copy, Debug, PartialEq, Eq)]
pub struct GroupSet {
    bits: u32,
}

impl View for GroupSet {
    type V = Set<GroupLabel>;

    closed spec fn view(&self) -> Set<GroupLabel> {
        Set::new(|label: GroupLabel| self.bits & label.spec_bit() != 0)
    }
}

impl GroupSet {
    /// Only bits that stand for a label are ever set.
    #[verifier::type_invariant]
    spec fn only_label_bits(self) -> bool {
        self.bits <= 0x1f
    }

    /// The set that holds `label` and nothing else.
    pub fn single(label: GroupLabel) -> (s: GroupSet)
        ensures
            s@ =~= set![label],
    {
        let bits: u32 = label.bit();
        proof {
            lemma_label_bits_disjoint();
        }
        GroupSet { bits }
    }

    /// The set of the labels that are in `self` or in `other`.
    pub fn union(self, other: GroupSet) -> (s: GroupSet)
        ensures
            s@ =~= self@.union(other@),
    {
        let a: u32 = self.bits;
        let b: u32 = other.bits;
        proof {
            use_type_invariant(&self);
            use_type_invariant(&other);
            assert((a | b) <= 0x1f) by (bit_vector)
                requires
                    a <= 0x1f,
                    b <= 0x1f,
            ;
            assert forall|m: u32| ((a | b) & m != 0) <==> (a & m != 0 || b & m != 0) by {
                assert(((a | b) & m != 0) <==> (a & m != 0 || b & m != 0)) by (bit_vector);
            }
        }
        GroupSet { bits: a | b }
    }

    /// Whether `label` is in the set.
    pub fn contains(&self, label: GroupLabel) -> (b: bool)
        ensures
            b == self@.contains(label),
    {
        self.bits & label.bit() != 0
    }

    /// The packed word: one bit for each label in the set, no other bit.
    pub fn bits(&self) -> (b: u32)
        ensures
            b == mask_of(self@),
    {
        let b: u32 = self.bits;
        proof {
            use_type_invariant(self);
            assert(b == (b & 0x01) + (b & 0x02) + (b & 0x04) + (b & 0x08) + (b & 0x10))
                by (bit_vector)
                requires
                    b <= 0x1f,
            ;
            assert({
                &&& (b & 0x01 == 0 || b & 0x01 == 0x01)
                &&& (b & 0x02 == 0 || b & 0x02 == 0x02)
                &&& (b & 0x04 == 0 || b & 0x04 == 0x04)
                &&& (b & 0x08 == 0 || b & 0x08 == 0x08)
                &&& (b & 0x10 == 0 || b & 0x10 == 0x10)
            }) by (bit_vector);
        }
        b
    }
}

/// Whether `m` is the bit of some label.
spec fn is_label_bit(m: u32) -> bool {
    m == 0x01 || m == 0x02 || m == 0x04 || m == 0x08 || m == 0x10
}

/// Two label bits overlap only when they are the same bit.
proof fn lemma_label_bits_disjoint()
    ensures
        forall|a: GroupLabel, b: GroupLabel|
            (#[trigger] a.spec_bit() & #[trigger] b.spec_bit() != 0) <==> a == b,
{
    assert forall|x: u32, y: u32| is_label_bit(x) && is_label_bit(y) implies ((x & y != 0) <==> x
        == y) by {
        assert(is_label_bit(x) && is_label_bit(y) ==> ((x & y != 0) <==> x == y)) by (bit_vector);
    }
    assert forall|a: GroupLabel, b: GroupLabel|
        (#[trigger] a.spec_bit() & #[trigger] b.spec_bit() != 0) <==> a == b by {
        assert(is_label_bit(a.spec_bit()) && is_label_bit(b.spec_bit()));
    }
}

} // verus!

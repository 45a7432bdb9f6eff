use vstd::prelude::*;

verus! {

/// The delivery guarantee requested for one outbound message.
#[derive(Debug, Clone, Copy, PartialEq, Eq, Structural)]
pub enum DeliveryGuarantee {
    AtMostOnce,
    AtLeastOnce,
    ExactlyOnce,
}

impl DeliveryGuarantee {
    /// The protocol-level quality-of-service value of a guarantee.
    pub open spec fn spec_level(self) -> u8 {
        match self {
            DeliveryGuarantee::AtMostOnce => 0u8,
            DeliveryGuarantee::AtLeastOnce => 1u8,
            DeliveryGuarantee::ExactlyOnce => 2u8,
        }
    }

    /// The guarantee a quality-of-service value stands for. A value outside
    /// 0..=2 is read as at-least-once: a duplicate is preferred to a silent
    /// loss.
    pub open spec fn spec_from_level(level: u8) -> DeliveryGuarantee {
        if level == 0 {
            DeliveryGuarantee::AtMostOnce
        } else if level == 2 {
            DeliveryGuarantee::ExactlyOnce
        } else {
            DeliveryGuarantee::AtLeastOnce
        }
    }

    /// Maps the guarantee to its quality-of-service value.
    pub fn level(self) -> (l: u8)
        ensures
            l == self.spec_level(),
    {
        match self {
            DeliveryGuarantee::AtMostOnce => 0,
            DeliveryGuarantee::AtLeastOnce => 1,
            DeliveryGuarantee::ExactlyOnce => 2,
        }
    }

    /// Maps a quality-of-service value to the guarantee it stands for.
    pub fn from_level(level: u8) -> (g: DeliveryGuarantee)
        ensures
            g == Self::spec_from_level(level),
    {
        if level == 0 {
            DeliveryGuarantee::AtMostOnce
        } else if level == 2 {
            DeliveryGuarantee::ExactlyOnce
        } else {
            DeliveryGuarantee::AtLeastOnce
        }
    }
}

/// Every guarantee maps to a value in 0..=2, and mapping that value back
/// recovers the guarantee.
pub proof fn lemma_guarantee_round_trip(g: DeliveryGuarantee)
    ensures
        g.spec_level() <= 2,
        DeliveryGuarantee::spec_from_level(g.spec_level()) == g,
{
}

/// A recognised quality-of-service value survives the trip through its
/// guarantee.
pub proof fn lemma_level_round_trip(level: u8)
    requires
        level <= 2,
    ensures
        DeliveryGuarantee::spec_from_level(level).spec_level() == level,
{
}

/// An unrecognised quality-of-service value is read as at-least-once.
pub proof fn lemma_unrecognised_level(level: u8)
    requires
        level > 2,
    ensures
        DeliveryGuarantee::spec_from_level(level) == DeliveryGuarantee::AtLeastOnce,
{
}

} // verus!

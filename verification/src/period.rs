//! The sale period: a three-state machine stored as a one-byte tag.

use vstd::prelude::*;

verus! {

/// The phase of the sale that the registry gates.
#[derive(Clone, Copy, Debug, PartialEq, Eq, Structural)]
pub enum PeriodStatus {
    PendingSale,
    PreSale,
    PostSale,
}

impl PeriodStatus {
    /// The byte under which a period is stored.
    pub open spec fn spec_tag(self) -> u8 {
        match self {
            PeriodStatus::PendingSale => 0,
            PeriodStatus::PreSale => 1,
            PeriodStatus::PostSale => 2,
        }
    }

    /// The period that a stored byte stands for, if it stands for one.
    pub open spec fn spec_from_tag(tag: u8) -> Option<PeriodStatus> {
        if tag == 0 {
            Some(PeriodStatus::PendingSale)
        } else if tag == 1 {
            Some(PeriodStatus::PreSale)
        } else if tag == 2 {
            Some(PeriodStatus::PostSale)
        } else {
            None
        }
    }

    /// The period that follows `self` when the sale is toggled: a pending
    /// sale opens as a pre-sale, and from then on pre-sale and post-sale
    /// alternate. No period is followed by `PendingSale`.
    pub open spec fn spec_toggled(self) -> PeriodStatus {
        match self {
            PeriodStatus::PendingSale => PeriodStatus::PreSale,
            PeriodStatus::PreSale => PeriodStatus::PostSale,
            PeriodStatus::PostSale => PeriodStatus::PreSale,
        }
    }

    /// The byte under which this period is stored.
    #[verifier::when_used_as_spec(spec_tag)]
    pub fn tag(self) -> (tag: u8)
        ensures
            tag == self.spec_tag(),
    {
        match self {
            PeriodStatus::PendingSale => 0,
            PeriodStatus::PreSale => 1,
            PeriodStatus::PostSale => 2,
        }
    }

    /// Reads a stored byte back: `Some` exactly for the three known tags.
    #[verifier::when_used_as_spec(spec_from_tag)]
    pub fn from_tag(tag: u8) -> (status: Option<PeriodStatus>)
        ensures
            status == PeriodStatus::spec_from_tag(tag),
    {
        if tag == 0 {
            Some(PeriodStatus::PendingSale)
        } else if tag == 1 {
            Some(PeriodStatus::PreSale)
        } else if tag == 2 {
            Some(PeriodStatus::PostSale)
        } else {
            None
        }
    }

    /// The period that follows `self` when the sale is toggled.
    #[verifier::when_used_as_spec(spec_toggled)]
    pub fn toggled(self) -> (next: PeriodStatus)
        ensures
            next == self.spec_toggled(),
    {
        match self {
            PeriodStatus::PendingSale => PeriodStatus::PreSale,
            PeriodStatus::PreSale => PeriodStatus::PostSale,
            PeriodStatus::PostSale => PeriodStatus::PreSale,
        }
    }
}

/// The stored byte after a toggle: the tag of the following period where
/// `tag` stands for a period, and `tag` itself where it stands for none.
pub open spec fn next_tag(tag: u8) -> u8 {
    match PeriodStatus::spec_from_tag(tag) {
        Some(status) => status.spec_toggled().spec_tag(),
        None => tag,
    }
}

} // verus!

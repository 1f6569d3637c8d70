//! Security-exchange levels: ordered trust tiers asserted by the verified
//! certificate of an inbound message, lowest `L1Public` to highest
//! `L4Secure`.

use vstd::prelude::*;

verus! {

/// One security-exchange level.
#[derive(Clone, Copy, Debug, PartialEq, Eq, Structural)]
pub enum Securite {
    L1Public,
    L2Prive,
    L3Protege,
    L4Secure,
}

impl Securite {
    /// Rank of the level in the L1 <= L2 <= L3 <= L4 order.
    pub open spec fn spec_niveau(self) -> int {
        match self {
            Securite::L1Public => 1,
            Securite::L2Prive => 2,
            Securite::L3Protege => 3,
            Securite::L4Secure => 4,
        }
    }

    /// Executable rank, equal to [`Self::spec_niveau`].
    pub fn niveau(self) -> (n: u8)
        ensures
            n as int == self.spec_niveau(),
    {
        match self {
            Securite::L1Public => 1,
            Securite::L2Prive => 2,
            Securite::L3Protege => 3,
            Securite::L4Secure => 4,
        }
    }
}

/// Highest rank among a set of levels; 0 when the set is empty.
pub open spec fn spec_niveau_maximal(niveaux: Seq<Securite>) -> int
    decreases niveaux.len(),
{
    if niveaux.len() == 0 {
        0
    } else {
        let reste = spec_niveau_maximal(niveaux.drop_last());
        if niveaux.last().spec_niveau() > reste {
            niveaux.last().spec_niveau()
        } else {
            reste
        }
    }
}

/// Executable maximum of the ranks in `niveaux`.
pub fn niveau_maximal(niveaux: &Vec<Securite>) -> (n: u8)
    ensures
        n as int == spec_niveau_maximal(niveaux@),
{
    let mut n: u8 = 0;
    let mut i: usize = 0;
    while i < niveaux.len()
        invariant
            i <= niveaux@.len(),
            n as int == spec_niveau_maximal(niveaux@.take(i as int)),
        decreases niveaux@.len() - i,
    {
        let niveau = niveaux[i].niveau();
        if niveau > n {
            n = niveau;
        }
        proof {
            assert(niveaux@.take(i + 1 as int).drop_last() =~= niveaux@.take(i as int));
        }
        i = i + 1;
    }
    proof {
        assert(niveaux@.take(niveaux@.len() as int) =~= niveaux@);
    }
    n
}

} // verus!

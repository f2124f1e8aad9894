//! The in-memory stores: verified proofs and credit scores, by wallet.
use vstd::prelude::*;

use vstd::hash_map::StringHashMap;

use crate::types::{CreditScore, ProofModel, VerifiedProof};

verus! {

/// The proofs kept for a wallet in a store's model: none when it has no entry.
pub open spec fn proofs_for(m: Map<Seq<char>, Seq<ProofModel>>, wallet: Seq<char>) -> Seq<
    ProofModel,
> {
    if m.contains_key(wallet) {
        m[wallet]
    } else {
        Seq::empty()
    }
}

/// A list of proofs taken as their models.
pub open spec fn proof_models(v: Seq<VerifiedProof>) -> Seq<ProofModel> {
    v.map_values(|p: VerifiedProof| p@)
}

/// Verified proofs by wallet, in the order they were stored.
pub struct ProofStore {
    proofs: StringHashMap<Vec<VerifiedProof>>,
}

impl View for ProofStore {
    type V = Map<Seq<char>, Seq<ProofModel>>;

    closed spec fn view(&self) -> Map<Seq<char>, Seq<ProofModel>> {
        self.proofs@.map_values(|v: Vec<VerifiedProof>| proof_models(v@))
    }
}

/// A copy of a list of proofs.
pub fn clone_proofs(v: &Vec<VerifiedProof>) -> (r: Vec<VerifiedProof>)
    ensures
        proof_models(r@) == proof_models(v@),
{
    let mut r: Vec<VerifiedProof> = Vec::new();
    let mut i: usize = 0;
    while i < v.len()
        invariant
            i <= v.len(),
            r@.len() == i,
            proof_models(r@) =~= proof_models(v@.take(i as int)),
        decreases v.len() - i,
    {
        let ghost prev = r@;
        let c = v[i].clone();
        assert(c@ == v@[i as int]@);
        r.push(c);
        assert forall|j: int| 0 <= j < r@.len() implies #[trigger] proof_models(r@)[j]
            == proof_models(v@.take(i + 1))[j] by {
            if j < i {
                assert(r@[j] == prev[j]);
                assert(proof_models(prev)[j] == proof_models(v@.take(i as int))[j]);
            }
        }
        i += 1;
        assert(proof_models(r@) =~= proof_models(v@.take(i as int)));
    }
    assert(v@.take(v.len() as int) =~= v@);
    r
}

impl ProofStore {
    /// A store with no proof.
    pub fn new() -> (r: Self)
        ensures
            r@ == Map::<Seq<char>, Seq<ProofModel>>::empty(),
    {
        let r = ProofStore { proofs: StringHashMap::new() };
        assert(r@ =~= Map::<Seq<char>, Seq<ProofModel>>::empty());
        r
    }

    /// The wallet's proofs, oldest first; none for an unknown wallet.
    pub fn proofs_of(&self, wallet: &str) -> (r: Vec<VerifiedProof>)
        ensures
            proof_models(r@) == proofs_for(self@, wallet@),
    {
        match self.proofs.get(wallet) {
            Some(list) => clone_proofs(list),
            None => {
                let r: Vec<VerifiedProof> = Vec::new();
                assert(proof_models(r@) =~= Seq::<ProofModel>::empty());
                r
            },
        }
    }

    /// Adds a proof after the wallet's earlier proofs.
    pub fn add_proof(&mut self, wallet: String, proof: VerifiedProof)
        ensures
            final(self)@ == old(self)@.insert(wallet@, proofs_for(old(self)@, wallet@).push(proof@)),
    {
        let mut list = match self.proofs.get(wallet.as_str()) {
            Some(l) => clone_proofs(l),
            None => Vec::new(),
        };
        let ghost before = proof_models(list@);
        assert(before == proofs_for(old(self)@, wallet@));
        list.push(proof);
        assert(proof_models(list@) =~= before.push(proof@));
        self.proofs.insert(wallet, list);
        assert(self@ =~= old(self)@.insert(wallet@, proofs_for(old(self)@, wallet@).push(proof@)));
    }
}

/// After a proof is added for a wallet, it is that wallet's latest proof, the
/// wallet's earlier proofs come before it, and no other wallet's proofs change.
pub proof fn lemma_added_proof_is_latest(
    m: Map<Seq<char>, Seq<ProofModel>>,
    wallet: Seq<char>,
    proof: ProofModel,
    other: Seq<char>,
)
    requires
        other != wallet,
    ensures
        ({
            let after = m.insert(wallet, proofs_for(m, wallet).push(proof));
            &&& proofs_for(after, wallet).last() == proof
            &&& proofs_for(after, wallet).drop_last() == proofs_for(m, wallet)
            &&& proofs_for(after, other) == proofs_for(m, other)
        }),
{
    let after = m.insert(wallet, proofs_for(m, wallet).push(proof));
    assert(proofs_for(after, wallet).drop_last() =~= proofs_for(m, wallet));
}

/// Credit scores by wallet: the latest one recorded.
pub struct ScoreStore {
    scores: StringHashMap<CreditScore>,
}

impl View for ScoreStore {
    type V = Map<Seq<char>, CreditScore>;

    closed spec fn view(&self) -> Map<Seq<char>, CreditScore> {
        self.scores@
    }
}

impl ScoreStore {
    /// A store with no score.
    pub fn new() -> (r: Self)
        ensures
            r@ == Map::<Seq<char>, CreditScore>::empty(),
    {
        ScoreStore { scores: StringHashMap::new() }
    }

    /// Records the wallet's score, replacing any earlier one.
    pub fn record(&mut self, wallet: &str, score: CreditScore)
        ensures
            final(self)@ == old(self)@.insert(wallet@, score),
    {
        self.scores.insert(wallet.to_owned(), score);
    }

    /// The wallet's latest score, if any.
    pub fn score_of(&self, wallet: &str) -> (r: Option<&CreditScore>)
        ensures
            match r {
                Some(s) => self@.contains_key(wallet@) && *s == self@[wallet@],
                None => !self@.contains_key(wallet@),
            },
    {
        self.scores.get(wallet)
    }
}

} // verus!

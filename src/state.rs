use vstd::prelude::*;

use crate::curve::{base_mul_of, entropy_seed, seeded_scalar, Point, Secret};
use crate::msgs::TransferId;

verus! {

/// Seals the sender's states: no other type can be one.
pub trait Sealed {
}

/// A state of the sender.
pub trait State: Sealed {
}

/// The sender's initial state: a keypair with `A = a·G`.
pub struct Initialized {
    pub(crate) private_key: Secret,
    pub(crate) public_key: Point,
}

impl Sealed for Initialized {
}

impl State for Initialized {
}

impl Initialized {
    /// The keypair invariant `A = a·G`.
    pub closed spec fn wf(&self) -> bool {
        self.public_key@ == base_mul_of(self.private_key@)
    }

    pub(crate) proof fn lemma_wf(&self)
        ensures
            self.wf() == (self.public_key@ == base_mul_of(self.private_key@)),
            self.private_key_spec() == self.private_key@,
    {
    }

    pub closed spec fn private_key_spec(&self) -> Seq<u8> {
        self.private_key@
    }

    /// The state whose private key is the first scalar of the stream seeded
    /// with `seed`.
    pub(crate) fn from_seed(seed: &[u8; 32]) -> (r: Initialized)
        ensures
            r.wf(),
            r.private_key_spec() == seeded_scalar(seed@, 0),
    {
        let private_key = Secret::seeded(seed, 0);
        let public_key = Point::base_mul(&private_key);
        Initialized { private_key, public_key }
    }
}

impl Default for Initialized {
    /// A keypair drawn from system entropy.
    fn default() -> (r: Initialized)
        ensures
            r.wf(),
    {
        let seed = entropy_seed();
        Initialized::from_seed(&seed)
    }
}

/// The sender's state once the setup message is out.
pub struct Setup {
    pub(crate) private_key: Secret,
    pub(crate) public_key: Point,
    /// The id that the next batch must carry.
    pub(crate) transfer_id: TransferId,
    /// The number of transfers served so far.
    pub(crate) counter: usize,
}

impl Sealed for Setup {
}

impl State for Setup {
}

} // verus!

use vstd::prelude::*;

use crate::bits::{bits_lsb0, unpack_lsb0};
use crate::block::{xor_bytes, Block};
use crate::config::{ReceiverConfig, SenderConfig};
use crate::curve::{
    base_mul_of, encodings, hash_point, mul_of, point_key, seeded_scalar, seeded_scalars, sub_of,
    Point, Secret,
};
use crate::error::SenderError;
use crate::msgs::{ReceiverPayload, ReceiverReveal, SenderPayload, SenderSetup, TransferId};
use crate::receiver::{replay, Receiver};
use crate::state::{Initialized, Setup, State};

verus! {

/// The key that encrypts the first input of a transfer: `H(a·B, t)`.
pub open spec fn key0(a: Seq<u8>, b: Seq<u8>, t: int) -> Seq<u8> {
    point_key(mul_of(a, b), t as u128)
}

/// The key that encrypts the second input of a transfer: `H(a·B - a·A, t)`.
pub open spec fn key1(a: Seq<u8>, pk: Seq<u8>, b: Seq<u8>, t: int) -> Seq<u8> {
    point_key(sub_of(mul_of(a, b), mul_of(a, pk)), t as u128)
}

/// A record of every blinded choice that the sender has accepted, in order.
struct Tape {
    receiver_choices: Vec<Point>,
}

/// A Chou–Orlandi sender, in one of the states of [`State`].
pub struct Sender<T: State = Initialized> {
    config: SenderConfig,
    state: T,
    tape: Option<Tape>,
}

impl<T: State> Sender<T> {
    pub closed spec fn config_spec(&self) -> SenderConfig {
        self.config
    }

    /// Returns the sender's configuration.
    pub fn config(&self) -> (r: &SenderConfig)
        ensures
            *r == self.config_spec(),
    {
        &self.config
    }

    /// The tape, as the encodings of its points; `None` without commitment.
    pub closed spec fn tape_spec(&self) -> Option<Seq<Seq<u8>>> {
        match self.tape {
            Some(t) => Some(encodings(t.receiver_choices@)),
            None => None,
        }
    }

    /// The number of blinded choices on the tape; `None` without commitment.
    pub fn tape_len(&self) -> (r: Option<usize>)
        ensures
            r.is_some() == self.tape_spec().is_some(),
            r matches Some(n) ==> n == self.tape_spec().unwrap().len(),
    {
        match &self.tape {
            Some(t) => Some(t.receiver_choices.len()),
            None => None,
        }
    }
}

impl Sender<Initialized> {
    /// A fresh sender: the keypair invariant holds and the tape, present
    /// exactly under commitment, is empty.
    pub closed spec fn init_wf(&self) -> bool {
        &&& self.state.wf()
        &&& self.tape.is_some() == self.config.commit()
        &&& self.tape matches Some(t) ==> t.receiver_choices@.len() == 0
    }

    /// The public key `A` of a fresh sender.
    pub closed spec fn init_public_key(&self) -> Seq<u8> {
        self.state.public_key@
    }

    /// The private key `a` of a fresh sender.
    pub closed spec fn init_private_key(&self) -> Seq<u8> {
        self.state.private_key@
    }

    fn with_state(config: SenderConfig, state: Initialized) -> (r: Self)
        requires
            state.wf(),
        ensures
            r.init_wf(),
            r.config_spec() == config,
            r.init_private_key() == state.private_key_spec(),
            r.init_public_key() == base_mul_of(r.init_private_key()),
            r.tape_spec() == (if config.commit() {
                Some(Seq::<Seq<u8>>::empty())
            } else {
                None
            }),
    {
        proof {
            state.lemma_wf();
        }
        let tape = if config.receiver_commit() {
            Some(Tape { receiver_choices: Vec::new() })
        } else {
            None
        };
        let r = Sender { config, state, tape };
        proof {
            if r.tape.is_some() {
                assert(encodings(r.tape.unwrap().receiver_choices@) =~= Seq::<Seq<u8>>::empty());
            }
        }
        r
    }

    /// Creates a sender whose keypair is drawn from system entropy.
    pub fn new(config: SenderConfig) -> (r: Self)
        ensures
            r.init_wf(),
            r.config_spec() == config,
            r.init_public_key() == base_mul_of(r.init_private_key()),
            r.tape_spec() == (if config.commit() {
                Some(Seq::<Seq<u8>>::empty())
            } else {
                None
            }),
    {
        let state = Initialized::default();
        Self::with_state(config, state)
    }

    /// Creates a sender whose private key is the first scalar drawn from a
    /// ChaCha20 generator seeded with `seed`.
    pub fn new_with_seed(config: SenderConfig, seed: [u8; 32]) -> (r: Self)
        ensures
            r.init_wf(),
            r.config_spec() == config,
            r.init_private_key() == seeded_scalar(seed@, 0),
            r.init_public_key() == base_mul_of(r.init_private_key()),
            r.tape_spec() == (if config.commit() {
                Some(Seq::<Seq<u8>>::empty())
            } else {
                None
            }),
    {
        let state = Initialized::from_seed(&seed);
        Self::with_state(config, state)
    }

    /// Returns the setup message, which carries the public key, and the
    /// sender ready for its first batch.
    pub fn setup(self) -> (r: (SenderSetup, Sender<Setup>))
        requires
            self.init_wf(),
        ensures
            r.0.public_key@ == self.init_public_key(),
            r.1.wf(),
            r.1.public_key_spec() == base_mul_of(r.1.private_key_spec()),
            r.1.public_key_spec() == self.init_public_key(),
            r.1.private_key_spec() == self.init_private_key(),
            r.1.config_spec() == self.config_spec(),
            r.1.next_id_spec() == 0,
            r.1.counter_spec() == 0,
            r.1.tape_spec() == (if self.config_spec().commit() {
                Some(Seq::<Seq<u8>>::empty())
            } else {
                None
            }),
    {
        proof {
            self.state.lemma_wf();
        }
        let Initialized { private_key, public_key } = self.state;
        let sender = Sender {
            config: self.config,
            state: Setup { private_key, public_key, transfer_id: TransferId(0), counter: 0 },
            tape: self.tape,
        };
        proof {
            if sender.tape.is_some() {
                assert(encodings(sender.tape.unwrap().receiver_choices@) =~= Seq::<Seq<u8>>::empty());
            }
        }
        (SenderSetup { public_key }, sender)
    }
}

impl Sender<Setup> {
    /// The keypair invariant holds, the tape is present exactly under
    /// commitment, and it holds one point per transfer served.
    pub closed spec fn wf(&self) -> bool {
        &&& self.state.public_key@ == base_mul_of(self.state.private_key@)
        &&& self.tape.is_some() == self.config.commit()
        &&& self.tape matches Some(t) ==> t.receiver_choices@.len() == self.state.counter
    }

    pub closed spec fn public_key_spec(&self) -> Seq<u8> {
        self.state.public_key@
    }

    pub closed spec fn private_key_spec(&self) -> Seq<u8> {
        self.state.private_key@
    }

    /// The id that the next batch must carry.
    pub closed spec fn next_id_spec(&self) -> u64 {
        self.state.transfer_id.0
    }

    /// The number of transfers served so far.
    pub closed spec fn counter_spec(&self) -> nat {
        self.state.counter as nat
    }

    /// A well-formed sender keeps the keypair invariant `A = a·G`, and its
    /// counter fits in a `usize`.
    pub proof fn lemma_keypair_and_bounds(&self)
        requires
            self.wf(),
        ensures
            self.public_key_spec() == base_mul_of(self.private_key_spec()),
            self.counter_spec() <= usize::MAX,
    {
    }

    /// Under commitment the tape holds exactly one blinded choice per
    /// transfer served.
    pub proof fn lemma_tape_len(&self)
        requires
            self.wf(),
        ensures
            self.config_spec().commit() ==> (self.tape_spec() matches Some(t) && t.len()
                == self.counter_spec()),
            !self.config_spec().commit() ==> self.tape_spec() is None,
    {
    }

    /// Returns the id that the next batch must carry.
    pub fn next_id(&self) -> (r: TransferId)
        ensures
            r.0 == self.next_id_spec(),
    {
        self.state.transfer_id
    }

    /// Returns the number of transfers served so far.
    pub fn counter(&self) -> (r: usize)
        ensures
            r == self.counter_spec(),
    {
        self.state.counter
    }

    /// Returns the public key `A`.
    pub fn public_key(&self) -> (r: Point)
        ensures
            r@ == self.public_key_spec(),
    {
        self.state.public_key
    }
}

/// What checking a tape against a revealed seed and revealed choice bytes
/// gives: the first `|tape|` revealed bits when a receiver seeded with the
/// seed, blinding those choices from a fresh start, sends exactly the tape.
pub open spec fn verify_outcome(
    tape: Option<Seq<Seq<u8>>>,
    pk: Seq<u8>,
    seed: Seq<u8>,
    reveal: Seq<u8>,
) -> Result<Seq<bool>, SenderError> {
    match tape {
        None => Err(SenderError::TapeNotRecorded),
        Some(t) => if 8 * reveal.len() < t.len() {
            Err(SenderError::ChoiceCountMismatch(t.len() as usize, (8 * reveal.len()) as usize))
        } else {
            let c = bits_lsb0(reveal).take(t.len() as int);
            if replay(seed, c, pk) == t {
                Ok(c)
            } else {
                Err(SenderError::InconsistentChoice)
            }
        },
    }
}

impl Sender<Setup> {
    /// Whether `send` refuses a batch of `n` inputs carrying `id`, and with
    /// which error: the id is checked first, then the count, then overflow of
    /// the counter or the id.
    pub open spec fn send_error(&self, n: nat, rp: ReceiverPayload) -> Option<SenderError> {
        if rp.id.0 != self.next_id_spec() {
            Some(SenderError::IdMismatch(TransferId(self.next_id_spec()), rp.id))
        } else if n != rp.blinded_choices@.len() {
            Some(SenderError::CountMismatch(n as usize, rp.blinded_choices@.len() as usize))
        } else if self.counter_spec() + n > usize::MAX || self.next_id_spec() == u64::MAX {
            Some(SenderError::CounterOverflow)
        } else {
            None
        }
    }

    /// Obliviously sends `inputs` against the receiver's blinded choices.
    /// Transfer `i` of the batch encrypts its two inputs under
    /// `H(a·B_i, counter + i)` and `H(a·B_i - a·A, counter + i)`.
    pub fn send(&mut self, inputs: &[[Block; 2]], receiver_payload: ReceiverPayload) -> (r: Result<
        SenderPayload,
        SenderError,
    >)
        requires
            old(self).wf(),
        ensures
            final(self).wf(),
            match old(self).send_error(inputs@.len(), receiver_payload) {
                Some(e) => r == Err::<SenderPayload, SenderError>(e) && *final(self) == *old(self),
                None => r is Ok,
            },
            r matches Ok(p) ==> {
                &&& p.id == receiver_payload.id
                &&& p.payload@.len() == inputs@.len()
                &&& forall|i: int|
                    0 <= i < inputs@.len() ==> {
                        &&& (#[trigger] p.payload@[i])[0].bytes@ == xor_bytes(
                            inputs@[i][0].bytes@,
                            key0(
                                old(self).private_key_spec(),
                                receiver_payload.blinded_choices@[i]@,
                                old(self).counter_spec() + i,
                            ),
                        )
                        &&& p.payload@[i][1].bytes@ == xor_bytes(
                            inputs@[i][1].bytes@,
                            key1(
                                old(self).private_key_spec(),
                                old(self).public_key_spec(),
                                receiver_payload.blinded_choices@[i]@,
                                old(self).counter_spec() + i,
                            ),
                        )
                    }
                &&& final(self).next_id_spec() == old(self).next_id_spec() + 1
                &&& final(self).counter_spec() == old(self).counter_spec() + inputs@.len()
                &&& final(self).tape_spec() == match old(self).tape_spec() {
                    Some(t) => Some(t + encodings(receiver_payload.blinded_choices@)),
                    None => None,
                }
                &&& final(self).config_spec() == old(self).config_spec()
                &&& final(self).public_key_spec() == old(self).public_key_spec()
                &&& final(self).private_key_spec() == old(self).private_key_spec()
            },
    {
        let expected = self.state.transfer_id;
        if receiver_payload.id.0 != expected.0 {
            return Err(SenderError::IdMismatch(expected, receiver_payload.id));
        }
        let n = inputs.len();
        let blinded_choices = receiver_payload.blinded_choices;
        if n != blinded_choices.len() {
            return Err(SenderError::CountMismatch(n, blinded_choices.len()));
        }
        let counter = self.state.counter;
        if counter > usize::MAX - n || expected.0 == u64::MAX {
            return Err(SenderError::CounterOverflow);
        }
        let keys = compute_encryption_keys(
            &self.state.private_key,
            &self.state.public_key,
            blinded_choices.as_slice(),
            counter,
        );
        let mut payload: Vec<[Block; 2]> = Vec::new();
        let mut i: usize = 0;
        while i < n
            invariant
                i <= n,
                n == inputs@.len(),
                keys@.len() == n,
                payload@.len() == i,
                forall|j: int|
                    0 <= j < i ==> {
                        &&& (#[trigger] payload@[j])[0].bytes@ == xor_bytes(
                            inputs@[j][0].bytes@,
                            keys@[j][0].bytes@,
                        )
                        &&& payload@[j][1].bytes@ == xor_bytes(
                            inputs@[j][1].bytes@,
                            keys@[j][1].bytes@,
                        )
                    },
            decreases n - i,
        {
            let c0 = inputs[i][0].xor(&keys[i][0]);
            let c1 = inputs[i][1].xor(&keys[i][1]);
            payload.push([c0, c1]);
            i = i + 1;
        }
        let old_tape = self.tape.take();
        match old_tape {
            Some(t) => {
                let mut recorded = t.receiver_choices;
                let ghost before = recorded@;
                let mut k: usize = 0;
                while k < n
                    invariant
                        k <= n,
                        n == blinded_choices@.len(),
                        recorded@ =~= before + blinded_choices@.subrange(0, k as int),
                    decreases n - k,
                {
                    recorded.push(blinded_choices[k]);
                    k = k + 1;
                }
                proof {
                    assert(blinded_choices@.subrange(0, n as int) =~= blinded_choices@);
                    assert(encodings(recorded@) =~= encodings(before) + encodings(
                        blinded_choices@,
                    ));
                }
                self.tape = Some(Tape { receiver_choices: recorded });
            },
            None => {},
        }
        self.state.counter = counter + n;
        self.state.transfer_id = TransferId(expected.0 + 1);
        Ok(SenderPayload { id: receiver_payload.id, payload })
    }
    /// Checks the tape against a receiver replayed from its revealed seed
    /// and returns the revealed choices, one per transfer on the tape.
    ///
    /// The seed must be unbiased, such as one drawn by a coin toss with the
    /// sender; otherwise a receiver can search for a seed that matches.
    pub fn verify_choices(self, receiver_seed: [u8; 32], receiver_reveal: ReceiverReveal) -> (r:
        Result<Vec<bool>, SenderError>)
        requires
            self.wf(),
        ensures
            match verify_outcome(
                self.tape_spec(),
                self.public_key_spec(),
                receiver_seed@,
                receiver_reveal.choices@,
            ) {
                Ok(c) => r matches Ok(v) && v@ == c,
                Err(e) => r == Err::<Vec<bool>, SenderError>(e),
            },
    {
        let public_key = self.state.public_key;
        let tape = match self.tape {
            None => {
                return Err(SenderError::TapeNotRecorded);
            },
            Some(t) => t.receiver_choices,
        };
        let n = tape.len();
        let bytes = receiver_reveal.choices;
        let needed: usize = if n % 8 == 0 {
            n / 8
        } else {
            n / 8 + 1
        };
        if bytes.len() < needed {
            return Err(SenderError::ChoiceCountMismatch(n, 8 * bytes.len()));
        }
        let choices = unpack_lsb0(bytes.as_slice(), n);
        let receiver = Receiver::new_with_seed(ReceiverConfig::default(), receiver_seed);
        let mut receiver = receiver.setup(SenderSetup { public_key });
        let simulated = match receiver.receive_random(choices.as_slice()) {
            Ok(p) => p.blinded_choices,
            Err(_) => {
                return Err(SenderError::InconsistentChoice);
            },
        };
        check_replay(simulated.as_slice(), tape.as_slice(), choices)
    }
}

/// Compares the blinded choices of a replayed receiver with the tape:
/// the choices come back when the two agree point by point, and
/// `InconsistentChoice` otherwise.
pub fn check_replay(simulated: &[Point], tape: &[Point], choices: Vec<bool>) -> (r: Result<
    Vec<bool>,
    SenderError,
>)
    ensures
        encodings(simulated@) == encodings(tape@) ==> r == Ok::<Vec<bool>, SenderError>(choices),
        encodings(simulated@) != encodings(tape@) ==> r == Err::<Vec<bool>, SenderError>(
            SenderError::InconsistentChoice,
        ),
{
    if points_equal(simulated, tape) {
        Ok(choices)
    } else {
        Err(SenderError::InconsistentChoice)
    }
}

/// Whether two sequences of points hold the same encodings.
fn points_equal(a: &[Point], b: &[Point]) -> (r: bool)
    ensures
        r == (encodings(a@) == encodings(b@)),
{
    if a.len() != b.len() {
        proof {
            assert(encodings(a@).len() != encodings(b@).len());
        }
        return false;
    }
    let mut i: usize = 0;
    while i < a.len()
        invariant
            a@.len() == b@.len(),
            i <= a@.len(),
            forall|j: int| 0 <= j < i ==> a@[j]@ == b@[j]@,
        decreases a@.len() - i,
    {
        if !a[i].equals(&b[i]) {
            proof {
                assert(encodings(a@)[i as int] != encodings(b@)[i as int]);
            }
            return false;
        }
        i = i + 1;
    }
    assert(encodings(a@) =~= encodings(b@));
    true
}


/// Computes the two keys of each transfer: `H(a·B_i, offset + i)` and
/// `H(a·B_i - a·A, offset + i)`.
fn compute_encryption_keys(
    private_key: &Secret,
    public_key: &Point,
    blinded_choices: &[Point],
    offset: usize,
) -> (r: Vec<[Block; 2]>)
    requires
        offset + blinded_choices@.len() <= usize::MAX,
    ensures
        r@.len() == blinded_choices@.len(),
        forall|i: int|
            0 <= i < r@.len() ==> {
                &&& (#[trigger] r@[i])[0].bytes@ == key0(
                    private_key@,
                    blinded_choices@[i]@,
                    offset + i,
                )
                &&& r@[i][1].bytes@ == key1(
                    private_key@,
                    public_key@,
                    blinded_choices@[i]@,
                    offset + i,
                )
            },
{
    let ys = public_key.mul(private_key);
    let mut keys: Vec<[Block; 2]> = Vec::new();
    let mut i: usize = 0;
    while i < blinded_choices.len()
        invariant
            i <= blinded_choices@.len(),
            offset + blinded_choices@.len() <= usize::MAX,
            ys@ == mul_of(private_key@, public_key@),
            keys@.len() == i,
            forall|j: int|
                0 <= j < i ==> {
                    &&& (#[trigger] keys@[j])[0].bytes@ == key0(
                        private_key@,
                        blinded_choices@[j]@,
                        offset + j,
                    )
                    &&& keys@[j][1].bytes@ == key1(
                        private_key@,
                        public_key@,
                        blinded_choices@[j]@,
                        offset + j,
                    )
                },
        decreases blinded_choices@.len() - i,
    {
        let yr = blinded_choices[i].mul(private_key);
        let tweak = (offset + i) as u128;
        let k0 = hash_point(&yr, tweak);
        let k1 = hash_point(&yr.sub(&ys), tweak);
        keys.push([k0, k1]);
        i = i + 1;
    }
    keys
}

} // verus!

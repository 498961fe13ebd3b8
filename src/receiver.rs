use vstd::prelude::*;

use crate::bits::{bit_lsb0, pack_lsb0, packed_len};
use crate::block::{xor_bytes, Block};
use crate::config::ReceiverConfig;
use crate::curve::{
    add_of, base_mul_of, encodings, entropy_seed, hash_point, mul_of, point_key, seeded_scalars,
    Point, Secret,
};
use crate::error::ReceiverError;
use crate::msgs::{ReceiverPayload, ReceiverReveal, SenderPayload, SenderSetup, TransferId};

verus! {

/// The blinded choice for scalar `b` and choice bit `c` against the
/// sender's key `A`: `b·G` when `c` is false, `b·G + A` when it is true.
pub open spec fn blinded_of(b: Seq<u8>, c: bool, pk: Seq<u8>) -> Seq<u8> {
    if c {
        add_of(base_mul_of(b), pk)
    } else {
        base_mul_of(b)
    }
}

/// The blinded choices for scalars `bs` and choices `cs`, position by position.
pub open spec fn blind_all(bs: Seq<Seq<u8>>, cs: Seq<bool>, pk: Seq<u8>) -> Seq<Seq<u8>> {
    Seq::new(cs.len(), |i: int| blinded_of(bs[i], cs[i], pk))
}

/// What a receiver seeded with `seed` sends when it blinds `choices` in one
/// batch from a fresh start.
pub open spec fn replay(seed: Seq<u8>, choices: Seq<bool>, pk: Seq<u8>) -> Seq<Seq<u8>> {
    blind_all(seeded_scalars(seed, 0, choices.len()), choices, pk)
}

/// Blinding a run of choices, then the next run with the scalars that
/// follow in the stream, sends what blinding both runs at once sends.
pub proof fn lemma_blind_runs(seed: Seq<u8>, first: Seq<bool>, next: Seq<bool>, pk: Seq<u8>)
    ensures
        blind_all(seeded_scalars(seed, 0, first.len()), first, pk) + blind_all(
            seeded_scalars(seed, first.len(), next.len()),
            next,
            pk,
        ) == replay(seed, first + next, pk),
{
    assert(blind_all(seeded_scalars(seed, 0, first.len()), first, pk) + blind_all(
        seeded_scalars(seed, first.len(), next.len()),
        next,
        pk,
    ) =~= replay(seed, first + next, pk));
}

/// The receiver's key for scalar `b` under tweak `t`: `H(b·A, t)`.
pub open spec fn receiver_key(b: Seq<u8>, pk: Seq<u8>, t: int) -> Seq<u8> {
    point_key(mul_of(b, pk), t as u128)
}

/// The views of a sequence of scalars.
pub open spec fn scalar_views(v: Seq<Secret>) -> Seq<Seq<u8>> {
    v.map_values(|s: Secret| s@)
}

/// A batch whose blinded choices are out and whose reply is awaited.
pub struct PendingBatch {
    pub id: TransferId,
    pub offset: usize,
    pub scalars: Seq<Seq<u8>>,
    pub choices: Seq<bool>,
}

struct Pending {
    id: TransferId,
    offset: usize,
    scalars: Vec<Secret>,
    choices: Vec<bool>,
}

/// A Chou–Orlandi receiver before it has seen the sender's setup message.
pub struct Receiver {
    config: ReceiverConfig,
    seed: [u8; 32],
}

impl Receiver {
    pub closed spec fn config_spec(&self) -> ReceiverConfig {
        self.config
    }

    /// The seed of the receiver's stream of scalars.
    pub closed spec fn seed_spec(&self) -> Seq<u8> {
        self.seed@
    }

    /// Creates a receiver whose scalars come from a seed drawn from system
    /// entropy.
    pub fn new(config: ReceiverConfig) -> (r: Receiver)
        ensures
            r.config_spec() == config,
    {
        Receiver { config, seed: entropy_seed() }
    }

    /// Creates a receiver whose scalars are drawn from a ChaCha20 generator
    /// seeded with `seed`.
    pub fn new_with_seed(config: ReceiverConfig, seed: [u8; 32]) -> (r: Receiver)
        ensures
            r.config_spec() == config,
            r.seed_spec() == seed@,
    {
        Receiver { config, seed }
    }

    /// Takes in the sender's public key; the receiver is then ready for its
    /// first batch.
    pub fn setup(self, setup: SenderSetup) -> (r: ActiveReceiver)
        ensures
            r.wf(),
            r.config_spec() == self.config_spec(),
            r.seed_spec() == self.seed_spec(),
            r.sent_spec() == Seq::<Seq<u8>>::empty(),
            r.public_key_spec() == setup.public_key@,
            r.next_id_spec() == 0,
            r.counter_spec() == 0,
            r.pending_spec() is None,
            r.log_spec() == (if self.config_spec().commit() {
                Some(Seq::<bool>::empty())
            } else {
                None
            }),
    {
        let choice_log = if self.config.receiver_commit() {
            Some(Vec::new())
        } else {
            None
        };
        let r = ActiveReceiver {
            config: self.config,
            seed: self.seed,
            public_key: setup.public_key,
            transfer_id: TransferId(0),
            counter: 0,
            pending: None,
            choice_log,
            sent: Ghost(Seq::empty()),
        };
        assert(replay(self.seed@, Seq::<bool>::empty(), setup.public_key@) =~= Seq::<Seq<u8>>::empty());
        r
    }
}

/// A Chou–Orlandi receiver that holds the sender's public key.
pub struct ActiveReceiver {
    config: ReceiverConfig,
    seed: [u8; 32],
    public_key: Point,
    transfer_id: TransferId,
    counter: usize,
    pending: Option<Pending>,
    choice_log: Option<Vec<bool>>,
    /// Every blinded choice sent so far, in order.
    sent: Ghost<Seq<Seq<u8>>>,
}

impl ActiveReceiver {
    /// The choice log is kept exactly under commitment, one blinded choice
    /// was sent per transfer, and under commitment what was sent is what
    /// blinding the logged choices with the seeded stream gives. A pending
    /// batch has one scalar per choice and tweaks that fit in the counter.
    pub closed spec fn wf(&self) -> bool {
        &&& self.choice_log.is_some() == self.config.commit()
        &&& self.sent@.len() == self.counter
        &&& self.choice_log matches Some(l) ==> {
            &&& l@.len() == self.counter
            &&& self.sent@ == replay(self.seed@, l@, self.public_key@)
        }
        &&& self.pending matches Some(p) ==> {
            &&& p.scalars@.len() == p.choices@.len()
            &&& p.offset + p.choices@.len() <= usize::MAX
        }
    }

    pub closed spec fn config_spec(&self) -> ReceiverConfig {
        self.config
    }

    /// The seed of the receiver's stream of scalars.
    pub closed spec fn seed_spec(&self) -> Seq<u8> {
        self.seed@
    }

    /// Every blinded choice sent so far, in order.
    pub closed spec fn sent_spec(&self) -> Seq<Seq<u8>> {
        self.sent@
    }

    /// Under commitment, what the receiver has sent is what a replay of all
    /// its choices at once from its seed sends.
    pub proof fn lemma_sent_is_replay(&self)
        requires
            self.wf(),
            self.log_spec() is Some,
        ensures
            self.sent_spec() == replay(self.seed_spec(), self.log_spec().unwrap(), self.public_key_spec()),
    {
    }

    /// The sender's public key `A`.
    pub closed spec fn public_key_spec(&self) -> Seq<u8> {
        self.public_key@
    }

    /// The id of the next batch.
    pub closed spec fn next_id_spec(&self) -> u64 {
        self.transfer_id.0
    }

    /// The number of transfers requested so far.
    pub closed spec fn counter_spec(&self) -> nat {
        self.counter as nat
    }

    /// The batch awaiting the sender's reply, if any.
    pub closed spec fn pending_spec(&self) -> Option<PendingBatch> {
        match self.pending {
            Some(p) => Some(
                PendingBatch {
                    id: p.id,
                    offset: p.offset,
                    scalars: scalar_views(p.scalars@),
                    choices: p.choices@,
                },
            ),
            None => None,
        }
    }

    /// Every choice made so far, when the receiver commits to them.
    pub closed spec fn log_spec(&self) -> Option<Seq<bool>> {
        match self.choice_log {
            Some(l) => Some(l@),
            None => None,
        }
    }

    /// Returns the id of the next batch.
    pub fn next_id(&self) -> (r: TransferId)
        ensures
            r.0 == self.next_id_spec(),
    {
        self.transfer_id
    }

    /// The receiver's counter fits in a `usize`.
    pub proof fn lemma_counter_bound(&self)
        ensures
            self.counter_spec() <= usize::MAX,
    {
    }

    /// Returns the number of transfers requested so far.
    pub fn counter(&self) -> (r: usize)
        ensures
            r == self.counter_spec(),
    {
        self.counter
    }

    /// Blinds each choice with the scalar of its transfer: the one at
    /// position `counter + i` of the seeded stream.
    fn draw_blinded(&self, choices: &[bool]) -> (r: (Vec<Point>, Vec<Secret>))
        requires
            self.counter + choices@.len() <= usize::MAX,
        ensures
            scalar_views(r.1@) == seeded_scalars(self.seed@, self.counter as nat, choices@.len()),
            encodings(r.0@) == blind_all(scalar_views(r.1@), choices@, self.public_key@),
    {
        let mut blinded: Vec<Point> = Vec::new();
        let mut scalars: Vec<Secret> = Vec::new();
        let mut i: usize = 0;
        while i < choices.len()
            invariant
                self.counter + choices@.len() <= usize::MAX,
                i <= choices@.len(),
                blinded@.len() == i,
                scalars@.len() == i,
                forall|j: int|
                    0 <= j < i ==> (#[trigger] scalars@[j])@ == seeded_scalars(
                        self.seed@,
                        self.counter as nat,
                        choices@.len(),
                    )[j],
                forall|j: int|
                    0 <= j < i ==> (#[trigger] blinded@[j])@ == blinded_of(
                        scalars@[j]@,
                        choices@[j],
                        self.public_key@,
                    ),
            decreases choices@.len() - i,
        {
            let b = Secret::seeded(&self.seed, self.counter + i);
            let bg = Point::base_mul(&b);
            let point = if choices[i] {
                bg.add(&self.public_key)
            } else {
                bg
            };
            blinded.push(point);
            scalars.push(b);
            i = i + 1;
        }
        assert(scalar_views(scalars@) =~= seeded_scalars(
            self.seed@,
            self.counter as nat,
            choices@.len(),
        ));
        assert(encodings(blinded@) =~= blind_all(scalar_views(scalars@), choices@, self.public_key@));
        (blinded, scalars)
    }

    /// Appends a batch to the record of what was sent and to the choice log.
    fn record(&mut self, choices: &[bool], blinded: &Vec<Point>)
        requires
            old(self).wf(),
            old(self).counter + choices@.len() <= usize::MAX,
            encodings(blinded@) == blind_all(
                seeded_scalars(old(self).seed@, old(self).counter as nat, choices@.len()),
                choices@,
                old(self).public_key@,
            ),
        ensures
            final(self).wf(),
            final(self).counter == old(self).counter + choices@.len(),
            final(self).sent@ == old(self).sent@ + encodings(blinded@),
            final(self).log_spec() == match old(self).log_spec() {
                Some(l) => Some(l + choices@),
                None => None,
            },
            final(self).config == old(self).config,
            final(self).seed == old(self).seed,
            final(self).public_key == old(self).public_key,
            final(self).transfer_id == old(self).transfer_id,
            final(self).pending == old(self).pending,
    {
        let n = choices.len();
        let log = self.choice_log.take();
        match log {
            Some(l) => {
                let mut l = l;
                let ghost before = l@;
                let mut k: usize = 0;
                while k < n
                    invariant
                        n == choices@.len(),
                        k <= n,
                        l@ =~= before + choices@.subrange(0, k as int),
                    decreases n - k,
                {
                    l.push(choices[k]);
                    k = k + 1;
                }
                assert(choices@.subrange(0, n as int) =~= choices@);
                proof {
                    lemma_blind_runs(self.seed@, before, choices@, self.public_key@);
                }
                self.choice_log = Some(l);
            },
            None => {},
        }
        self.sent = Ghost(self.sent@ + encodings(blinded@));
        self.counter = self.counter + n;
    }

    /// Blinds the choices of a batch and keeps what decrypts the reply.
    /// Transfer `i` of the batch uses the scalar at position `counter + i`
    /// of the seeded stream.
    pub fn receive(&mut self, choices: &[bool]) -> (r: Result<ReceiverPayload, ReceiverError>)
        requires
            old(self).wf(),
        ensures
            final(self).wf(),
            (old(self).counter_spec() + choices@.len() > usize::MAX || old(self).next_id_spec()
                == u64::MAX) ==> r == Err::<ReceiverPayload, ReceiverError>(
                ReceiverError::CounterOverflow,
            ) && *final(self) == *old(self),
            !(old(self).counter_spec() + choices@.len() > usize::MAX || old(self).next_id_spec()
                == u64::MAX) ==> r is Ok,
            r matches Ok(p) ==> {
                &&& p.id.0 == old(self).next_id_spec()
                &&& encodings(p.blinded_choices@) == blind_all(
                    seeded_scalars(old(self).seed_spec(), old(self).counter_spec(), choices@.len()),
                    choices@,
                    old(self).public_key_spec(),
                )
                &&& final(self).pending_spec() == Some(
                    PendingBatch {
                        id: p.id,
                        offset: old(self).counter_spec() as usize,
                        scalars: seeded_scalars(
                            old(self).seed_spec(),
                            old(self).counter_spec(),
                            choices@.len(),
                        ),
                        choices: choices@,
                    },
                )
                &&& final(self).sent_spec() == old(self).sent_spec() + encodings(
                    p.blinded_choices@,
                )
                &&& final(self).next_id_spec() == old(self).next_id_spec() + 1
                &&& final(self).counter_spec() == old(self).counter_spec() + choices@.len()
                &&& final(self).log_spec() == match old(self).log_spec() {
                    Some(l) => Some(l + choices@),
                    None => None,
                }
                &&& final(self).config_spec() == old(self).config_spec()
                &&& final(self).seed_spec() == old(self).seed_spec()
                &&& final(self).public_key_spec() == old(self).public_key_spec()
            },
    {
        let n = choices.len();
        if self.counter > usize::MAX - n || self.transfer_id.0 == u64::MAX {
            return Err(ReceiverError::CounterOverflow);
        }
        let (blinded, scalars) = self.draw_blinded(choices);
        let id = self.transfer_id;
        let offset = self.counter;
        let mut kept: Vec<bool> = Vec::new();
        let mut i: usize = 0;
        while i < n
            invariant
                n == choices@.len(),
                i <= n,
                kept@ =~= choices@.subrange(0, i as int),
            decreases n - i,
        {
            kept.push(choices[i]);
            i = i + 1;
        }
        assert(choices@.subrange(0, n as int) =~= choices@);
        assert(scalar_views(scalars@).len() == scalars@.len());
        self.record(choices, &blinded);
        self.pending = Some(Pending { id, offset, scalars, choices: kept });
        self.transfer_id = TransferId(id.0 + 1);
        Ok(ReceiverPayload { id, blinded_choices: blinded })
    }

    /// Blinds the choices of a batch as `receive` does, without keeping
    /// what decrypts the reply: the form in which a receiver is replayed
    /// from its seed.
    pub fn receive_random(&mut self, choices: &[bool]) -> (r: Result<ReceiverPayload, ReceiverError>)
        requires
            old(self).wf(),
        ensures
            final(self).wf(),
            (old(self).counter_spec() + choices@.len() > usize::MAX || old(self).next_id_spec()
                == u64::MAX) ==> r == Err::<ReceiverPayload, ReceiverError>(
                ReceiverError::CounterOverflow,
            ) && *final(self) == *old(self),
            !(old(self).counter_spec() + choices@.len() > usize::MAX || old(self).next_id_spec()
                == u64::MAX) ==> r is Ok,
            r matches Ok(p) ==> {
                &&& p.id.0 == old(self).next_id_spec()
                &&& encodings(p.blinded_choices@) == blind_all(
                    seeded_scalars(old(self).seed_spec(), old(self).counter_spec(), choices@.len()),
                    choices@,
                    old(self).public_key_spec(),
                )
                &&& final(self).pending_spec() == old(self).pending_spec()
                &&& final(self).sent_spec() == old(self).sent_spec() + encodings(
                    p.blinded_choices@,
                )
                &&& final(self).next_id_spec() == old(self).next_id_spec() + 1
                &&& final(self).counter_spec() == old(self).counter_spec() + choices@.len()
                &&& final(self).log_spec() == match old(self).log_spec() {
                    Some(l) => Some(l + choices@),
                    None => None,
                }
                &&& final(self).config_spec() == old(self).config_spec()
                &&& final(self).seed_spec() == old(self).seed_spec()
                &&& final(self).public_key_spec() == old(self).public_key_spec()
            },
    {
        let n = choices.len();
        if self.counter > usize::MAX - n || self.transfer_id.0 == u64::MAX {
            return Err(ReceiverError::CounterOverflow);
        }
        let (blinded, _scalars) = self.draw_blinded(choices);
        let id = self.transfer_id;
        self.record(choices, &blinded);
        self.transfer_id = TransferId(id.0 + 1);
        Ok(ReceiverPayload { id, blinded_choices: blinded })
    }

    /// Decrypts the chosen input of each transfer of the pending batch:
    /// output `i` is `payload[i][c_i] ⊕ H(b_i·A, offset + i)`.
    pub fn receive_payload(&mut self, payload: SenderPayload) -> (r: Result<Vec<Block>, ReceiverError>)
        requires
            old(self).wf(),
        ensures
            final(self).wf(),
            match old(self).pending_spec() {
                None => r == Err::<Vec<Block>, ReceiverError>(ReceiverError::NoPendingBatch),
                Some(b) => if payload.id != b.id {
                    r == Err::<Vec<Block>, ReceiverError>(
                        ReceiverError::IdMismatch(b.id, payload.id),
                    )
                } else if payload.payload@.len() != b.choices.len() {
                    r == Err::<Vec<Block>, ReceiverError>(
                        ReceiverError::CountMismatch(
                            b.choices.len() as usize,
                            payload.payload@.len() as usize,
                        ),
                    )
                } else {
                    r is Ok
                },
            },
            r is Err ==> *final(self) == *old(self),
            r matches Ok(out) ==> {
                let b = old(self).pending_spec().unwrap();
                &&& out@.len() == b.choices.len()
                &&& forall|i: int|
                    0 <= i < out@.len() ==> (#[trigger] out@[i]).bytes@ == xor_bytes(
                        payload.payload@[i][if b.choices[i] {
                            1int
                        } else {
                            0int
                        }].bytes@,
                        receiver_key(b.scalars[i], old(self).public_key_spec(), b.offset + i),
                    )
                &&& final(self).pending_spec() is None
                &&& final(self).next_id_spec() == old(self).next_id_spec()
                &&& final(self).counter_spec() == old(self).counter_spec()
                &&& final(self).log_spec() == old(self).log_spec()
                &&& final(self).config_spec() == old(self).config_spec()
                &&& final(self).public_key_spec() == old(self).public_key_spec()
            },
    {
        let expected = match &self.pending {
            None => {
                return Err(ReceiverError::NoPendingBatch);
            },
            Some(p) => (p.id, p.choices.len()),
        };
        if payload.id.0 != expected.0.0 {
            return Err(ReceiverError::IdMismatch(expected.0, payload.id));
        }
        if payload.payload.len() != expected.1 {
            return Err(ReceiverError::CountMismatch(expected.1, payload.payload.len()));
        }
        let pending = self.pending.take().unwrap();
        let n = pending.choices.len();
        let ciphertexts = payload.payload;
        let mut out: Vec<Block> = Vec::new();
        let mut i: usize = 0;
        while i < n
            invariant
                n == pending.choices@.len(),
                n == pending.scalars@.len(),
                n == ciphertexts@.len(),
                pending.offset + n <= usize::MAX,
                i <= n,
                out@.len() == i,
                forall|j: int|
                    0 <= j < i ==> (#[trigger] out@[j]).bytes@ == xor_bytes(
                        ciphertexts@[j][if pending.choices@[j] {
                            1int
                        } else {
                            0int
                        }].bytes@,
                        receiver_key(pending.scalars@[j]@, self.public_key@, pending.offset + j),
                    ),
            decreases n - i,
        {
            let yr = self.public_key.mul(&pending.scalars[i]);
            let key = hash_point(&yr, (pending.offset + i) as u128);
            let slot: usize = if pending.choices[i] {
                1
            } else {
                0
            };
            out.push(ciphertexts[i][slot].xor(&key));
            i = i + 1;
        }
        Ok(out)
    }

    /// Reveals every choice made so far, packed least significant bit
    /// first; refused unless the receiver commits to its choices.
    pub fn reveal_choices(self) -> (r: Result<ReceiverReveal, ReceiverError>)
        ensures
            match self.log_spec() {
                None => r == Err::<ReceiverReveal, ReceiverError>(ReceiverError::RevealNotEnabled),
                Some(l) => r matches Ok(rv) && {
                    &&& rv.choices@.len() == packed_len(l.len())
                    &&& forall|i: int| 0 <= i < l.len() ==> bit_lsb0(rv.choices@, i) == l[i]
                    &&& forall|i: int|
                        l.len() <= i < 8 * rv.choices@.len() ==> !bit_lsb0(rv.choices@, i)
                },
            },
    {
        match self.choice_log {
            None => Err(ReceiverError::RevealNotEnabled),
            Some(l) => Ok(ReceiverReveal { choices: pack_lsb0(l.as_slice()) }),
        }
    }
}

} // verus!

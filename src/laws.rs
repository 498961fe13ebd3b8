use vstd::prelude::*;

use crate::bits::{bit_lsb0, bits_lsb0, packed_len};
use crate::block::{lemma_xor_twice, xor_bytes, Block};
use crate::curve::{base_mul_of, encodings, seeded_scalar, seeded_scalars};
use crate::error::SenderError;
use crate::msgs::ReceiverPayload;
use crate::receiver::{blind_all, replay, ActiveReceiver};
use crate::sender::{key0, key1, verify_outcome, Sender};
use crate::state::{Initialized, Setup};

verus! {

/// Sender and receiver advance in lockstep: if they agree on the next id
/// and on the counter, then after the receiver's `receive` of `n` choices
/// and the sender's successful `send` of `n` inputs they agree again.
pub proof fn lemma_lockstep(
    s0: Sender<Setup>,
    s1: Sender<Setup>,
    r0: ActiveReceiver,
    r1: ActiveReceiver,
    n: nat,
)
    requires
        s0.next_id_spec() == r0.next_id_spec(),
        s0.counter_spec() == r0.counter_spec(),
        s1.next_id_spec() == s0.next_id_spec() + 1,
        s1.counter_spec() == s0.counter_spec() + n,
        r1.next_id_spec() == r0.next_id_spec() + 1,
        r1.counter_spec() == r0.counter_spec() + n,
    ensures
        s1.next_id_spec() == r1.next_id_spec(),
        s1.counter_spec() == r1.counter_spec(),
{
}

/// The sender's tape follows what the receiver sent: if the tape held
/// everything sent before a batch, and the sender records the batch's
/// points as the receiver logs them as sent, it still does after.
pub proof fn lemma_tape_tracks_sent(
    s0: Sender<Setup>,
    s1: Sender<Setup>,
    r0: ActiveReceiver,
    r1: ActiveReceiver,
    p: ReceiverPayload,
)
    requires
        s0.tape_spec() == Some(r0.sent_spec()),
        s1.tape_spec() == Some(s0.tape_spec().unwrap() + encodings(p.blinded_choices@)),
        r1.sent_spec() == r0.sent_spec() + encodings(p.blinded_choices@),
    ensures
        s1.tape_spec() == Some(r1.sent_spec()),
{
}

/// Every transfer of a session gets its own tweak: within a batch the
/// tweaks `counter + i` differ by position, and a later batch starts at a
/// counter past every tweak of an earlier one.
pub proof fn lemma_tweaks_distinct(s0: Sender<Setup>, s1: Sender<Setup>, n0: nat, i: int, j: int)
    requires
        s1.counter_spec() >= s0.counter_spec() + n0,
        0 <= i < n0,
        0 <= j,
        s1.counter_spec() + j <= usize::MAX,
    ensures
        (s0.counter_spec() + i) as u128 != (s1.counter_spec() + j) as u128,
        j < i ==> (s0.counter_spec() + i) as u128 != (s0.counter_spec() + j) as u128,
{
    assert(s0.counter_spec() + i < s1.counter_spec() + j);
}

/// Decryption with the matching key: when each ciphertext pair encrypts the
/// inputs under `keys`, and the receiver removes from the chosen ciphertext
/// the key of the chosen input, it recovers exactly the chosen inputs.
pub proof fn lemma_chosen_inputs_recovered(
    inputs: Seq<[Block; 2]>,
    ciphertexts: Seq<[Block; 2]>,
    keys: Seq<[Seq<u8>; 2]>,
    choices: Seq<bool>,
    out: Seq<Block>,
)
    requires
        inputs.len() == ciphertexts.len(),
        inputs.len() == keys.len(),
        inputs.len() == choices.len(),
        inputs.len() == out.len(),
        forall|i: int, k: int|
            0 <= i < inputs.len() && 0 <= k < 2 ==> (#[trigger] keys[i][k]).len() == 16,
        forall|i: int, k: int|
            0 <= i < inputs.len() && 0 <= k < 2 ==> (#[trigger] ciphertexts[i][k]).bytes@
                == xor_bytes(inputs[i][k].bytes@, keys[i][k]),
        forall|i: int|
            0 <= i < inputs.len() ==> (#[trigger] out[i]).bytes@ == xor_bytes(
                ciphertexts[i][if choices[i] {
                    1int
                } else {
                    0int
                }].bytes@,
                keys[i][if choices[i] {
                    1int
                } else {
                    0int
                }],
            ),
    ensures
        forall|i: int|
            0 <= i < inputs.len() ==> (#[trigger] out[i]).bytes@ == inputs[i][if choices[i] {
                1int
            } else {
                0int
            }].bytes@,
{
    assert forall|i: int| 0 <= i < inputs.len() implies (#[trigger] out[i]).bytes@
        == inputs[i][if choices[i] {
        1int
    } else {
        0int
    }].bytes@ by {
        let k: int = if choices[i] {
            1
        } else {
            0
        };
        assert(keys[i][k].len() == 16);
        assert(ciphertexts[i][k].bytes@ == xor_bytes(inputs[i][k].bytes@, keys[i][k]));
        lemma_xor_twice(inputs[i][k].bytes@, keys[i][k]);
    }
}

/// Tape soundness: a receiver that commits to its choices, whatever
/// batches it ran, passes the check when the sender's tape holds what it
/// sent and it reveals its seed and the packing of its choices; the check
/// then returns exactly those choices.
pub proof fn lemma_honest_receiver_passes(r: ActiveReceiver, tape: Seq<Seq<u8>>, reveal: Seq<u8>)
    requires
        r.wf(),
        r.log_spec() is Some,
        tape == r.sent_spec(),
        reveal.len() == packed_len(r.log_spec().unwrap().len()),
        forall|i: int|
            0 <= i < r.log_spec().unwrap().len() ==> bit_lsb0(reveal, i) == r.log_spec().unwrap()[i],
    ensures
        verify_outcome(Some(tape), r.public_key_spec(), r.seed_spec(), reveal) == Ok::<
            Seq<bool>,
            SenderError,
        >(r.log_spec().unwrap()),
{
    r.lemma_sent_is_replay();
    let l = r.log_spec().unwrap();
    assert(tape.len() == l.len());
    assert(8 * reveal.len() >= l.len());
    assert(bits_lsb0(reveal).take(tape.len() as int) =~= l);
}

/// Tape completeness: when the tape is not what a receiver seeded with the
/// revealed seed sends for the revealed choices, the check fails with
/// `InconsistentChoice`.
pub proof fn lemma_foreign_tape_detected(
    tape: Seq<Seq<u8>>,
    pk: Seq<u8>,
    seed: Seq<u8>,
    reveal: Seq<u8>,
)
    requires
        8 * reveal.len() >= tape.len(),
        replay(seed, bits_lsb0(reveal).take(tape.len() as int), pk) != tape,
    ensures
        verify_outcome(Some(tape), pk, seed, reveal) == Err::<Seq<bool>, SenderError>(
            SenderError::InconsistentChoice,
        ),
{
}

/// Same seed, same keypair: two senders made by `new_with_seed` from one
/// seed, whatever their configurations, hold the same private and public
/// keys, so their setup messages carry the same point.
pub proof fn lemma_same_seed_same_keypair(
    a: Sender<Initialized>,
    b: Sender<Initialized>,
    seed: Seq<u8>,
)
    requires
        a.init_private_key() == seeded_scalar(seed, 0),
        b.init_private_key() == seeded_scalar(seed, 0),
        a.init_public_key() == base_mul_of(a.init_private_key()),
        b.init_public_key() == base_mul_of(b.init_private_key()),
    ensures
        a.init_private_key() == b.init_private_key(),
        a.init_public_key() == b.init_public_key(),
{
}

/// Same seed, same points: two receivers with the same seed, the same
/// sender key and the same counter that blind the same choices, as
/// `receive` does, send the same points.
pub proof fn lemma_same_seed_same_blinding(
    a: ActiveReceiver,
    b: ActiveReceiver,
    pa: ReceiverPayload,
    pb: ReceiverPayload,
    choices: Seq<bool>,
)
    requires
        a.seed_spec() == b.seed_spec(),
        a.public_key_spec() == b.public_key_spec(),
        a.counter_spec() == b.counter_spec(),
        encodings(pa.blinded_choices@) == blind_all(
            seeded_scalars(a.seed_spec(), a.counter_spec(), choices.len()),
            choices,
            a.public_key_spec(),
        ),
        encodings(pb.blinded_choices@) == blind_all(
            seeded_scalars(b.seed_spec(), b.counter_spec(), choices.len()),
            choices,
            b.public_key_spec(),
        ),
    ensures
        encodings(pa.blinded_choices@) == encodings(pb.blinded_choices@),
{
}

/// Same key, same ciphertexts: two senders with the same keypair and
/// counter that encrypt the same inputs against the same blinded choices,
/// as `send` does, return the same bytes.
pub proof fn lemma_same_key_same_ciphertexts(
    a: Sender<Setup>,
    b: Sender<Setup>,
    inputs: Seq<[Block; 2]>,
    blinded: Seq<Seq<u8>>,
    pa: Seq<[Block; 2]>,
    pb: Seq<[Block; 2]>,
)
    requires
        a.private_key_spec() == b.private_key_spec(),
        a.public_key_spec() == b.public_key_spec(),
        a.counter_spec() == b.counter_spec(),
        pa.len() == inputs.len(),
        pb.len() == inputs.len(),
        blinded.len() == inputs.len(),
        forall|i: int|
            0 <= i < inputs.len() ==> {
                &&& (#[trigger] pa[i])[0].bytes@ == xor_bytes(
                    inputs[i][0].bytes@,
                    key0(a.private_key_spec(), blinded[i], a.counter_spec() + i),
                )
                &&& pa[i][1].bytes@ == xor_bytes(
                    inputs[i][1].bytes@,
                    key1(a.private_key_spec(), a.public_key_spec(), blinded[i], a.counter_spec() + i),
                )
            },
        forall|i: int|
            0 <= i < inputs.len() ==> {
                &&& (#[trigger] pb[i])[0].bytes@ == xor_bytes(
                    inputs[i][0].bytes@,
                    key0(b.private_key_spec(), blinded[i], b.counter_spec() + i),
                )
                &&& pb[i][1].bytes@ == xor_bytes(
                    inputs[i][1].bytes@,
                    key1(b.private_key_spec(), b.public_key_spec(), blinded[i], b.counter_spec() + i),
                )
            },
    ensures
        forall|i: int|
            0 <= i < inputs.len() ==> (#[trigger] pa[i])[0].bytes@ == pb[i][0].bytes@
                && pa[i][1].bytes@ == pb[i][1].bytes@,
{
}

} // verus!

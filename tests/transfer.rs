use chou_orlandi_ot::bits::{pack_lsb0, unpack_lsb0};
use chou_orlandi_ot::block::Block;
use chou_orlandi_ot::config::{ReceiverConfig, SenderConfig};
use chou_orlandi_ot::curve::{decode_points, hash_point, Point};
use chou_orlandi_ot::error::{
    EvaluatorError, MalformedPoint, ReceiverError, SenderError, VerificationError,
};
use chou_orlandi_ot::msgs::{ReceiverReveal, TransferId};
use chou_orlandi_ot::receiver::{ActiveReceiver, Receiver};
use chou_orlandi_ot::sender::Sender;
use chou_orlandi_ot::state::Setup;

fn blk(x: u128) -> Block {
    Block::new(x.to_le_bytes())
}

fn pair(a: u128, b: u128) -> [Block; 2] {
    [blk(a), blk(b)]
}

fn parties(commit: bool) -> (Sender<Setup>, ActiveReceiver) {
    let sender = Sender::new_with_seed(SenderConfig::new(commit), [1u8; 32]);
    let receiver = Receiver::new_with_seed(ReceiverConfig::new(commit), [2u8; 32]);
    let (setup, sender) = sender.setup();
    let receiver = receiver.setup(setup);
    (sender, receiver)
}

fn round(
    sender: &mut Sender<Setup>,
    receiver: &mut ActiveReceiver,
    inputs: &[[Block; 2]],
    choices: &[bool],
) -> Vec<Block> {
    let rp = receiver.receive(choices).unwrap();
    let sp = sender.send(inputs, rp).unwrap();
    receiver.receive_payload(sp).unwrap()
}

fn chosen(inputs: &[[Block; 2]], choices: &[bool]) -> Vec<Block> {
    inputs
        .iter()
        .zip(choices)
        .map(|(p, c)| if *c { p[1] } else { p[0] })
        .collect()
}

#[test]
fn seeded_batch_of_four() {
    let (mut sender, mut receiver) = parties(false);
    let choices = [false, true, false, true];
    let inputs = [pair(0, 1), pair(2, 3), pair(4, 5), pair(6, 7)];
    let out = round(&mut sender, &mut receiver, &inputs, &choices);
    assert_eq!(out, vec![blk(0), blk(3), blk(4), blk(7)]);
    assert_eq!(sender.next_id(), TransferId(1));
    assert_eq!(receiver.next_id(), TransferId(1));
    assert_eq!(sender.counter(), 4);
    assert_eq!(receiver.counter(), 4);
}

#[test]
fn lockstep_over_several_batches() {
    let (mut sender, mut receiver) = parties(false);
    for (k, n) in [3usize, 0, 7, 1].iter().enumerate() {
        let choices: Vec<bool> = (0..*n).map(|i| (i + k) % 3 == 0).collect();
        let inputs: Vec<[Block; 2]> =
            (0..*n).map(|i| pair(100 * i as u128, 100 * i as u128 + 1)).collect();
        let out = round(&mut sender, &mut receiver, &inputs, &choices);
        assert_eq!(out, chosen(&inputs, &choices));
        assert_eq!(sender.next_id(), receiver.next_id());
        assert_eq!(sender.counter(), receiver.counter());
    }
    assert_eq!(sender.next_id(), TransferId(4));
    assert_eq!(sender.counter(), 11);
}

#[test]
fn correlated_vectors_from_transfers() {
    let (mut sender, mut receiver) = parties(false);
    let alphas = [0usize, 1, 3, 4, 2];
    let n = 5;
    let delta = blk(0x5555_aaaa_1234_5678_9abc_def0_0f1e_2d3c);
    let v: Vec<Block> = (0..n).map(|i| blk(0x1000 + i as u128 * 77)).collect();
    let choices: Vec<bool> = (0..n).map(|i| alphas.contains(&i)).collect();
    let inputs: Vec<[Block; 2]> = v.iter().map(|x| [*x, x.xor(&delta)]).collect();
    let w = round(&mut sender, &mut receiver, &inputs, &choices);
    let mut v = v;
    for a in alphas {
        v[a] = v[a].xor(&delta);
    }
    assert_eq!(v, w);
}

#[test]
fn single_transfer() {
    let (mut sender, mut receiver) = parties(false);
    let inputs = [pair(41, 42)];
    assert_eq!(round(&mut sender, &mut receiver, &inputs, &[true]), vec![blk(42)]);
    assert_eq!(round(&mut sender, &mut receiver, &inputs, &[false]), vec![blk(41)]);
}

#[test]
fn empty_batch() {
    let (mut sender, mut receiver) = parties(true);
    let rp = receiver.receive(&[]).unwrap();
    let sp = sender.send(&[], rp).unwrap();
    assert_eq!(sp.id, TransferId(0));
    assert!(sp.payload.is_empty());
    assert_eq!(sender.next_id(), TransferId(1));
    assert_eq!(sender.counter(), 0);
    assert_eq!(sender.tape_len(), Some(0));
    assert_eq!(receiver.receive_payload(sp).unwrap(), Vec::<Block>::new());
}

#[test]
fn large_batch() {
    let (mut sender, mut receiver) = parties(false);
    let n = 256;
    let choices: Vec<bool> = (0..n).map(|i| i % 2 == 1).collect();
    let inputs: Vec<[Block; 2]> = (0..n).map(|i| pair(2 * i as u128, 2 * i as u128 + 1)).collect();
    let out = round(&mut sender, &mut receiver, &inputs, &choices);
    for (i, b) in out.iter().enumerate() {
        let x = u128::from_le_bytes(b.bytes);
        assert_eq!(x % 2, (i % 2) as u128);
        assert_eq!(x, 2 * i as u128 + (i % 2) as u128);
    }
}

#[test]
fn same_seeds_same_messages() {
    let run = || {
        let (mut sender, mut receiver) = parties(false);
        let inputs = [pair(9, 8), pair(7, 6), pair(5, 4)];
        let rp = receiver.receive(&[true, false, true]).unwrap();
        let blinded: Vec<[u8; 32]> = rp.blinded_choices.iter().map(|p| p.to_bytes()).collect();
        let sp = sender.send(&inputs, rp).unwrap();
        let cts: Vec<[Block; 2]> = sp.payload.clone();
        (blinded, cts)
    };
    assert_eq!(run(), run());
}

#[test]
fn tape_replay_returns_choices() {
    let (mut sender, mut receiver) = parties(true);
    let first = [true, false, true];
    let second = [false, false, true, true, false];
    let inputs3: Vec<[Block; 2]> = (0..3).map(|i| pair(i, i + 10)).collect();
    let inputs5: Vec<[Block; 2]> = (0..5).map(|i| pair(i, i + 20)).collect();
    round(&mut sender, &mut receiver, &inputs3, &first);
    round(&mut sender, &mut receiver, &inputs5, &second);
    assert_eq!(sender.tape_len(), Some(8));
    let reveal = receiver.reveal_choices().unwrap();
    assert_eq!(reveal.choices, vec![0b0110_0101u8]);
    let all: Vec<bool> = first.iter().chain(second.iter()).copied().collect();
    assert_eq!(sender.verify_choices([2u8; 32], reveal), Ok(all));
}

#[test]
fn tampered_tape_is_detected() {
    let (mut sender, mut receiver) = parties(true);
    let inputs3: Vec<[Block; 2]> = (0..3).map(|i| pair(i, i + 10)).collect();
    let inputs5: Vec<[Block; 2]> = (0..5).map(|i| pair(i, i + 20)).collect();
    round(&mut sender, &mut receiver, &inputs3, &[true, false, true]);
    let mut rp = receiver.receive(&[false, false, true, true, false]).unwrap();
    let mut bytes = rp.blinded_choices[2].to_bytes();
    let untouched = bytes;
    let mut replaced = None;
    for v in 0..=255u8 {
        bytes[0] = v;
        if bytes != untouched {
            if let Some(p) = Point::from_bytes(bytes) {
                replaced = Some(p);
                break;
            }
        }
    }
    rp.blinded_choices[2] = replaced.unwrap();
    let sp = sender.send(&inputs5, rp).unwrap();
    receiver.receive_payload(sp).unwrap();
    let reveal = receiver.reveal_choices().unwrap();
    assert_eq!(
        sender.verify_choices([2u8; 32], reveal),
        Err(SenderError::InconsistentChoice)
    );
}

#[test]
fn wrong_seed_is_detected() {
    let (mut sender, mut receiver) = parties(true);
    let inputs: Vec<[Block; 2]> = (0..4).map(|i| pair(i, i + 1)).collect();
    round(&mut sender, &mut receiver, &inputs, &[true, true, false, true]);
    let reveal = receiver.reveal_choices().unwrap();
    assert_eq!(
        sender.verify_choices([3u8; 32], reveal),
        Err(SenderError::InconsistentChoice)
    );
}

#[test]
fn skipped_batch_gives_id_mismatch() {
    let (mut sender, mut receiver) = parties(false);
    let inputs: Vec<[Block; 2]> = (0..2).map(|i| pair(i, i + 1)).collect();
    round(&mut sender, &mut receiver, &inputs, &[true, false]);
    let skipped = receiver.receive(&[false, true]).unwrap();
    let next = receiver.receive(&[true, true]).unwrap();
    assert_eq!(
        sender.send(&inputs, next).err(),
        Some(SenderError::IdMismatch(TransferId(1), TransferId(2)))
    );
    assert_eq!(sender.next_id(), TransferId(1));
    assert_eq!(sender.counter(), 2);
    let sp = sender.send(&inputs, skipped).unwrap();
    assert_eq!(sp.id, TransferId(1));
    assert_eq!(sender.next_id(), TransferId(2));
}

#[test]
fn count_mismatch_leaves_state() {
    let (mut sender, mut receiver) = parties(true);
    let inputs: Vec<[Block; 2]> = (0..3).map(|i| pair(i, i + 1)).collect();
    let rp = receiver.receive(&[true, false, true, false]).unwrap();
    assert_eq!(sender.send(&inputs, rp).err(), Some(SenderError::CountMismatch(3, 4)));
    assert_eq!(sender.next_id(), TransferId(0));
    assert_eq!(sender.counter(), 0);
    assert_eq!(sender.tape_len(), Some(0));
}

#[test]
fn tape_only_under_commitment() {
    let (sender, _) = parties(false);
    assert_eq!(sender.tape_len(), None);
    let reveal = ReceiverReveal { choices: vec![0xff] };
    assert_eq!(
        sender.verify_choices([2u8; 32], reveal),
        Err(SenderError::TapeNotRecorded)
    );
    let (_, receiver) = parties(false);
    assert_eq!(receiver.reveal_choices().err(), Some(ReceiverError::RevealNotEnabled));
}

#[test]
fn short_reveal_is_refused() {
    let (mut sender, mut receiver) = parties(true);
    let inputs: Vec<[Block; 2]> = (0..9).map(|i| pair(i, i + 1)).collect();
    let choices = [true; 9];
    round(&mut sender, &mut receiver, &inputs, &choices);
    let reveal = ReceiverReveal { choices: vec![0xff] };
    assert_eq!(
        sender.verify_choices([2u8; 32], reveal),
        Err(SenderError::ChoiceCountMismatch(9, 8))
    );
}

#[test]
fn receiver_reply_errors() {
    let (mut sender, mut receiver) = parties(false);
    let inputs: Vec<[Block; 2]> = (0..2).map(|i| pair(i, i + 1)).collect();
    let rp = receiver.receive(&[true, false]).unwrap();
    let mut sp = sender.send(&inputs, rp).unwrap();
    sp.id = TransferId(5);
    assert_eq!(
        receiver.receive_payload(sp.clone()),
        Err(ReceiverError::IdMismatch(TransferId(0), TransferId(5)))
    );
    sp.id = TransferId(0);
    let mut short = sp.clone();
    short.payload.pop();
    assert_eq!(
        receiver.receive_payload(short),
        Err(ReceiverError::CountMismatch(2, 1))
    );
    assert_eq!(receiver.receive_payload(sp).unwrap(), vec![blk(1), blk(1)]);
    let again = sender.send(&[], receiver.receive(&[]).unwrap()).unwrap();
    receiver.receive_payload(again).unwrap();
    let stale = receiver.receive_payload(chou_orlandi_ot::msgs::SenderPayload {
        id: TransferId(2),
        payload: vec![],
    });
    assert_eq!(stale, Err(ReceiverError::NoPendingBatch));
}

#[test]
fn malformed_point_is_refused() {
    assert!(Point::from_bytes([0xffu8; 32]).is_none());
    assert_eq!(decode_points(&[[0u8; 32], [0xffu8; 32]]).err(), Some(MalformedPoint));
    let ok = decode_points(&[[0u8; 32]]).unwrap();
    assert_eq!(ok[0].to_bytes(), [0u8; 32]);
}

#[test]
fn point_hash_depends_on_point_and_tweak() {
    let (sender, _) = parties(false);
    let p = sender.public_key();
    let a = hash_point(&p, 0);
    let b = hash_point(&p, 1);
    assert_ne!(a, b);
    assert_ne!(a.bytes[..], p.to_bytes()[..16]);
    let q = Point::from_bytes([0u8; 32]).unwrap();
    assert_ne!(hash_point(&q, 0), a);
    assert_eq!(hash_point(&p, 0), a);
}

#[test]
fn block_xor() {
    let a = blk(0b1100);
    let b = blk(0b1010);
    assert_eq!(a.xor(&b), blk(0b0110));
    assert_eq!(a.xor(&b).xor(&b), a);
}

#[test]
fn bits_pack_and_unpack() {
    let bits = [true, false, true, false, false, false, true, true, true, false];
    let packed = pack_lsb0(&bits);
    assert_eq!(packed, vec![0b1100_0101u8, 0b0000_0001u8]);
    assert_eq!(unpack_lsb0(&packed, 10), bits.to_vec());
    assert_eq!(unpack_lsb0(&[0b1000_0000u8], 8), vec![false, false, false, false, false, false, false, true]);
    assert!(pack_lsb0(&[]).is_empty());
}

#[test]
fn evaluator_error_conversions() {
    assert_eq!(
        EvaluatorError::from(VerificationError::InvalidDecoding),
        EvaluatorError::VerificationError(VerificationError::InvalidDecoding)
    );
    assert_eq!(
        EvaluatorError::from(SenderError::InconsistentChoice),
        EvaluatorError::OtError(SenderError::InconsistentChoice)
    );
}

#[test]
fn entropy_parties_agree() {
    let sender = Sender::new(SenderConfig::default());
    let receiver = Receiver::new(ReceiverConfig::default());
    assert!(!sender.config().receiver_commit());
    let (setup, mut sender) = sender.setup();
    let mut receiver = receiver.setup(setup);
    let inputs = [pair(1, 2), pair(3, 4)];
    let out = round(&mut sender, &mut receiver, &inputs, &[false, true]);
    assert_eq!(out, vec![blk(1), blk(4)]);
}

#[test]
fn replay_comparison() {
    let p = Point::from_bytes([0u8; 32]).unwrap();
    let (sender, _) = parties(false);
    let q = sender.public_key();
    let choices = vec![true, false];
    assert_eq!(
        chou_orlandi_ot::sender::check_replay(&[p, q], &[p, q], choices.clone()),
        Ok(choices.clone())
    );
    assert_eq!(
        chou_orlandi_ot::sender::check_replay(&[p, q], &[q, p], choices.clone()),
        Err(SenderError::InconsistentChoice)
    );
    assert_eq!(
        chou_orlandi_ot::sender::check_replay(&[p], &[p, q], choices),
        Err(SenderError::InconsistentChoice)
    );
}

//! Binary messages exchanged with the pool server.
//!
//! Every message starts with a one-byte tag. The two directions number their
//! tags independently. All integers are little-endian.

use crate::wire::{
    bytes_at, read_array, read_tail, read_u32, read_u64, u32_at, u32_bytes, u64_at, u64_bytes,
    write_bytes, write_u32, write_u64,
};
use std::ops::Range;
use vstd::bytes::{lemma_auto_spec_u32_to_from_le_bytes, lemma_auto_spec_u64_to_from_le_bytes};
use vstd::prelude::*;

verus! {

/// Why a byte sequence is not a message.
#[derive(Clone, Copy, Debug, PartialEq, Eq, Structural)]
pub enum DecodeError {
    /// The input ends before the last fixed-width field of the message.
    TooShort,
    /// The first byte is not the tag of the expected message.
    UnknownTag,
}

/// Tag of [`ClientMessageReady`].
pub const CLIENT_TAG_READY: u8 = 1;

/// Bytes in an encoded [`ClientMessageReady`].
pub const READY_LEN: usize = 1;

/// The client announces that it is ready for work. No payload.
#[derive(Clone, Copy, Debug, PartialEq, Eq, Structural)]
pub struct ClientMessageReady;

impl ClientMessageReady {
    /// The bytes of the only `Ready` message.
    pub open spec fn spec_encode() -> Seq<u8> {
        seq![CLIENT_TAG_READY]
    }

    /// What `b` decodes to.
    pub open spec fn spec_decode(b: Seq<u8>) -> Result<ClientMessageReady, DecodeError> {
        if b.len() < READY_LEN {
            Err(DecodeError::TooShort)
        } else if b[0] != CLIENT_TAG_READY {
            Err(DecodeError::UnknownTag)
        } else {
            Ok(ClientMessageReady)
        }
    }

    /// The `Ready` message.
    pub fn new() -> (m: Self)
        ensures
            m == ClientMessageReady,
    {
        ClientMessageReady
    }

    /// Reads a `Ready` message from `b`.
    pub fn new_from_bytes(b: Vec<u8>) -> (r: Result<Self, DecodeError>)
        ensures
            r == Self::spec_decode(b@),
    {
        if b.len() < READY_LEN {
            return Err(DecodeError::TooShort);
        }
        if b[0] != CLIENT_TAG_READY {
            return Err(DecodeError::UnknownTag);
        }
        Ok(ClientMessageReady)
    }

    /// The bytes to send.
    pub fn to_message_binary(&self) -> (bin_data: Vec<u8>)
        ensures
            bin_data@ == Self::spec_encode(),
    {
        let mut bin_data: Vec<u8> = Vec::new();
        bin_data.push(CLIENT_TAG_READY);
        bin_data
    }
}

/// Tag of [`ServerStartMining`].
pub const SERVER_TAG_START_MINING: u8 = 0;

/// Bytes in an encoded [`ServerStartMining`]: the tag, the challenge and
/// three `u64`.
pub const START_MINING_LEN: usize = 57;

/// The server hands out a challenge, the slice of nonces to search and the
/// seconds left to search it.
#[derive(Clone, Copy, Debug, PartialEq, Eq)]
pub struct ServerStartMining {
    challenge: [u8; 32],
    cutoff: u64,
    nonce_start: u64,
    nonce_end: u64,
}

/// What a [`ServerStartMining`] holds.
pub struct ServerStartMiningView {
    pub challenge: Seq<u8>,
    pub cutoff: u64,
    pub nonce_start: u64,
    pub nonce_end: u64,
}

impl ServerStartMiningView {
    /// The challenge has its 32 bytes.
    pub open spec fn wf(self) -> bool {
        self.challenge.len() == 32
    }

    /// The bytes of this message: tag, challenge, cutoff, first nonce and the
    /// nonce behind the last.
    pub open spec fn encode(self) -> Seq<u8> {
        seq![SERVER_TAG_START_MINING] + self.challenge + u64_bytes(self.cutoff) + u64_bytes(
            self.nonce_start,
        ) + u64_bytes(self.nonce_end)
    }

    /// What `b` decodes to. Bytes behind the message are ignored.
    pub open spec fn decode(b: Seq<u8>) -> Result<ServerStartMiningView, DecodeError> {
        if b.len() < START_MINING_LEN {
            Err(DecodeError::TooShort)
        } else if b[0] != SERVER_TAG_START_MINING {
            Err(DecodeError::UnknownTag)
        } else {
            Ok(
                ServerStartMiningView {
                    challenge: bytes_at(b, 1, 32),
                    cutoff: u64_at(b, 33),
                    nonce_start: u64_at(b, 41),
                    nonce_end: u64_at(b, 49),
                },
            )
        }
    }

    /// Decoding an encoded message gives the message back.
    pub proof fn lemma_round_trip(self)
        requires
            self.wf(),
        ensures
            Self::decode(self.encode()) == Ok::<ServerStartMiningView, DecodeError>(self),
    {
        lemma_auto_spec_u64_to_from_le_bytes();
        let b = self.encode();
        assert(bytes_at(b, 1, 32) =~= self.challenge);
        assert(bytes_at(b, 33, 8) =~= u64_bytes(self.cutoff));
        assert(bytes_at(b, 41, 8) =~= u64_bytes(self.nonce_start));
        assert(bytes_at(b, 49, 8) =~= u64_bytes(self.nonce_end));
    }
}

impl View for ServerStartMining {
    type V = ServerStartMiningView;

    closed spec fn view(&self) -> ServerStartMiningView {
        ServerStartMiningView {
            challenge: self.challenge@,
            cutoff: self.cutoff,
            nonce_start: self.nonce_start,
            nonce_end: self.nonce_end,
        }
    }
}

impl ServerStartMining {
    pub fn new(challenge: [u8; 32], cutoff: u64, nonce_start: u64, nonce_end: u64) -> (m: Self)
        ensures
            m@ == (ServerStartMiningView { challenge: challenge@, cutoff, nonce_start, nonce_end }),
    {
        ServerStartMining { challenge, cutoff, nonce_start, nonce_end }
    }

    /// Reads the message from `b`; says why where `b` holds none.
    pub fn new_from_bytes(b: Vec<u8>) -> (r: Result<Self, DecodeError>)
        ensures
            match r {
                Ok(m) => ServerStartMiningView::decode(b@) == Ok::<
                    ServerStartMiningView,
                    DecodeError,
                >(m@),
                Err(e) => ServerStartMiningView::decode(b@) == Err::<
                    ServerStartMiningView,
                    DecodeError,
                >(e),
            },
    {
        if b.len() < START_MINING_LEN {
            return Err(DecodeError::TooShort);
        }
        if b[0] != SERVER_TAG_START_MINING {
            return Err(DecodeError::UnknownTag);
        }
        let bytes = b.as_slice();
        let challenge: [u8; 32] = read_array::<32>(bytes, 1);
        let cutoff: u64 = read_u64(bytes, 33);
        let nonce_start: u64 = read_u64(bytes, 41);
        let nonce_end: u64 = read_u64(bytes, 49);
        Ok(ServerStartMining { challenge, cutoff, nonce_start, nonce_end })
    }

    /// The bytes to send.
    pub fn to_message_binary(&self) -> (bin_data: Vec<u8>)
        ensures
            bin_data@ == self@.encode(),
    {
        let mut bin_data: Vec<u8> = Vec::new();
        bin_data.push(SERVER_TAG_START_MINING);
        write_bytes(&mut bin_data, self.challenge.as_slice());
        write_u64(&mut bin_data, self.cutoff);
        write_u64(&mut bin_data, self.nonce_start);
        write_u64(&mut bin_data, self.nonce_end);
        bin_data
    }

    pub fn challenge(&self) -> (challenge: [u8; 32])
        ensures
            challenge@ == self@.challenge,
    {
        self.challenge
    }

    pub fn cutoff(&self) -> (cutoff: u64)
        ensures
            cutoff == self@.cutoff,
    {
        self.cutoff
    }

    pub fn nonce_start(&self) -> (nonce_start: u64)
        ensures
            nonce_start == self@.nonce_start,
    {
        self.nonce_start
    }

    pub fn nonce_end(&self) -> (nonce_end: u64)
        ensures
            nonce_end == self@.nonce_end,
    {
        self.nonce_end
    }

    /// A message holds a challenge of 32 bytes, and two messages that hold the
    /// same are the same message.
    pub proof fn lemma_view(self, other: Self)
        ensures
            self@.wf(),
            self@ == other@ ==> self == other,
    {
        if self@ == other@ {
            assert(self.challenge =~= other.challenge);
        }
    }
}

/// Tag of [`ServerMessagePoolSubmissionResult`].
pub const SERVER_TAG_POOL_SUBMISSION_RESULT: u8 = 1;

/// Bytes in an encoded [`ServerMessagePoolSubmissionResult`].
pub const POOL_SUBMISSION_RESULT_LEN: usize = 101;

/// The server reports how the pool's last submission went.
///
/// The six amounts that the pool sends as IEEE 754 binary64 are kept as
/// their 64 bits (`f64::to_bits`, `f64::from_bits`), so that every message
/// is read back bit for bit.
#[derive(Clone, Copy, Debug, PartialEq, Eq)]
pub struct ServerMessagePoolSubmissionResult {
    difficulty: u32,
    total_balance: u64,
    total_rewards: u64,
    top_stake: u64,
    multiplier: u64,
    active_miners: u32,
    challenge: [u8; 32],
    best_nonce: u64,
    miner_supplied_difficulty: u32,
    miner_earned_rewards: u64,
    miner_percentage: u64,
}

/// What a [`ServerMessagePoolSubmissionResult`] holds.
pub struct PoolSubmissionResultView {
    pub difficulty: u32,
    pub total_balance: u64,
    pub total_rewards: u64,
    pub top_stake: u64,
    pub multiplier: u64,
    pub active_miners: u32,
    pub challenge: Seq<u8>,
    pub best_nonce: u64,
    pub miner_supplied_difficulty: u32,
    pub miner_earned_rewards: u64,
    pub miner_percentage: u64,
}

impl PoolSubmissionResultView {
    /// The challenge has its 32 bytes.
    pub open spec fn wf(self) -> bool {
        self.challenge.len() == 32
    }

    /// The bytes of this message: the tag, then the fields in the order of
    /// their declaration, without padding.
    pub open spec fn encode(self) -> Seq<u8> {
        seq![SERVER_TAG_POOL_SUBMISSION_RESULT] + u32_bytes(self.difficulty) + u64_bytes(
            self.total_balance,
        ) + u64_bytes(self.total_rewards) + u64_bytes(self.top_stake) + u64_bytes(self.multiplier)
            + u32_bytes(self.active_miners) + self.challenge + u64_bytes(self.best_nonce)
            + u32_bytes(self.miner_supplied_difficulty) + u64_bytes(self.miner_earned_rewards)
            + u64_bytes(self.miner_percentage)
    }

    /// What `b` decodes to. Bytes behind the message are ignored.
    pub open spec fn decode(b: Seq<u8>) -> Result<PoolSubmissionResultView, DecodeError> {
        if b.len() < POOL_SUBMISSION_RESULT_LEN {
            Err(DecodeError::TooShort)
        } else if b[0] != SERVER_TAG_POOL_SUBMISSION_RESULT {
            Err(DecodeError::UnknownTag)
        } else {
            Ok(
                PoolSubmissionResultView {
                    difficulty: u32_at(b, 1),
                    total_balance: u64_at(b, 5),
                    total_rewards: u64_at(b, 13),
                    top_stake: u64_at(b, 21),
                    multiplier: u64_at(b, 29),
                    active_miners: u32_at(b, 37),
                    challenge: bytes_at(b, 41, 32),
                    best_nonce: u64_at(b, 73),
                    miner_supplied_difficulty: u32_at(b, 81),
                    miner_earned_rewards: u64_at(b, 85),
                    miner_percentage: u64_at(b, 93),
                },
            )
        }
    }

    /// Decoding an encoded message gives the message back.
    pub proof fn lemma_round_trip(self)
        requires
            self.wf(),
        ensures
            Self::decode(self.encode()) == Ok::<PoolSubmissionResultView, DecodeError>(self),
    {
        lemma_auto_spec_u32_to_from_le_bytes();
        lemma_auto_spec_u64_to_from_le_bytes();
        let b = self.encode();
        assert(bytes_at(b, 1, 4) =~= u32_bytes(self.difficulty));
        assert(bytes_at(b, 5, 8) =~= u64_bytes(self.total_balance));
        assert(bytes_at(b, 13, 8) =~= u64_bytes(self.total_rewards));
        assert(bytes_at(b, 21, 8) =~= u64_bytes(self.top_stake));
        assert(bytes_at(b, 29, 8) =~= u64_bytes(self.multiplier));
        assert(bytes_at(b, 37, 4) =~= u32_bytes(self.active_miners));
        assert(bytes_at(b, 41, 32) =~= self.challenge);
        assert(bytes_at(b, 73, 8) =~= u64_bytes(self.best_nonce));
        assert(bytes_at(b, 81, 4) =~= u32_bytes(self.miner_supplied_difficulty));
        assert(bytes_at(b, 85, 8) =~= u64_bytes(self.miner_earned_rewards));
        assert(bytes_at(b, 93, 8) =~= u64_bytes(self.miner_percentage));
    }
}

impl View for ServerMessagePoolSubmissionResult {
    type V = PoolSubmissionResultView;

    closed spec fn view(&self) -> PoolSubmissionResultView {
        PoolSubmissionResultView {
            difficulty: self.difficulty,
            total_balance: self.total_balance,
            total_rewards: self.total_rewards,
            top_stake: self.top_stake,
            multiplier: self.multiplier,
            active_miners: self.active_miners,
            challenge: self.challenge@,
            best_nonce: self.best_nonce,
            miner_supplied_difficulty: self.miner_supplied_difficulty,
            miner_earned_rewards: self.miner_earned_rewards,
            miner_percentage: self.miner_percentage,
        }
    }
}

impl ServerMessagePoolSubmissionResult {
    pub fn new(
        difficulty: u32,
        total_balance: u64,
        total_rewards: u64,
        top_stake: u64,
        multiplier: u64,
        active_miners: u32,
        challenge: [u8; 32],
        best_nonce: u64,
        miner_supplied_difficulty: u32,
        miner_earned_rewards: u64,
        miner_percentage: u64,
    ) -> (m: Self)
        ensures
            m@ == (PoolSubmissionResultView {
                difficulty,
                total_balance,
                total_rewards,
                top_stake,
                multiplier,
                active_miners,
                challenge: challenge@,
                best_nonce,
                miner_supplied_difficulty,
                miner_earned_rewards,
                miner_percentage,
            }),
    {
        ServerMessagePoolSubmissionResult {
            difficulty,
            total_balance,
            total_rewards,
            top_stake,
            multiplier,
            active_miners,
            challenge,
            best_nonce,
            miner_supplied_difficulty,
            miner_earned_rewards,
            miner_percentage,
        }
    }

    pub fn difficulty(&self) -> (difficulty: u32)
        ensures
            difficulty == self@.difficulty,
    {
        self.difficulty
    }

    /// The bits of the pool's balance.
    pub fn total_balance(&self) -> (total_balance: u64)
        ensures
            total_balance == self@.total_balance,
    {
        self.total_balance
    }

    /// The bits of the pool's rewards.
    pub fn total_rewards(&self) -> (total_rewards: u64)
        ensures
            total_rewards == self@.total_rewards,
    {
        self.total_rewards
    }

    /// The bits of the largest stake.
    pub fn top_stake(&self) -> (top_stake: u64)
        ensures
            top_stake == self@.top_stake,
    {
        self.top_stake
    }

    /// The bits of the multiplier.
    pub fn multiplier(&self) -> (multiplier: u64)
        ensures
            multiplier == self@.multiplier,
    {
        self.multiplier
    }

    pub fn active_miners(&self) -> (active_miners: u32)
        ensures
            active_miners == self@.active_miners,
    {
        self.active_miners
    }

    pub fn challenge(&self) -> (challenge: [u8; 32])
        ensures
            challenge@ == self@.challenge,
    {
        self.challenge
    }

    pub fn best_nonce(&self) -> (best_nonce: u64)
        ensures
            best_nonce == self@.best_nonce,
    {
        self.best_nonce
    }

    pub fn miner_supplied_difficulty(&self) -> (miner_supplied_difficulty: u32)
        ensures
            miner_supplied_difficulty == self@.miner_supplied_difficulty,
    {
        self.miner_supplied_difficulty
    }

    /// The bits of what this miner earned.
    pub fn miner_earned_rewards(&self) -> (miner_earned_rewards: u64)
        ensures
            miner_earned_rewards == self@.miner_earned_rewards,
    {
        self.miner_earned_rewards
    }

    /// The bits of this miner's share.
    pub fn miner_percentage(&self) -> (miner_percentage: u64)
        ensures
            miner_percentage == self@.miner_percentage,
    {
        self.miner_percentage
    }

    /// Reads the message from `b`; says why where `b` holds none.
    pub fn new_from_bytes(b: Vec<u8>) -> (r: Result<Self, DecodeError>)
        ensures
            match r {
                Ok(m) => PoolSubmissionResultView::decode(b@) == Ok::<
                    PoolSubmissionResultView,
                    DecodeError,
                >(m@),
                Err(e) => PoolSubmissionResultView::decode(b@) == Err::<
                    PoolSubmissionResultView,
                    DecodeError,
                >(e),
            },
    {
        if b.len() < POOL_SUBMISSION_RESULT_LEN {
            return Err(DecodeError::TooShort);
        }
        if b[0] != SERVER_TAG_POOL_SUBMISSION_RESULT {
            return Err(DecodeError::UnknownTag);
        }
        let bytes = b.as_slice();
        let difficulty: u32 = read_u32(bytes, 1);
        let total_balance: u64 = read_u64(bytes, 5);
        let total_rewards: u64 = read_u64(bytes, 13);
        let top_stake: u64 = read_u64(bytes, 21);
        let multiplier: u64 = read_u64(bytes, 29);
        let active_miners: u32 = read_u32(bytes, 37);
        let challenge: [u8; 32] = read_array::<32>(bytes, 41);
        let best_nonce: u64 = read_u64(bytes, 73);
        let miner_supplied_difficulty: u32 = read_u32(bytes, 81);
        let miner_earned_rewards: u64 = read_u64(bytes, 85);
        let miner_percentage: u64 = read_u64(bytes, 93);
        Ok(
            ServerMessagePoolSubmissionResult {
                difficulty,
                total_balance,
                total_rewards,
                top_stake,
                multiplier,
                active_miners,
                challenge,
                best_nonce,
                miner_supplied_difficulty,
                miner_earned_rewards,
                miner_percentage,
            },
        )
    }

    /// The bytes to send.
    pub fn to_message_binary(&self) -> (bin_data: Vec<u8>)
        ensures
            bin_data@ == self@.encode(),
    {
        let mut bin_data: Vec<u8> = Vec::new();
        bin_data.push(SERVER_TAG_POOL_SUBMISSION_RESULT);
        write_u32(&mut bin_data, self.difficulty);
        write_u64(&mut bin_data, self.total_balance);
        write_u64(&mut bin_data, self.total_rewards);
        write_u64(&mut bin_data, self.top_stake);
        write_u64(&mut bin_data, self.multiplier);
        write_u32(&mut bin_data, self.active_miners);
        write_bytes(&mut bin_data, self.challenge.as_slice());
        write_u64(&mut bin_data, self.best_nonce);
        write_u32(&mut bin_data, self.miner_supplied_difficulty);
        write_u64(&mut bin_data, self.miner_earned_rewards);
        write_u64(&mut bin_data, self.miner_percentage);
        bin_data
    }

    /// A message holds a challenge of 32 bytes, and two messages that hold the
    /// same are the same message.
    pub proof fn lemma_view(self, other: Self)
        ensures
            self@.wf(),
            self@ == other@ ==> self == other,
    {
        if self@ == other@ {
            assert(self.challenge =~= other.challenge);
        }
    }
}

/// Tag of [`ClientMessageBestSolution`].
pub const CLIENT_TAG_BEST_SOLUTION: u8 = 2;

/// Bytes in the shortest encoded [`ClientMessageBestSolution`], one with an
/// empty signature.
pub const BEST_SOLUTION_MIN_LEN: usize = 57;

/// The client submits the best hash it found, with the nonce that gives it,
/// the miner's public key and the miner's signature.
///
/// The signature has no length prefix: it is whatever follows the public
/// key, so whoever frames the messages decides where it ends.
#[derive(Clone, Debug, PartialEq, Eq)]
pub struct ClientMessageBestSolution {
    best_hash: [u8; 16],
    best_nonce: u64,
    pubkey: [u8; 32],
    signature: Vec<u8>,
}

/// What a [`ClientMessageBestSolution`] holds.
pub struct BestSolutionView {
    pub best_hash: Seq<u8>,
    pub best_nonce: u64,
    pub pubkey: Seq<u8>,
    pub signature: Seq<u8>,
}

impl BestSolutionView {
    /// The hash has its 16 bytes and the public key its 32.
    pub open spec fn wf(self) -> bool {
        self.best_hash.len() == 16 && self.pubkey.len() == 32
    }

    /// The bytes of this message: tag, hash, nonce, public key, signature.
    pub open spec fn encode(self) -> Seq<u8> {
        seq![CLIENT_TAG_BEST_SOLUTION] + self.best_hash + u64_bytes(self.best_nonce) + self.pubkey
            + self.signature
    }

    /// What `b` decodes to. All that follows the public key is the
    /// signature.
    pub open spec fn decode(b: Seq<u8>) -> Result<BestSolutionView, DecodeError> {
        if b.len() < BEST_SOLUTION_MIN_LEN {
            Err(DecodeError::TooShort)
        } else if b[0] != CLIENT_TAG_BEST_SOLUTION {
            Err(DecodeError::UnknownTag)
        } else {
            Ok(
                BestSolutionView {
                    best_hash: bytes_at(b, 1, 16),
                    best_nonce: u64_at(b, 17),
                    pubkey: bytes_at(b, 25, 32),
                    signature: b.subrange(57, b.len() as int),
                },
            )
        }
    }

    /// Decoding an encoded message gives the message back.
    pub proof fn lemma_round_trip(self)
        requires
            self.wf(),
        ensures
            Self::decode(self.encode()) == Ok::<BestSolutionView, DecodeError>(self),
    {
        lemma_auto_spec_u64_to_from_le_bytes();
        let b = self.encode();
        assert(bytes_at(b, 1, 16) =~= self.best_hash);
        assert(bytes_at(b, 17, 8) =~= u64_bytes(self.best_nonce));
        assert(bytes_at(b, 25, 32) =~= self.pubkey);
        assert(b.subrange(57, b.len() as int) =~= self.signature);
    }
}

impl View for ClientMessageBestSolution {
    type V = BestSolutionView;

    closed spec fn view(&self) -> BestSolutionView {
        BestSolutionView {
            best_hash: self.best_hash@,
            best_nonce: self.best_nonce,
            pubkey: self.pubkey@,
            signature: self.signature@,
        }
    }
}

impl ClientMessageBestSolution {
    pub fn new(best_hash: [u8; 16], best_nonce: u64, pubkey: [u8; 32], signature: Vec<u8>) -> (m:
        Self)
        ensures
            m@ == (BestSolutionView {
                best_hash: best_hash@,
                best_nonce,
                pubkey: pubkey@,
                signature: signature@,
            }),
    {
        ClientMessageBestSolution { best_hash, best_nonce, pubkey, signature }
    }

    /// Reads the message from `b`; says why where `b` holds none.
    pub fn new_from_bytes(b: Vec<u8>) -> (r: Result<Self, DecodeError>)
        ensures
            match r {
                Ok(m) => BestSolutionView::decode(b@) == Ok::<BestSolutionView, DecodeError>(m@),
                Err(e) => BestSolutionView::decode(b@) == Err::<BestSolutionView, DecodeError>(e),
            },
    {
        if b.len() < BEST_SOLUTION_MIN_LEN {
            return Err(DecodeError::TooShort);
        }
        if b[0] != CLIENT_TAG_BEST_SOLUTION {
            return Err(DecodeError::UnknownTag);
        }
        let bytes = b.as_slice();
        let best_hash: [u8; 16] = read_array::<16>(bytes, 1);
        let best_nonce: u64 = read_u64(bytes, 17);
        let pubkey: [u8; 32] = read_array::<32>(bytes, 25);
        let signature: Vec<u8> = read_tail(bytes, 57);
        Ok(ClientMessageBestSolution { best_hash, best_nonce, pubkey, signature })
    }

    /// The bytes to send.
    pub fn to_message_binary(&self) -> (bin_data: Vec<u8>)
        ensures
            bin_data@ == self@.encode(),
    {
        let mut bin_data: Vec<u8> = Vec::new();
        bin_data.push(CLIENT_TAG_BEST_SOLUTION);
        write_bytes(&mut bin_data, self.best_hash.as_slice());
        write_u64(&mut bin_data, self.best_nonce);
        write_bytes(&mut bin_data, self.pubkey.as_slice());
        write_bytes(&mut bin_data, self.signature.as_slice());
        bin_data
    }

    pub fn best_hash(&self) -> (best_hash: [u8; 16])
        ensures
            best_hash@ == self@.best_hash,
    {
        self.best_hash
    }

    pub fn best_nonce(&self) -> (best_nonce: u64)
        ensures
            best_nonce == self@.best_nonce,
    {
        self.best_nonce
    }

    pub fn pubkey(&self) -> (pubkey: [u8; 32])
        ensures
            pubkey@ == self@.pubkey,
    {
        self.pubkey
    }

    pub fn signature(&self) -> (signature: &[u8])
        ensures
            signature@ == self@.signature,
    {
        self.signature.as_slice()
    }

    /// A message holds a hash of 16 bytes and a public key of 32.
    pub proof fn lemma_view(self)
        ensures
            self@.wf(),
    {
    }
}

/// A message from the pool server.
#[derive(Debug, PartialEq, Eq)]
pub enum ServerMessage {
    /// Challenge, nonces to search (the end is not searched), seconds left.
    StartMining([u8; 32], Range<u64>, u64),
    PoolSubmissionResult(ServerMessagePoolSubmissionResult),
}

/// What a [`ServerMessage`] holds.
pub enum ServerMessageView {
    StartMining(ServerStartMiningView),
    PoolSubmissionResult(PoolSubmissionResultView),
}

impl ServerMessageView {
    pub open spec fn wf(self) -> bool {
        match self {
            ServerMessageView::StartMining(m) => m.wf(),
            ServerMessageView::PoolSubmissionResult(m) => m.wf(),
        }
    }

    /// The bytes of this message.
    pub open spec fn encode(self) -> Seq<u8> {
        match self {
            ServerMessageView::StartMining(m) => m.encode(),
            ServerMessageView::PoolSubmissionResult(m) => m.encode(),
        }
    }

    /// What `b` decodes to: the first byte says which message it is, and the
    /// rest is decoded as that message.
    pub open spec fn decode(b: Seq<u8>) -> Result<ServerMessageView, DecodeError> {
        if b.len() == 0 {
            Err(DecodeError::TooShort)
        } else if b[0] == SERVER_TAG_START_MINING {
            match ServerStartMiningView::decode(b) {
                Ok(m) => Ok(ServerMessageView::StartMining(m)),
                Err(e) => Err(e),
            }
        } else if b[0] == SERVER_TAG_POOL_SUBMISSION_RESULT {
            match PoolSubmissionResultView::decode(b) {
                Ok(m) => Ok(ServerMessageView::PoolSubmissionResult(m)),
                Err(e) => Err(e),
            }
        } else {
            Err(DecodeError::UnknownTag)
        }
    }
}

impl View for ServerMessage {
    type V = ServerMessageView;

    open spec fn view(&self) -> ServerMessageView {
        match *self {
            ServerMessage::StartMining(challenge, nonce_range, cutoff) => {
                ServerMessageView::StartMining(
                    ServerStartMiningView {
                        challenge: challenge@,
                        cutoff,
                        nonce_start: nonce_range.start,
                        nonce_end: nonce_range.end,
                    },
                )
            },
            ServerMessage::PoolSubmissionResult(m) => ServerMessageView::PoolSubmissionResult(m@),
        }
    }
}

impl ServerMessage {
    /// Reads the message from `b`; says why where `b` holds none.
    pub fn new_from_bytes(b: Vec<u8>) -> (r: Result<Self, DecodeError>)
        ensures
            match r {
                Ok(m) => ServerMessageView::decode(b@) == Ok::<ServerMessageView, DecodeError>(m@),
                Err(e) => ServerMessageView::decode(b@) == Err::<ServerMessageView, DecodeError>(
                    e,
                ),
            },
    {
        if b.len() == 0 {
            return Err(DecodeError::TooShort);
        }
        let tag: u8 = b[0];
        if tag == SERVER_TAG_START_MINING {
            match ServerStartMining::new_from_bytes(b) {
                Ok(m) => Ok(
                    ServerMessage::StartMining(
                        m.challenge,
                        Range { start: m.nonce_start, end: m.nonce_end },
                        m.cutoff,
                    ),
                ),
                Err(e) => Err(e),
            }
        } else if tag == SERVER_TAG_POOL_SUBMISSION_RESULT {
            match ServerMessagePoolSubmissionResult::new_from_bytes(b) {
                Ok(m) => Ok(ServerMessage::PoolSubmissionResult(m)),
                Err(e) => Err(e),
            }
        } else {
            Err(DecodeError::UnknownTag)
        }
    }

    /// The bytes to send.
    pub fn to_message_binary(&self) -> (bin_data: Vec<u8>)
        ensures
            bin_data@ == self@.encode(),
    {
        match self {
            ServerMessage::StartMining(challenge, nonce_range, cutoff) => {
                let m = ServerStartMining {
                    challenge: *challenge,
                    cutoff: *cutoff,
                    nonce_start: nonce_range.start,
                    nonce_end: nonce_range.end,
                };
                m.to_message_binary()
            },
            ServerMessage::PoolSubmissionResult(m) => m.to_message_binary(),
        }
    }
}

/// A message to the pool server.
#[derive(Clone, Debug, PartialEq, Eq)]
pub enum ClientMessage {
    Ready(),
    BestSolution(ClientMessageBestSolution),
}

/// What a [`ClientMessage`] holds.
pub enum ClientMessageView {
    Ready,
    BestSolution(BestSolutionView),
}

impl ClientMessageView {
    pub open spec fn wf(self) -> bool {
        match self {
            ClientMessageView::Ready => true,
            ClientMessageView::BestSolution(m) => m.wf(),
        }
    }

    /// The bytes of this message.
    pub open spec fn encode(self) -> Seq<u8> {
        match self {
            ClientMessageView::Ready => ClientMessageReady::spec_encode(),
            ClientMessageView::BestSolution(m) => m.encode(),
        }
    }

    /// What `b` decodes to: the first byte says which message it is, and the
    /// rest is decoded as that message.
    pub open spec fn decode(b: Seq<u8>) -> Result<ClientMessageView, DecodeError> {
        if b.len() == 0 {
            Err(DecodeError::TooShort)
        } else if b[0] == CLIENT_TAG_READY {
            match ClientMessageReady::spec_decode(b) {
                Ok(m) => Ok(ClientMessageView::Ready),
                Err(e) => Err(e),
            }
        } else if b[0] == CLIENT_TAG_BEST_SOLUTION {
            match BestSolutionView::decode(b) {
                Ok(m) => Ok(ClientMessageView::BestSolution(m)),
                Err(e) => Err(e),
            }
        } else {
            Err(DecodeError::UnknownTag)
        }
    }
}

impl View for ClientMessage {
    type V = ClientMessageView;

    open spec fn view(&self) -> ClientMessageView {
        match *self {
            ClientMessage::Ready() => ClientMessageView::Ready,
            ClientMessage::BestSolution(m) => ClientMessageView::BestSolution(m@),
        }
    }
}

impl ClientMessage {
    /// Reads the message from `b`; says why where `b` holds none.
    pub fn new_from_bytes(b: Vec<u8>) -> (r: Result<Self, DecodeError>)
        ensures
            match r {
                Ok(m) => ClientMessageView::decode(b@) == Ok::<ClientMessageView, DecodeError>(m@),
                Err(e) => ClientMessageView::decode(b@) == Err::<ClientMessageView, DecodeError>(
                    e,
                ),
            },
    {
        if b.len() == 0 {
            return Err(DecodeError::TooShort);
        }
        let tag: u8 = b[0];
        if tag == CLIENT_TAG_READY {
            match ClientMessageReady::new_from_bytes(b) {
                Ok(m) => Ok(ClientMessage::Ready()),
                Err(e) => Err(e),
            }
        } else if tag == CLIENT_TAG_BEST_SOLUTION {
            match ClientMessageBestSolution::new_from_bytes(b) {
                Ok(m) => Ok(ClientMessage::BestSolution(m)),
                Err(e) => Err(e),
            }
        } else {
            Err(DecodeError::UnknownTag)
        }
    }

    /// The bytes to send.
    pub fn to_message_binary(&self) -> (bin_data: Vec<u8>)
        ensures
            bin_data@ == self@.encode(),
    {
        match self {
            ClientMessage::Ready() => ClientMessageReady.to_message_binary(),
            ClientMessage::BestSolution(m) => m.to_message_binary(),
        }
    }
}

/// Every message is read back from its own bytes: for each message `m`,
/// of either direction or of one of the four kinds, decoding the encoding
/// of `m` gives `m`.
pub proof fn lemma_decode_inverts_encode(
    server: ServerMessage,
    client: ClientMessage,
    start: ServerStartMining,
    result: ServerMessagePoolSubmissionResult,
    solution: ClientMessageBestSolution,
)
    ensures
        ServerMessageView::decode(server@.encode()) == Ok::<ServerMessageView, DecodeError>(
            server@,
        ),
        ClientMessageView::decode(client@.encode()) == Ok::<ClientMessageView, DecodeError>(
            client@,
        ),
        ServerStartMiningView::decode(start@.encode()) == Ok::<
            ServerStartMiningView,
            DecodeError,
        >(start@),
        PoolSubmissionResultView::decode(result@.encode()) == Ok::<
            PoolSubmissionResultView,
            DecodeError,
        >(result@),
        ClientMessageReady::spec_decode(ClientMessageReady::spec_encode()) == Ok::<
            ClientMessageReady,
            DecodeError,
        >(ClientMessageReady),
        BestSolutionView::decode(solution@.encode()) == Ok::<BestSolutionView, DecodeError>(
            solution@,
        ),
{
    match server {
        ServerMessage::StartMining(..) => {
            server@->StartMining_0.lemma_round_trip();
        },
        ServerMessage::PoolSubmissionResult(m) => {
            m.lemma_view(m);
            m@.lemma_round_trip();
        },
    }
    match client {
        ClientMessage::Ready() => {},
        ClientMessage::BestSolution(m) => {
            m.lemma_view();
            m@.lemma_round_trip();
        },
    }
    start.lemma_view(start);
    start@.lemma_round_trip();
    result.lemma_view(result);
    result@.lemma_round_trip();
    solution.lemma_view();
    solution@.lemma_round_trip();
}

/// The fewest bytes that a message of the server with tag `tag` has, if
/// the server has a message with that tag.
pub open spec fn server_min_len(tag: u8) -> Option<nat> {
    if tag == SERVER_TAG_START_MINING {
        Some(START_MINING_LEN as nat)
    } else if tag == SERVER_TAG_POOL_SUBMISSION_RESULT {
        Some(POOL_SUBMISSION_RESULT_LEN as nat)
    } else {
        None
    }
}

/// The fewest bytes that a message of the client with tag `tag` has, if
/// the client has a message with that tag.
pub open spec fn client_min_len(tag: u8) -> Option<nat> {
    if tag == CLIENT_TAG_READY {
        Some(READY_LEN as nat)
    } else if tag == CLIENT_TAG_BEST_SOLUTION {
        Some(BEST_SOLUTION_MIN_LEN as nat)
    } else {
        None
    }
}

/// Input that is shorter than the shortest message of a kind is `TooShort`:
/// for each of the four messages whatever the bytes are, and for a
/// direction when the input is empty or its tag names a message that needs
/// more bytes.
pub proof fn lemma_short_input_is_too_short(b: Seq<u8>)
    ensures
        b.len() < START_MINING_LEN ==> ServerStartMiningView::decode(b) == Err::<
            ServerStartMiningView,
            DecodeError,
        >(DecodeError::TooShort),
        b.len() < POOL_SUBMISSION_RESULT_LEN ==> PoolSubmissionResultView::decode(b) == Err::<
            PoolSubmissionResultView,
            DecodeError,
        >(DecodeError::TooShort),
        b.len() < READY_LEN ==> ClientMessageReady::spec_decode(b) == Err::<
            ClientMessageReady,
            DecodeError,
        >(DecodeError::TooShort),
        b.len() < BEST_SOLUTION_MIN_LEN ==> BestSolutionView::decode(b) == Err::<
            BestSolutionView,
            DecodeError,
        >(DecodeError::TooShort),
        b.len() == 0 || (server_min_len(b[0]) matches Some(n) && b.len() < n)
            ==> ServerMessageView::decode(b) == Err::<ServerMessageView, DecodeError>(
            DecodeError::TooShort,
        ),
        b.len() == 0 || (client_min_len(b[0]) matches Some(n) && b.len() < n)
            ==> ClientMessageView::decode(b) == Err::<ClientMessageView, DecodeError>(
            DecodeError::TooShort,
        ),
{
}

/// Input whose first byte is not the expected tag is `UnknownTag`: for each
/// of the four messages when the input is long enough to be one, and for a
/// direction whenever the first byte is the tag of none of its messages.
pub proof fn lemma_foreign_tag_is_unknown(b: Seq<u8>)
    ensures
        b.len() >= START_MINING_LEN && b[0] != SERVER_TAG_START_MINING
            ==> ServerStartMiningView::decode(b) == Err::<ServerStartMiningView, DecodeError>(
            DecodeError::UnknownTag,
        ),
        b.len() >= POOL_SUBMISSION_RESULT_LEN && b[0] != SERVER_TAG_POOL_SUBMISSION_RESULT
            ==> PoolSubmissionResultView::decode(b) == Err::<
            PoolSubmissionResultView,
            DecodeError,
        >(DecodeError::UnknownTag),
        b.len() >= READY_LEN && b[0] != CLIENT_TAG_READY ==> ClientMessageReady::spec_decode(b)
            == Err::<ClientMessageReady, DecodeError>(DecodeError::UnknownTag),
        b.len() >= BEST_SOLUTION_MIN_LEN && b[0] != CLIENT_TAG_BEST_SOLUTION
            ==> BestSolutionView::decode(b) == Err::<BestSolutionView, DecodeError>(
            DecodeError::UnknownTag,
        ),
        b.len() > 0 && server_min_len(b[0]) is None ==> ServerMessageView::decode(b) == Err::<
            ServerMessageView,
            DecodeError,
        >(DecodeError::UnknownTag),
        b.len() > 0 && client_min_len(b[0]) is None ==> ClientMessageView::decode(b) == Err::<
            ClientMessageView,
            DecodeError,
        >(DecodeError::UnknownTag),
{
}

} // verus!

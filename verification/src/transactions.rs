//! The life of a submitted transaction.
//!
//! A [`TxProcessor`] is created when a transaction is dispatched. It stays
//! `Pending` until the network confirms or rejects the transaction, or until
//! it is 80 seconds old. [`tx_processor_result_checks`] looks at every live
//! record once per tick; a record that is done gives one
//! [`EventTxResult`] and leaves the live set in the same tick.
//!
//! Times are readings of one monotonic clock, in nanoseconds.

use crate::decimal::{decimal_text, format_amount};
use vstd::prelude::*;
use vstd::string::StringExecFns;

verus! {

/// Age in seconds at which a record that is still pending expires.
pub const EXPIRY_SECS: u64 = 80;

/// Nanoseconds in a second.
pub const NANOS_PER_SEC: u64 = 1_000_000_000;

/// What a transaction does.
#[derive(Clone, Copy, Debug, PartialEq, Eq, Structural)]
pub enum TxType {
    Mine,
    Register,
    ResetEpoch,
    CreateAta,
    Stake,
    Claim,
    Airdrop,
}

impl TxType {
    /// The name under which a transaction of this kind is shown.
    pub open spec fn name(self) -> Seq<char> {
        match self {
            TxType::Mine => "Mine"@,
            TxType::Register => "Register"@,
            TxType::ResetEpoch => "Reset"@,
            TxType::CreateAta => "Create Ata"@,
            TxType::Stake => "Stake"@,
            TxType::Claim => "Claim"@,
            TxType::Airdrop => "Airdrop"@,
        }
    }

    pub fn to_string(&self) -> (s: String)
        ensures
            s@ == self.name(),
    {
        match self {
            TxType::Mine => String::from_str("Mine"),
            TxType::Register => String::from_str("Register"),
            TxType::ResetEpoch => String::from_str("Reset"),
            TxType::CreateAta => String::from_str("Create Ata"),
            TxType::Stake => String::from_str("Stake"),
            TxType::Claim => String::from_str("Claim"),
            TxType::Airdrop => String::from_str("Airdrop"),
        }
    }
}

/// How far a transaction has come.
#[derive(Clone, Copy, Debug, PartialEq, Eq, Structural)]
pub enum TxState {
    /// Dispatched; the network has not answered yet.
    Pending,
    /// Confirmed.
    Success,
    /// Rejected, or lost on the way.
    Failed,
}

impl TxState {
    /// The text under which this state is reported.
    pub open spec fn name(self) -> Seq<char> {
        match self {
            TxState::Pending => "PROCESSING"@,
            TxState::Success => "SUCCESS"@,
            TxState::Failed => "FAILED"@,
        }
    }

    pub fn to_string(&self) -> (s: String)
        ensures
            s@ == self.name(),
    {
        match self {
            TxState::Pending => String::from_str("PROCESSING"),
            TxState::Success => String::from_str("SUCCESS"),
            TxState::Failed => String::from_str("FAILED"),
        }
    }
}

/// How long the search for a hash took, in seconds, and how hard the hash is.
#[derive(Clone, Copy, Debug, PartialEq, Eq, Structural)]
pub struct HashStatus {
    pub hash_time: u64,
    pub hash_difficulty: u32,
}

/// The state of a transaction as reported, with the error that came with it.
#[derive(Clone, Debug, PartialEq, Eq)]
pub struct TxStatus {
    pub status: String,
    pub error: String,
}

/// The one report that a transaction gives when it is done.
#[derive(Clone, Debug, PartialEq, Eq)]
pub struct EventTxResult {
    pub tx_type: String,
    pub sig: String,
    /// Seconds between dispatch and this report.
    pub tx_time: u64,
    pub hash_status: Option<HashStatus>,
    pub tx_status: TxStatus,
}

/// What an [`EventTxResult`] holds.
pub struct EventTxResultView {
    pub tx_type: Seq<char>,
    pub sig: Seq<char>,
    pub tx_time: u64,
    pub hash_status: Option<HashStatus>,
    pub status: Seq<char>,
    pub error: Seq<char>,
}

impl View for EventTxResult {
    type V = EventTxResultView;

    open spec fn view(&self) -> EventTxResultView {
        EventTxResultView {
            tx_type: self.tx_type@,
            sig: self.sig@,
            tx_time: self.tx_time,
            hash_status: self.hash_status,
            status: self.tx_status.status@,
            error: self.tx_status.error@,
        }
    }
}

/// The miner's account as last read from the chain.
#[derive(Clone, Debug, PartialEq, Eq)]
pub struct ProofAccountResource {
    pub challenge: String,
    pub stake: u64,
    pub last_hash_at: i64,
    pub total_hashes: u64,
}

impl Default for ProofAccountResource {
    fn default() -> (r: Self)
        ensures
            r.challenge@ == "loading..."@,
            r.stake == 0,
            r.last_hash_at == 0,
            r.total_hashes == 0,
    {
        ProofAccountResource {
            challenge: String::from_str("loading..."),
            stake: 0,
            last_hash_at: 0,
            total_hashes: 0,
        }
    }
}

/// One transaction on its way.
#[derive(Debug)]
pub struct TxProcessor {
    tx_type: TxType,
    status: TxState,
    error: String,
    staked_balance: Option<u64>,
    challenge: String,
    signature: Option<[u8; 64]>,
    hash_status: Option<HashStatus>,
    created_at: u64,
}

/// What a [`TxProcessor`] holds.
pub struct TxProcessorView {
    pub tx_type: TxType,
    pub status: TxState,
    /// Why the transaction failed; empty unless it did.
    pub error: Seq<char>,
    /// The miner's stake when the transaction was dispatched, if the miner
    /// had an account then.
    pub staked_balance: Option<u64>,
    /// The miner's challenge when the transaction was dispatched.
    pub challenge: Seq<char>,
    /// The 64 bytes of the transaction's signature, once the network has
    /// accepted the transaction.
    pub signature: Option<Seq<u8>>,
    pub hash_status: Option<HashStatus>,
    pub created_at: u64,
}

impl View for TxProcessor {
    type V = TxProcessorView;

    closed spec fn view(&self) -> TxProcessorView {
        TxProcessorView {
            tx_type: self.tx_type,
            status: self.status,
            error: self.error@,
            staked_balance: self.staked_balance,
            challenge: self.challenge@,
            signature: match self.signature {
                Some(bytes) => Some(bytes@),
                None => None,
            },
            hash_status: self.hash_status,
            created_at: self.created_at,
        }
    }
}

/// The text that stands for the signature of a transaction that never got
/// one.
pub open spec fn no_signature() -> Seq<char> {
    "FAILED"@
}

/// What is put in front of the error of a record that expired.
pub open spec fn expired_prefix() -> Seq<char> {
    "Expired: "@
}

/// Whole seconds from `created_at` to `now`; zero where `now` is the
/// earlier.
pub open spec fn elapsed_secs(created_at: u64, now: u64) -> u64 {
    if now >= created_at {
        ((now - created_at) / NANOS_PER_SEC as int) as u64
    } else {
        0
    }
}

/// The status of a mining transaction that earned the difference between
/// `stake` and `staked_balance`: `SUCCESS +0.25 ORE.`.
pub open spec fn reward_status(staked_balance: u64, stake: u64, decimals: nat) -> Seq<char> {
    TxState::Success.name() + " +"@ + decimal_text(stake - staked_balance, decimals) + " ORE."@
}

impl TxProcessorView {
    /// The report of this record at `now`, under signature text `sig`, with
    /// the given status and error.
    pub open spec fn report(self, sig: Seq<char>, now: u64, status: Seq<char>, error: Seq<char>)
        -> EventTxResultView {
        EventTxResultView {
            tx_type: self.tx_type.name(),
            sig,
            tx_time: elapsed_secs(self.created_at, now),
            hash_status: self.hash_status,
            status,
            error,
        }
    }

    /// What one look at this record gives: its report if it is done, `None`
    /// if it has to wait.
    ///
    /// - Failed: reported at once.
    /// - Success, other than mining: reported at once.
    /// - Success, mining, no stake noted at dispatch: reported at once.
    /// - Success, mining, stake noted at dispatch: waits until the chain
    ///   shows another challenge than the one noted at dispatch, then
    ///   reports what the stake grew by.
    /// - Pending: waits, and expires once it is 80 seconds old.
    pub open spec fn outcome(
        self,
        sig: Seq<char>,
        challenge: Seq<char>,
        stake: u64,
        decimals: nat,
        now: u64,
    ) -> Option<EventTxResultView> {
        match self.status {
            TxState::Failed => Some(self.report(sig, now, TxState::Failed.name(), self.error)),
            TxState::Success => {
                if self.tx_type == TxType::Mine && self.staked_balance is Some {
                    if self.challenge != challenge {
                        Some(
                            self.report(
                                sig,
                                now,
                                reward_status(self.staked_balance->0, stake, decimals),
                                self.error,
                            ),
                        )
                    } else {
                        None
                    }
                } else {
                    Some(self.report(sig, now, TxState::Success.name(), self.error))
                }
            },
            TxState::Pending => {
                if elapsed_secs(self.created_at, now) >= EXPIRY_SECS {
                    Some(
                        self.report(
                            sig,
                            now,
                            TxState::Pending.name(),
                            expired_prefix() + self.error,
                        ),
                    )
                } else {
                    None
                }
            },
        }
    }
}

/// Whole seconds from `created_at` to `now`.
pub fn elapsed_seconds(created_at: u64, now: u64) -> (secs: u64)
    ensures
        secs == elapsed_secs(created_at, now),
{
    if now >= created_at {
        (now - created_at) / NANOS_PER_SEC
    } else {
        0
    }
}

/// The status of a mining transaction that was dispatched at stake
/// `staked_balance` and confirmed at stake `stake`.
pub fn reward_status_text(staked_balance: u64, stake: u64, token_decimals: u8) -> (status: String)
    ensures
        status@ == reward_status(staked_balance, stake, token_decimals as nat),
{
    let amount = if stake >= staked_balance {
        format_amount(false, stake - staked_balance, token_decimals)
    } else {
        format_amount(true, staked_balance - stake, token_decimals)
    };
    let mut status = TxState::Success.to_string();
    status.append(" +");
    status.append(amount.as_str());
    status.append(" ORE.");
    status
}

/// The text of the signature whose 64 bytes are `bytes`: base 58 in the
/// alphabet of Bitcoin, as a block explorer shows it.
pub uninterp spec fn signature_text(bytes: Seq<u8>) -> Seq<char>;

/// `solana_sdk::signature::Signature::from` on the 64 bytes, then the
/// signature's `to_string`. Taken on trust: the text depends on the bytes
/// alone. Nothing else is claimed of it.
#[verifier::external_body]
fn signature_to_string(bytes: &[u8; 64]) -> (text: String)
    ensures
        text@ == signature_text(bytes@),
{
    solana_sdk::signature::Signature::from(*bytes).to_string()
}

/// What the chain and the clock show at one tick.
pub struct Tick {
    /// The miner's challenge.
    pub challenge: Seq<char>,
    /// The miner's stake, in base units.
    pub stake: u64,
    /// How many digits of an amount stand behind the point.
    pub decimals: nat,
    pub now: u64,
}

impl Tick {
    /// The tick at `now` that shows the account `proof_res`.
    pub open spec fn at(proof_res: ProofAccountResource, token_decimals: u8, now: u64) -> Tick {
        Tick {
            challenge: proof_res.challenge@,
            stake: proof_res.stake,
            decimals: token_decimals as nat,
            now,
        }
    }
}

impl TxProcessorView {
    /// The text reported as this record's signature.
    pub open spec fn signature_label(self) -> Seq<char> {
        match self.signature {
            Some(bytes) => signature_text(bytes),
            None => no_signature(),
        }
    }

    /// What the look at this record at `tick` gives.
    pub open spec fn poll(self, tick: Tick) -> Option<EventTxResultView> {
        self.outcome(self.signature_label(), tick.challenge, tick.stake, tick.decimals, tick.now)
    }
}

/// The reports of one tick over the records `live`, in the order of the
/// records.
pub open spec fn reports(live: Seq<TxProcessorView>, tick: Tick) -> Seq<EventTxResultView>
    decreases live.len(),
{
    if live.len() == 0 {
        Seq::empty()
    } else {
        match live.last().poll(tick) {
            Some(e) => reports(live.drop_last(), tick).push(e),
            None => reports(live.drop_last(), tick),
        }
    }
}

/// The records of `live` that are still live after one tick, in their
/// order.
pub open spec fn survivors(live: Seq<TxProcessorView>, tick: Tick) -> Seq<TxProcessorView>
    decreases live.len(),
{
    if live.len() == 0 {
        Seq::empty()
    } else {
        match live.last().poll(tick) {
            Some(e) => survivors(live.drop_last(), tick),
            None => survivors(live.drop_last(), tick).push(live.last()),
        }
    }
}

/// What each of `records` holds.
pub open spec fn views(records: Seq<TxProcessor>) -> Seq<TxProcessorView> {
    records.map_values(|p: TxProcessor| p@)
}

/// What each of `events` holds.
pub open spec fn event_views(events: Seq<EventTxResult>) -> Seq<EventTxResultView> {
    events.map_values(|e: EventTxResult| e@)
}

/// One tick: looks once at each of `records`, in order. Gives the reports
/// of the records that are done, and the records that are still live.
pub fn tx_processor_result_checks(
    records: Vec<TxProcessor>,
    proof_res: &ProofAccountResource,
    token_decimals: u8,
    now: u64,
) -> (out: (Vec<EventTxResult>, Vec<TxProcessor>))
    ensures
        event_views(out.0@) == reports(views(records@), Tick::at(*proof_res, token_decimals, now)),
        views(out.1@) == survivors(views(records@), Tick::at(*proof_res, token_decimals, now)),
{
    let ghost tick = Tick::at(*proof_res, token_decimals, now);
    let ghost all = views(records@);
    let mut events: Vec<EventTxResult> = Vec::new();
    let mut live: Vec<TxProcessor> = Vec::new();
    for record in it: records
        invariant
            all == views(it.seq()),
            event_views(events@) == reports(all.take(it.index() as int), tick),
            views(live@) == survivors(all.take(it.index() as int), tick),
            tick == Tick::at(*proof_res, token_decimals, now),
    {
        let ghost done = all.take(it.index() as int);
        let ghost next = all.take(it.index() + 1);
        assert(next.drop_last() =~= done);
        let sig = record.signature_label();
        match record.resolve(sig, proof_res, token_decimals, now) {
            Some(event) => {
                events.push(event);
            },
            None => {
                live.push(record);
            },
        }
    }
    assert(all.take(all.len() as int) =~= all);
    (events, live)
}

impl TxProcessor {
    /// Only a failed transaction has an error.
    #[verifier::type_invariant]
    closed spec fn inv(self) -> bool {
        self.status is Failed || self.error@.len() == 0
    }

    /// The text to report as this record's signature.
    pub fn signature_label(&self) -> (sig: String)
        ensures
            sig@ == self@.signature_label(),
    {
        match &self.signature {
            Some(bytes) => signature_to_string(bytes),
            None => String::from_str("FAILED"),
        }
    }

    /// A record for a transaction that is dispatched at `created_at`.
    pub fn new(
        tx_type: TxType,
        staked_balance: Option<u64>,
        challenge: String,
        hash_status: Option<HashStatus>,
        created_at: u64,
    ) -> (p: Self)
        ensures
            p@ == (TxProcessorView {
                tx_type,
                status: TxState::Pending,
                error: Seq::empty(),
                staked_balance,
                challenge: challenge@,
                signature: None,
                hash_status,
                created_at,
            }),
    {
        TxProcessor {
            tx_type,
            status: TxState::Pending,
            error: String::new(),
            staked_balance,
            challenge,
            signature: None,
            hash_status,
            created_at,
        }
    }

    /// Notes the signature under which the network accepted the
    /// transaction. A record that is no longer pending stays as it is.
    pub fn record_signature(&mut self, signature: [u8; 64])
        ensures
            final(self)@ == if old(self)@.status is Pending {
                (TxProcessorView { signature: Some(signature@), ..old(self)@ })
            } else {
                old(self)@
            },
    {
        proof {
            use_type_invariant(&*self);
        }
        if let TxState::Pending = self.status {
            self.signature = Some(signature);
        }
    }

    /// Notes that the network confirmed the transaction. A record that is no
    /// longer pending stays as it is.
    pub fn record_success(&mut self)
        ensures
            final(self)@ == if old(self)@.status is Pending {
                (TxProcessorView { status: TxState::Success, ..old(self)@ })
            } else {
                old(self)@
            },
    {
        proof {
            use_type_invariant(&*self);
        }
        if let TxState::Pending = self.status {
            self.status = TxState::Success;
        }
    }

    /// Notes that the transaction was rejected or lost, and why. A record
    /// that is no longer pending stays as it is.
    pub fn record_failure(&mut self, error: String)
        ensures
            final(self)@ == if old(self)@.status is Pending {
                (TxProcessorView { status: TxState::Failed, error: error@, ..old(self)@ })
            } else {
                old(self)@
            },
    {
        proof {
            use_type_invariant(&*self);
        }
        if let TxState::Pending = self.status {
            self.status = TxState::Failed;
            self.error = error;
        }
    }

    pub fn tx_type(&self) -> (tx_type: TxType)
        ensures
            tx_type == self@.tx_type,
    {
        self.tx_type
    }

    pub fn status(&self) -> (status: TxState)
        ensures
            status == self@.status,
    {
        self.status
    }

    pub fn error(&self) -> (error: &str)
        ensures
            error@ == self@.error,
            self@.status is Failed || error@.len() == 0,
    {
        proof {
            use_type_invariant(self);
        }
        self.error.as_str()
    }

    pub fn staked_balance(&self) -> (staked_balance: Option<u64>)
        ensures
            staked_balance == self@.staked_balance,
    {
        self.staked_balance
    }

    pub fn challenge(&self) -> (challenge: &str)
        ensures
            challenge@ == self@.challenge,
    {
        self.challenge.as_str()
    }

    pub fn signature(&self) -> (signature: Option<[u8; 64]>)
        ensures
            match signature {
                Some(bytes) => self@.signature == Some(bytes@),
                None => self@.signature is None,
            },
    {
        self.signature
    }

    pub fn hash_status(&self) -> (hash_status: Option<HashStatus>)
        ensures
            hash_status == self@.hash_status,
    {
        self.hash_status
    }

    pub fn created_at(&self) -> (created_at: u64)
        ensures
            created_at == self@.created_at,
    {
        self.created_at
    }

    /// What this record reports when it is looked at at `now`, if it is
    /// done. `sig` is the text to report as its signature.
    pub fn resolve(
        &self,
        sig: String,
        proof_res: &ProofAccountResource,
        token_decimals: u8,
        now: u64,
    ) -> (event: Option<EventTxResult>)
        ensures
            match event {
                Some(e) => self@.outcome(
                    sig@,
                    proof_res.challenge@,
                    proof_res.stake,
                    token_decimals as nat,
                    now,
                ) == Some(e@),
                None => self@.outcome(
                    sig@,
                    proof_res.challenge@,
                    proof_res.stake,
                    token_decimals as nat,
                    now,
                ) is None,
            },
            self@.status is Pending ==> (event is Some <==> elapsed_secs(self@.created_at, now)
                >= EXPIRY_SECS),
            self@.status is Failed ==> event is Some,
            self@.status is Success && (self@.tx_type != TxType::Mine || self@.staked_balance
                is None) ==> event is Some,
    {
        let tx_time: u64 = elapsed_seconds(self.created_at, now);
        let tx_status = match self.status {
            TxState::Failed => TxStatus {
                status: self.status.to_string(),
                error: self.error.clone(),
            },
            TxState::Success => {
                let status = match (self.tx_type, self.staked_balance) {
                    (TxType::Mine, Some(staked_balance)) => {
                        if self.challenge == proof_res.challenge {
                            return None;
                        }
                        reward_status_text(staked_balance, proof_res.stake, token_decimals)
                    },
                    _ => self.status.to_string(),
                };
                TxStatus { status, error: self.error.clone() }
            },
            TxState::Pending => {
                if tx_time < EXPIRY_SECS {
                    return None;
                }
                let mut error = String::from_str("Expired: ");
                error.append(self.error.as_str());
                TxStatus { status: self.status.to_string(), error }
            },
        };
        Some(
            EventTxResult {
                tx_type: self.tx_type.to_string(),
                sig,
                tx_time,
                hash_status: self.hash_status,
                tx_status,
            },
        )
    }
}

/// Nanoseconds between two checks of the signatures.
pub const SIG_CHECKS_PERIOD: u64 = 1_000_000_000;

/// Counts the time since the signatures were last checked.
#[derive(Debug)]
pub struct SigChecksTimer {
    elapsed: u64,
}

impl SigChecksTimer {
    /// A check is due before the count reaches a full period.
    #[verifier::type_invariant]
    closed spec fn inv(self) -> bool {
        self.elapsed < SIG_CHECKS_PERIOD
    }

    /// Nanoseconds since the last check, or since the timer was made.
    pub closed spec fn elapsed(self) -> u64 {
        self.elapsed
    }
}

impl Default for SigChecksTimer {
    fn default() -> (timer: Self)
        ensures
            timer.elapsed() == 0,
    {
        SigChecksTimer { elapsed: 0 }
    }
}

/// Lets `delta` nanoseconds pass. Says whether the signatures are to be
/// checked now: they are once a full period has passed since the last
/// check, and the count starts again from there.
pub fn tx_processors_sigs_check(sig_checks_timer: &mut SigChecksTimer, delta: u64) -> (check: bool)
    ensures
        check == (old(sig_checks_timer).elapsed() + delta >= SIG_CHECKS_PERIOD),
        final(sig_checks_timer).elapsed() == if check {
            0
        } else {
            old(sig_checks_timer).elapsed() + delta
        },
{
    proof {
        use_type_invariant(&*sig_checks_timer);
    }
    let elapsed: u64 = sig_checks_timer.elapsed;
    if delta >= SIG_CHECKS_PERIOD - elapsed {
        *sig_checks_timer = SigChecksTimer { elapsed: 0 };
        true
    } else {
        *sig_checks_timer = SigChecksTimer { elapsed: elapsed + delta };
        false
    }
}

/// All reports of the ticks `ticks`, one tick after the other, over the
/// records `live` and over what each tick leaves of them.
pub open spec fn reports_over(live: Seq<TxProcessorView>, ticks: Seq<Tick>) -> Seq<
    EventTxResultView,
>
    decreases ticks.len(),
{
    if ticks.len() == 0 {
        Seq::empty()
    } else {
        reports(live, ticks[0]) + reports_over(survivors(live, ticks[0]), ticks.drop_first())
    }
}

/// The records of `live` that are still live after the ticks `ticks`.
pub open spec fn survivors_over(live: Seq<TxProcessorView>, ticks: Seq<Tick>) -> Seq<
    TxProcessorView,
>
    decreases ticks.len(),
{
    if ticks.len() == 0 {
        live
    } else {
        survivors_over(survivors(live, ticks[0]), ticks.drop_first())
    }
}

/// A tick parts the records: each record either gives its report and
/// leaves, or gives none and stays.
pub proof fn lemma_tick_parts_records(live: Seq<TxProcessorView>, tick: Tick)
    ensures
        reports(live, tick).len() + survivors(live, tick).len() == live.len(),
        forall|p: TxProcessorView| #[trigger]
            survivors(live, tick).contains(p) ==> live.contains(p) && p.poll(tick) is None,
    decreases live.len(),
{
    if live.len() > 0 {
        lemma_tick_parts_records(live.drop_last(), tick);
        assert forall|p: TxProcessorView| #[trigger]
            survivors(live, tick).contains(p) implies live.contains(p) && p.poll(tick) is None by {
            let i = choose|i: int|
                0 <= i < survivors(live, tick).len() && survivors(live, tick)[i] == p;
            if live.last().poll(tick) is Some || i < survivors(live, tick).len() - 1 {
                assert(survivors(live.drop_last(), tick).contains(p));
            }
        }
    }
}

/// No record reports twice, and none leaves without its report: over any
/// ticks, the reports given and the records still live are together as
/// many as the records at the start. So one record alone gives no report
/// while it is live, and exactly one by the time it has left.
pub proof fn lemma_one_report_per_record(
    live: Seq<TxProcessorView>,
    ticks: Seq<Tick>,
    record: TxProcessorView,
)
    ensures
        reports_over(live, ticks).len() + survivors_over(live, ticks).len() == live.len(),
        survivors_over(seq![record], ticks) == seq![record] || survivors_over(
            seq![record],
            ticks,
        ).len() == 0,
        reports_over(seq![record], ticks).len() == if survivors_over(seq![record], ticks).len()
            == 0 {
            1nat
        } else {
            0nat
        },
    decreases ticks.len(),
{
    if ticks.len() > 0 {
        lemma_tick_parts_records(live, ticks[0]);
        lemma_one_report_per_record(survivors(live, ticks[0]), ticks.drop_first(), record);
        let one = seq![record];
        let left = survivors(one, ticks[0]);
        assert(survivors(one.drop_last(), ticks[0]) =~= Seq::empty());
        assert(reports(one.drop_last(), ticks[0]) =~= Seq::empty());
        lemma_one_report_per_record(left, ticks.drop_first(), record);
        if record.poll(ticks[0]) is Some {
            lemma_no_records_no_reports(ticks.drop_first());
        }
    }
}

/// Ticks over no records give no reports and leave no records.
pub proof fn lemma_no_records_no_reports(ticks: Seq<Tick>)
    ensures
        reports_over(Seq::empty(), ticks).len() == 0,
        survivors_over(Seq::empty(), ticks).len() == 0,
    decreases ticks.len(),
{
    if ticks.len() > 0 {
        lemma_no_records_no_reports(ticks.drop_first());
    }
}

} // verus!

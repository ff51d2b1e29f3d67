//! Reputation scores, trust tiers and signed trust tokens.

use std::collections::HashMap;
use vstd::prelude::*;
use vstd::std_specs::convert::FromSpecImpl;
use vstd::std_specs::hash::*;
use vstd::std_specs::iter::IteratorSpec;
use vstd::string::*;

use crate::clock::{now, CLOCK_LIMIT};
use crate::error::NegotiationError;
use crate::ident::{fresh_id, id_text, uuid_text};
use crate::pricing::Factor;
use crate::text::{decimal, signed_text};
use crate::token::{
    claim_number, claim_text, hs256_accepts, hs256_token, json_members, number_pairs,
    sign_members, text_pairs, token_error_text, token_members, verify_token, Member,
};
use crate::{AgentId, Timestamp};

verus! {

broadcast use vstd::std_specs::hash::group_hash_axioms;

/// The highest reputation score.
pub const MAX_SCORE: u32 = 100;

/// Seconds for which a cached score is served: 30 minutes.
pub const CACHE_TTL_SECONDS: i64 = 1800;

/// Seconds for which a trust token is accepted: 24 hours.
pub const TOKEN_LIFETIME_SECONDS: i64 = 86_400;

/// What both parties gain by a settled deal.
pub const SUCCESS_BONUS: i32 = 5;

/// What both parties lose by a failed settlement.
pub const FAILURE_PENALTY: i32 = -3;

/// Coarse reputation band derived from a numeric score.
#[derive(Debug, Clone, Copy, PartialEq, Eq, Structural)]
pub enum TrustLevel {
    /// Scores 0 to 49.
    Untrusted,
    /// Scores 50 to 74.
    Neutral,
    /// Scores 75 to 89.
    Trusted,
    /// Scores 90 and above.
    HighlyTrusted,
}

impl TrustLevel {
    /// The band of a score.
    pub open spec fn of_score(score: u32) -> TrustLevel {
        if score <= 49 {
            TrustLevel::Untrusted
        } else if score <= 74 {
            TrustLevel::Neutral
        } else if score <= 89 {
            TrustLevel::Trusted
        } else {
            TrustLevel::HighlyTrusted
        }
    }

    /// The name of the band in lower case, as a token carries it.
    pub open spec fn label_text(self) -> Seq<char> {
        match self {
            TrustLevel::Untrusted => "untrusted"@,
            TrustLevel::Neutral => "neutral"@,
            TrustLevel::Trusted => "trusted"@,
            TrustLevel::HighlyTrusted => "highlytrusted"@,
        }
    }

    /// The name of the band in lower case.
    pub fn label(&self) -> (s: String)
        ensures
            s@ == self.label_text(),
    {
        match self {
            TrustLevel::Untrusted => String::from_str("untrusted"),
            TrustLevel::Neutral => String::from_str("neutral"),
            TrustLevel::Trusted => String::from_str("trusted"),
            TrustLevel::HighlyTrusted => String::from_str("highlytrusted"),
        }
    }

    /// By how much a requirement that scales with trust is tightened or
    /// relaxed: 150%, 120%, 100% and 80% from the lowest band to the highest.
    pub open spec fn threshold(self) -> Factor {
        match self {
            TrustLevel::Untrusted => Factor { numerator: 150, denominator: 100 },
            TrustLevel::Neutral => Factor { numerator: 120, denominator: 100 },
            TrustLevel::Trusted => Factor { numerator: 100, denominator: 100 },
            TrustLevel::HighlyTrusted => Factor { numerator: 80, denominator: 100 },
        }
    }

    /// The multiplier of the band.
    pub fn dynamic_threshold(&self) -> (f: Factor)
        ensures
            f == self.threshold(),
            f.wf(),
    {
        match self {
            TrustLevel::Untrusted => Factor::percent(150),
            TrustLevel::Neutral => Factor::percent(120),
            TrustLevel::Trusted => Factor::percent(100),
            TrustLevel::HighlyTrusted => Factor::percent(80),
        }
    }
}

impl From<u32> for TrustLevel {
    fn from(score: u32) -> (level: TrustLevel) {
        if score <= 49 {
            TrustLevel::Untrusted
        } else if score <= 74 {
            TrustLevel::Neutral
        } else if score <= 89 {
            TrustLevel::Trusted
        } else {
            TrustLevel::HighlyTrusted
        }
    }
}

impl FromSpecImpl<u32> for TrustLevel {
    open spec fn obeys_from_spec() -> bool {
        true
    }

    open spec fn from_spec(score: u32) -> TrustLevel {
        TrustLevel::of_score(score)
    }
}

/// What is known of an agent's reputation.
#[derive(Debug, Clone, Copy)]
pub struct ReputationScore {
    pub agent_id: AgentId,
    pub score: u32,
    pub successful_transactions: u32,
    pub failed_transactions: u32,
    pub total_negotiations: u32,
    pub average_response_time_ms: u64,
    pub last_updated: Timestamp,
    pub trust_level: TrustLevel,
}

impl ReputationScore {
    /// The entry of `agent_id` with `score`, taken at `at`, its counters at
    /// zero and its tier derived from the score.
    pub open spec fn snapshot(agent_id: AgentId, score: u32, at: Timestamp) -> ReputationScore {
        ReputationScore {
            agent_id,
            score,
            successful_transactions: 0,
            failed_transactions: 0,
            total_negotiations: 0,
            average_response_time_ms: 0,
            last_updated: at,
            trust_level: TrustLevel::of_score(score),
        }
    }

    /// The score is in range and the tier is the score's.
    pub open spec fn wf(&self) -> bool {
        self.score <= MAX_SCORE && self.trust_level == TrustLevel::of_score(self.score)
    }

    /// The entry of `agent_id` with `score`, taken at `at`.
    pub fn at(agent_id: AgentId, score: u32, at: Timestamp) -> (entry: ReputationScore)
        ensures
            entry == ReputationScore::snapshot(agent_id, score, at),
    {
        ReputationScore {
            agent_id,
            score,
            successful_transactions: 0,
            failed_transactions: 0,
            total_negotiations: 0,
            average_response_time_ms: 0,
            last_updated: at,
            trust_level: TrustLevel::from(score),
        }
    }
}

/// The claims of a trust token. The reputation is a snapshot taken when the
/// token was issued.
#[derive(Debug)]
pub struct JWTClaims {
    /// The agent's identity as text.
    pub sub: String,
    pub role: String,
    /// Expiry, in seconds since the epoch.
    pub exp: u64,
    /// Instant of issue, in seconds since the epoch.
    pub iat: u64,
    pub reputation_score: u32,
    pub trust_level: String,
}

impl JWTClaims {
    /// Whether the claims are the six given ones.
    pub open spec fn carries(
        &self,
        sub: Seq<char>,
        role: Seq<char>,
        exp: int,
        iat: int,
        reputation_score: int,
        trust_level: Seq<char>,
    ) -> bool {
        &&& self.sub@ == sub
        &&& self.role@ == role
        &&& self.exp == exp
        &&& self.iat == iat
        &&& self.reputation_score == reputation_score
        &&& self.trust_level@ == trust_level
    }
}

/// Whether `r` is an authentication failure whose message starts with
/// `context`.
pub open spec fn auth_error<T>(r: Result<T, NegotiationError>, context: Seq<char>) -> bool {
    r matches Err(NegotiationError::Auth(m)) && m@.len() >= context.len() && m@.subrange(
        0,
        context.len() as int,
    ) == context
}

/// Why a score changed.
#[derive(Debug, Clone, Copy, PartialEq, Eq, Structural)]
pub enum TrustActivityType {
    SuccessfulTransaction,
    FailedTransaction,
    QuoteExpired,
    NegotiationRejected,
    ReputationReport,
    SystemAdjustment,
}

/// One entry of the trust-activity log.
#[derive(Debug)]
pub struct TrustActivity {
    pub id: u128,
    pub agent_id: AgentId,
    pub activity_type: TrustActivityType,
    pub score_change: i32,
    pub reason: String,
    pub related_agent_id: Option<AgentId>,
    pub timestamp: Timestamp,
}

impl TrustActivity {
    /// A copy of the entry.
    pub fn duplicate(&self) -> (copy: TrustActivity)
        ensures
            copy == *self,
    {
        TrustActivity {
            id: self.id,
            agent_id: self.agent_id,
            activity_type: self.activity_type,
            score_change: self.score_change,
            reason: self.reason.clone(),
            related_agent_id: self.related_agent_id,
            timestamp: self.timestamp,
        }
    }

    /// Whether the entry records `score_change` for `agent_id` at `at` with
    /// the given kind, reason and counterparty. The entry's own identity is
    /// random.
    pub open spec fn records(
        &self,
        agent_id: AgentId,
        activity_type: TrustActivityType,
        score_change: i32,
        reason: Seq<char>,
        related_agent_id: Option<AgentId>,
        at: Timestamp,
    ) -> bool {
        &&& self.agent_id == agent_id
        &&& self.activity_type == activity_type
        &&& self.score_change == score_change
        &&& self.reason@ == reason
        &&& self.related_agent_id == related_agent_id
        &&& self.timestamp == at
    }
}

/// The score that results from `score` by `change`: their sum, held within
/// 0 and 100.
pub open spec fn adjusted(score: u32, change: i32) -> u32 {
    if score + change < 0 {
        0
    } else if score + change > MAX_SCORE {
        MAX_SCORE
    } else {
        (score + change) as u32
    }
}

/// The score that results from `score` by the changes of `changes`, one
/// after the other.
pub open spec fn adjusted_by_all(score: u32, changes: Seq<i32>) -> u32
    decreases changes.len(),
{
    if changes.len() == 0 {
        score
    } else {
        adjusted(adjusted_by_all(score, changes.drop_last()), changes.last())
    }
}

/// Whether the cache holds an entry for `agent_id` that is younger than `ttl`
/// seconds at `at`.
pub open spec fn fresh_in(
    cache: Map<AgentId, ReputationScore>,
    ttl: int,
    agent_id: AgentId,
    at: Timestamp,
) -> bool {
    cache.contains_key(agent_id) && at - cache[agent_id].last_updated < ttl
}

/// The score served for `agent_id` at `at`, given what the store answers for
/// the agent: the cached score while the entry is fresh; else the stored
/// score, a stale entry being read again from the store; and zero for an agent
/// that neither knows.
pub open spec fn served_score(
    cache: Map<AgentId, ReputationScore>,
    ttl: int,
    stored: Option<u32>,
    agent_id: AgentId,
    at: Timestamp,
) -> u32 {
    if fresh_in(cache, ttl, agent_id, at) {
        cache[agent_id].score
    } else {
        match stored {
            Some(score) => score,
            None => 0,
        }
    }
}

/// What a store answers for `agent_id`.
pub open spec fn stored_in(ledger: Map<AgentId, u32>, agent_id: AgentId) -> Option<u32> {
    if ledger.contains_key(agent_id) {
        Some(ledger[agent_id])
    } else {
        None
    }
}

/// The text of the reason logged with an adjustment by `change`.
pub open spec fn adjustment_reason(change: i32) -> Seq<char> {
    "Reputation adjusted by "@ + decimal(change as int)
}

/// Computes `adjusted`.
pub fn adjust_score(score: u32, change: i32) -> (new_score: u32)
    ensures
        new_score == adjusted(score, change),
        new_score <= MAX_SCORE,
{
    let sum: i64 = score as i64 + change as i64;
    if sum < 0 {
        0
    } else if sum > MAX_SCORE as i64 {
        MAX_SCORE
    } else {
        sum as u32
    }
}

/// The cache after the score of `agent_id`, for which the store answers
/// `stored`, was adjusted by `change` at `at`: the entry of the agent is
/// replaced by a fresh one with the adjusted score.
pub open spec fn cache_after(
    cache: Map<AgentId, ReputationScore>,
    ttl: int,
    stored: Option<u32>,
    agent_id: AgentId,
    change: i32,
    at: Timestamp,
) -> Map<AgentId, ReputationScore> {
    cache.insert(
        agent_id,
        ReputationScore::snapshot(
            agent_id,
            adjusted(served_score(cache, ttl, stored, agent_id, at), change),
            at,
        ),
    )
}

/// The engine's own store after the same adjustment: it holds the adjusted
/// score for the agent.
pub open spec fn ledger_after(
    cache: Map<AgentId, ReputationScore>,
    ttl: int,
    ledger: Map<AgentId, u32>,
    stored: Option<u32>,
    agent_id: AgentId,
    change: i32,
    at: Timestamp,
) -> Map<AgentId, u32> {
    ledger.insert(agent_id, adjusted(served_score(cache, ttl, stored, agent_id, at), change))
}

/// Whether an entry that was last updated at `last_updated` survives a purge
/// at `at`: it is younger than twice the time to live.
pub open spec fn survives_purge(last_updated: Timestamp, ttl: int, at: Timestamp) -> bool {
    at - last_updated < 2 * ttl
}

/// The reputation engine: a per-agent score read through a cache with a
/// fixed time to live in front of a store of the scores, an append-only log
/// of what changed the scores, and the secret that signs trust tokens. The
/// engine keeps a store of its own, in memory; a caller with a durable store
/// hands its answers to the functions that take one.
pub struct TrustSystem {
    jwt_secret: String,
    reputation_cache: HashMap<AgentId, ReputationScore>,
    stored_scores: HashMap<AgentId, u32>,
    cache_ttl: i64,
    activities: Vec<TrustActivity>,
}

impl TrustSystem {
    /// The time to live is 30 minutes, every cached entry is filed under its
    /// own agent and holds a score in range with the tier that belongs to it,
    /// and every stored score is in range.
    pub open spec fn wf(&self) -> bool {
        &&& self.ttl() == CACHE_TTL_SECONDS
        &&& forall|agent_id: AgentId| #[trigger]
            self.cache().contains_key(agent_id) ==> {
                &&& self.cache()[agent_id].agent_id == agent_id
                &&& self.cache()[agent_id].wf()
            }
        &&& forall|agent_id: AgentId| #[trigger]
            self.ledger().contains_key(agent_id) ==> self.ledger()[agent_id] <= MAX_SCORE
    }

    /// The scores of the engine's own store, by agent.
    pub closed spec fn ledger(&self) -> Map<AgentId, u32> {
        self.stored_scores@
    }

    /// The cached entries, by agent.
    pub closed spec fn cache(&self) -> Map<AgentId, ReputationScore> {
        self.reputation_cache@
    }

    /// Seconds for which a cached score is served.
    pub closed spec fn ttl(&self) -> int {
        self.cache_ttl as int
    }

    /// The trust-activity log, oldest entry first.
    pub closed spec fn log(&self) -> Seq<TrustActivity> {
        self.activities@
    }

    /// The secret that signs the tokens.
    pub closed spec fn secret(&self) -> Seq<char> {
        self.jwt_secret@
    }

    /// The score served for `agent_id` at `at`.
    pub open spec fn score_at(&self, agent_id: AgentId, at: Timestamp) -> u32 {
        served_score(
            self.cache(),
            self.ttl(),
            stored_in(self.ledger(), agent_id),
            agent_id,
            at,
        )
    }

    /// The secret used where none is configured.
    pub open spec fn default_secret() -> Seq<char> {
        "your-secret-key-here"@
    }

    /// Whether the engine serves what `before` serves and signs as it does:
    /// cache, store, time to live and secret are the same.
    pub open spec fn serves_as(&self, before: &TrustSystem) -> bool {
        &&& self.cache() == before.cache()
        &&& self.ledger() == before.ledger()
        &&& self.ttl() == before.ttl()
        &&& self.secret() == before.secret()
    }

    /// An engine with an empty cache, an empty store and an empty log, signing
    /// with `jwt_secret` or, where there is none, with the default secret.
    pub fn new(jwt_secret: Option<String>) -> (r: Result<Self, NegotiationError>)
        ensures
            r matches Ok(trust) && trust.wf() && trust.cache() == Map::<
                AgentId,
                ReputationScore,
            >::empty() && trust.ledger() == Map::<AgentId, u32>::empty() && trust.log() == Seq::<TrustActivity>::empty() && trust.ttl()
                == CACHE_TTL_SECONDS && trust.secret() == (match jwt_secret {
                Some(secret) => secret@,
                None => Self::default_secret(),
            }),
    {
        let jwt_secret = match jwt_secret {
            Some(secret) => secret,
            None => String::from_str("your-secret-key-here"),
        };
        Ok(
            TrustSystem {
                jwt_secret,
                reputation_cache: HashMap::new(),
                stored_scores: HashMap::new(),
                cache_ttl: CACHE_TTL_SECONDS,
                activities: Vec::new(),
            },
        )
    }

    /// The score served for `agent_id` at `at`, given what the store answers
    /// for the agent: the cached score while the entry is fresh, else the
    /// stored one, else zero. The cache is not changed.
    pub fn get_reputation_with(&self, agent_id: AgentId, at: Timestamp, stored: Option<u32>) -> (score:
        u32)
        ensures
            score == served_score(self.cache(), self.ttl(), stored, agent_id, at),
    {
        let fresh = match self.reputation_cache.get(&agent_id) {
            Some(cached) => {
                if (at as i128) - (cached.last_updated as i128) < self.cache_ttl as i128 {
                    Some(cached.score)
                } else {
                    None
                }
            },
            None => None,
        };
        match fresh {
            Some(score) => score,
            None => match stored {
                Some(score) => score,
                None => 0,
            },
        }
    }

    /// What the engine's own store answers for `agent_id`.
    pub fn stored_score(&self, agent_id: AgentId) -> (stored: Option<u32>)
        ensures
            stored == stored_in(self.ledger(), agent_id),
            self.wf() ==> (stored matches Some(score) ==> score <= MAX_SCORE),
    {
        match self.stored_scores.get(&agent_id) {
            Some(score) => Some(*score),
            None => None,
        }
    }

    /// The score served for `agent_id` at `at`, read through the cache from
    /// the engine's own store. New agents start at zero.
    pub fn get_reputation_at(&self, agent_id: AgentId, at: Timestamp) -> (score: u32)
        ensures
            score == self.score_at(agent_id, at),
            self.wf() ==> score <= MAX_SCORE,
    {
        let stored = self.stored_score(agent_id);
        self.get_reputation_with(agent_id, at, stored)
    }

    /// The score served for `agent_id` now.
    pub fn get_reputation(&self, agent_id: AgentId) -> (r: Result<u32, NegotiationError>)
        ensures
            r matches Ok(score) && (self.wf() ==> score <= MAX_SCORE) && exists|at: Timestamp|
                0 <= at < CLOCK_LIMIT && score == self.score_at(agent_id, at),
    {
        let at = now();
        Ok(self.get_reputation_at(agent_id, at))
    }

    /// Enters a score for `agent_id` into the engine's own store, as an
    /// operator seeds an agent or as a durable store is read in. A score above
    /// 100 is entered as 100. Cache and log are kept.
    pub fn seed_reputation(&mut self, agent_id: AgentId, score: u32)
        ensures
            final(self).ledger() == old(self).ledger().insert(
                agent_id,
                if score <= MAX_SCORE {
                    score
                } else {
                    MAX_SCORE
                },
            ),
            final(self).cache() == old(self).cache(),
            final(self).log() == old(self).log(),
            final(self).ttl() == old(self).ttl(),
            final(self).secret() == old(self).secret(),
            old(self).wf() ==> final(self).wf(),
    {
        let held = if score <= MAX_SCORE {
            score
        } else {
            MAX_SCORE
        };
        self.stored_scores.insert(agent_id, held);
        proof {
            if old(self).wf() {
                assert forall|other: AgentId| #[trigger]
                    self.ledger().contains_key(other) implies self.ledger()[other]
                    <= MAX_SCORE by {
                    if other != agent_id {
                        assert(old(self).ledger().contains_key(other));
                    }
                }
            }
        }
    }

    /// Whether the engine is `before` with the score of `agent_id`, for which
    /// the store answered `stored`, adjusted by `score_change` at `at`: the
    /// cache holds a fresh entry with the adjusted score, the engine's own
    /// store holds that score, and the log has one more entry, which records
    /// the adjustment.
    pub open spec fn adjusted_with(
        &self,
        before: &TrustSystem,
        agent_id: AgentId,
        score_change: i32,
        at: Timestamp,
        stored: Option<u32>,
    ) -> bool {
        &&& self.secret() == before.secret()
        &&& self.ttl() == before.ttl()
        &&& self.cache() == cache_after(
            before.cache(),
            before.ttl(),
            stored,
            agent_id,
            score_change,
            at,
        )
        &&& self.ledger() == ledger_after(
            before.cache(),
            before.ttl(),
            before.ledger(),
            stored,
            agent_id,
            score_change,
            at,
        )
        &&& self.log().len() == before.log().len() + 1
        &&& self.log().drop_last() == before.log()
        &&& self.log().last().records(
            agent_id,
            TrustActivityType::SystemAdjustment,
            score_change,
            adjustment_reason(score_change),
            None,
            at,
        )
    }

    /// Whether the engine is `before` with the score of `agent_id` adjusted by
    /// `score_change` at `at`, the score being read through the cache from the
    /// engine's own store.
    pub open spec fn adjusted_from(
        &self,
        before: &TrustSystem,
        agent_id: AgentId,
        score_change: i32,
        at: Timestamp,
    ) -> bool {
        self.adjusted_with(
            before,
            agent_id,
            score_change,
            at,
            stored_in(before.ledger(), agent_id),
        )
    }

    /// Adds `score_change` to the score served for `agent_id` at `at`, given
    /// what the store answers for the agent; holds the sum within 0 and 100,
    /// caches it with `at` as its time, writes it to the engine's own store,
    /// and logs the adjustment.
    pub fn update_reputation_with(
        &mut self,
        agent_id: AgentId,
        score_change: i32,
        at: Timestamp,
        stored: Option<u32>,
    ) -> (r: Result<(), NegotiationError>)
        ensures
            r is Ok,
            final(self).adjusted_with(old(self), agent_id, score_change, at, stored),
            old(self).wf() ==> final(self).wf(),
    {
        let current_score = self.get_reputation_with(agent_id, at, stored);
        let new_score = adjust_score(current_score, score_change);
        self.reputation_cache.insert(agent_id, ReputationScore::at(agent_id, new_score, at));
        self.stored_scores.insert(agent_id, new_score);
        let mut reason = String::from_str("Reputation adjusted by ");
        let change_text = signed_text(score_change as i64);
        reason.append(change_text.as_str());
        self.log_trust_activity(
            TrustActivity {
                id: fresh_id(),
                agent_id,
                activity_type: TrustActivityType::SystemAdjustment,
                score_change,
                reason,
                related_agent_id: None,
                timestamp: at,
            },
        );
        proof {
            assert(self.log().drop_last() =~= old(self).log());
        }
        Ok(())
    }

    /// Adjusts the score of `agent_id` by `score_change` as of `at`, the score
    /// being read through the cache from the engine's own store.
    pub fn update_reputation_at(
        &mut self,
        agent_id: AgentId,
        score_change: i32,
        at: Timestamp,
    ) -> (r: Result<(), NegotiationError>)
        ensures
            r is Ok,
            final(self).adjusted_from(old(self), agent_id, score_change, at),
            old(self).wf() ==> final(self).wf(),
    {
        let stored = self.stored_score(agent_id);
        self.update_reputation_with(agent_id, score_change, at, stored)
    }

    /// Adjusts the score of `agent_id` by `score_change` as of now.
    pub fn update_reputation(&mut self, agent_id: AgentId, score_change: i32) -> (r: Result<
        (),
        NegotiationError,
    >)
        ensures
            r is Ok,
            exists|at: Timestamp|
                0 <= at < CLOCK_LIMIT && final(self).adjusted_from(old(self), agent_id, score_change, at),
            old(self).wf() ==> final(self).wf(),
    {
        let at = now();
        self.update_reputation_at(agent_id, score_change, at)
    }

    /// The cache after the score of `agent_id` was adjusted by `change` at
    /// `at`, read through the cache from the engine's own store.
    pub open spec fn adjusted_cache(&self, agent_id: AgentId, change: i32, at: Timestamp) -> Map<
        AgentId,
        ReputationScore,
    > {
        cache_after(
            self.cache(),
            self.ttl(),
            stored_in(self.ledger(), agent_id),
            agent_id,
            change,
            at,
        )
    }

    /// The engine's own store after the same adjustment.
    pub open spec fn adjusted_ledger(&self, agent_id: AgentId, change: i32, at: Timestamp) -> Map<
        AgentId,
        u32,
    > {
        ledger_after(
            self.cache(),
            self.ttl(),
            self.ledger(),
            stored_in(self.ledger(), agent_id),
            agent_id,
            change,
            at,
        )
    }

    /// Whether the engine is `before` after a transaction between `buyer_id`
    /// and `seller_id` was recorded at `at`: both scores are adjusted by
    /// `change`, the buyer's first, and the log has four more entries: the two
    /// adjustments, then one entry of the given kind and reason for each party,
    /// naming the other.
    pub open spec fn recorded_from(
        &self,
        before: &TrustSystem,
        buyer_id: AgentId,
        seller_id: AgentId,
        change: i32,
        kind: TrustActivityType,
        reason: Seq<char>,
        at: Timestamp,
    ) -> bool {
        let n = before.log().len() as int;
        &&& self.secret() == before.secret()
        &&& self.ttl() == before.ttl()
        &&& self.cache() == cache_after(
            before.adjusted_cache(buyer_id, change, at),
            before.ttl(),
            stored_in(before.adjusted_ledger(buyer_id, change, at), seller_id),
            seller_id,
            change,
            at,
        )
        &&& self.ledger() == ledger_after(
            before.adjusted_cache(buyer_id, change, at),
            before.ttl(),
            before.adjusted_ledger(buyer_id, change, at),
            stored_in(before.adjusted_ledger(buyer_id, change, at), seller_id),
            seller_id,
            change,
            at,
        )
        &&& self.log().len() == n + 4
        &&& self.log().subrange(0, n) == before.log()
        &&& self.log()[n].records(
            buyer_id,
            TrustActivityType::SystemAdjustment,
            change,
            adjustment_reason(change),
            None,
            at,
        )
        &&& self.log()[n + 1].records(
            seller_id,
            TrustActivityType::SystemAdjustment,
            change,
            adjustment_reason(change),
            None,
            at,
        )
        &&& self.log()[n + 2].records(buyer_id, kind, change, reason, Some(seller_id), at)
        &&& self.log()[n + 3].records(seller_id, kind, change, reason, Some(buyer_id), at)
    }

    /// Adjusts both scores by `change` at `at` and logs the transaction for
    /// both parties.
    fn record_transaction_at(
        &mut self,
        buyer_id: AgentId,
        seller_id: AgentId,
        change: i32,
        kind: TrustActivityType,
        reason: &str,
        at: Timestamp,
    )
        ensures
            final(self).recorded_from(old(self), buyer_id, seller_id, change, kind, reason@, at),
            old(self).wf() ==> final(self).wf(),
    {
        let _ = self.update_reputation_at(buyer_id, change, at);
        let _ = self.update_reputation_at(seller_id, change, at);
        self.log_trust_activity(
            TrustActivity {
                id: fresh_id(),
                agent_id: buyer_id,
                activity_type: kind,
                score_change: change,
                reason: String::from_str(reason),
                related_agent_id: Some(seller_id),
                timestamp: at,
            },
        );
        self.log_trust_activity(
            TrustActivity {
                id: fresh_id(),
                agent_id: seller_id,
                activity_type: kind,
                score_change: change,
                reason: String::from_str(reason),
                related_agent_id: Some(buyer_id),
                timestamp: at,
            },
        );
        proof {
            let n = old(self).log().len() as int;
            let log = self.log();
            assert(log.drop_last().drop_last().drop_last().drop_last() =~= old(self).log());
            assert(log.subrange(0, n) =~= old(self).log());
            assert(log.drop_last().drop_last().drop_last().last() == log[n]);
            assert(log.drop_last().drop_last().last() == log[n + 1]);
        }
    }

    /// Grants both parties of a settled deal the bonus, as of `at`.
    pub fn record_successful_transaction_at(
        &mut self,
        buyer_id: AgentId,
        seller_id: AgentId,
        at: Timestamp,
    ) -> (r: Result<(), NegotiationError>)
        ensures
            r is Ok,
            final(self).recorded_from(
                old(self),
                buyer_id,
                seller_id,
                SUCCESS_BONUS,
                TrustActivityType::SuccessfulTransaction,
                "Successful transaction completed"@,
                at,
            ),
            old(self).wf() ==> final(self).wf(),
    {
        self.record_transaction_at(
            buyer_id,
            seller_id,
            SUCCESS_BONUS,
            TrustActivityType::SuccessfulTransaction,
            "Successful transaction completed",
            at,
        );
        Ok(())
    }

    /// Grants both parties of a settled deal the bonus, as of now.
    pub fn record_successful_transaction(&mut self, buyer_id: AgentId, seller_id: AgentId) -> (r:
        Result<(), NegotiationError>)
        ensures
            r is Ok,
            exists|at: Timestamp|
                0 <= at < CLOCK_LIMIT && final(self).recorded_from(
                    old(self),
                    buyer_id,
                    seller_id,
                    SUCCESS_BONUS,
                    TrustActivityType::SuccessfulTransaction,
                    "Successful transaction completed"@,
                    at,
                ),
            old(self).wf() ==> final(self).wf(),
    {
        let at = now();
        self.record_successful_transaction_at(buyer_id, seller_id, at)
    }

    /// Charges both parties of a failed settlement the penalty, as of `at`.
    pub fn record_failed_transaction_at(
        &mut self,
        buyer_id: AgentId,
        seller_id: AgentId,
        at: Timestamp,
    ) -> (r: Result<(), NegotiationError>)
        ensures
            r is Ok,
            final(self).recorded_from(
                old(self),
                buyer_id,
                seller_id,
                FAILURE_PENALTY,
                TrustActivityType::FailedTransaction,
                "Transaction failed"@,
                at,
            ),
            old(self).wf() ==> final(self).wf(),
    {
        self.record_transaction_at(
            buyer_id,
            seller_id,
            FAILURE_PENALTY,
            TrustActivityType::FailedTransaction,
            "Transaction failed",
            at,
        );
        Ok(())
    }

    /// Charges both parties of a failed settlement the penalty, as of now.
    pub fn record_failed_transaction(&mut self, buyer_id: AgentId, seller_id: AgentId) -> (r:
        Result<(), NegotiationError>)
        ensures
            r is Ok,
            exists|at: Timestamp|
                0 <= at < CLOCK_LIMIT && final(self).recorded_from(
                    old(self),
                    buyer_id,
                    seller_id,
                    FAILURE_PENALTY,
                    TrustActivityType::FailedTransaction,
                    "Transaction failed"@,
                    at,
                ),
            old(self).wf() ==> final(self).wf(),
    {
        let at = now();
        self.record_failed_transaction_at(buyer_id, seller_id, at)
    }

    /// Whether the score of `agent_id` at `at` reaches `min_score`.
    pub fn check_min_reputation_at(&self, agent_id: AgentId, min_score: u32, at: Timestamp) -> (ok:
        bool)
        ensures
            ok == (self.score_at(agent_id, at) >= min_score),
    {
        self.get_reputation_at(agent_id, at) >= min_score
    }

    /// Whether the score of `agent_id` now reaches `min_score`.
    pub fn check_min_reputation(&self, agent_id: AgentId, min_score: u32) -> (r: Result<
        bool,
        NegotiationError,
    >)
        ensures
            r matches Ok(ok) && exists|at: Timestamp|
                0 <= at < CLOCK_LIMIT && ok == (self.score_at(agent_id, at) >= min_score),
    {
        let at = now();
        Ok(self.check_min_reputation_at(agent_id, min_score, at))
    }

    /// The tier of `agent_id` at `at`.
    pub fn get_trust_level_at(&self, agent_id: AgentId, at: Timestamp) -> (level: TrustLevel)
        ensures
            level == TrustLevel::of_score(self.score_at(agent_id, at)),
    {
        TrustLevel::from(self.get_reputation_at(agent_id, at))
    }

    /// The tier of `agent_id` now.
    pub fn get_trust_level(&self, agent_id: AgentId) -> (r: Result<TrustLevel, NegotiationError>)
        ensures
            r matches Ok(level) && exists|at: Timestamp|
                0 <= at < CLOCK_LIMIT && level == TrustLevel::of_score(self.score_at(agent_id, at)),
    {
        let at = now();
        Ok(self.get_trust_level_at(agent_id, at))
    }

    /// What is known of `agent_id` at `at`: its score and tier, the counters
    /// at zero.
    pub fn get_agent_trust_info_at(&self, agent_id: AgentId, at: Timestamp) -> (info:
        ReputationScore)
        ensures
            info == ReputationScore::snapshot(agent_id, self.score_at(agent_id, at), at),
    {
        ReputationScore::at(agent_id, self.get_reputation_at(agent_id, at), at)
    }

    /// What is known of `agent_id` now.
    pub fn get_agent_trust_info(&self, agent_id: AgentId) -> (r: Result<
        ReputationScore,
        NegotiationError,
    >)
        ensures
            r matches Ok(info) && exists|at: Timestamp|
                0 <= at < CLOCK_LIMIT && info == ReputationScore::snapshot(agent_id, self.score_at(agent_id, at), at),
    {
        let at = now();
        Ok(self.get_agent_trust_info_at(agent_id, at))
    }

    /// The multiplier of the tier of `agent_id` at `at`.
    pub fn calculate_dynamic_threshold_at(&self, agent_id: AgentId, at: Timestamp) -> (f: Factor)
        ensures
            f == TrustLevel::of_score(self.score_at(agent_id, at)).threshold(),
            f.wf(),
    {
        self.get_trust_level_at(agent_id, at).dynamic_threshold()
    }

    /// The multiplier of the tier of `agent_id` now.
    pub fn calculate_dynamic_threshold(&self, agent_id: AgentId) -> (r: Result<
        Factor,
        NegotiationError,
    >)
        ensures
            r matches Ok(f) && f.wf() && exists|at: Timestamp|
                0 <= at < CLOCK_LIMIT && f == TrustLevel::of_score(self.score_at(agent_id, at)).threshold(),
    {
        let at = now();
        Ok(self.calculate_dynamic_threshold_at(agent_id, at))
    }

    /// The claims of a token issued to `agent_id` at `at`: its identity as
    /// text, the role `agent`, the expiry a day later, and the score and tier
    /// served at that instant. No token is issued for an instant before the
    /// epoch, which the unsigned claims cannot hold.
    pub fn claims_at(&self, agent_id: AgentId, at: Timestamp) -> (r: Result<
        JWTClaims,
        NegotiationError,
    >)
        ensures
            at >= 0 ==> (r matches Ok(claims) && claims.carries(
                uuid_text(agent_id),
                "agent"@,
                at + TOKEN_LIFETIME_SECONDS,
                at as int,
                self.score_at(agent_id, at) as int,
                TrustLevel::of_score(self.score_at(agent_id, at)).label_text(),
            )),
            at < 0 ==> auth_error(r, "Failed to generate JWT: "@),
    {
        if at < 0 {
            let message = String::from_str("Failed to generate JWT: ").concat(
                "clock before epoch",
            );
            proof {
                assert(message@.subrange(0, "Failed to generate JWT: "@.len() as int)
                    =~= "Failed to generate JWT: "@);
            }
            return Err(NegotiationError::Auth(message));
        }
        let reputation_score = self.get_reputation_at(agent_id, at);
        let trust_level = TrustLevel::from(reputation_score);
        Ok(
            JWTClaims {
                sub: id_text(agent_id),
                role: String::from_str("agent"),
                exp: at as u64 + TOKEN_LIFETIME_SECONDS as u64,
                iat: at as u64,
                reputation_score,
                trust_level: trust_level.label(),
            },
        )
    }

    /// The token issued to `agent_id` at `at`, or `None` where signing is
    /// refused: the token of the claims of that instant, each under the name
    /// by which it is read again.
    pub open spec fn token_at(&self, agent_id: AgentId, at: Timestamp) -> Option<Seq<char>> {
        hs256_token(
            signed_texts(
                uuid_text(agent_id),
                "agent"@,
                TrustLevel::of_score(self.score_at(agent_id, at)).label_text(),
            ),
            signed_numbers(
                (at + TOKEN_LIFETIME_SECONDS) as u64,
                at as u64,
                self.score_at(agent_id, at),
            ),
            self.secret(),
        )
    }

    /// Whether `r` is what issuing a token to `agent_id` at `at` returns: the
    /// token of that instant, or an authentication failure where the instant
    /// lies before the epoch or signing is refused.
    pub open spec fn issues(
        &self,
        agent_id: AgentId,
        at: Timestamp,
        r: Result<String, NegotiationError>,
    ) -> bool {
        if at < 0 {
            auth_error(r, "Failed to generate JWT: "@)
        } else {
            match self.token_at(agent_id, at) {
                Some(token) => r matches Ok(issued) && issued@ == token,
                None => auth_error(r, "Failed to generate JWT: "@),
            }
        }
    }

    /// Issues a signed token to `agent_id` as of `at`.
    pub fn generate_jwt_at(&self, agent_id: AgentId, at: Timestamp) -> (r: Result<
        String,
        NegotiationError,
    >)
        ensures
            self.issues(agent_id, at, r),
    {
        match self.claims_at(agent_id, at) {
            Ok(claims) => {
                let texts = [
                    ("sub", claims.sub.as_str()),
                    ("role", claims.role.as_str()),
                    ("trust_level", claims.trust_level.as_str()),
                ];
                let numbers = [
                    ("exp", claims.exp),
                    ("iat", claims.iat),
                    ("reputation_score", claims.reputation_score as u64),
                ];
                proof {
                    assert(text_pairs(texts@) =~= signed_texts(
                        claims.sub@,
                        claims.role@,
                        claims.trust_level@,
                    ));
                    assert(number_pairs(numbers@) =~= signed_numbers(
                        claims.exp,
                        claims.iat,
                        claims.reputation_score,
                    ));
                }
                token_from_signature(sign_members(&texts, &numbers, self.jwt_secret.as_str()))
            },
            Err(e) => Err(e),
        }
    }

    /// Issues a signed token to `agent_id`, valid for a day from now. Its
    /// reputation claims are a snapshot.
    pub fn generate_jwt(&self, agent_id: AgentId) -> (r: Result<String, NegotiationError>)
        ensures
            exists|at: Timestamp| 0 <= at < CLOCK_LIMIT && self.issues(agent_id, at, r),
    {
        let at = now();
        let r = self.generate_jwt_at(agent_id, at);
        proof {
            assert(self.issues(agent_id, at, r));
        }
        r
    }

    /// Checks the signature and the expiry of a token and hands out the
    /// claims embedded in it. A token is accepted only if its signature
    /// passes under the engine's own secret and its payload holds all six
    /// claims; every failure is an authentication failure. The reputation
    /// that the claims carry is that of the time of issue.
    pub fn validate_jwt(&self, token: &str) -> (r: Result<JWTClaims, NegotiationError>)
        ensures
            r is Ok ==> hs256_accepts(token@, self.secret()),
            r matches Ok(claims) ==> embedded(token_members(token@), &claims),
            r is Err ==> auth_error(r, "Invalid JWT: "@),
            !complete(token_members(token@)) ==> r is Err,
    {
        claims_of(verify_token(token, self.jwt_secret.as_str()))
    }

    /// The log entries of `agent_id`, oldest first.
    pub fn get_reputation_history(&self, agent_id: AgentId) -> (r: Result<
        Vec<TrustActivity>,
        NegotiationError,
    >)
        ensures
            r matches Ok(history) && history@ == self.log().filter(concerns(agent_id)),
    {
        let mut history: Vec<TrustActivity> = Vec::new();
        let mut i: usize = 0;
        proof {
            reveal(Seq::filter);
            assert(self.activities@.take(0) =~= Seq::<TrustActivity>::empty());
        }
        while i < self.activities.len()
            invariant
                i <= self.activities@.len(),
                history@ == self.activities@.take(i as int).filter(concerns(agent_id)),
            decreases self.activities@.len() - i,
        {
            proof {
                reveal(Seq::filter);
                let next = self.activities@.take(i + 1);
                assert(next.drop_last() =~= self.activities@.take(i as int));
                assert(next.last() == self.activities@[i as int]);
            }
            if self.activities[i].agent_id == agent_id {
                history.push(self.activities[i].duplicate());
            }
            i += 1;
        }
        proof {
            assert(self.activities@.take(i as int) =~= self.activities@);
        }
        Ok(history)
    }

    /// The agents of the cache, each once, in no particular order.
    fn cached_agents(&self) -> (agents: Vec<AgentId>)
        ensures
            agents@.no_duplicates(),
            agents@.to_set() == self.cache().dom(),
    {
        let mut agents: Vec<AgentId> = Vec::new();
        let ghost all: Seq<AgentId> = spec_keys_iter(&self.reputation_cache).remaining().unref();
        for agent_id in it: self.reputation_cache.keys()
            invariant
                agents@.len() == it.index(),
                forall|j: int| 0 <= j < agents@.len() ==> agents@[j] == *it.seq()[j],
                all == it.seq().unref(),
                all.to_set() == self.reputation_cache@.dom(),
                all.no_duplicates(),
        {
            agents.push(*agent_id);
        }
        assert(agents@ =~= all);
        agents
    }

    /// Every cached entry, each agent once, in no particular order.
    pub fn get_all_reputations(&self) -> (r: Result<Vec<ReputationScore>, NegotiationError>)
        ensures
            r matches Ok(entries) && lists(self.cache(), entries@),
    {
        let agents = self.cached_agents();
        let mut entries: Vec<ReputationScore> = Vec::new();
        let mut i: usize = 0;
        while i < agents.len()
            invariant
                i <= agents@.len(),
                agents@.to_set() == self.reputation_cache@.dom(),
                entries@.len() == i,
                forall|j: int|
                    0 <= j < i ==> entries@[j] == self.reputation_cache@[#[trigger] agents@[j]],
            decreases agents@.len() - i,
        {
            assert(agents@.to_set().contains(agents@[i as int]));
            match self.reputation_cache.get(&agents[i]) {
                Some(entry) => {
                    entries.push(*entry);
                },
                None => {
                    assert(false);
                },
            }
            i += 1;
        }
        Ok(entries)
    }

    /// Removes at `at` the cached entries that are at least twice the time to
    /// live old. The log is kept.
    pub fn purge_old_cache_entries_at(&mut self, at: Timestamp) -> (r: Result<
        (),
        NegotiationError,
    >)
        ensures
            r is Ok,
            final(self).cache() == purged(old(self).cache(), old(self).ttl(), at),
            final(self).log() == old(self).log(),
            final(self).ledger() == old(self).ledger(),
            final(self).ttl() == old(self).ttl(),
            final(self).secret() == old(self).secret(),
            old(self).wf() ==> final(self).wf(),
    {
        let agents = self.cached_agents();
        let ghost before = self.reputation_cache@;
        let ghost ttl = self.cache_ttl as int;
        let mut i: usize = 0;
        while i < agents.len()
            invariant
                i <= agents@.len(),
                agents@.to_set() == before.dom(),
                self.cache_ttl == ttl,
                self.jwt_secret == old(self).jwt_secret,
                self.stored_scores == old(self).stored_scores,
                self.activities == old(self).activities,
                before == old(self).reputation_cache@,
                forall|agent_id: AgentId| #[trigger]
                    self.reputation_cache@.contains_key(agent_id) ==> before.contains_key(agent_id)
                        && self.reputation_cache@[agent_id] == before[agent_id],
                forall|agent_id: AgentId| #[trigger]
                    before.contains_key(agent_id) && !self.reputation_cache@.contains_key(agent_id)
                        ==> !survives_purge(before[agent_id].last_updated, ttl, at),
                forall|j: int|
                    0 <= j < i && !survives_purge(before[#[trigger] agents@[j]].last_updated, ttl, at)
                        ==> !self.reputation_cache@.contains_key(agents@[j]),
            decreases agents@.len() - i,
        {
            let agent_id = agents[i];
            let stale = match self.reputation_cache.get(&agent_id) {
                Some(entry) => (at as i128) - (entry.last_updated as i128) >= 2 * (
                self.cache_ttl as i128),
                None => false,
            };
            if stale {
                self.reputation_cache.remove(&agent_id);
            }
            i += 1;
        }
        proof {
            assert forall|agent_id: AgentId| #[trigger]
                before.contains_key(agent_id) && !survives_purge(
                    before[agent_id].last_updated,
                    ttl,
                    at,
                ) implies !self.reputation_cache@.contains_key(agent_id) by {
                assert(agents@.to_set().contains(agent_id));
                assert(agents@.contains(agent_id));
                let j = choose|j: int| 0 <= j < agents@.len() && agents@[j] == agent_id;
                assert(!survives_purge(before[agents@[j]].last_updated, ttl, at));
            }
            assert(self.reputation_cache@ =~= purged(before, ttl, at));
        }
        Ok(())
    }

    /// Removes the cached entries that are by now at least twice the time to
    /// live old.
    pub fn purge_old_cache_entries(&mut self) -> (r: Result<(), NegotiationError>)
        ensures
            r is Ok,
            exists|at: Timestamp|
                0 <= at < CLOCK_LIMIT && final(self).cache() == purged(old(self).cache(), old(self).ttl(), at),
            final(self).log() == old(self).log(),
            final(self).ledger() == old(self).ledger(),
            final(self).ttl() == old(self).ttl(),
            final(self).secret() == old(self).secret(),
            old(self).wf() ==> final(self).wf(),
    {
        let at = now();
        self.purge_old_cache_entries_at(at)
    }

    /// Appends an entry to the trust-activity log.
    fn log_trust_activity(&mut self, activity: TrustActivity)
        ensures
            final(self).log() == old(self).log().push(activity),
            final(self).serves_as(old(self)),
            old(self).wf() ==> final(self).wf(),
    {
        self.activities.push(activity);
    }
}

/// The cache after a purge at `at`: the entries younger than twice the time
/// to live.
pub open spec fn purged(cache: Map<AgentId, ReputationScore>, ttl: int, at: Timestamp) -> Map<
    AgentId,
    ReputationScore,
> {
    cache.restrict(
        Set::new(|agent_id: AgentId| survives_purge(cache[agent_id].last_updated, ttl, at)),
    )
}

/// Whether `entries` holds the entries of `cache`, one for each agent.
pub open spec fn lists(cache: Map<AgentId, ReputationScore>, entries: Seq<ReputationScore>) -> bool {
    exists|agents: Seq<AgentId>|
        {
            &&& agents.no_duplicates()
            &&& agents.to_set() == cache.dom()
            &&& #[trigger] agents.len() == entries.len()
            &&& forall|i: int| 0 <= i < agents.len() ==> entries[i] == cache[#[trigger] agents[i]]
        }
}

/// The entries of a log that concern `agent_id`.
pub open spec fn concerns(agent_id: AgentId) -> spec_fn(TrustActivity) -> bool {
    |entry: TrustActivity| entry.agent_id == agent_id
}

/// Whether `r` is the refusal of a token for the reason `detail`.
pub open spec fn refused_token<T>(r: Result<T, NegotiationError>, detail: Seq<char>) -> bool {
    r matches Err(NegotiationError::Auth(m)) && m@ == "Invalid JWT: "@ + detail
}

/// The text members that a token is signed with: subject, role and tier.
pub open spec fn signed_texts(sub: Seq<char>, role: Seq<char>, trust_level: Seq<char>) -> Seq<
    (Seq<char>, Seq<char>),
> {
    seq![("sub"@, sub), ("role"@, role), ("trust_level"@, trust_level)]
}

/// The unsigned members that a token is signed with: expiry, instant of issue
/// and score.
pub open spec fn signed_numbers(exp: u64, iat: u64, reputation_score: u32) -> Seq<
    (Seq<char>, u64),
> {
    seq![("exp"@, exp), ("iat"@, iat), ("reputation_score"@, reputation_score as u64)]
}

/// The text of the member `name`, where the members hold one.
pub open spec fn text_member(members: Map<Seq<char>, Member>, name: Seq<char>) -> Option<
    Seq<char>,
> {
    if members.contains_key(name) {
        match members[name] {
            Member::Text(text) => Some(text),
            Member::Unsigned(_) => None,
        }
    } else {
        None
    }
}

/// The number of the member `name`, where the members hold one.
pub open spec fn unsigned_member(members: Map<Seq<char>, Member>, name: Seq<char>) -> Option<
    u64,
> {
    if members.contains_key(name) {
        match members[name] {
            Member::Unsigned(number) => Some(number),
            Member::Text(_) => None,
        }
    } else {
        None
    }
}

/// Whether the members hold all six claims of a trust token, the score
/// within 32 bits.
pub open spec fn complete(members: Map<Seq<char>, Member>) -> bool {
    &&& text_member(members, "sub"@) is Some
    &&& text_member(members, "role"@) is Some
    &&& unsigned_member(members, "exp"@) is Some
    &&& unsigned_member(members, "iat"@) is Some
    &&& unsigned_member(members, "reputation_score"@) matches Some(score) && score <= u32::MAX
    &&& text_member(members, "trust_level"@) is Some
}

/// Whether `claims` are the claims that the members hold.
pub open spec fn embedded(members: Map<Seq<char>, Member>, claims: &JWTClaims) -> bool {
    &&& text_member(members, "sub"@) == Some(claims.sub@)
    &&& text_member(members, "role"@) == Some(claims.role@)
    &&& unsigned_member(members, "exp"@) == Some(claims.exp)
    &&& unsigned_member(members, "iat"@) == Some(claims.iat)
    &&& unsigned_member(members, "reputation_score"@) == Some(claims.reputation_score as u64)
    &&& text_member(members, "trust_level"@) == Some(claims.trust_level@)
}

/// Whether `r` is what reading the claims out of the members returns: the
/// claims that they hold, or the refusal that names the first claim, in the
/// order of the fields, that is missing or out of range.
pub open spec fn claims_verdict(
    members: Map<Seq<char>, Member>,
    r: Result<JWTClaims, NegotiationError>,
) -> bool {
    if text_member(members, "sub"@) is None {
        refused_token(r, "missing field `sub`"@)
    } else if text_member(members, "role"@) is None {
        refused_token(r, "missing field `role`"@)
    } else if unsigned_member(members, "exp"@) is None {
        refused_token(r, "missing field `exp`"@)
    } else if unsigned_member(members, "iat"@) is None {
        refused_token(r, "missing field `iat`"@)
    } else if unsigned_member(members, "reputation_score"@) is None {
        refused_token(r, "missing field `reputation_score`"@)
    } else if unsigned_member(members, "reputation_score"@)->Some_0 > u32::MAX {
        refused_token(r, "invalid value for `reputation_score`"@)
    } else if text_member(members, "trust_level"@) is None {
        refused_token(r, "missing field `trust_level`"@)
    } else {
        r matches Ok(claims) && embedded(members, &claims)
    }
}

/// What validating a token returns for what checking it returned: the claims
/// read out of the decoded payload, or an authentication failure that carries
/// the words of what refused the token.
pub fn claims_of(decoded: Result<serde_json::Value, jsonwebtoken::errors::Error>) -> (r: Result<
    JWTClaims,
    NegotiationError,
>)
    ensures
        match decoded {
            Ok(value) => claims_verdict(json_members(value), r),
            Err(_) => auth_error(r, "Invalid JWT: "@),
        },
        r is Err ==> auth_error(r, "Invalid JWT: "@),
{
    match decoded {
        Ok(value) => claims_from_parts(
            claim_text(&value, "sub"),
            claim_text(&value, "role"),
            claim_number(&value, "exp"),
            claim_number(&value, "iat"),
            claim_number(&value, "reputation_score"),
            claim_text(&value, "trust_level"),
        ),
        Err(e) => Err(invalid_token(token_error_text(&e).as_str())),
    }
}

/// The authentication failure for a token that was not accepted, with what
/// is wrong with it.
pub fn invalid_token(detail: &str) -> (e: NegotiationError)
    ensures
        refused_token(Err::<(), NegotiationError>(e), detail@),
        auth_error(Err::<(), NegotiationError>(e), "Invalid JWT: "@),
{
    let message = String::from_str("Invalid JWT: ").concat(detail);
    proof {
        assert(message@.subrange(0, "Invalid JWT: "@.len() as int) =~= "Invalid JWT: "@);
    }
    NegotiationError::Auth(message)
}

/// What issuing a token returns for what signing returned: the token, or an
/// authentication failure that carries the signer's words.
pub fn token_from_signature(signed: Result<String, jsonwebtoken::errors::Error>) -> (r: Result<
    String,
    NegotiationError,
>)
    ensures
        signed matches Ok(token) ==> r == Ok::<String, NegotiationError>(token),
        signed is Err ==> auth_error(r, "Failed to generate JWT: "@),
{
    match signed {
        Ok(token) => Ok(token),
        Err(e) => {
            let detail = token_error_text(&e);
            let message = String::from_str("Failed to generate JWT: ").concat(detail.as_str());
            proof {
                assert(message@.subrange(0, "Failed to generate JWT: "@.len() as int)
                    =~= "Failed to generate JWT: "@);
            }
            Err(NegotiationError::Auth(message))
        },
    }
}

/// The claims of an accepted token, from its six members as far as they were
/// found. A token that lacks one, or whose score is no 32-bit number, is
/// refused; the first such member, in the order of the fields, is named.
pub fn claims_from_parts(
    sub: Option<String>,
    role: Option<String>,
    exp: Option<u64>,
    iat: Option<u64>,
    reputation_score: Option<u64>,
    trust_level: Option<String>,
) -> (r: Result<JWTClaims, NegotiationError>)
    ensures
        r is Ok <==> sub is Some && role is Some && exp is Some && iat is Some && trust_level
            is Some && (reputation_score matches Some(score) && score <= u32::MAX),
        r matches Ok(claims) ==> Some(claims.sub) == sub && Some(claims.role) == role && Some(
            claims.exp,
        ) == exp && Some(claims.iat) == iat && Some(claims.reputation_score as u64)
            == reputation_score && Some(claims.trust_level) == trust_level,
        r is Err ==> auth_error(r, "Invalid JWT: "@),
        sub is None ==> refused_token(r, "missing field `sub`"@),
        sub is Some && role is None ==> refused_token(r, "missing field `role`"@),
        sub is Some && role is Some && exp is None ==> refused_token(r, "missing field `exp`"@),
        sub is Some && role is Some && exp is Some && iat is None ==> refused_token(
            r,
            "missing field `iat`"@,
        ),
        sub is Some && role is Some && exp is Some && iat is Some && reputation_score is None
            ==> refused_token(r, "missing field `reputation_score`"@),
        sub is Some && role is Some && exp is Some && iat is Some && (reputation_score matches Some(
            score,
        ) && score > u32::MAX) ==> refused_token(r, "invalid value for `reputation_score`"@),
        sub is Some && role is Some && exp is Some && iat is Some && (reputation_score matches Some(
            score,
        ) && score <= u32::MAX) && trust_level is None ==> refused_token(
            r,
            "missing field `trust_level`"@,
        ),
{
    let sub = match sub {
        Some(sub) => sub,
        None => { return Err(invalid_token("missing field `sub`")); },
    };
    let role = match role {
        Some(role) => role,
        None => { return Err(invalid_token("missing field `role`")); },
    };
    let exp = match exp {
        Some(exp) => exp,
        None => { return Err(invalid_token("missing field `exp`")); },
    };
    let iat = match iat {
        Some(iat) => iat,
        None => { return Err(invalid_token("missing field `iat`")); },
    };
    let reputation_score = match reputation_score {
        Some(score) => {
            if score > u32::MAX as u64 {
                return Err(invalid_token("invalid value for `reputation_score`"));
            }
            score as u32
        },
        None => { return Err(invalid_token("missing field `reputation_score`")); },
    };
    let trust_level = match trust_level {
        Some(trust_level) => trust_level,
        None => { return Err(invalid_token("missing field `trust_level`")); },
    };
    Ok(JWTClaims { sub, role, exp, iat, reputation_score, trust_level })
}

/// Whatever the changes, a score that was adjusted lies within 0 and 100.
pub proof fn law_scores_stay_in_range(score: u32, changes: Seq<i32>)
    requires
        changes.len() > 0 || score <= MAX_SCORE,
    ensures
        adjusted_by_all(score, changes) <= MAX_SCORE,
{
}

/// Every score that an engine serves lies within 0 and 100, whatever was
/// done to the engine before: every operation keeps the engine well-formed.
pub proof fn law_served_scores_stay_in_range(trust: TrustSystem, agent_id: AgentId, at: Timestamp)
    requires
        trust.wf(),
    ensures
        trust.score_at(agent_id, at) <= MAX_SCORE,
{
}

/// A score that was adjusted is served from then on, whenever it is asked
/// for: from the cache while the entry is fresh, and from the engine's own
/// store after that. The scores of the other agents are served as before.
pub proof fn law_adjusted_score_is_served(
    before: TrustSystem,
    after: TrustSystem,
    agent_id: AgentId,
    change: i32,
    at: Timestamp,
    stored: Option<u32>,
)
    requires
        after.adjusted_with(&before, agent_id, change, at, stored),
    ensures
        forall|when: Timestamp| #[trigger]
            after.score_at(agent_id, when) == adjusted(
                served_score(before.cache(), before.ttl(), stored, agent_id, at),
                change,
            ),
        forall|other: AgentId, when: Timestamp|
            other != agent_id ==> #[trigger] after.score_at(other, when) == before.score_at(
                other,
                when,
            ),
{
}

/// A stale entry is not served: the score is read again from the store, and
/// is zero only for an agent that the store does not know.
pub proof fn law_stale_scores_are_read_from_the_store(
    cache: Map<AgentId, ReputationScore>,
    ttl: int,
    stored: Option<u32>,
    agent_id: AgentId,
    at: Timestamp,
)
    requires
        !fresh_in(cache, ttl, agent_id, at),
    ensures
        stored matches Some(score) ==> served_score(cache, ttl, stored, agent_id, at) == score,
        stored is None ==> served_score(cache, ttl, stored, agent_id, at) == 0,
{
}

/// The tiers change exactly at the scores 50, 75 and 90, and a higher score
/// never has a lower tier.
pub proof fn law_tier_boundaries()
    ensures
        TrustLevel::of_score(0) is Untrusted,
        TrustLevel::of_score(49) is Untrusted,
        TrustLevel::of_score(50) is Neutral,
        TrustLevel::of_score(74) is Neutral,
        TrustLevel::of_score(75) is Trusted,
        TrustLevel::of_score(89) is Trusted,
        TrustLevel::of_score(90) is HighlyTrusted,
        TrustLevel::of_score(100) is HighlyTrusted,
        forall|a: u32, b: u32|
            a <= b ==> trust_rank(#[trigger] TrustLevel::of_score(a)) <= trust_rank(
                #[trigger] TrustLevel::of_score(b),
            ),
{
}

/// The place of a tier among the four, from the lowest.
pub open spec fn trust_rank(level: TrustLevel) -> int {
    match level {
        TrustLevel::Untrusted => 0,
        TrustLevel::Neutral => 1,
        TrustLevel::Trusted => 2,
        TrustLevel::HighlyTrusted => 3,
    }
}

} // verus!

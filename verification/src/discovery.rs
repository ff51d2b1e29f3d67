//! What agents tell the registry and ask of it.

use vstd::prelude::*;
use vstd::string::*;

use crate::clock::{now, CLOCK_LIMIT};
use crate::error::NegotiationError;
use crate::ident::fresh_id;
use crate::model::{validation_error, AgentInfo, AgentType, PaymentMethod};
use crate::AgentId;

verus! {

/// The reputation with which the registry enters a new agent.
pub const REGISTRY_REPUTATION: u32 = 100;

/// What an agent tells the registry of itself.
#[derive(Debug)]
pub struct RegisterRequest {
    pub agent_type: AgentType,
    pub name: String,
    pub endpoint: String,
    pub public_key: String,
    pub payment_methods: Vec<PaymentMethod>,
}

/// What a search asks of the sellers it wants.
#[derive(Debug)]
pub struct SearchRequest {
    pub category: Option<String>,
    pub min_reputation: Option<u32>,
    pub payment_methods: Option<Vec<PaymentMethod>>,
}

/// What a search returns.
#[derive(Debug)]
pub struct SearchResponse {
    pub agents: Vec<AgentInfo>,
    pub total_count: u32,
}

impl RegisterRequest {
    /// What `agent` tells the registry of itself.
    pub fn of(agent: AgentInfo) -> (request: RegisterRequest)
        ensures
            request.agent_type == agent.agent_type,
            request.name == agent.name,
            request.endpoint == agent.endpoint,
            request.public_key == agent.public_key,
            request.payment_methods == agent.payment_methods,
    {
        RegisterRequest {
            agent_type: agent.agent_type,
            name: agent.name,
            endpoint: agent.endpoint,
            public_key: agent.public_key,
            payment_methods: agent.payment_methods,
        }
    }
}

impl AgentInfo {
    /// Whether the agent is the one entered for `request` with the given
    /// reputation: without products, both timestamps the same instant of the
    /// clock. Its identity is random.
    pub open spec fn entered_for(&self, request: &RegisterRequest, reputation_score: u32) -> bool {
        &&& self.agent_type == request.agent_type
        &&& self.name == request.name
        &&& self.endpoint == request.endpoint
        &&& self.public_key == request.public_key
        &&& self.reputation_score == reputation_score
        &&& self.products@.len() == 0
        &&& self.payment_methods == request.payment_methods
        &&& self.created_at == self.last_active
        &&& 0 <= self.created_at < CLOCK_LIMIT
    }

    /// The agent entered now for `request` with the given reputation.
    pub fn enter(request: RegisterRequest, reputation_score: u32) -> (agent: AgentInfo)
        ensures
            agent.entered_for(&request, reputation_score),
    {
        let at = now();
        AgentInfo {
            id: fresh_id(),
            agent_type: request.agent_type,
            name: request.name,
            endpoint: request.endpoint,
            public_key: request.public_key,
            reputation_score,
            products: Vec::new(),
            payment_methods: request.payment_methods,
            created_at: at,
            last_active: at,
        }
    }
}

/// Whether `method` is among `methods`.
pub open spec fn among(methods: Seq<PaymentMethod>, method: PaymentMethod) -> bool {
    exists|i: int| 0 <= i < methods.len() && methods[i] == method
}

/// Whether one of the `offered` methods is among the `wanted` ones.
pub open spec fn shares_method(offered: Seq<PaymentMethod>, wanted: Seq<PaymentMethod>) -> bool {
    exists|i: int| 0 <= i < offered.len() && among(wanted, #[trigger] offered[i])
}

/// Whether a search wants an agent: its reputation reaches the minimum, if
/// one is asked, and it takes one of the payment methods, if any are asked.
/// The category does not narrow a search.
pub open spec fn wanted(request: &SearchRequest, agent: &AgentInfo) -> bool {
    &&& request.min_reputation matches Some(min) ==> agent.reputation_score >= min
    &&& request.payment_methods matches Some(methods) ==> shares_method(
        agent.payment_methods@,
        methods@,
    )
}

/// The agents that a search wants, as a predicate.
pub open spec fn wanted_by(request: &SearchRequest) -> spec_fn(AgentInfo) -> bool {
    |agent: AgentInfo| wanted(request, &agent)
}

/// Whether `method` is among `methods`.
pub fn takes_method(methods: &Vec<PaymentMethod>, method: PaymentMethod) -> (found: bool)
    ensures
        found == among(methods@, method),
{
    let mut i: usize = 0;
    while i < methods.len()
        invariant
            i <= methods@.len(),
            forall|j: int| 0 <= j < i ==> methods@[j] != method,
        decreases methods@.len() - i,
    {
        if methods[i] == method {
            return true;
        }
        i += 1;
    }
    false
}

/// Whether one of the `offered` methods is among the `wanted` ones.
pub fn takes_any_method(offered: &Vec<PaymentMethod>, wanted: &Vec<PaymentMethod>) -> (found:
    bool)
    ensures
        found == shares_method(offered@, wanted@),
{
    let mut i: usize = 0;
    while i < offered.len()
        invariant
            i <= offered@.len(),
            forall|j: int| 0 <= j < i ==> !among(wanted@, #[trigger] offered@[j]),
        decreases offered@.len() - i,
    {
        if takes_method(wanted, offered[i]) {
            return true;
        }
        i += 1;
    }
    false
}

/// Whether a search wants an agent.
pub fn is_wanted(request: &SearchRequest, agent: &AgentInfo) -> (yes: bool)
    ensures
        yes == wanted(request, agent),
{
    let reputable = match request.min_reputation {
        Some(min) => agent.reputation_score >= min,
        None => true,
    };
    let payable = match &request.payment_methods {
        Some(methods) => takes_any_method(&agent.payment_methods, methods),
        None => true,
    };
    reputable && payable
}

/// Keeps of the agents that the registry returned those that the search
/// wants, in their order.
pub fn filter_sellers(agents: &mut Vec<AgentInfo>, request: &SearchRequest)
    ensures
        final(agents)@ == old(agents)@.filter(wanted_by(request)),
{
    let ghost all = agents@;
    let ghost seen: int = 0;
    let mut i: usize = 0;
    proof {
        reveal(Seq::filter);
        assert(all.take(0) =~= Seq::<AgentInfo>::empty());
        assert(all.skip(0) =~= all);
    }
    while i < agents.len()
        invariant
            0 <= seen <= all.len(),
            i <= agents@.len(),
            i == all.take(seen).filter(wanted_by(request)).len(),
            agents@ == all.take(seen).filter(wanted_by(request)) + all.skip(seen),
        decreases all.len() - seen,
    {
        proof {
            reveal(Seq::filter);
            let kept = all.take(seen).filter(wanted_by(request));
            assert(agents@[i as int] == all.skip(seen)[0]);
            assert(all.take(seen + 1).drop_last() =~= all.take(seen));
            assert(all.take(seen + 1).last() == all[seen]);
            assert(all.skip(seen).len() > 0);
        }
        if is_wanted(request, &agents[i]) {
            proof {
                assert(agents@ =~= all.take(seen + 1).filter(wanted_by(request)) + all.skip(
                    seen + 1,
                ));
            }
            i += 1;
        } else {
            agents.remove(i);
            proof {
                assert(agents@ =~= all.take(seen + 1).filter(wanted_by(request)) + all.skip(
                    seen + 1,
                ));
            }
        }
        proof {
            seen = seen + 1;
        }
    }
    proof {
        assert(all.skip(seen).len() == 0);
        assert(seen == all.len());
        assert(all.take(seen) =~= all);
        assert(agents@ =~= all.filter(wanted_by(request)));
    }
}

/// The seller that a buyer turns to: the first of those found.
pub fn first_seller(agents: Vec<AgentInfo>) -> (r: Result<AgentInfo, NegotiationError>)
    ensures
        agents@.len() > 0 ==> r == Ok::<AgentInfo, NegotiationError>(agents@[0]),
        agents@.len() == 0 ==> validation_error(r, "No sellers found"@),
{
    let mut agents = agents;
    if agents.len() == 0 {
        return Err(NegotiationError::Validation(String::from_str("No sellers found")));
    }
    Ok(agents.remove(0))
}

/// The registry, standing alone. It keeps no agents: what it is told it
/// answers, and what it is asked it does not know.
#[derive(Debug, Clone, Copy)]
pub struct DiscoveryServer {}

impl DiscoveryServer {
    /// A registry.
    pub fn new(database_url: &str) -> (r: Result<Self, NegotiationError>)
        ensures
            r is Ok,
    {
        Ok(DiscoveryServer {  })
    }

    /// Enters an agent with a random identity and the reputation of a new
    /// agent.
    pub fn handle_register(&self, request: RegisterRequest) -> (r: Result<
        AgentInfo,
        NegotiationError,
    >)
        ensures
            r matches Ok(agent) && agent.entered_for(&request, REGISTRY_REPUTATION),
    {
        Ok(AgentInfo::enter(request, REGISTRY_REPUTATION))
    }

    /// Answers a search: with no agents.
    pub fn handle_search(&self, request: SearchRequest) -> (r: Result<
        SearchResponse,
        NegotiationError,
    >)
        ensures
            r matches Ok(response) && response.agents@.len() == 0 && response.total_count == 0,
    {
        Ok(SearchResponse { agents: Vec::new(), total_count: 0 })
    }

    /// What the registry knows of an agent: nothing.
    pub fn get_agent_info(&self, agent_id: AgentId) -> (r: Result<
        Option<AgentInfo>,
        NegotiationError,
    >)
        ensures
            r matches Ok(info) && info is None,
    {
        Ok(None)
    }

    /// Removes an agent, which the registry did not keep.
    pub fn remove_agent(&self, agent_id: AgentId) -> (r: Result<(), NegotiationError>)
        ensures
            r is Ok,
    {
        Ok(())
    }
}

} // verus!

//! The prompts, tools and resources that the agents offer to language models.

use vstd::prelude::*;
use vstd::string::*;

use std::collections::HashMap;

use crate::clock::{now, CLOCK_LIMIT};
use crate::discovery::RegisterRequest;
use crate::error::NegotiationError;
use crate::ident::fresh_id;
use crate::model::{AgentInfo, AgentType, PaymentMethod, Product};
use crate::text::same_text;

verus! {

/// A placeholder of a prompt template.
#[derive(Debug)]
pub struct PromptVariable {
    pub name: String,
    pub description: String,
    pub required: bool,
}

/// A prompt template with the placeholders that it expects. A placeholder
/// stands in the template between double braces.
#[derive(Debug)]
pub struct NegotiationPrompt {
    pub name: String,
    pub description: String,
    pub template: String,
    pub variables: Vec<PromptVariable>,
}

/// The template of the prompt `negotiation_strategy`.
pub const STRATEGY_TEMPLATE: &'static str = "
You are a negotiation agent for {{product_name}} in the {{category}} category.

Market Context:
- Current market price: ${{market_price}}
- Your reservation price: ${{reservation_price}}
- Buyer's maximum price: ${{buyer_max_price}}
- Your reputation score: {{reputation_score}}/100

Generate a negotiation strategy that:
1. Considers your reputation and desired profit margin
2. Accounts for market conditions and competitor pricing
3. Includes specific opening offers and counter-offer strategies
4. Considers the urgency of the transaction
5. Maximizes value while maintaining good buyer relationships

Strategy:
";

/// The placeholders of the prompt `negotiation_strategy`, each with its
/// description.
pub const STRATEGY_VARIABLES: [(&'static str, &'static str); 6] = [
    ("product_name", "Name of the product being negotiated"),
    ("category", "Product category"),
    ("market_price", "Current market price"),
    ("reservation_price", "Your minimum acceptable price"),
    ("buyer_max_price", "Buyer's maximum willing price"),
    ("reputation_score", "Your reputation score (0-100)"),
];

/// The template of the prompt `price_optimization`.
pub const PRICE_OPTIMIZATION_TEMPLATE: &'static str = "
You are a pricing optimization agent for {{product_name}}.

Available Data:
- Historical sales data: {{sales_data}}
- Competitor prices: {{competitor_prices}}
- Market demand: {{demand_level}}
- Inventory levels: {{inventory_level}}
- Seasonal trends: {{seasonal_trends}}

Generate an optimized pricing strategy that:
1. Maximizes revenue based on current market conditions
2. Considers inventory turnover goals
3. Accounts for competitive positioning
4. Includes dynamic pricing recommendations
5. Provides confidence intervals for price points

Optimization Strategy:
";

/// The placeholders of the prompt `price_optimization`, each with its
/// description.
pub const PRICE_OPTIMIZATION_VARIABLES: [(&'static str, &'static str); 6] = [
    ("product_name", "Product name"),
    ("sales_data", "Historical sales data"),
    ("competitor_prices", "Current competitor prices"),
    ("demand_level", "Current market demand level"),
    ("inventory_level", "Current inventory level"),
    ("seasonal_trends", "Seasonal demand trends"),
];

/// The template of the prompt `market_analysis`.
pub const MARKET_ANALYSIS_TEMPLATE: &'static str = "
You are a market analysis agent providing insights for {{product_category}} negotiations.

Market Data:
- Average transaction volume: {{avg_volume}}
- Price volatility: {{price_volatility}}
- Market sentiment: {{market_sentiment}}
- Key trends: {{key_trends}}
- Regulatory environment: {{regulatory_env}}

Provide analysis covering:
1. Current market conditions and their impact on negotiations
2. Risk factors that could affect transaction outcomes
3. Opportunities for favorable terms
4. Recommended negotiation timing and approach
5. Market-specific considerations for this category

Market Analysis:
";

/// The placeholders of the prompt `market_analysis`, each with its
/// description.
pub const MARKET_ANALYSIS_VARIABLES: [(&'static str, &'static str); 6] = [
    ("product_category", "Product category being analyzed"),
    ("avg_volume", "Average transaction volume"),
    ("price_volatility", "Current price volatility"),
    ("market_sentiment", "Current market sentiment"),
    ("key_trends", "Key market trends"),
    ("regulatory_env", "Regulatory environment"),
];

/// The template of the prompt `counter_offer`.
pub const COUNTER_OFFER_TEMPLATE: &'static str = "
You are a negotiation agent responding to an offer for {{product_name}}.

Current Negotiation State:
- Original asking price: ${{original_price}}
- Buyer's offer: ${{buyer_offer}}
- Your minimum acceptable price: ${{min_price}}
- Market average: ${{market_price}}
- Urgency level: {{urgency_level}}
- Buyer's reputation: {{buyer_reputation}}/100

Generate a counter-offer that:
1. Is reasonable but favorable to your position
2. Includes justification for the price
3. Maintains good relationship with the buyer
4. Considers market conditions and urgency
5. May include value-added terms (free shipping, warranty, etc.)

Counter-Offer Response:
";

/// The placeholders of the prompt `counter_offer`, each with its
/// description.
pub const COUNTER_OFFER_VARIABLES: [(&'static str, &'static str); 7] = [
    ("product_name", "Name of the product"),
    ("original_price", "Original asking price"),
    ("buyer_offer", "Buyer's current offer"),
    ("min_price", "Your minimum acceptable price"),
    ("market_price", "Current market price"),
    ("urgency_level", "How urgent the sale is (low/medium/high)"),
    ("buyer_reputation", "Buyer's reputation score (0-100)"),
];

/// The template of the prompt `agent_communication`.
pub const AGENT_COMMUNICATION_TEMPLATE: &'static str = "
You are {{agent_role}} negotiating {{product_name}} with {{counterparty_role}}.

Communication Context:
- Previous messages: {{conversation_history}}
- Current negotiation stage: {{negotiation_stage}}
- Your position strength: {{position_strength}}
- Desired outcome: {{desired_outcome}}
- Communication tone: {{tone}}

Generate a professional communication message that:
1. Clearly states your position or response
2. Maintains appropriate business etiquette
3. Builds rapport with the counterparty
4. Moves the negotiation forward constructively
5. Includes specific details and next steps

{{agent_role}} Message:
";

/// The placeholders of the prompt `agent_communication`, each with its
/// description.
pub const AGENT_COMMUNICATION_VARIABLES: [(&'static str, &'static str); 8] = [
    ("agent_role", "Your role (buyer/seller)"),
    ("counterparty_role", "Other party's role (buyer/seller)"),
    ("product_name", "Product being negotiated"),
    ("conversation_history", "Previous messages in the negotiation"),
    ("negotiation_stage", "Current stage of negotiation"),
    ("position_strength", "Your negotiating position strength"),
    ("desired_outcome", "What you want to achieve"),
    ("tone", "Desired communication tone"),
];

/// The template of the prompt `trust_assessment`.
pub const TRUST_ASSESSMENT_TEMPLATE: &'static str = "
You are conducting a trust assessment for a potential negotiation with {{counterparty_name}}.

Counterparty Profile:
- Agent ID: {{agent_id}}
- Reputation score: {{reputation_score}}/100
- Successful transactions: {{successful_transactions}}
- Failed transactions: {{failed_transactions}}
- Account age: {{account_age}}
- Average response time: {{response_time}}
- Verification status: {{verification_status}}
- Market presence: {{market_presence}}

Assessment Factors:
1. **Reputation Analysis**: Evaluate the reputation score in context
2. **Transaction History**: Analyze success/failure patterns
3. **Responsiveness**: Consider communication timeliness
4. **Market Standing**: Assess their position in the market
5. **Risk Factors**: Identify potential concerns

Generate a comprehensive trust assessment that includes:
- Overall trustworthiness rating (low/medium/high)
- Key strengths that build confidence
- Potential risks or concerns
- Recommended negotiation approach
- Trust-building strategies
- Risk mitigation measures

Trust Assessment Report:
";

/// The placeholders of the prompt `trust_assessment`, each with its
/// description.
pub const TRUST_ASSESSMENT_VARIABLES: [(&'static str, &'static str); 9] = [
    ("counterparty_name", "Name of the counterparty"),
    ("agent_id", "Unique identifier of the agent"),
    ("reputation_score", "Reputation score (0-100)"),
    ("successful_transactions", "Number of successful transactions"),
    ("failed_transactions", "Number of failed transactions"),
    ("account_age", "How long the account has existed"),
    ("response_time", "Average response time"),
    ("verification_status", "Verification status of the agent"),
    ("market_presence", "Agent's presence in the market"),
];

impl NegotiationPrompt {
    /// Whether the prompt expects exactly the placeholders of `table`, in
    /// its order, each of them required.
    pub open spec fn declares(&self, table: Seq<(&'static str, &'static str)>) -> bool {
        &&& self.variables@.len() == table.len()
        &&& forall|i: int|
            0 <= i < table.len() ==> {
                &&& (#[trigger] self.variables@[i]).name@ == table[i].0@
                &&& self.variables@[i].description@ == table[i].1@
                &&& self.variables@[i].required
            }
    }

    /// Whether the prompt has the given name, description and template and
    /// the placeholders of `table`.
    pub open spec fn defined_by(
        &self,
        name: Seq<char>,
        description: Seq<char>,
        template: Seq<char>,
        table: Seq<(&'static str, &'static str)>,
    ) -> bool {
        &&& self.name@ == name
        &&& self.description@ == description
        &&& self.template@ == template
        &&& self.declares(table)
    }

    /// The prompt with the given name, description and template and the
    /// placeholders of `table`, each of them required.
    fn define(name: &str, description: &str, template: &str, table: &[(&'static str, &'static str)]) -> (prompt:
        Self)
        ensures
            prompt.defined_by(name@, description@, template@, table@),
    {
        let mut variables: Vec<PromptVariable> = Vec::new();
        let mut i: usize = 0;
        while i < table.len()
            invariant
                i <= table@.len(),
                variables@.len() == i,
                forall|j: int|
                    0 <= j < i ==> {
                        &&& (#[trigger] variables@[j]).name@ == table@[j].0@
                        &&& variables@[j].description@ == table@[j].1@
                        &&& variables@[j].required
                    },
            decreases table@.len() - i,
        {
            let entry = table[i];
            variables.push(
                PromptVariable {
                    name: String::from_str(entry.0),
                    description: String::from_str(entry.1),
                    required: true,
                },
            );
            i += 1;
        }
        NegotiationPrompt {
            name: String::from_str(name),
            description: String::from_str(description),
            template: String::from_str(template),
            variables,
        }
    }

    /// The prompt that asks for a negotiation strategy.
    pub fn strategy() -> (prompt: Self)
        ensures
            prompt.defined_by(
                "negotiation_strategy"@,
                "Generate a negotiation strategy for a given product and market conditions"@,
                STRATEGY_TEMPLATE@,
                STRATEGY_VARIABLES@,
            ),
    {
        Self::define(
            "negotiation_strategy",
            "Generate a negotiation strategy for a given product and market conditions",
            STRATEGY_TEMPLATE,
            &STRATEGY_VARIABLES,
        )
    }

    /// The prompt that asks for an optimized pricing strategy.
    pub fn price_optimization() -> (prompt: Self)
        ensures
            prompt.defined_by(
                "price_optimization"@,
                "Optimize pricing strategy based on market data and competitor analysis"@,
                PRICE_OPTIMIZATION_TEMPLATE@,
                PRICE_OPTIMIZATION_VARIABLES@,
            ),
    {
        Self::define(
            "price_optimization",
            "Optimize pricing strategy based on market data and competitor analysis",
            PRICE_OPTIMIZATION_TEMPLATE,
            &PRICE_OPTIMIZATION_VARIABLES,
        )
    }

    /// The prompt that asks for an analysis of market conditions.
    pub fn market_analysis() -> (prompt: Self)
        ensures
            prompt.defined_by(
                "market_analysis"@,
                "Analyze market conditions and provide insights for negotiation decisions"@,
                MARKET_ANALYSIS_TEMPLATE@,
                MARKET_ANALYSIS_VARIABLES@,
            ),
    {
        Self::define(
            "market_analysis",
            "Analyze market conditions and provide insights for negotiation decisions",
            MARKET_ANALYSIS_TEMPLATE,
            &MARKET_ANALYSIS_VARIABLES,
        )
    }

    /// The prompt that asks for a counter-offer in an ongoing negotiation.
    pub fn counter_offer() -> (prompt: Self)
        ensures
            prompt.defined_by(
                "counter_offer"@,
                "Generate a strategic counter-offer response for an ongoing negotiation"@,
                COUNTER_OFFER_TEMPLATE@,
                COUNTER_OFFER_VARIABLES@,
            ),
    {
        Self::define(
            "counter_offer",
            "Generate a strategic counter-offer response for an ongoing negotiation",
            COUNTER_OFFER_TEMPLATE,
            &COUNTER_OFFER_VARIABLES,
        )
    }

    /// The prompt that asks for a message to the counterparty.
    pub fn agent_communication() -> (prompt: Self)
        ensures
            prompt.defined_by(
                "agent_communication"@,
                "Generate professional communication messages between negotiation agents"@,
                AGENT_COMMUNICATION_TEMPLATE@,
                AGENT_COMMUNICATION_VARIABLES@,
            ),
    {
        Self::define(
            "agent_communication",
            "Generate professional communication messages between negotiation agents",
            AGENT_COMMUNICATION_TEMPLATE,
            &AGENT_COMMUNICATION_VARIABLES,
        )
    }

    /// The prompt that asks for an assessment of a counterparty.
    pub fn trust_assessment() -> (prompt: Self)
        ensures
            prompt.defined_by(
                "trust_assessment"@,
                "Assess trustworthiness of a counterparty agent for negotiation decisions"@,
                TRUST_ASSESSMENT_TEMPLATE@,
                TRUST_ASSESSMENT_VARIABLES@,
            ),
    {
        Self::define(
            "trust_assessment",
            "Assess trustworthiness of a counterparty agent for negotiation decisions",
            TRUST_ASSESSMENT_TEMPLATE,
            &TRUST_ASSESSMENT_VARIABLES,
        )
    }

}

/// What a language model can ask of the server.
#[derive(Debug, Clone, Copy, PartialEq, Eq, Structural)]
pub enum McpMethod {
    ToolsCall,
    ResourcesRead,
    PromptsGet,
}

/// The tools of the server.
#[derive(Debug, Clone, Copy, PartialEq, Eq, Structural)]
pub enum McpTool {
    RegisterAgent,
    SearchAgents,
    GetReputation,
    UpdateReputation,
}

/// The resources of the server.
#[derive(Debug, Clone, Copy, PartialEq, Eq, Structural)]
pub enum McpResource {
    Reputations,
    Catalog,
    ActiveAgents,
    NegotiationHistory,
    MarketAnalytics,
}

/// Whether `r` is the refusal of an input with the message `text`.
pub open spec fn invalid_input<T>(r: Result<T, NegotiationError>, text: Seq<char>) -> bool {
    r matches Err(NegotiationError::InvalidInput(m)) && m@ == text
}

/// The method of the name, if it is one.
pub open spec fn method_of(name: Seq<char>) -> Option<McpMethod> {
    if name == "tools/call"@ {
        Some(McpMethod::ToolsCall)
    } else if name == "resources/read"@ {
        Some(McpMethod::ResourcesRead)
    } else if name == "prompts/get"@ {
        Some(McpMethod::PromptsGet)
    } else {
        None
    }
}

/// The tool of the name, if it is one.
pub open spec fn tool_of(name: Seq<char>) -> Option<McpTool> {
    if name == "register_agent"@ {
        Some(McpTool::RegisterAgent)
    } else if name == "search_agents"@ {
        Some(McpTool::SearchAgents)
    } else if name == "get_reputation"@ {
        Some(McpTool::GetReputation)
    } else if name == "update_reputation"@ {
        Some(McpTool::UpdateReputation)
    } else {
        None
    }
}

/// The resource at the address, if there is one.
pub open spec fn resource_of(uri: Seq<char>) -> Option<McpResource> {
    if uri == "agent://reputations"@ {
        Some(McpResource::Reputations)
    } else if uri == "product://catalog"@ {
        Some(McpResource::Catalog)
    } else if uri == "agent://active"@ {
        Some(McpResource::ActiveAgents)
    } else if uri == "negotiation://history"@ {
        Some(McpResource::NegotiationHistory)
    } else if uri == "market://analytics"@ {
        Some(McpResource::MarketAnalytics)
    } else {
        None
    }
}

/// The method that a request names. A request for anything else is refused.
pub fn method_named(name: &str) -> (r: Result<McpMethod, NegotiationError>)
    ensures
        match method_of(name@) {
            Some(method) => r == Ok::<McpMethod, NegotiationError>(method),
            None => invalid_input(r, "Unknown MCP method"@),
        },
{
    if same_text(name, "tools/call") {
        Ok(McpMethod::ToolsCall)
    } else if same_text(name, "resources/read") {
        Ok(McpMethod::ResourcesRead)
    } else if same_text(name, "prompts/get") {
        Ok(McpMethod::PromptsGet)
    } else {
        Err(NegotiationError::InvalidInput(String::from_str("Unknown MCP method")))
    }
}

/// The tool that a call names. A call of anything else is refused, with the
/// name in the message.
pub fn tool_named(name: &str) -> (r: Result<McpTool, NegotiationError>)
    ensures
        match tool_of(name@) {
            Some(tool) => r == Ok::<McpTool, NegotiationError>(tool),
            None => invalid_input(r, "Unknown tool: "@ + name@),
        },
{
    if same_text(name, "register_agent") {
        Ok(McpTool::RegisterAgent)
    } else if same_text(name, "search_agents") {
        Ok(McpTool::SearchAgents)
    } else if same_text(name, "get_reputation") {
        Ok(McpTool::GetReputation)
    } else if same_text(name, "update_reputation") {
        Ok(McpTool::UpdateReputation)
    } else {
        Err(NegotiationError::InvalidInput(String::from_str("Unknown tool: ").concat(name)))
    }
}

/// The resource at an address, or `None` where there is none.
pub fn resource_at(uri: &str) -> (resource: Option<McpResource>)
    ensures
        resource == resource_of(uri@),
{
    if same_text(uri, "agent://reputations") {
        Some(McpResource::Reputations)
    } else if same_text(uri, "product://catalog") {
        Some(McpResource::Catalog)
    } else if same_text(uri, "agent://active") {
        Some(McpResource::ActiveAgents)
    } else if same_text(uri, "negotiation://history") {
        Some(McpResource::NegotiationHistory)
    } else if same_text(uri, "market://analytics") {
        Some(McpResource::MarketAnalytics)
    } else {
        None
    }
}

/// What is answered to a read of an address at which there is no resource:
/// the members of an object that says so and repeats the address. The read
/// itself does not fail.
pub fn resource_not_found(uri: &str) -> (members: Vec<(String, String)>)
    ensures
        members@.len() == 2,
        members@[0].0@ == "error"@,
        members@[0].1@ == "Resource not found"@,
        members@[1].0@ == "uri"@,
        members@[1].1@ == uri@,
{
    let mut members: Vec<(String, String)> = Vec::new();
    members.push((String::from_str("error"), String::from_str("Resource not found")));
    members.push((String::from_str("uri"), String::from_str(uri)));
    members
}

/// The prompt of the name. A request for any other prompt is refused, with
/// the name in the message.
pub fn prompt_named(name: &str) -> (r: Result<NegotiationPrompt, NegotiationError>)
    ensures
        if name@ == "negotiation_strategy"@ {
            r matches Ok(prompt) && prompt.template@ == STRATEGY_TEMPLATE@ && prompt.name@
                == name@ && prompt.declares(STRATEGY_VARIABLES@)
        } else if name@ == "price_optimization"@ {
            r matches Ok(prompt) && prompt.template@ == PRICE_OPTIMIZATION_TEMPLATE@
                && prompt.name@ == name@ && prompt.declares(PRICE_OPTIMIZATION_VARIABLES@)
        } else if name@ == "market_analysis"@ {
            r matches Ok(prompt) && prompt.template@ == MARKET_ANALYSIS_TEMPLATE@ && prompt.name@
                == name@ && prompt.declares(MARKET_ANALYSIS_VARIABLES@)
        } else if name@ == "counter_offer"@ {
            r matches Ok(prompt) && prompt.template@ == COUNTER_OFFER_TEMPLATE@ && prompt.name@
                == name@ && prompt.declares(COUNTER_OFFER_VARIABLES@)
        } else if name@ == "agent_communication"@ {
            r matches Ok(prompt) && prompt.template@ == AGENT_COMMUNICATION_TEMPLATE@
                && prompt.name@ == name@ && prompt.declares(AGENT_COMMUNICATION_VARIABLES@)
        } else if name@ == "trust_assessment"@ {
            r matches Ok(prompt) && prompt.template@ == TRUST_ASSESSMENT_TEMPLATE@ && prompt.name@
                == name@ && prompt.declares(TRUST_ASSESSMENT_VARIABLES@)
        } else {
            invalid_input(r, "Unknown prompt: "@ + name@)
        },
{
    if same_text(name, "negotiation_strategy") {
        Ok(NegotiationPrompt::strategy())
    } else if same_text(name, "price_optimization") {
        Ok(NegotiationPrompt::price_optimization())
    } else if same_text(name, "market_analysis") {
        Ok(NegotiationPrompt::market_analysis())
    } else if same_text(name, "counter_offer") {
        Ok(NegotiationPrompt::counter_offer())
    } else if same_text(name, "agent_communication") {
        Ok(NegotiationPrompt::agent_communication())
    } else if same_text(name, "trust_assessment") {
        Ok(NegotiationPrompt::trust_assessment())
    } else {
        Err(NegotiationError::InvalidInput(String::from_str("Unknown prompt: ").concat(name)))
    }
}

/// The reputation with which the tool `register_agent` enters an agent.
pub const TOOL_REPUTATION: u32 = 50;

/// The agent that the tool `register_agent` enters for `request`, with a
/// random identity.
pub fn registered_agent(request: RegisterRequest) -> (agent: AgentInfo)
    ensures
        agent.entered_for(&request, TOOL_REPUTATION),
{
    AgentInfo::enter(request, TOOL_REPUTATION)
}

/// The catalog that the server shows: identity, name, description, price of
/// one unit in cents and stock of each product. All are electronics, priced
/// in US dollars.
pub const CATALOG: [(&'static str, &'static str, &'static str, i64, u32); 3] = [
    (
        "laptop-001",
        "Gaming Laptop Pro",
        "High-performance gaming laptop with RTX 4080",
        249_999,
        15,
    ),
    (
        "keyboard-002",
        "Mechanical Keyboard RGB",
        "Premium mechanical keyboard with RGB lighting",
        12_999,
        50,
    ),
    ("monitor-003", "4K Monitor 27\"", "Ultra HD 27-inch monitor with HDR support", 39_999, 25),
];

/// The agents that the server shows as active: name, endpoint, public key
/// and reputation of each.
pub const ACTIVE_AGENTS: [(&'static str, &'static str, &'static str, u32); 2] = [
    ("TechStore Pro", "http://localhost:8001", "mock_public_key_1", 85),
    ("GadgetHub", "http://localhost:8002", "mock_public_key_2", 72),
];

/// Whether `product` is the entry of the catalog at `index`.
pub open spec fn catalog_entry(product: &Product, index: int) -> bool {
    &&& product.id@ == CATALOG@[index].0@
    &&& product.name@ == CATALOG@[index].1@
    &&& product.description@ == CATALOG@[index].2@
    &&& product.category@ == "Electronics"@
    &&& product.base_price == CATALOG@[index].3
    &&& product.currency@ == "USD"@
    &&& product.stock_quantity == CATALOG@[index].4
    &&& product.metadata@ == Map::<String, String>::empty()
}

/// The products of the resource `product://catalog`.
pub fn catalog_products() -> (products: Vec<Product>)
    ensures
        products@.len() == CATALOG@.len(),
        forall|i: int| 0 <= i < products@.len() ==> catalog_entry(&#[trigger] products@[i], i),
{
    let mut products: Vec<Product> = Vec::new();
    let mut i: usize = 0;
    while i < CATALOG.len()
        invariant
            i <= CATALOG@.len(),
            products@.len() == i,
            forall|j: int| 0 <= j < i ==> catalog_entry(&#[trigger] products@[j], j),
        decreases CATALOG@.len() - i,
    {
        let entry = CATALOG[i];
        products.push(
            Product {
                id: String::from_str(entry.0),
                name: String::from_str(entry.1),
                description: String::from_str(entry.2),
                category: String::from_str("Electronics"),
                base_price: entry.3,
                currency: String::from_str("USD"),
                stock_quantity: entry.4,
                metadata: HashMap::new(),
            },
        );
        i += 1;
    }
    products
}

/// Whether `agent` is the entry of the active agents at `index`: a seller
/// without products, paid by direct capture, the second one by escrow too.
pub open spec fn active_agent_entry(agent: &AgentInfo, index: int) -> bool {
    &&& agent.agent_type is Seller
    &&& agent.name@ == ACTIVE_AGENTS@[index].0@
    &&& agent.endpoint@ == ACTIVE_AGENTS@[index].1@
    &&& agent.public_key@ == ACTIVE_AGENTS@[index].2@
    &&& agent.reputation_score == ACTIVE_AGENTS@[index].3
    &&& agent.products@.len() == 0
    &&& agent.payment_methods@ == if index == 0 {
        seq![PaymentMethod::Stripe]
    } else {
        seq![PaymentMethod::Stripe, PaymentMethod::Escrow]
    }
    &&& agent.created_at == agent.last_active
    &&& 0 <= agent.created_at < CLOCK_LIMIT
}

/// The agents of the resource `agent://active`, each with a random identity
/// and the current time as its timestamps.
pub fn active_agents() -> (agents: Vec<AgentInfo>)
    ensures
        agents@.len() == ACTIVE_AGENTS@.len(),
        forall|i: int| 0 <= i < agents@.len() ==> active_agent_entry(&#[trigger] agents@[i], i),
{
    let mut agents: Vec<AgentInfo> = Vec::new();
    let mut i: usize = 0;
    while i < ACTIVE_AGENTS.len()
        invariant
            i <= ACTIVE_AGENTS@.len(),
            agents@.len() == i,
            forall|j: int| 0 <= j < i ==> active_agent_entry(&#[trigger] agents@[j], j),
        decreases ACTIVE_AGENTS@.len() - i,
    {
        let entry = ACTIVE_AGENTS[i];
        let mut payment_methods: Vec<PaymentMethod> = Vec::new();
        payment_methods.push(PaymentMethod::Stripe);
        if i != 0 {
            payment_methods.push(PaymentMethod::Escrow);
        }
        proof {
            if i == 0 {
                assert(payment_methods@ =~= seq![PaymentMethod::Stripe]);
            } else {
                assert(payment_methods@ =~= seq![PaymentMethod::Stripe, PaymentMethod::Escrow]);
            }
        }
        let at = now();
        agents.push(
            AgentInfo {
                id: fresh_id(),
                agent_type: AgentType::Seller,
                name: String::from_str(entry.0),
                endpoint: String::from_str(entry.1),
                public_key: String::from_str(entry.2),
                reputation_score: entry.3,
                products: Vec::new(),
                payment_methods,
                created_at: at,
                last_active: at,
            },
        );
        i += 1;
    }
    agents
}

} // verus!

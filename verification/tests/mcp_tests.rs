use dcap::discovery::RegisterRequest;
use dcap::error::NegotiationError;
use dcap::mcp::{
    active_agents, catalog_products, method_named, prompt_named, registered_agent, resource_at,
    resource_not_found, tool_named, McpMethod, McpResource, McpTool, NegotiationPrompt,
};
use dcap::model::{AgentType, PaymentMethod};

fn names(prompt: &NegotiationPrompt) -> Vec<&str> {
    prompt.variables.iter().map(|v| v.name.as_str()).collect()
}

fn check_placeholders(prompt: &NegotiationPrompt) {
    for variable in &prompt.variables {
        assert!(variable.required);
        assert!(!variable.description.is_empty());
        assert!(prompt.template.contains(&format!("{{{{{}}}}}", variable.name)));
    }
}

fn invalid_input<T>(r: Result<T, NegotiationError>) -> String {
    match r {
        Err(NegotiationError::InvalidInput(message)) => message,
        _ => panic!("the input must be refused"),
    }
}

#[test]
fn the_strategy_prompt() {
    let prompt = NegotiationPrompt::strategy();
    assert_eq!(prompt.name, "negotiation_strategy");
    assert_eq!(
        prompt.description,
        "Generate a negotiation strategy for a given product and market conditions"
    );
    assert!(prompt.template.starts_with("\nYou are a negotiation agent for {{product_name}}"));
    assert!(prompt.template.ends_with("\nStrategy:\n"));
    assert_eq!(
        names(&prompt),
        vec![
            "product_name",
            "category",
            "market_price",
            "reservation_price",
            "buyer_max_price",
            "reputation_score"
        ]
    );
    assert_eq!(prompt.variables[3].description, "Your minimum acceptable price");
    check_placeholders(&prompt);
}

#[test]
fn the_price_optimization_prompt() {
    let prompt = NegotiationPrompt::price_optimization();
    assert_eq!(prompt.name, "price_optimization");
    assert!(prompt.template.ends_with("\nOptimization Strategy:\n"));
    assert_eq!(
        names(&prompt),
        vec![
            "product_name",
            "sales_data",
            "competitor_prices",
            "demand_level",
            "inventory_level",
            "seasonal_trends"
        ]
    );
    check_placeholders(&prompt);
}

#[test]
fn the_market_analysis_prompt() {
    let prompt = NegotiationPrompt::market_analysis();
    assert_eq!(prompt.name, "market_analysis");
    assert!(prompt.template.ends_with("\nMarket Analysis:\n"));
    assert_eq!(
        names(&prompt),
        vec![
            "product_category",
            "avg_volume",
            "price_volatility",
            "market_sentiment",
            "key_trends",
            "regulatory_env"
        ]
    );
    check_placeholders(&prompt);
}

#[test]
fn the_counter_offer_prompt() {
    let prompt = NegotiationPrompt::counter_offer();
    assert_eq!(prompt.name, "counter_offer");
    assert!(prompt.template.ends_with("\nCounter-Offer Response:\n"));
    assert_eq!(
        names(&prompt),
        vec![
            "product_name",
            "original_price",
            "buyer_offer",
            "min_price",
            "market_price",
            "urgency_level",
            "buyer_reputation"
        ]
    );
    assert_eq!(
        prompt.variables[5].description,
        "How urgent the sale is (low/medium/high)"
    );
    check_placeholders(&prompt);
}

#[test]
fn the_agent_communication_prompt() {
    let prompt = NegotiationPrompt::agent_communication();
    assert_eq!(prompt.name, "agent_communication");
    assert!(prompt.template.ends_with("\n{{agent_role}} Message:\n"));
    assert_eq!(
        names(&prompt),
        vec![
            "agent_role",
            "counterparty_role",
            "product_name",
            "conversation_history",
            "negotiation_stage",
            "position_strength",
            "desired_outcome",
            "tone"
        ]
    );
    check_placeholders(&prompt);
}

#[test]
fn the_trust_assessment_prompt() {
    let prompt = NegotiationPrompt::trust_assessment();
    assert_eq!(prompt.name, "trust_assessment");
    assert_eq!(
        prompt.description,
        "Assess trustworthiness of a counterparty agent for negotiation decisions"
    );
    assert!(prompt.template.contains("1. **Reputation Analysis**: Evaluate"));
    assert!(prompt.template.ends_with("\nTrust Assessment Report:\n"));
    assert_eq!(
        names(&prompt),
        vec![
            "counterparty_name",
            "agent_id",
            "reputation_score",
            "successful_transactions",
            "failed_transactions",
            "account_age",
            "response_time",
            "verification_status",
            "market_presence"
        ]
    );
    check_placeholders(&prompt);
}

#[test]
fn prompts_by_name() {
    for name in [
        "negotiation_strategy",
        "price_optimization",
        "market_analysis",
        "counter_offer",
        "agent_communication",
        "trust_assessment",
    ] {
        assert_eq!(prompt_named(name).unwrap().name, name);
    }
    assert_eq!(prompt_named("trust_assessment").unwrap().variables.len(), 9);
    assert_eq!(invalid_input(prompt_named("strategy")), "Unknown prompt: strategy");
    assert_eq!(invalid_input(prompt_named("")), "Unknown prompt: ");
}

#[test]
fn requests_are_routed_by_name() {
    assert_eq!(method_named("tools/call").unwrap(), McpMethod::ToolsCall);
    assert_eq!(method_named("resources/read").unwrap(), McpMethod::ResourcesRead);
    assert_eq!(method_named("prompts/get").unwrap(), McpMethod::PromptsGet);
    assert_eq!(invalid_input(method_named("tools/list")), "Unknown MCP method");

    assert_eq!(tool_named("register_agent").unwrap(), McpTool::RegisterAgent);
    assert_eq!(tool_named("search_agents").unwrap(), McpTool::SearchAgents);
    assert_eq!(tool_named("get_reputation").unwrap(), McpTool::GetReputation);
    assert_eq!(tool_named("update_reputation").unwrap(), McpTool::UpdateReputation);
    assert_eq!(invalid_input(tool_named("drop_tables")), "Unknown tool: drop_tables");

    assert_eq!(resource_at("agent://reputations"), Some(McpResource::Reputations));
    assert_eq!(resource_at("product://catalog"), Some(McpResource::Catalog));
    assert_eq!(resource_at("agent://active"), Some(McpResource::ActiveAgents));
    assert_eq!(resource_at("negotiation://history"), Some(McpResource::NegotiationHistory));
    assert_eq!(resource_at("market://analytics"), Some(McpResource::MarketAnalytics));
    assert_eq!(resource_at("market://"), None);
}

#[test]
fn a_read_of_an_unknown_address_says_so() {
    assert_eq!(resource_at("market://"), None);
    assert_eq!(
        resource_not_found("market://"),
        vec![
            ("error".to_string(), "Resource not found".to_string()),
            ("uri".to_string(), "market://".to_string()),
        ]
    );
    assert_eq!(resource_not_found("")[1], ("uri".to_string(), String::new()));
}

#[test]
fn the_catalog_that_is_shown() {
    let products = catalog_products();
    assert_eq!(products.len(), 3);
    assert_eq!(products[0].id, "laptop-001");
    assert_eq!(products[0].name, "Gaming Laptop Pro");
    assert_eq!(products[0].base_price, 249_999);
    assert_eq!(products[0].stock_quantity, 15);
    assert_eq!(products[1].id, "keyboard-002");
    assert_eq!(products[1].base_price, 12_999);
    assert_eq!(products[1].stock_quantity, 50);
    assert_eq!(products[2].id, "monitor-003");
    assert_eq!(products[2].name, "4K Monitor 27\"");
    assert_eq!(products[2].description, "Ultra HD 27-inch monitor with HDR support");
    assert_eq!(products[2].base_price, 39_999);
    assert_eq!(products[2].stock_quantity, 25);
    for product in &products {
        assert_eq!(product.category, "Electronics");
        assert_eq!(product.currency, "USD");
        assert!(product.metadata.is_empty());
    }
}

#[test]
fn the_agents_that_are_shown() {
    let agents = active_agents();
    assert_eq!(agents.len(), 2);
    assert_eq!(agents[0].name, "TechStore Pro");
    assert_eq!(agents[0].endpoint, "http://localhost:8001");
    assert_eq!(agents[0].public_key, "mock_public_key_1");
    assert_eq!(agents[0].reputation_score, 85);
    assert_eq!(agents[0].payment_methods, vec![PaymentMethod::Stripe]);
    assert_eq!(agents[1].name, "GadgetHub");
    assert_eq!(agents[1].reputation_score, 72);
    assert_eq!(agents[1].payment_methods, vec![PaymentMethod::Stripe, PaymentMethod::Escrow]);
    assert_ne!(agents[0].id, agents[1].id);
    for agent in &agents {
        assert_eq!(agent.agent_type, AgentType::Seller);
        assert!(agent.products.is_empty());
    }
}

#[test]
fn the_tool_enters_agents_with_fifty() {
    let agent = registered_agent(RegisterRequest {
        agent_type: AgentType::Buyer,
        name: "n".to_string(),
        endpoint: "e".to_string(),
        public_key: "k".to_string(),
        payment_methods: vec![PaymentMethod::Solana],
    });
    assert_eq!(agent.reputation_score, 50);
    assert_eq!(agent.agent_type, AgentType::Buyer);
    assert_eq!(agent.name, "n");
    assert_eq!(agent.payment_methods, vec![PaymentMethod::Solana]);
}

use inheritx::allbridge::{
    AllbridgeError, AllbridgeService, AmountCheck, BridgeStatus, BridgeTransfer,
    BridgeTransferRequest, ChainConfig, JsonField, PoolEntry, RawToken,
};

fn make_service() -> AllbridgeService {
    AllbridgeService::new("https://core.api.allbridgeapp.com".to_string(), None, None, None, None)
}

fn request(source: &str, destination: &str, token: &str, amount: &str, recipient: &str) -> BridgeTransferRequest {
    BridgeTransferRequest {
        source_chain: source.to_string(),
        destination_chain: destination.to_string(),
        token_address: token.to_string(),
        amount: amount.to_string(),
        recipient: recipient.to_string(),
    }
}

#[test]
fn test_chain_config_ethereum() {
    let config = ChainConfig::ethereum(None);
    assert_eq!(config.chain_id, "1");
    assert_eq!(config.name, "Ethereum");
    assert_eq!(config.allbridge_chain_symbol, "ETH");
}

#[test]
fn test_chain_config_polygon() {
    let config = ChainConfig::polygon(None);
    assert_eq!(config.chain_id, "137");
    assert_eq!(config.allbridge_chain_symbol, "POL");
}

#[test]
fn test_chain_config_arbitrum() {
    let config = ChainConfig::arbitrum(None);
    assert_eq!(config.chain_id, "42161");
    assert_eq!(config.allbridge_chain_symbol, "ARB");
}

#[test]
fn test_chain_config_stellar() {
    let config = ChainConfig::stellar(None);
    assert_eq!(config.chain_id, "stellar");
    assert_eq!(config.allbridge_chain_symbol, "STLR");
}

#[test]
fn chain_config_keeps_configured_rpc_url() {
    let config = ChainConfig::polygon(Some("https://rpc.example".to_string()));
    assert_eq!(config.rpc_url.as_deref(), Some("https://rpc.example"));
}

#[test]
fn test_validate_chain_by_id() {
    let svc = make_service();
    assert!(svc.validate_chain("1").is_ok());
    assert!(svc.validate_chain("137").is_ok());
    assert!(svc.validate_chain("42161").is_ok());
    assert!(svc.validate_chain("stellar").is_ok());
}

#[test]
fn test_validate_chain_by_symbol() {
    let svc = make_service();
    assert!(svc.validate_chain("ETH").is_ok());
    assert!(svc.validate_chain("eth").is_ok());
    assert!(svc.validate_chain("POL").is_ok());
    assert!(svc.validate_chain("ARB").is_ok());
    assert!(svc.validate_chain("STLR").is_ok());
}

#[test]
fn test_validate_chain_unsupported() {
    let svc = make_service();
    let err = svc.validate_chain("bsc").unwrap_err();
    assert!(matches!(err, AllbridgeError::UnsupportedChain(_)));
}

#[test]
fn validate_chain_gives_the_named_chain() {
    let svc = make_service();
    assert_eq!(svc.validate_chain("arb").unwrap().chain_id, "42161");
    assert_eq!(svc.validate_chain("stellar").unwrap().allbridge_chain_symbol, "STLR");
    assert_eq!(
        svc.validate_chain("bsc").unwrap_err(),
        AllbridgeError::UnsupportedChain("bsc".to_string())
    );
}

#[test]
fn test_supported_stablecoin_usdc_keyword() {
    assert!(AllbridgeService::is_supported_stablecoin("usdc"));
    assert!(AllbridgeService::is_supported_stablecoin("USDC"));
}

#[test]
fn test_supported_stablecoin_usdt_keyword() {
    assert!(AllbridgeService::is_supported_stablecoin("usdt"));
    assert!(AllbridgeService::is_supported_stablecoin("USDT"));
}

#[test]
fn test_supported_stablecoin_eth_usdc_address() {
    assert!(AllbridgeService::is_supported_stablecoin(
        "0xA0b86991c6218b36c1d19D4a2e9Eb0cE3606eB48"
    ));
}

#[test]
fn test_supported_stablecoin_polygon_usdc_address() {
    assert!(AllbridgeService::is_supported_stablecoin(
        "0x2791Bca1f2de4661ED88A30C99A7a9449Aa84174"
    ));
}

#[test]
fn test_unsupported_token() {
    assert!(!AllbridgeService::is_supported_stablecoin("0xSomeRandomToken"));
    assert!(!AllbridgeService::is_supported_stablecoin("DAI"));
}

#[test]
fn token_symbol_follows_the_address() {
    assert_eq!(AllbridgeService::token_symbol("MyUsdcToken"), "USDC");
    assert_eq!(AllbridgeService::token_symbol("usdt"), "USDT");
    assert_eq!(AllbridgeService::token_symbol("0xdAC17F958D2ee523a2206206994597C13D831ec7"), "USDT");
}

#[test]
fn test_estimate_bridge_fee_eth_to_polygon_usdc() {
    let svc = make_service();
    let req = request("ETH", "POL", "usdc", "1000.0", "0xRecipient");
    let route = svc.plan_bridge_fee(&req, AmountCheck::Positive).unwrap();
    assert_eq!(route.token_symbol, "USDC");
    assert_eq!(route.gas_fee_micros, 5_000_000);
    assert_eq!(route.estimated_time, 15);
}

#[test]
fn test_estimate_bridge_fee_polygon_to_arbitrum_usdt() {
    let svc = make_service();
    let req = request("POL", "ARB", "usdt", "500.0", "0xRecipient");
    let route = svc.plan_bridge_fee(&req, AmountCheck::Positive).unwrap();
    assert_eq!(route.token_symbol, "USDT");
    assert_eq!(route.gas_fee_micros, 500_000);
    assert_eq!(route.estimated_time, 5);
}

#[test]
fn test_estimate_bridge_fee_stellar_to_eth_estimated_time() {
    let svc = make_service();
    let req = request("STLR", "ETH", "usdc", "100.0", "0xRecipient");
    let route = svc.plan_bridge_fee(&req, AmountCheck::Positive).unwrap();
    assert_eq!(route.estimated_time, 10);
    assert_eq!(route.gas_fee_micros, 10_000);
}

#[test]
fn test_estimate_bridge_fee_unsupported_chain() {
    let svc = make_service();
    let req = request("BSC", "ETH", "usdc", "100.0", "0xRecipient");
    let err = svc.plan_bridge_fee(&req, AmountCheck::Positive).unwrap_err();
    assert!(matches!(err, AllbridgeError::UnsupportedChain(_)));
}

#[test]
fn test_estimate_bridge_fee_unsupported_token() {
    let svc = make_service();
    let req = request("ETH", "POL", "DAI", "100.0", "0xRecipient");
    let err = svc.plan_bridge_fee(&req, AmountCheck::Positive).unwrap_err();
    assert!(matches!(err, AllbridgeError::UnsupportedToken(_)));
}

#[test]
fn test_estimate_bridge_fee_zero_amount() {
    let svc = make_service();
    let req = request("ETH", "POL", "usdc", "0", "0xRecipient");
    let err = svc.plan_bridge_fee(&req, AmountCheck::NotPositive).unwrap_err();
    assert!(matches!(err, AllbridgeError::InvalidRequest(_)));
}

#[test]
fn test_estimate_bridge_fee_invalid_amount() {
    let svc = make_service();
    let req = request("ETH", "POL", "usdc", "not_a_number", "0xRecipient");
    let err = svc.plan_bridge_fee(&req, AmountCheck::NotANumber).unwrap_err();
    assert_eq!(
        err,
        AllbridgeError::InvalidRequest("Amount must be a valid number".to_string())
    );
}

#[test]
fn test_execute_bridge_transfer_empty_sender() {
    let svc = make_service();
    let transfer = BridgeTransfer {
        request: request("ETH", "POL", "usdc", "100.0", "0xRecipient"),
        sender: "".to_string(),
        nonce: None,
    };
    let err = svc.check_transfer(&transfer, AmountCheck::Positive).unwrap_err();
    assert_eq!(err, AllbridgeError::InvalidRequest("Sender address is required".to_string()));
}

#[test]
fn test_execute_bridge_transfer_empty_recipient() {
    let svc = make_service();
    let transfer = BridgeTransfer {
        request: request("ETH", "POL", "usdc", "100.0", ""),
        sender: "0xSender".to_string(),
        nonce: None,
    };
    let err = svc.check_transfer(&transfer, AmountCheck::Positive).unwrap_err();
    assert!(matches!(err, AllbridgeError::InvalidRequest(_)));
}

#[test]
fn test_execute_bridge_transfer_unsupported_chain() {
    let svc = make_service();
    let transfer = BridgeTransfer {
        request: request("BSC", "ETH", "usdc", "100.0", "0xRecipient"),
        sender: "0xSender".to_string(),
        nonce: None,
    };
    let err = svc.check_transfer(&transfer, AmountCheck::Positive).unwrap_err();
    assert!(matches!(err, AllbridgeError::UnsupportedChain(_)));
}

#[test]
fn test_execute_bridge_transfer_unsupported_token() {
    let svc = make_service();
    let transfer = BridgeTransfer {
        request: request("ETH", "POL", "DAI", "100.0", "0xRecipient"),
        sender: "0xSender".to_string(),
        nonce: None,
    };
    let err = svc.check_transfer(&transfer, AmountCheck::Positive).unwrap_err();
    assert!(matches!(err, AllbridgeError::UnsupportedToken(_)));
}

#[test]
fn check_transfer_accepts_a_complete_transfer() {
    let svc = make_service();
    let transfer = BridgeTransfer {
        request: request("ETH", "POL", "usdc", "100.0", "0xRecipient"),
        sender: "0xSender".to_string(),
        nonce: Some("7".to_string()),
    };
    assert!(svc.check_transfer(&transfer, AmountCheck::Positive).is_ok());
}

#[test]
fn test_get_transfer_status_empty_hash() {
    let err = AllbridgeService::check_tx_hash("").unwrap_err();
    assert!(matches!(err, AllbridgeError::InvalidRequest(_)));
    assert!(AllbridgeService::check_tx_hash("0xabc").is_ok());
}

#[test]
fn test_get_supported_tokens_ethereum_fallback() {
    let tokens = AllbridgeService::supported_tokens("ETH", "ETH", None);
    assert_eq!(tokens.len(), 2);
    let symbols: Vec<&str> = tokens.iter().map(|t| t.symbol.as_str()).collect();
    assert!(symbols.contains(&"USDC"));
    assert!(symbols.contains(&"USDT"));
}

#[test]
fn test_get_supported_tokens_polygon_fallback() {
    let tokens = AllbridgeService::supported_tokens("POL", "POL", None);
    assert_eq!(tokens.len(), 2);
}

#[test]
fn test_get_supported_tokens_arbitrum_fallback() {
    let tokens = AllbridgeService::supported_tokens("ARB", "ARB", None);
    assert_eq!(tokens.len(), 2);
}

#[test]
fn test_get_supported_tokens_stellar_fallback() {
    let tokens = AllbridgeService::supported_tokens("STLR", "STLR", None);
    assert_eq!(tokens.len(), 1);
    assert_eq!(tokens[0].symbol, "USDC");
}

#[test]
fn test_get_supported_tokens_unsupported_chain() {
    let svc = make_service();
    let err = svc.validate_chain("BSC").unwrap_err();
    assert!(matches!(err, AllbridgeError::UnsupportedChain(_)));
}

#[test]
fn fetched_tokens_are_filtered_by_chain() {
    let raw = vec![
        RawToken {
            chain_symbol: Some("ETH".to_string()),
            symbol: Some("USDC".to_string()),
            name: Some("USD Coin".to_string()),
            token_address: Some("0xA0b8".to_string()),
            decimals: Some(6),
        },
        RawToken {
            chain_symbol: Some("POL".to_string()),
            symbol: Some("USDT".to_string()),
            name: None,
            token_address: None,
            decimals: None,
        },
    ];
    let tokens = AllbridgeService::supported_tokens("ETH", "ethereum", Some(&raw));
    assert_eq!(tokens.len(), 1);
    assert_eq!(tokens[0].symbol, "USDC");
    assert_eq!(tokens[0].chain, "ethereum");
    assert_eq!(tokens[0].decimals, 6);
}

#[test]
fn test_get_supported_routes_count() {
    let svc = make_service();
    let routes = svc.get_supported_routes();
    assert_eq!(routes.len(), 8);
}

#[test]
fn test_get_supported_routes_includes_stellar() {
    let svc = make_service();
    let routes = svc.get_supported_routes();
    let stellar_routes: Vec<_> = routes
        .iter()
        .filter(|(src, dst, _)| src == "stellar" || dst == "stellar")
        .collect();
    assert_eq!(stellar_routes.len(), 2);
    for (_, _, tokens) in &stellar_routes {
        assert!(tokens.contains(&"USDC".to_string()));
        assert!(!tokens.contains(&"USDT".to_string()));
    }
}

#[test]
fn test_bridge_status_display() {
    assert_eq!(BridgeStatus::Pending.to_string(), "pending");
    assert_eq!(BridgeStatus::InProgress.to_string(), "in_progress");
    assert_eq!(BridgeStatus::Completed.to_string(), "completed");
    assert_eq!(
        BridgeStatus::Failed("timeout".to_string()).to_string(),
        "failed: timeout"
    );
    assert_eq!(BridgeStatus::Unknown.to_string(), "unknown");
}

#[test]
fn status_from_response_reads_the_api_status() {
    assert_eq!(AllbridgeService::status_from_response(Some("Completed"), None), BridgeStatus::Completed);
    assert_eq!(AllbridgeService::status_from_response(None, None), BridgeStatus::Unknown);
    assert!(matches!(
        AllbridgeService::status_from_response(Some("failed"), Some("boom")),
        BridgeStatus::Failed(_)
    ));
}

#[test]
fn liquidity_is_read_from_the_matching_pool() {
    let pools = vec![
        PoolEntry {
            chain_symbol: Some("POL".to_string()),
            token_symbol: Some("USDC".to_string()),
            liquidity: Some("10".to_string()),
        },
        PoolEntry {
            chain_symbol: Some("ETH".to_string()),
            token_symbol: Some("USDC".to_string()),
            liquidity: Some("250.5".to_string()),
        },
    ];
    assert_eq!(
        AllbridgeService::find_pool_liquidity(&pools, "ETH", "USDC").as_deref(),
        Some("250.5")
    );
    assert_eq!(AllbridgeService::find_pool_liquidity(&pools, "ARB", "USDC"), None);
}

#[test]
fn tx_hash_is_taken_from_either_field() {
    let a = AllbridgeService::pick_tx_hash(&JsonField::Text("0x1".to_string()), &JsonField::Missing);
    assert_eq!(a.unwrap(), "0x1");
    let b = AllbridgeService::pick_tx_hash(&JsonField::Missing, &JsonField::Text("0x2".to_string()));
    assert_eq!(b.unwrap(), "0x2");
    assert!(AllbridgeService::pick_tx_hash(&JsonField::Missing, &JsonField::Missing).is_err());
}

#[test]
fn error_messages_read_as_displayed() {
    assert_eq!(
        AllbridgeError::UnsupportedChain("bsc".to_string()).message(),
        "Unsupported chain: bsc"
    );
    assert_eq!(
        AllbridgeError::InsufficientLiquidity { available: "1".to_string(), required: "2".to_string() }
            .message(),
        "Insufficient liquidity: available 1, required 2"
    );
}

#[test]
fn chain_matches_by_lowercased_symbol_or_id() {
    let eth = ChainConfig::ethereum(None);
    assert!(eth.matches_lowercased("ETH", "eth", "eth"));
    assert!(eth.matches_lowercased("1", "1", "eth"));
    assert!(!eth.matches_lowercased("POL", "pol", "eth"));
}

#[test]
fn lowercased_token_rules() {
    assert!(AllbridgeService::is_supported_stablecoin_lowercased("usdc"));
    assert!(AllbridgeService::is_supported_stablecoin_lowercased(
        "0xdac17f958d2ee523a2206206994597c13d831ec7"
    ));
    assert!(!AllbridgeService::is_supported_stablecoin_lowercased("dai"));
    assert!(!AllbridgeService::is_supported_stablecoin_lowercased("USDC"));
    assert_eq!(AllbridgeService::token_symbol_lowercased("my-usdc-token"), "USDC");
    assert_eq!(AllbridgeService::token_symbol_lowercased("usdt"), "USDT");
}

#[test]
fn lowercased_status_text() {
    assert_eq!(AllbridgeService::status_from_lowercased("success", None), BridgeStatus::Completed);
    assert_eq!(
        AllbridgeService::status_from_lowercased("reverted", Some("out of gas")),
        BridgeStatus::Failed("out of gas".to_string())
    );
    assert_eq!(AllbridgeService::status_from_lowercased("PENDING", None), BridgeStatus::Unknown);
}

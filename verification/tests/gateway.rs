use exchange_core::gateway::{
    auth_after_validation, auth_first_step, bearer_token, create_order_step, deposit_address, deposit_memo,
    deposit_network, deposit_record, freeze_ref, get_deposit_address, hyphenless_prefix, is_buy_side,
    is_public_path, login_step, market_id_param, parse_i64_or_zero, parse_user_id_i64, remove_all_of,
    resolve_market_error, start_create_order, user_id_or_unknown, wallet_history, wallet_user, withdraw_chain,
    withdraw_params, DepositRow, WithdrawRow,
    withdraw_failure_status, withdraw_record, withdraw_reply, AuthRejection, AuthStep, CallError, CallOutcome,
    CreateOrderRequest, CreatedOrder, IssuedTokens, LoginAction, LoginEvent, LoginFlow, OrderAction, OrderEvent,
    OrderFlow, OrderReply, RiskVerdict, TokenVerdict, WithdrawRequest,
};

#[test]
fn user_ids() {
    assert_eq!(parse_user_id_i64("usr_42"), 42);
    assert_eq!(parse_user_id_i64("42"), 42);
    assert_eq!(parse_user_id_i64("usr_usr_7"), 7);
    assert_eq!(parse_user_id_i64("unknown"), 0);
    assert_eq!(parse_user_id_i64("usr_-3"), -3);
    assert_eq!(parse_i64_or_zero("usr_5"), 0);
    assert_eq!(user_id_or_unknown(None), "unknown");
    assert_eq!(user_id_or_unknown(Some("usr_1".to_string())), "usr_1");
    assert_eq!(wallet_user("0"), None);
    assert_eq!(wallet_user("abc"), None);
    assert_eq!(wallet_user("12"), Some(12));
    // the wallet endpoints read the whole id: a `usr_` id is not a number there
    assert_eq!(wallet_user("usr_12"), None);
}

#[test]
fn text_helpers() {
    assert_eq!(remove_all_of("aXbXXc", "X"), "abc");
    assert_eq!(remove_all_of("ababab", "aba"), "bab");
    assert_eq!(hyphenless_prefix("12-34-56", 4), "1234");
    assert_eq!(hyphenless_prefix("1-2", 10), "12");
    assert_eq!(freeze_ref("0123-4567-89ab-cdef-0123-4567"), "fr_0123456789abcdef0123");
}

#[test]
fn middleware_decisions() {
    assert!(is_public_path("/health"));
    assert!(is_public_path("/api/v1/market/depth"));
    assert!(!is_public_path("/api/v1/orders"));
    assert!(matches!(auth_first_step("/ready", None), AuthStep::Pass));
    assert!(matches!(auth_first_step("/api/v1/orders", None), AuthStep::Reject(AuthRejection::MissingHeader)));
    assert!(matches!(auth_first_step("/api/v1/orders", Some("Basic x")), AuthStep::Reject(AuthRejection::MissingHeader)));
    match auth_first_step("/api/v1/orders", Some("Bearer tok123")) {
        AuthStep::Validate(t) => assert_eq!(t, "tok123"),
        _ => panic!("expected Validate"),
    }
    assert_eq!(bearer_token("Bearer "), Some(String::new()));
    assert_eq!(AuthRejection::ServiceUnavailable.status(), 503);
    assert_eq!(AuthRejection::InvalidToken.status(), 401);
    assert_eq!(AuthRejection::MissingHeader.message(), "Missing or invalid authorization header");
    let ok = auth_after_validation(CallOutcome::Answered(TokenVerdict { valid: true, user_id: "u".to_string(), session_id: "s".to_string() })).unwrap();
    assert_eq!((ok.user_id.as_str(), ok.session_id.as_str()), ("u", "s"));
    assert_eq!(
        auth_after_validation(CallOutcome::Answered(TokenVerdict { valid: false, user_id: String::new(), session_id: String::new() })).err(),
        Some(AuthRejection::InvalidToken)
    );
    assert_eq!(auth_after_validation(CallOutcome::Unreachable).err(), Some(AuthRejection::ServiceUnavailable));
    assert_eq!(
        auth_after_validation(CallOutcome::Failed(CallError { code: 14, text: String::new() })).err(),
        Some(AuthRejection::InvalidToken)
    );
}

fn order(side: &str) -> CreateOrderRequest {
    CreateOrderRequest {
        market_id: 1,
        outcome_id: 2,
        side: side.to_string(),
        order_type: "limit".to_string(),
        price: "0.5".to_string(),
        quantity: "10".to_string(),
    }
}

#[test]
fn create_order_buy_happy_path() {
    assert!(is_buy_side("BUY"));
    assert!(is_buy_side("yes"));
    assert!(!is_buy_side("sell"));
    let (state, action) = start_create_order("usr_9", order("Buy"));
    assert!(matches!(action, OrderAction::CheckRisk));
    let (state, action) = create_order_step(state, OrderEvent::Risk(CallOutcome::Unreachable)).unwrap();
    let plan = match action {
        OrderAction::Freeze(p) => p,
        _ => panic!("expected Freeze"),
    };
    assert_eq!(plan.asset, "USDC");
    assert_eq!(plan.amount, "5.0");
    assert!(plan.order_ref.starts_with("fr_"));
    assert_eq!(plan.order_ref.len(), 23);
    let (state, action) = create_order_step(state, OrderEvent::Freeze(CallOutcome::Answered(()))).unwrap();
    assert!(matches!(action, OrderAction::CreateOrder { user: 9 }));
    let created = CreatedOrder { order_id: "o1".to_string(), filled_quantity: "0".to_string(), status: "open".to_string() };
    let (state, action) = create_order_step(state, OrderEvent::Order(CallOutcome::Answered(created))).unwrap();
    assert!(matches!(state, OrderFlow::Done));
    match action {
        OrderAction::Reply(r) => {
            assert_eq!(r.status(), 201);
            assert!(matches!(r, OrderReply::Created(c) if c.order_id == "o1"));
        }
        _ => panic!("expected Reply"),
    }
}

#[test]
fn create_order_refusals() {
    let (s, _) = start_create_order("usr_9", order("no"));
    let (_, a) = create_order_step(s, OrderEvent::Risk(CallOutcome::Answered(RiskVerdict { accepted: false, reason: "limit".to_string() }))).unwrap();
    assert!(matches!(a, OrderAction::Reply(OrderReply::RiskRejected(ref r)) if r == "limit"));

    let (s, _) = start_create_order("usr_9", order("no"));
    let (s, a) = create_order_step(s, OrderEvent::Risk(CallOutcome::Answered(RiskVerdict { accepted: true, reason: String::new() }))).unwrap();
    match a {
        OrderAction::Freeze(p) => {
            assert_eq!(p.asset, "NO");
            assert_eq!(p.amount, "10");
        }
        _ => panic!("expected Freeze"),
    }
    let (_, a) = create_order_step(s, OrderEvent::Freeze(CallOutcome::Failed(CallError { code: 9, text: "x".to_string() }))).unwrap();
    match a {
        OrderAction::Reply(r) => {
            assert_eq!(r.status(), 400);
            assert!(matches!(r, OrderReply::InsufficientBalance));
        }
        _ => panic!("expected Reply"),
    }

    // a refused order releases the hold first
    let (s, _) = start_create_order("usr_9", order("sell"));
    let (s, _) = create_order_step(s, OrderEvent::Risk(CallOutcome::Unreachable)).unwrap();
    let (s, _) = create_order_step(s, OrderEvent::Freeze(CallOutcome::Answered(()))).unwrap();
    let (s, a) = create_order_step(s, OrderEvent::Order(CallOutcome::Failed(CallError { code: 13, text: "boom".to_string() }))).unwrap();
    assert!(matches!(a, OrderAction::Unfreeze(_)));
    let (s, a) = create_order_step(s, OrderEvent::Unfrozen).unwrap();
    assert!(matches!(s, OrderFlow::Done));
    assert!(matches!(a, OrderAction::Reply(OrderReply::OrderFailed(ref t)) if t == "boom"));

    // without a hold there is nothing to release; an unreachable order service answers 503
    let (s, _) = start_create_order("usr_9", order("sell"));
    let (s, _) = create_order_step(s, OrderEvent::Risk(CallOutcome::Unreachable)).unwrap();
    let (s, _) = create_order_step(s, OrderEvent::Freeze(CallOutcome::Unreachable)).unwrap();
    let (_, a) = create_order_step(s, OrderEvent::Order(CallOutcome::Unreachable)).unwrap();
    match a {
        OrderAction::Reply(r) => assert_eq!(r.status(), 503),
        _ => panic!("expected Reply"),
    }
}

#[test]
fn create_order_product_overflow() {
    let mut req = order("buy");
    req.price = "79228162514264337593543950335".to_string();
    req.quantity = "2".to_string();
    // the risk check is asked first; its refusal is answered whatever the amount
    let (s, a) = start_create_order("usr_1", req.clone());
    assert!(matches!(a, OrderAction::CheckRisk));
    let r = create_order_step(s, OrderEvent::Risk(CallOutcome::Answered(RiskVerdict { accepted: false, reason: "limit".to_string() })));
    assert!(matches!(r, Some((OrderFlow::Done, OrderAction::Reply(OrderReply::RiskRejected(ref t)))) if t == "limit"));
    // only once the order is let through does the overflow show
    let (s, _) = start_create_order("usr_1", req);
    assert!(create_order_step(s, OrderEvent::Risk(CallOutcome::Unreachable)).is_none());
}

#[test]
fn login_flow() {
    let (s, a) = login_step(LoginFlow::AwaitingUser, LoginEvent::User(CallOutcome::Answered("u7".to_string())));
    assert!(matches!(a, LoginAction::IssueTokens { ref user_id } if user_id == "u7"));
    let tokens = IssuedTokens { access_token: "a".to_string(), refresh_token: "r".to_string(), expires_in: 3600, token_type: "Bearer".to_string() };
    let (_, a) = login_step(s, LoginEvent::Tokens(CallOutcome::Answered(tokens)));
    match a {
        LoginAction::Reply { status, body } => {
            assert_eq!(status, 200);
            assert!(body.success);
            assert_eq!(body.token.as_deref(), Some("a"));
            assert_eq!(body.user_id.as_deref(), Some("u7"));
            assert_eq!(body.expires_in, Some(3600));
            assert_eq!(body.message, None);
        }
        _ => panic!("expected Reply"),
    }
    let (_, a) = login_step(LoginFlow::AwaitingUser, LoginEvent::User(CallOutcome::Failed(CallError { code: 16, text: String::new() })));
    assert!(matches!(a, LoginAction::Reply { status: 401, ref body } if body.message.as_deref() == Some("Invalid credentials")));
    let (_, a) = login_step(LoginFlow::AwaitingUser, LoginEvent::User(CallOutcome::Unreachable));
    assert!(matches!(a, LoginAction::Reply { status: 503, ref body } if body.message.as_deref() == Some("Service unavailable")));
    let (_, a) = login_step(LoginFlow::AwaitingTokens { user_id: "u".to_string() }, LoginEvent::Tokens(CallOutcome::Unreachable));
    assert!(matches!(a, LoginAction::Reply { status: 503, ref body } if body.message.as_deref() == Some("Auth service unavailable")));
    let (_, a) = login_step(LoginFlow::AwaitingTokens { user_id: "u".to_string() }, LoginEvent::Tokens(CallOutcome::Failed(CallError { code: 13, text: String::new() })));
    assert!(matches!(a, LoginAction::Reply { status: 500, ref body } if !body.success && body.token.is_none()));
}

#[test]
fn wallet_decisions() {
    assert_eq!(deposit_network("USDT", None), "TRC20");
    assert_eq!(deposit_network("TRX", None), "TRC20");
    assert_eq!(deposit_network("BTC", None), "BTC");
    assert_eq!(deposit_network("ETH", None), "ERC20");
    assert_eq!(deposit_network("BTC", Some("Lightning".to_string())), "Lightning");
    let u = "0123-4567-89ab-cdef-0123-4567-89ab-cdef-ffff";
    assert_eq!(deposit_address("USDT", u), "TN0123456789abcdef0123456789abcdefW");
    assert_eq!(deposit_address("BTC", "ab-cd"), "bc1qabcd");
    assert_eq!(deposit_address("ETH", "ab-cd"), "0xabcd");
    assert_eq!(deposit_memo("TRC20", "1234-5678-9"), Some("12345678".to_string()));
    assert_eq!(deposit_memo("ERC20", "1234-5678-9"), None);
    let r = get_deposit_address("usdt", None);
    assert_eq!(r.asset, "USDT");
    assert_eq!(r.network, "TRC20");
    assert!(r.address.starts_with("TN") && r.address.ends_with('W') && r.address.len() == 35);
    assert_eq!(r.memo.as_ref().map(|m| m.len()), Some(8));
    let r = get_deposit_address("eth", None);
    assert_eq!(r.memo, None);
    assert!(r.address.starts_with("0x"));

    assert_eq!(withdraw_chain(None), "ETH");
    assert_eq!(withdraw_chain(Some("TRC20".to_string())), "TRC20");
    let req = WithdrawRequest { asset: "usdt".to_string(), amount: "12.5".to_string(), address: "T1".to_string(), network: None };
    let w = withdraw_reply(&req, true, "wd1".to_string());
    assert_eq!((w.asset.as_str(), w.amount.as_str(), w.fee.as_str(), w.net_amount.as_str(), w.status.as_str()), ("USDT", "12.5", "0.001", "12.5", "pending"));
    assert_eq!(withdraw_failure_status(9), 400);
    assert_eq!(withdraw_failure_status(13), 500);

    let d = deposit_record("tx".to_string(), "TRON".to_string(), "1".to_string(), "addr".to_string(), 1700000000);
    assert_eq!((d.id.as_str(), d.tx_hash.as_str(), d.asset.as_str(), d.confirmations, d.status.as_str(), d.created_at.as_str()), ("tx", "tx", "TRON", 0, "completed", "1700000000"));
    let w = withdraw_record("w".to_string(), "USDT".to_string(), "1".to_string(), "0.1".to_string(), "to".to_string(), String::new(), "done".to_string(), -1);
    assert_eq!(w.tx_hash, None);
    assert_eq!(w.created_at, "-1");
    let w = withdraw_record("w".to_string(), "USDT".to_string(), "1".to_string(), "0.1".to_string(), "to".to_string(), "h".to_string(), "done".to_string(), 5);
    assert_eq!(w.tx_hash.as_deref(), Some("h"));
}

#[test]
fn market_decisions() {
    assert_eq!(market_id_param(None), None);
    assert_eq!(market_id_param(Some(0)), None);
    assert_eq!(market_id_param(Some(3)), Some(3));
    assert_eq!(resolve_market_error(5), "Market not found");
    assert_eq!(resolve_market_error(9), "Market cannot be resolved in current status");
    assert_eq!(resolve_market_error(2), "Internal error resolving market");
}

#[test]
fn user_id_roundtrip_extremes() {
    for n in [i64::MIN, -1, 0, 7, i64::MAX] {
        assert_eq!(parse_user_id_i64(&format!("usr_{}", n)), n);
    }
}

#[test]
fn refused_order_releases_the_same_hold() {
    let (s, _) = start_create_order("usr_3", order("buy"));
    let (s, a) = create_order_step(s, OrderEvent::Risk(CallOutcome::Answered(RiskVerdict { accepted: true, reason: String::new() }))).unwrap();
    let held = match a {
        OrderAction::Freeze(p) => p,
        _ => panic!("expected Freeze"),
    };
    let (s, _) = create_order_step(s, OrderEvent::Freeze(CallOutcome::Answered(()))).unwrap();
    let (s, a) = create_order_step(s, OrderEvent::Order(CallOutcome::Failed(CallError { code: 13, text: "no".to_string() }))).unwrap();
    match a {
        OrderAction::Unfreeze(p) => {
            assert_eq!((p.asset.as_str(), p.amount.as_str(), p.order_ref.as_str()), (held.asset.as_str(), held.amount.as_str(), held.order_ref.as_str()));
        }
        _ => panic!("expected Unfreeze"),
    }
    let (s, a) = create_order_step(s, OrderEvent::Unfrozen).unwrap();
    assert!(matches!(s, OrderFlow::Done));
    match a {
        OrderAction::Reply(r) => {
            assert_eq!(r.status(), 500);
            assert!(matches!(r, OrderReply::OrderFailed(ref t) if t == "no"));
        }
        _ => panic!("expected Reply"),
    }
}

#[test]
fn withdrawal_request_and_history() {
    let req = WithdrawRequest { asset: "usdt".to_string(), amount: "3".to_string(), address: "T9".to_string(), network: None };
    assert_eq!(withdraw_params("usr_8", &req).user_id, 0);
    let p = withdraw_params("8", &req);
    assert_eq!((p.user_id, p.asset.as_str(), p.amount.as_str(), p.to_address.as_str(), p.chain.as_str(), p.payment_password.as_str()), (8, "usdt", "3", "T9", "ETH", ""));
    let req = WithdrawRequest { network: Some("TRC20".to_string()), ..req };
    assert_eq!(withdraw_params("8", &req).chain, "TRC20");

    let d = DepositRow { tx_id: "t1".to_string(), chain: "ETH".to_string(), amount: "5".to_string(), address: "0xa".to_string(), created_at: 10 };
    let w1 = WithdrawRow {
        withdraw_id: "w1".to_string(),
        asset: "USDT".to_string(),
        amount: "1".to_string(),
        fee: "0.1".to_string(),
        to_address: "T1".to_string(),
        tx_id: String::new(),
        status: "pending".to_string(),
        created_at: 20,
    };
    let w2 = WithdrawRow { withdraw_id: "w2".to_string(), tx_id: "h2".to_string(), ..w1.clone() };
    let h = wallet_history(Some(vec![d]), Some(vec![w1, w2]));
    assert_eq!(h.deposits.len(), 1);
    assert_eq!((h.deposits[0].id.as_str(), h.deposits[0].status.as_str(), h.deposits[0].created_at.as_str()), ("t1", "completed", "10"));
    assert_eq!(h.withdrawals.len(), 2);
    assert_eq!((h.withdrawals[0].id.as_str(), h.withdrawals[0].tx_hash.clone()), ("w1", None));
    assert_eq!((h.withdrawals[1].id.as_str(), h.withdrawals[1].tx_hash.as_deref()), ("w2", Some("h2")));
    let h = wallet_history(None, None);
    assert!(h.deposits.is_empty() && h.withdrawals.is_empty());
}

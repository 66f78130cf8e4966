use axionvera::token::MockToken;

#[test]
fn new_ledger_holds_nothing() {
    let token = MockToken::new();
    assert_eq!(token.balance(1), 0);
    assert_eq!(token.balance(42), 0);
}

#[test]
fn mint_credits_recipient_only() {
    let mut token = MockToken::new();
    token.mint(1, 1000);
    token.mint(1, 200);
    assert_eq!(token.balance(1), 1200);
    assert_eq!(token.balance(2), 0);
}

#[test]
fn transfer_moves_balance() {
    let mut token = MockToken::new();
    token.mint(1, 1000);
    token.transfer(1, 2, 400);
    assert_eq!(token.balance(1), 600);
    assert_eq!(token.balance(2), 400);
    assert_eq!(token.balance(1) + token.balance(2), 1000);
}

#[test]
fn self_transfer_credits_the_amount() {
    let mut token = MockToken::new();
    token.mint(5, 300);
    token.transfer(5, 5, 100);
    assert_eq!(token.balance(5), 400);
}

use lumen_token::admin::AdminRegistry;
use lumen_token::allowance::AllowanceRegistry;
use lumen_token::auth::AuthOracle;
use lumen_token::balance::BalanceLedger;
use lumen_token::error::TokenError;
use lumen_token::identity::Identity;
use lumen_token::metadata::MetadataStore;
use lumen_token::token::LumenToken;

fn initialized(admin: &Identity) -> LumenToken {
    let mut token = LumenToken::new();
    assert_eq!(
        token.initialize(admin.clone(), 7, String::from("LumenPulse"), String::from("LMN")),
        Ok(())
    );
    token
}

#[test]
fn test_token() {
    let auth = AuthOracle::Everyone;

    let admin = Identity::from_key("admin");
    let user1 = Identity::from_key("user1");
    let user2 = Identity::from_key("user2");

    let mut token = LumenToken::new();
    token
        .initialize(admin.clone(), 7, String::from("LumenPulse"), String::from("LMN"))
        .unwrap();

    assert_eq!(token.decimals().unwrap(), 7);
    assert_eq!(token.name().unwrap(), String::from("LumenPulse"));
    assert_eq!(token.symbol().unwrap(), String::from("LMN"));

    token.mint(&auth, &user1, 1000).unwrap();
    assert_eq!(token.balance(&user1), 1000);

    token.transfer(&auth, &user1, &user2, 500).unwrap();
    assert_eq!(token.balance(&user1), 500);
    assert_eq!(token.balance(&user2), 500);

    token.burn(&auth, &user2, 200).unwrap();
    assert_eq!(token.balance(&user2), 300);
}

#[test]
#[should_panic(expected = "account is frozen")]
fn test_freeze() {
    let auth = AuthOracle::Everyone;

    let admin = Identity::from_key("admin");
    let user1 = Identity::from_key("user1");
    let user2 = Identity::from_key("user2");

    let mut token = LumenToken::new();
    token
        .initialize(admin.clone(), 7, String::from("LumenPulse"), String::from("LMN"))
        .unwrap();

    token.mint(&auth, &user1, 1000).unwrap();
    token.freeze(&auth, &user1).unwrap();

    if let Err(e) = token.transfer(&auth, &user1, &user2, 100) {
        panic!("{}", e.message());
    }
}

#[test]
fn test_set_admin_transfers_role() {
    let auth = AuthOracle::Everyone;

    let admin = Identity::from_key("admin");
    let new_admin = Identity::from_key("new_admin");

    let mut token = LumenToken::new();
    token
        .initialize(admin.clone(), 7, String::from("LumenPulse"), String::from("LMN"))
        .unwrap();

    token.set_admin(&auth, new_admin.clone()).unwrap();

    token.mint(&auth, &new_admin, 1000).unwrap();
    assert_eq!(token.balance(&new_admin), 1000);
}

#[test]
#[should_panic]
fn test_only_admin_can_upgrade() {
    let auth = AuthOracle::Everyone;

    let admin = Identity::from_key("admin");
    let non_admin = Identity::from_key("non_admin");

    let mut token = LumenToken::new();
    token
        .initialize(admin.clone(), 7, String::from("LumenPulse"), String::from("LMN"))
        .unwrap();

    let dummy = [0u8; 32];
    token.upgrade(&auth, &non_admin, dummy).unwrap();
}

#[test]
fn a_new_ledger_is_not_initialized() {
    let token = LumenToken::new();
    let anyone = Identity::from_key("anyone");
    assert!(!token.admin().has_administrator());
    assert_eq!(token.decimals(), Err(TokenError::NotInitialized));
    assert_eq!(token.name(), Err(TokenError::NotInitialized));
    assert_eq!(token.symbol(), Err(TokenError::NotInitialized));
    assert_eq!(token.balance(&anyone), 0);
    assert_eq!(token.allowance(0, &anyone, &anyone), 0);
}

#[test]
fn initialize_twice_is_refused_and_keeps_the_first() {
    let admin = Identity::from_key("admin");
    let other = Identity::from_key("other");
    let mut token = initialized(&admin);
    assert_eq!(
        token.initialize(other.clone(), 2, String::from("Other"), String::from("OTH")),
        Err(TokenError::AlreadyInitialized)
    );
    assert!(token.admin().is_administrator(&admin));
    assert!(!token.admin().is_administrator(&other));
    assert_eq!(token.decimals(), Ok(7));
    assert_eq!(token.name(), Ok(String::from("LumenPulse")));
    assert_eq!(token.symbol(), Ok(String::from("LMN")));
}

#[test]
fn mint_before_initialize_is_not_initialized() {
    let mut token = LumenToken::new();
    let user = Identity::from_key("user");
    assert_eq!(token.mint(&AuthOracle::Everyone, &user, 10), Err(TokenError::NotInitialized));
    assert_eq!(token.freeze(&AuthOracle::Everyone, &user), Err(TokenError::NotInitialized));
    assert_eq!(token.unfreeze(&AuthOracle::Everyone, &user), Err(TokenError::NotInitialized));
    assert!(matches!(
        token.set_admin(&AuthOracle::Everyone, user.clone()),
        Err(TokenError::NotInitialized)
    ));
    assert!(matches!(
        token.upgrade(&AuthOracle::Everyone, &user, [1u8; 32]),
        Err(TokenError::NotInitialized)
    ));
    assert_eq!(token.balance(&user), 0);
}

#[test]
fn mint_needs_the_proof_of_the_administrator() {
    let admin = Identity::from_key("admin");
    let user = Identity::from_key("user");
    let mut token = initialized(&admin);
    assert_eq!(token.mint(&AuthOracle::Nobody, &user, 10), Err(TokenError::Unauthorized));
    assert_eq!(
        token.mint(&AuthOracle::Only(user.clone()), &user, 10),
        Err(TokenError::Unauthorized)
    );
    assert_eq!(token.balance(&user), 0);
    assert_eq!(token.mint(&AuthOracle::Only(admin.clone()), &user, 10), Ok(()));
    assert_eq!(token.balance(&user), 10);
}

#[test]
fn mint_refuses_a_negative_amount_and_an_overflow() {
    let admin = Identity::from_key("admin");
    let user = Identity::from_key("user");
    let auth = AuthOracle::Only(admin.clone());
    let mut token = initialized(&admin);
    assert_eq!(token.mint(&auth, &user, -1), Err(TokenError::InvalidAmount));
    assert_eq!(token.mint(&auth, &user, 0), Ok(()));
    assert_eq!(token.balance(&user), 0);
    assert_eq!(token.mint(&auth, &user, i128::MAX), Ok(()));
    assert_eq!(token.balance(&user), i128::MAX);
    assert_eq!(token.mint(&auth, &user, 1), Err(TokenError::Overflow));
    assert_eq!(token.balance(&user), i128::MAX);
    assert_eq!(token.mint(&auth, &user, 0), Ok(()));
}

#[test]
fn the_sum_of_balances_is_minted_less_burned() {
    let admin = Identity::from_key("admin");
    let a = Identity::from_key("a");
    let b = Identity::from_key("b");
    let c = Identity::from_key("c");
    let auth = AuthOracle::Everyone;
    let mut token = initialized(&admin);
    let sum = |t: &LumenToken| t.balance(&a) + t.balance(&b) + t.balance(&c) + t.balance(&admin);

    token.mint(&auth, &a, 700).unwrap();
    token.mint(&auth, &b, 300).unwrap();
    assert_eq!(sum(&token), 1000);
    token.transfer(&auth, &a, &c, 250).unwrap();
    assert_eq!(sum(&token), 1000);
    assert_eq!(token.transfer(&auth, &b, &c, 301), Err(TokenError::InsufficientBalance));
    assert_eq!(sum(&token), 1000);
    token.burn(&auth, &c, 50).unwrap();
    assert_eq!(sum(&token), 950);
    assert_eq!(token.burn(&auth, &c, 201), Err(TokenError::InsufficientBalance));
    assert_eq!(token.mint(&auth, &a, -5), Err(TokenError::InvalidAmount));
    assert_eq!(sum(&token), 950);
    token.approve(&auth, &a, &b, 100, 20).unwrap();
    token.transfer_from(&auth, 5, &b, &a, &c, 60).unwrap();
    assert_eq!(sum(&token), 950);
    token.burn_from(&auth, 5, &b, &a, 40).unwrap();
    assert_eq!(sum(&token), 910);
    assert_eq!(token.balance(&a), 350);
    assert_eq!(token.balance(&b), 300);
    assert_eq!(token.balance(&c), 260);
}

#[test]
fn no_balance_goes_below_nothing() {
    let admin = Identity::from_key("admin");
    let a = Identity::from_key("a");
    let b = Identity::from_key("b");
    let auth = AuthOracle::Everyone;
    let mut token = initialized(&admin);
    token.mint(&auth, &a, 5).unwrap();
    assert_eq!(token.transfer(&auth, &a, &b, 6), Err(TokenError::InsufficientBalance));
    assert_eq!(token.burn(&auth, &a, 6), Err(TokenError::InsufficientBalance));
    assert_eq!(token.burn(&auth, &b, 1), Err(TokenError::InsufficientBalance));
    assert_eq!(token.balance(&a), 5);
    assert_eq!(token.balance(&b), 0);
    assert_eq!(token.burn(&auth, &a, 5), Ok(()));
    assert_eq!(token.balance(&a), 0);
    assert_eq!(token.burn(&auth, &a, 0), Ok(()));
    assert_eq!(token.balance(&a), 0);
}

#[test]
fn transfer_refuses_in_order() {
    let admin = Identity::from_key("admin");
    let a = Identity::from_key("a");
    let b = Identity::from_key("b");
    let everyone = AuthOracle::Everyone;
    let mut token = initialized(&admin);
    token.mint(&everyone, &a, 100).unwrap();
    assert_eq!(
        token.transfer(&AuthOracle::Only(b.clone()), &a, &b, 10),
        Err(TokenError::Unauthorized)
    );
    assert_eq!(token.transfer(&AuthOracle::Nobody, &a, &b, -1), Err(TokenError::Unauthorized));
    assert_eq!(
        token.transfer(&AuthOracle::Only(a.clone()), &a, &b, -1),
        Err(TokenError::InvalidAmount)
    );
    assert_eq!(
        token.transfer(&AuthOracle::Only(a.clone()), &a, &b, 101),
        Err(TokenError::InsufficientBalance)
    );
    token.freeze(&everyone, &a).unwrap();
    assert_eq!(
        token.transfer(&AuthOracle::Only(a.clone()), &a, &b, -1),
        Err(TokenError::AccountFrozen)
    );
    assert_eq!(
        token.transfer(&AuthOracle::Only(a.clone()), &a, &b, 101),
        Err(TokenError::AccountFrozen)
    );
    assert_eq!(token.balance(&a), 100);
    assert_eq!(token.balance(&b), 0);
}

#[test]
fn transfer_that_would_overflow_changes_nothing() {
    let admin = Identity::from_key("admin");
    let a = Identity::from_key("a");
    let b = Identity::from_key("b");
    let auth = AuthOracle::Everyone;
    let mut token = initialized(&admin);
    token.mint(&auth, &a, 10).unwrap();
    token.mint(&auth, &b, i128::MAX - 5).unwrap();
    assert_eq!(token.transfer(&auth, &a, &b, 6), Err(TokenError::Overflow));
    assert_eq!(token.balance(&a), 10);
    assert_eq!(token.balance(&b), i128::MAX - 5);
    assert_eq!(token.transfer(&auth, &a, &b, 5), Ok(()));
    assert_eq!(token.balance(&a), 5);
    assert_eq!(token.balance(&b), i128::MAX);
}

#[test]
fn transfer_to_oneself_keeps_the_balance() {
    let admin = Identity::from_key("admin");
    let a = Identity::from_key("a");
    let auth = AuthOracle::Everyone;
    let mut token = initialized(&admin);
    token.mint(&auth, &a, i128::MAX).unwrap();
    assert_eq!(token.transfer(&auth, &a, &a, i128::MAX), Ok(()));
    assert_eq!(token.balance(&a), i128::MAX);
    assert_eq!(token.transfer(&auth, &a, &a, 7), Ok(()));
    assert_eq!(token.balance(&a), i128::MAX);
}

#[test]
fn freeze_blocks_what_goes_out_not_what_comes_in() {
    let admin = Identity::from_key("admin");
    let a = Identity::from_key("a");
    let b = Identity::from_key("b");
    let auth = AuthOracle::Everyone;
    let mut token = initialized(&admin);
    token.mint(&auth, &a, 1000).unwrap();
    token.mint(&auth, &b, 1000).unwrap();
    token.freeze(&auth, &a).unwrap();
    assert!(token.balances().read_state(&a));
    assert!(!token.balances().read_state(&b));

    assert_eq!(token.mint(&auth, &a, 10), Ok(()));
    assert_eq!(token.transfer(&auth, &b, &a, 5), Ok(()));
    assert_eq!(token.balance(&a), 1015);

    assert_eq!(token.transfer(&auth, &a, &b, 100), Err(TokenError::AccountFrozen));
    assert_eq!(token.burn(&auth, &a, 100), Err(TokenError::AccountFrozen));
    assert_eq!(token.transfer(&auth, &a, &b, 0), Err(TokenError::AccountFrozen));
    assert_eq!(token.transfer(&auth, &a, &b, 5000), Err(TokenError::AccountFrozen));
    assert_eq!(token.balance(&a), 1015);
    assert_eq!(token.balance(&b), 995);

    token.unfreeze(&auth, &a).unwrap();
    assert!(!token.balances().read_state(&a));
    assert_eq!(token.transfer(&auth, &a, &b, 100), Ok(()));
    assert_eq!(token.balance(&a), 915);
    assert_eq!(token.balance(&b), 1095);
}

#[test]
fn freeze_is_the_administrators() {
    let admin = Identity::from_key("admin");
    let a = Identity::from_key("a");
    let mut token = initialized(&admin);
    assert_eq!(token.freeze(&AuthOracle::Only(a.clone()), &a), Err(TokenError::Unauthorized));
    assert_eq!(token.freeze(&AuthOracle::Nobody, &a), Err(TokenError::Unauthorized));
    assert!(!token.balances().read_state(&a));
    assert_eq!(token.freeze(&AuthOracle::Only(admin.clone()), &a), Ok(()));
    assert!(token.balances().read_state(&a));
    assert_eq!(token.balance(&a), 0);
    assert_eq!(token.unfreeze(&AuthOracle::Only(a.clone()), &a), Err(TokenError::Unauthorized));
    assert!(token.balances().read_state(&a));
    assert_eq!(token.unfreeze(&AuthOracle::Only(admin.clone()), &a), Ok(()));
    assert!(!token.balances().read_state(&a));
}

#[test]
fn a_frozen_account_can_neither_approve_nor_spend_an_allowance() {
    let admin = Identity::from_key("admin");
    let owner = Identity::from_key("owner");
    let spender = Identity::from_key("spender");
    let to = Identity::from_key("to");
    let auth = AuthOracle::Everyone;
    let mut token = initialized(&admin);
    token.mint(&auth, &owner, 100).unwrap();
    token.approve(&auth, &owner, &spender, 50, 10).unwrap();

    token.freeze(&auth, &spender).unwrap();
    assert_eq!(
        token.transfer_from(&auth, 1, &spender, &owner, &to, 10),
        Err(TokenError::AccountFrozen)
    );
    assert_eq!(token.burn_from(&auth, 1, &spender, &owner, 10), Err(TokenError::AccountFrozen));
    assert_eq!(token.approve(&auth, &spender, &to, 1, 10), Err(TokenError::AccountFrozen));
    token.unfreeze(&auth, &spender).unwrap();

    token.freeze(&auth, &owner).unwrap();
    assert_eq!(token.approve(&auth, &owner, &spender, 70, 10), Err(TokenError::AccountFrozen));
    assert_eq!(
        token.transfer_from(&auth, 1, &spender, &owner, &to, 10),
        Err(TokenError::AccountFrozen)
    );
    assert_eq!(token.burn_from(&auth, 1, &spender, &owner, 10), Err(TokenError::AccountFrozen));
    assert_eq!(token.allowance(1, &owner, &spender), 50);
    assert_eq!(token.balance(&owner), 100);
    assert_eq!(token.balance(&to), 0);
}

#[test]
fn approve_replaces_the_allowance() {
    let admin = Identity::from_key("admin");
    let a = Identity::from_key("a");
    let b = Identity::from_key("b");
    let auth = AuthOracle::Only(a.clone());
    let mut token = initialized(&admin);
    assert_eq!(token.approve(&auth, &a, &b, 100, 30), Ok(()));
    assert_eq!(token.allowance(0, &a, &b), 100);
    assert_eq!(token.approve(&auth, &a, &b, 50, 30), Ok(()));
    assert_eq!(token.allowance(0, &a, &b), 50);
    assert_eq!(token.allowance(30, &a, &b), 50);
    assert_eq!(token.allowance(0, &b, &a), 0);
    let written = token.allowances().read_allowance(&a, &b, 0);
    assert_eq!(written.amount, 50);
    assert_eq!(written.expiration_ledger, 30);
}

#[test]
fn approve_refuses_in_order() {
    let admin = Identity::from_key("admin");
    let a = Identity::from_key("a");
    let b = Identity::from_key("b");
    let mut token = initialized(&admin);
    assert_eq!(
        token.approve(&AuthOracle::Only(b.clone()), &a, &b, 10, 5),
        Err(TokenError::Unauthorized)
    );
    assert_eq!(
        token.approve(&AuthOracle::Only(a.clone()), &a, &b, -1, 5),
        Err(TokenError::InvalidAmount)
    );
    assert_eq!(token.allowance(0, &a, &b), 0);
    token.freeze(&AuthOracle::Everyone, &a).unwrap();
    assert_eq!(
        token.approve(&AuthOracle::Only(a.clone()), &a, &b, -1, 5),
        Err(TokenError::AccountFrozen)
    );
}

#[test]
fn an_allowance_with_a_past_expiration_is_written_and_counts_for_nothing() {
    let admin = Identity::from_key("admin");
    let a = Identity::from_key("a");
    let b = Identity::from_key("b");
    let auth = AuthOracle::Everyone;
    let mut token = initialized(&admin);
    token.mint(&auth, &a, 100).unwrap();
    token.approve(&auth, &a, &b, 80, 40).unwrap();
    assert_eq!(token.allowance(50, &a, &b), 0);
    assert_eq!(token.approve(&auth, &a, &b, 0, 50), Ok(()));
    assert_eq!(token.allowance(50, &a, &b), 0);
    assert_eq!(token.approve(&auth, &a, &b, 30, 10), Ok(()));
    assert_eq!(token.allowance(50, &a, &b), 0);
    assert_eq!(token.allowance(10, &a, &b), 30);
    assert_eq!(
        token.transfer_from(&auth, 50, &b, &a, &b, 1),
        Err(TokenError::InsufficientAllowance)
    );
}

#[test]
fn an_expired_allowance_cannot_be_spent() {
    let admin = Identity::from_key("admin");
    let a = Identity::from_key("a");
    let b = Identity::from_key("b");
    let c = Identity::from_key("c");
    let auth = AuthOracle::Everyone;
    let mut token = initialized(&admin);
    token.mint(&auth, &a, 1000).unwrap();
    token.approve(&auth, &a, &b, 100, 10).unwrap();

    assert_eq!(token.allowance(10, &a, &b), 100);
    assert_eq!(token.allowance(11, &a, &b), 0);
    assert_eq!(
        token.transfer_from(&auth, 11, &b, &a, &c, 1),
        Err(TokenError::InsufficientAllowance)
    );
    assert_eq!(token.burn_from(&auth, 11, &b, &a, 1), Err(TokenError::InsufficientAllowance));
    assert_eq!(token.allowance(10, &a, &b), 100);
    assert_eq!(token.balance(&a), 1000);

    assert_eq!(token.transfer_from(&auth, 10, &b, &a, &c, 1), Ok(()));
    assert_eq!(token.allowance(10, &a, &b), 99);
    assert_eq!(token.balance(&a), 999);
    assert_eq!(token.balance(&c), 1);
}

#[test]
fn transfer_from_spends_the_allowance_and_moves_the_amount() {
    let admin = Identity::from_key("admin");
    let owner = Identity::from_key("owner");
    let spender = Identity::from_key("spender");
    let to = Identity::from_key("to");
    let everyone = AuthOracle::Everyone;
    let mut token = initialized(&admin);
    token.mint(&everyone, &owner, 500).unwrap();
    token.approve(&everyone, &owner, &spender, 200, 99).unwrap();

    assert_eq!(
        token.transfer_from(&AuthOracle::Only(owner.clone()), 1, &spender, &owner, &to, 10),
        Err(TokenError::Unauthorized)
    );
    let auth = AuthOracle::Only(spender.clone());
    assert_eq!(
        token.transfer_from(&auth, 1, &spender, &owner, &to, -1),
        Err(TokenError::InvalidAmount)
    );
    assert_eq!(
        token.transfer_from(&auth, 1, &spender, &owner, &to, 201),
        Err(TokenError::InsufficientAllowance)
    );
    assert_eq!(token.transfer_from(&auth, 1, &spender, &owner, &to, 150), Ok(()));
    assert_eq!(token.balance(&owner), 350);
    assert_eq!(token.balance(&to), 150);
    assert_eq!(token.balance(&spender), 0);
    assert_eq!(token.allowance(1, &owner, &spender), 50);
    assert_eq!(token.allowances().read_allowance(&owner, &spender, 1).expiration_ledger, 99);
    assert_eq!(token.allowance(1, &spender, &owner), 0);
}

#[test]
fn transfer_from_that_the_balance_cannot_cover_changes_nothing() {
    let admin = Identity::from_key("admin");
    let owner = Identity::from_key("owner");
    let spender = Identity::from_key("spender");
    let to = Identity::from_key("to");
    let auth = AuthOracle::Everyone;
    let mut token = initialized(&admin);
    token.mint(&auth, &owner, 20).unwrap();
    token.approve(&auth, &owner, &spender, 200, 99).unwrap();
    assert_eq!(
        token.transfer_from(&auth, 1, &spender, &owner, &to, 21),
        Err(TokenError::InsufficientBalance)
    );
    assert_eq!(token.burn_from(&auth, 1, &spender, &owner, 21), Err(TokenError::InsufficientBalance));
    assert_eq!(token.allowance(1, &owner, &spender), 200);
    assert_eq!(token.balance(&owner), 20);

    token.mint(&auth, &to, i128::MAX).unwrap();
    assert_eq!(
        token.transfer_from(&auth, 1, &spender, &owner, &to, 1),
        Err(TokenError::Overflow)
    );
    assert_eq!(token.allowance(1, &owner, &spender), 200);
    assert_eq!(token.balance(&owner), 20);
    assert_eq!(token.balance(&to), i128::MAX);
}

#[test]
fn burn_from_spends_the_allowance_and_destroys_the_amount() {
    let admin = Identity::from_key("admin");
    let owner = Identity::from_key("owner");
    let spender = Identity::from_key("spender");
    let everyone = AuthOracle::Everyone;
    let mut token = initialized(&admin);
    token.mint(&everyone, &owner, 500).unwrap();
    token.approve(&everyone, &owner, &spender, 200, 99).unwrap();
    assert_eq!(
        token.burn_from(&AuthOracle::Nobody, 1, &spender, &owner, 10),
        Err(TokenError::Unauthorized)
    );
    let auth = AuthOracle::Only(spender.clone());
    assert_eq!(token.burn_from(&auth, 1, &spender, &owner, -3), Err(TokenError::InvalidAmount));
    assert_eq!(token.burn_from(&auth, 1, &spender, &owner, 120), Ok(()));
    assert_eq!(token.balance(&owner), 380);
    assert_eq!(token.allowance(1, &owner, &spender), 80);
    assert_eq!(token.burn_from(&auth, 1, &spender, &owner, 81), Err(TokenError::InsufficientAllowance));
    assert_eq!(token.burn_from(&auth, 1, &spender, &owner, 80), Ok(()));
    assert_eq!(token.balance(&owner), 300);
    assert_eq!(token.allowance(1, &owner, &spender), 0);
}

#[test]
fn burn_refuses_in_order() {
    let admin = Identity::from_key("admin");
    let a = Identity::from_key("a");
    let mut token = initialized(&admin);
    token.mint(&AuthOracle::Everyone, &a, 10).unwrap();
    assert_eq!(token.burn(&AuthOracle::Only(admin.clone()), &a, 1), Err(TokenError::Unauthorized));
    assert_eq!(token.burn(&AuthOracle::Only(a.clone()), &a, -1), Err(TokenError::InvalidAmount));
    assert_eq!(
        token.burn(&AuthOracle::Only(a.clone()), &a, 11),
        Err(TokenError::InsufficientBalance)
    );
    assert_eq!(token.burn(&AuthOracle::Only(a.clone()), &a, 10), Ok(()));
    assert_eq!(token.balance(&a), 0);
}

#[test]
fn after_a_rotation_only_the_new_administrator_can_mint() {
    let admin = Identity::from_key("admin");
    let new_admin = Identity::from_key("new_admin");
    let user = Identity::from_key("user");
    let mut token = initialized(&admin);

    assert!(matches!(
        token.set_admin(&AuthOracle::Only(new_admin.clone()), new_admin.clone()),
        Err(TokenError::Unauthorized)
    ));
    assert!(token.admin().is_administrator(&admin));

    let event = token.set_admin(&AuthOracle::Only(admin.clone()), new_admin.clone()).unwrap();
    assert_eq!(event.old_admin, admin);
    assert_eq!(event.new_admin, new_admin);
    assert!(token.admin().is_administrator(&new_admin));
    assert_eq!(token.admin().read_administrator(), Ok(new_admin.clone()));

    assert_eq!(
        token.mint(&AuthOracle::Only(admin.clone()), &user, 1000),
        Err(TokenError::Unauthorized)
    );
    assert_eq!(token.balance(&user), 0);
    assert_eq!(token.mint(&AuthOracle::Only(new_admin.clone()), &user, 1000), Ok(()));
    assert_eq!(token.balance(&user), 1000);
    assert_eq!(
        token.freeze(&AuthOracle::Only(admin.clone()), &user),
        Err(TokenError::Unauthorized)
    );
}

#[test]
fn an_upgrade_is_the_administrators_alone() {
    let admin = Identity::from_key("admin");
    let non_admin = Identity::from_key("non_admin");
    let token = initialized(&admin);
    let hash = [7u8; 32];

    assert!(matches!(
        token.upgrade(&AuthOracle::Everyone, &non_admin, hash),
        Err(TokenError::Unauthorized)
    ));
    assert!(matches!(
        token.upgrade(&AuthOracle::Only(non_admin.clone()), &non_admin, hash),
        Err(TokenError::Unauthorized)
    ));
    assert!(matches!(
        token.upgrade(&AuthOracle::Nobody, &admin, hash),
        Err(TokenError::Unauthorized)
    ));
    assert!(matches!(
        token.upgrade(&AuthOracle::Only(non_admin.clone()), &admin, hash),
        Err(TokenError::Unauthorized)
    ));
    let event = token.upgrade(&AuthOracle::Only(admin.clone()), &admin, hash).unwrap();
    assert_eq!(event.admin, admin);
    assert_eq!(event.new_wasm_hash, [7u8; 32]);
}

#[test]
fn a_ledger_from_parts_holds_what_the_parts_hold() {
    let admin = Identity::from_key("admin");
    let a = Identity::from_key("a");
    let b = Identity::from_key("b");
    let mut registry = AdminRegistry::new();
    registry.write_administrator(admin.clone());
    let mut metadata = MetadataStore::new();
    metadata.write_metadata(3, String::from("Name"), String::from("SYM"));
    let mut balances = BalanceLedger::new();
    balances.receive_balance(&a, 40).unwrap();
    balances.write_state(&b, true);
    let mut allowances = AllowanceRegistry::new();
    allowances.write_allowance(&a, &b, 9, 100).unwrap();

    let token = LumenToken::from_parts(registry, metadata, balances, allowances);
    assert!(token.admin().is_administrator(&admin));
    assert_eq!(token.metadata().read_decimal(), Ok(3));
    assert_eq!(token.decimals(), Ok(3));
    assert_eq!(token.name(), Ok(String::from("Name")));
    assert_eq!(token.symbol(), Ok(String::from("SYM")));
    assert_eq!(token.balance(&a), 40);
    assert!(token.balances().read_state(&b));
    assert_eq!(token.allowance(100, &a, &b), 9);
    assert_eq!(token.allowance(101, &a, &b), 0);
}

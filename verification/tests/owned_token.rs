use owned_token::erc20::{Approval, Transfer};
use owned_token::ownable::OwnershipChanged;
use owned_token::{Address, Error, OwnedToken, U256};

const NAME: &str = "Plascoin";
const SYMBOL: &str = "PLS";
const DECIMALS: u8 = 10;
const INITIAL_SUPPLY: u32 = 10_000;

/// The nth account of odra's test environment, as an address of the library.
fn account(n: usize) -> Address {
    let bytes = odra::types::MockVMType::ser(&odra::test_env::get_account(n)).unwrap();
    Address::new(u64::from_le_bytes(bytes.try_into().unwrap()))
}

/// The value that odra's `U256` gives for a computation.
fn amount_of(value: odra::types::U256) -> U256 {
    U256(value.0)
}

/// A token that account 0 has initialized, with what the initialization
/// emitted.
fn setup() -> (OwnedToken, (OwnershipChanged, Transfer)) {
    let mut token = OwnedToken::new();
    let emitted = token
        .init(
            account(0),
            NAME.to_string(),
            SYMBOL.to_string(),
            DECIMALS,
            INITIAL_SUPPLY.into(),
        )
        .unwrap();
    (token, emitted)
}

#[test]
fn init_works() {
    let (token, emitted) = setup();
    let owner = account(0);
    assert_eq!(&token.symbol(), SYMBOL);
    assert_eq!(token.decimals(), DECIMALS);
    assert_eq!(token.total_supply(), INITIAL_SUPPLY.into());
    assert_eq!(token.balance_of(owner), INITIAL_SUPPLY.into());
    assert_eq!(
        emitted,
        (
            OwnershipChanged {
                prev_owner: None,
                new_owner: owner
            },
            Transfer {
                from: None,
                to: Some(owner),
                amount: INITIAL_SUPPLY.into()
            }
        )
    );
}

#[test]
fn mint_works() {
    let (mut token, _) = setup();
    let recipient = account(1);
    let amount: U256 = 10.into();
    token.mint(account(0), recipient, amount).unwrap();
    assert_eq!(
        token.total_supply(),
        amount_of(odra::types::U256::from(INITIAL_SUPPLY) + odra::types::U256(amount.0))
    );
    assert_eq!(token.balance_of(recipient), amount);
}

#[test]
fn mint_error() {
    let (mut token, _) = setup();
    let recipient = account(1);
    let amount: U256 = 10.into();
    assert_eq!(
        token.mint(recipient, recipient, amount),
        Err(Error::NotOwner)
    );
}

#[test]
fn burn_works() {
    let (mut token, _) = setup();
    let recipient = account(1);
    let amount: U256 = 10.into();
    token.mint(account(0), recipient, amount).unwrap();
    assert_eq!(
        token.total_supply(),
        amount_of(odra::types::U256::from(INITIAL_SUPPLY) + odra::types::U256(amount.0))
    );
    assert_eq!(token.balance_of(recipient), amount);
}

#[test]
fn burn_error() {
    let (mut token, _) = setup();
    let recipient = account(1);
    let amount: U256 = 10.into();
    assert_eq!(
        token.mint(recipient, recipient, amount),
        Err(Error::NotOwner)
    );
}

#[test]
fn change_ownership_works() {
    let (mut token, _) = setup();
    let new_owner = account(1);
    token.change_ownership(account(0), new_owner).unwrap();
    assert_eq!(token.get_owner(), Ok(new_owner));
}

#[test]
fn change_ownership_error() {
    let (mut token, _) = setup();
    let new_owner = account(1);
    assert_eq!(
        token.change_ownership(new_owner, new_owner),
        Err(Error::NotOwner)
    );
}

#[test]
fn a_new_token_is_empty() {
    let token = OwnedToken::new();
    assert_eq!(token.name(), "");
    assert_eq!(token.symbol(), "");
    assert_eq!(token.decimals(), 0);
    assert!(token.total_supply().is_zero());
    assert!(token.balance_of(account(0)).is_zero());
    assert!(token.allowance(account(0), account(1)).is_zero());
    assert_eq!(token.get_owner(), Err(Error::OwnerNotInitialized));
}

#[test]
fn init_names_the_token() {
    let (token, _) = setup();
    assert_eq!(token.name(), NAME);
    assert_eq!(token.get_owner(), Ok(account(0)));
}

#[test]
fn second_init_is_refused_and_changes_nothing() {
    let (mut token, _) = setup();
    let again = token.init(
        account(1),
        "Other".to_string(),
        "OTH".to_string(),
        2,
        U256::from(5),
    );
    assert_eq!(again, Err(Error::OwnerAlreadyInitialized));
    assert_eq!(token.get_owner(), Ok(account(0)));
    assert_eq!(token.name(), NAME);
    assert_eq!(token.symbol(), SYMBOL);
    assert_eq!(token.decimals(), DECIMALS);
    assert_eq!(token.total_supply(), INITIAL_SUPPLY.into());
    assert!(token.balance_of(account(1)).is_zero());
}

#[test]
fn burn_takes_tokens_out_of_the_supply() {
    let (mut token, _) = setup();
    let owner = account(0);
    let emitted = token.burn(owner, owner, U256::from(2_500));
    assert_eq!(
        emitted,
        Ok(Transfer {
            from: Some(owner),
            to: None,
            amount: U256::from(2_500)
        })
    );
    assert_eq!(token.total_supply(), U256::from(7_500));
    assert_eq!(token.balance_of(owner), U256::from(7_500));
}

#[test]
fn burn_by_another_account_is_refused() {
    let (mut token, _) = setup();
    let (owner, other) = (account(0), account(1));
    assert_eq!(
        token.burn(other, owner, U256::from(1)),
        Err(Error::NotOwner)
    );
    assert_eq!(token.total_supply(), INITIAL_SUPPLY.into());
    assert_eq!(token.balance_of(owner), INITIAL_SUPPLY.into());
}

#[test]
fn burn_of_more_than_the_balance_is_refused() {
    let (mut token, _) = setup();
    let (owner, other) = (account(0), account(1));
    token.mint(owner, other, U256::from(10)).unwrap();
    assert_eq!(
        token.burn(owner, other, U256::from(11)),
        Err(Error::ArithmeticUnderflow)
    );
    assert_eq!(token.total_supply(), U256::from(10_010));
    assert_eq!(token.balance_of(other), U256::from(10));
    // All of it can go.
    token.burn(owner, other, U256::from(10)).unwrap();
    assert!(token.balance_of(other).is_zero());
    assert_eq!(token.total_supply(), INITIAL_SUPPLY.into());
}

#[test]
fn mint_beyond_the_largest_supply_is_refused() {
    let (mut token, _) = setup();
    let owner = account(0);
    let largest = U256([u64::MAX; 4]);
    assert_eq!(
        token.mint(owner, account(1), largest),
        Err(Error::ArithmeticOverflow)
    );
    assert_eq!(token.total_supply(), INITIAL_SUPPLY.into());
    assert!(token.balance_of(account(1)).is_zero());

    // Up to the largest supply it is accepted.
    let room = amount_of(odra::types::U256::MAX - odra::types::U256::from(INITIAL_SUPPLY));
    token.mint(owner, account(1), room).unwrap();
    assert_eq!(token.total_supply(), largest);
    assert_eq!(token.balance_of(account(1)), room);
    assert_eq!(
        token.mint(owner, account(2), U256::from(1)),
        Err(Error::ArithmeticOverflow)
    );
    assert_eq!(token.total_supply(), largest);
}

#[test]
fn refused_mint_by_another_account_changes_nothing() {
    let (mut token, _) = setup();
    let other = account(4);
    assert_eq!(
        token.mint(other, other, U256::from(10)),
        Err(Error::NotOwner)
    );
    assert_eq!(token.total_supply(), INITIAL_SUPPLY.into());
    assert!(token.balance_of(other).is_zero());
    assert_eq!(token.get_owner(), Ok(account(0)));
}

#[test]
fn nobody_mints_before_init() {
    let mut token = OwnedToken::new();
    assert_eq!(
        token.mint(account(0), account(0), U256::from(1)),
        Err(Error::NotOwner)
    );
    assert_eq!(
        token.burn(account(0), account(0), U256::from(0)),
        Err(Error::NotOwner)
    );
    assert!(token.total_supply().is_zero());
}

#[test]
fn new_owner_mints_and_old_owner_does_not() {
    let (mut token, _) = setup();
    let (old_owner, new_owner) = (account(0), account(1));
    assert_eq!(
        token.change_ownership(old_owner, new_owner),
        Ok(OwnershipChanged {
            prev_owner: Some(old_owner),
            new_owner
        })
    );
    assert_eq!(
        token.mint(old_owner, old_owner, U256::from(1)),
        Err(Error::NotOwner)
    );
    token.mint(new_owner, old_owner, U256::from(1)).unwrap();
    assert_eq!(token.total_supply(), U256::from(10_001));
    // Changing the owner moved no tokens.
    assert!(token.balance_of(new_owner).is_zero());
}

#[test]
fn transfers_need_no_ownership() {
    let (mut token, _) = setup();
    let (owner, holder, spender) = (account(0), account(1), account(2));
    token.transfer(owner, holder, U256::from(400)).unwrap();
    assert_eq!(
        token.transfer(holder, spender, U256::from(100)),
        Ok(Transfer {
            from: Some(holder),
            to: Some(spender),
            amount: U256::from(100)
        })
    );
    assert_eq!(
        token.approve(holder, spender, U256::from(50)),
        Approval {
            owner: holder,
            spender,
            value: U256::from(50)
        }
    );
    assert_eq!(token.allowance(holder, spender), U256::from(50));
    let emitted = token.transfer_from(spender, holder, owner, U256::from(20));
    assert_eq!(
        emitted,
        Ok((
            Approval {
                owner: holder,
                spender,
                value: U256::from(30)
            },
            Transfer {
                from: Some(holder),
                to: Some(owner),
                amount: U256::from(20)
            }
        ))
    );
    assert_eq!(token.balance_of(owner), U256::from(9_620));
    assert_eq!(token.balance_of(holder), U256::from(280));
    assert_eq!(token.balance_of(spender), U256::from(100));
    assert_eq!(token.total_supply(), INITIAL_SUPPLY.into());
    assert_eq!(
        token.transfer(spender, owner, U256::from(101)),
        Err(Error::InsufficientBalance)
    );
    assert_eq!(
        token.transfer_from(spender, holder, owner, U256::from(31)),
        Err(Error::InsufficientAllowance)
    );
}

use valence_coordinator::positions::{
    first_credit_account, lending_amount, lending_denom_amount, Account, Coin, PositionError,
    Positions,
};

fn coin(denom: &str, amount: u128) -> Coin {
    Coin { denom: denom.to_string(), amount }
}

fn account(id: &str) -> Account {
    Account { id: id.to_string(), kind: "default".to_string() }
}

fn positions_of_two() -> Positions {
    Positions {
        account_id: "2".to_string(),
        deposits: vec![],
        debts: vec![],
        lends: vec![coin("untrn", 500), coin("usdc", 100)],
    }
}

#[test]
fn lent_denom_is_found() {
    let accounts = vec![account("2")];
    let r = lending_denom_amount("neutron1abc", &accounts, &positions_of_two(), "usdc");
    assert!(matches!(r, Ok(100)));
    let r = lending_denom_amount("neutron1abc", &accounts, &positions_of_two(), "untrn");
    assert!(matches!(r, Ok(500)));
}

#[test]
fn missing_denom_is_an_error() {
    let accounts = vec![account("2")];
    let r = lending_denom_amount("neutron1abc", &accounts, &positions_of_two(), "atom");
    match r {
        Err(PositionError::DenomNotLent { denom }) => assert_eq!(denom, "atom"),
        other => panic!("unexpected {:?}", other),
    }
}

#[test]
fn owner_without_accounts_is_an_error() {
    let r = lending_denom_amount("neutron1abc", &vec![], &positions_of_two(), "usdc");
    match r {
        Err(PositionError::NoCreditAccount { owner }) => assert_eq!(owner, "neutron1abc"),
        other => panic!("unexpected {:?}", other),
    }
}

#[test]
fn first_account_is_selected() {
    let accounts = vec![account("7"), account("9")];
    assert_eq!(first_credit_account("neutron1abc", &accounts).unwrap(), "7");
    assert!(first_credit_account("neutron1abc", &vec![]).is_err());
}

#[test]
fn first_matching_lend_wins() {
    let p = Positions {
        account_id: "2".to_string(),
        deposits: vec![coin("usdc", 1)],
        debts: vec![coin("usdc", 2)],
        lends: vec![coin("atom", 3), coin("usdc", 4), coin("usdc", 5)],
    };
    assert_eq!(lending_amount(&p, "usdc").unwrap(), 4);
    assert!(lending_amount(&p, "untrn").is_err());
}

#[test]
fn empty_lends_give_an_error() {
    let p = Positions {
        account_id: "2".to_string(),
        deposits: vec![coin("usdc", 1)],
        debts: vec![],
        lends: vec![],
    };
    assert!(lending_amount(&p, "usdc").is_err());
}

use genetix::token::{burn_from, mint_to, transfer, TokenAccount};

#[test]
fn transfer_conserves_the_total() {
    let mut from = TokenAccount { owner: 1, mint: 7, amount: 1_000 };
    let mut to = TokenAccount { owner: 2, mint: 7, amount: 50 };
    transfer(&mut from, &mut to, 400);
    assert_eq!(from.amount, 600);
    assert_eq!(to.amount, 450);
    assert_eq!(from.amount + to.amount, 1_050);
    assert_eq!(from.owner, 1);
    assert_eq!(to.owner, 2);
}

#[test]
fn minting_and_burning_move_only_the_amount() {
    let mut account = TokenAccount { owner: 1, mint: 7, amount: 10 };
    mint_to(&mut account, 5);
    assert_eq!(account.amount, 15);
    burn_from(&mut account, 15);
    assert_eq!(account.amount, 0);
    assert_eq!(account.mint, 7);
}

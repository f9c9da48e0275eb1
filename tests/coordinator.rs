use magink::account::AccountId;
use magink::magink::{CallError, Error, Magink};
use magink::wizard::{Id, LedgerError};

fn alice() -> AccountId {
    AccountId([0x01; 32])
}

fn bob() -> AccountId {
    AccountId([0x02; 32])
}

fn wizard_account() -> AccountId {
    AccountId([0x07; 32])
}

#[test]
fn start_works() {
    let mut magink = Magink::new(AccountId([0x01; 32]));
    let mut block: u32 = 1;
    println!("get {:?}", magink.get_remaining(alice(), block));

    magink.start(alice(), block, 10);
    assert_eq!(10, magink.get_remaining(alice(), block));

    block += 1;
    assert_eq!(9, magink.get_remaining(alice(), block));
}

#[test]
fn claim_works() {
    const ERA: u32 = 10;
    let mut magink = Magink::new(AccountId([0x01; 32]));
    let mut block: u32 = 1;

    magink.start(alice(), block, ERA as u8);

    block += ERA - 1;
    assert_eq!(1, magink.get_remaining(alice(), block));

    // too early
    assert_eq!(Err(Error::TooEarlyToClaim), magink.claim(alice(), block));

    block += 1;
    assert_eq!(Ok(()), magink.claim(alice(), block));
    assert_eq!(1, magink.get_badges(alice()));
    assert_eq!(1, magink.get_badges_for(alice()));
    assert_eq!(1, magink.get_badges(alice()));
    assert_eq!(10, magink.get_remaining(alice(), block));

    // too early again: the claim opened a new era
    assert_eq!(Err(Error::TooEarlyToClaim), magink.claim(alice(), block));

    block += 1;
    assert_eq!(9, magink.get_remaining(alice(), block));

    assert_eq!(Err(Error::TooEarlyToClaim), magink.claim(alice(), block));
}

#[test]
fn mint_check_works_offchain_contract_call_fails() {
    const ERA: u32 = 3;
    let mut magink = Magink::new(AccountId([0x01; 32]));
    let mut block: u32 = 1;

    magink.start(alice(), block, ERA as u8);

    assert_eq!(3, magink.get_remaining(alice(), block));
    assert_eq!(0, magink.get_badges(alice()));

    block += 1;
    assert_eq!(2, magink.get_remaining(alice(), block));
    block += 1;
    assert_eq!(1, magink.get_remaining(alice(), block));
    block += 1;
    assert_eq!(0, magink.get_remaining(alice(), block));

    // no badge collected yet
    assert!(magink.mint_request(alice()).is_err());
    assert_eq!(
        magink.mint_request(alice()).map(|_| ()),
        Err(Error::NotAllBadgesCollected)
    );
    assert_eq!(
        magink.mint_wizard(alice(), Ok(())),
        Err(Error::NotAllBadgesCollected)
    );

    assert_eq!(Ok(()), magink.claim(alice(), block));
    assert_eq!(3, magink.get_remaining(alice(), block));
    assert_eq!(1, magink.get_badges(alice()));

    block += 1;
    assert_eq!(2, magink.get_remaining(alice(), block));
    block += 1;
    assert_eq!(1, magink.get_remaining(alice(), block));
    block += 1;
    assert_eq!(0, magink.get_remaining(alice(), block));

    assert_eq!(1, magink.get_badges(alice()));

    // the call to the collection does not complete: nothing is spent
    assert!(magink.mint_request(alice()).is_ok());
    assert_eq!(
        magink.mint_wizard(alice(), Err(CallError::NotCompleted)),
        Err(Error::CallFailed)
    );
    assert_eq!(1, magink.get_badges(alice()));
}

#[test]
fn scenario_claim_at_era_boundary() {
    let mut magink = Magink::new(wizard_account());
    magink.start(alice(), 100, 10);
    assert_eq!(10, magink.get_remaining(alice(), 100));
    assert_eq!(1, magink.get_remaining(alice(), 109));
    assert_eq!(Err(Error::TooEarlyToClaim), magink.claim(alice(), 109));
    assert_eq!(Ok(()), magink.claim(alice(), 110));
    assert_eq!(1, magink.get_badges(alice()));
    assert_eq!(10, magink.get_remaining(alice(), 110));
    assert_eq!(Err(Error::TooEarlyToClaim), magink.claim(alice(), 119));
    assert_eq!(Ok(()), magink.claim(alice(), 120));
    assert_eq!(2, magink.get_badges(alice()));
}

#[test]
fn scenario_mint_spends_the_badge() {
    let mut magink = Magink::new(wizard_account());
    magink.start(alice(), 50, 5);
    assert_eq!(0, magink.get_badges(alice()));
    assert_eq!(
        magink.mint_request(alice()).map(|_| ()),
        Err(Error::NotAllBadgesCollected)
    );
    assert_eq!(Ok(()), magink.claim(alice(), 55));
    let call = magink.mint_request(alice()).unwrap();
    assert_eq!(call.ledger, wizard_account());
    assert_eq!(call.account, alice());
    assert_eq!(call.id, Id::U64(1));
    assert_eq!(Ok(()), magink.mint_wizard(alice(), Ok(())));
    assert_eq!(0, magink.get_badges(alice()));
    assert_eq!(
        magink.mint_wizard(alice(), Ok(())),
        Err(Error::NotAllBadgesCollected)
    );
}

#[test]
fn mint_ids_advance_only_on_success() {
    let mut magink = Magink::new(wizard_account());
    magink.start(alice(), 0, 0);
    assert_eq!(Ok(()), magink.claim(alice(), 0));
    assert_eq!(Ok(()), magink.claim(alice(), 0));
    assert_eq!(2, magink.get_badges(alice()));
    assert_eq!(
        magink.mint_wizard(alice(), Err(CallError::Rejected(LedgerError::CollectionFull))),
        Err(Error::MintFailed(LedgerError::CollectionFull))
    );
    assert_eq!(magink.mint_request(alice()).unwrap().id, Id::U64(1));
    assert_eq!(Ok(()), magink.mint_wizard(alice(), Ok(())));
    assert_eq!(magink.mint_request(alice()).unwrap().id, Id::U64(2));
    assert_eq!(Ok(()), magink.mint_wizard(alice(), Ok(())));
    assert_eq!(0, magink.get_badges(alice()));
}

#[test]
fn unknown_account_reads_zero() {
    let magink = Magink::new(wizard_account());
    assert_eq!(0, magink.get_remaining_for(bob(), 1_000));
    assert_eq!(0, magink.get_remaining(bob(), 0));
    assert_eq!(0, magink.get_badges_for(bob()));
    assert_eq!(None, magink.get_account_profile(bob()));
    assert_eq!(None, magink.get_profile(bob()));
}

#[test]
fn claim_without_profile_is_user_not_found() {
    let mut magink = Magink::new(wizard_account());
    assert_eq!(Err(Error::UserNotFound), magink.claim(bob(), 7));
    assert_eq!(None, magink.get_profile(bob()));
}

#[test]
fn restart_forfeits_badges() {
    let mut magink = Magink::new(wizard_account());
    magink.start(alice(), 10, 2);
    assert_eq!(Ok(()), magink.claim(alice(), 12));
    assert_eq!(1, magink.get_badges(alice()));
    magink.start(alice(), 13, 4);
    assert_eq!(0, magink.get_badges(alice()));
    assert_eq!(4, magink.get_remaining(alice(), 13));
    let p = magink.get_profile(alice()).unwrap();
    assert_eq!(p.claim_era, 4);
    assert_eq!(p.start_block, 13);
    assert_eq!(p.badges_claimed, 0);
}

#[test]
fn accounts_are_independent() {
    let mut magink = Magink::new(wizard_account());
    magink.start(alice(), 0, 3);
    magink.start(bob(), 1, 1);
    assert_eq!(Ok(()), magink.claim(bob(), 2));
    assert_eq!(1, magink.get_badges_for(bob()));
    assert_eq!(0, magink.get_badges_for(alice()));
    assert_eq!(1, magink.get_remaining_for(alice(), 2));
    assert_eq!(1, magink.get_remaining_for(bob(), 2));
}

#[test]
fn largest_era_and_late_blocks() {
    let mut magink = Magink::new(wizard_account());
    magink.start(alice(), u32::MAX - 300, u8::MAX);
    assert_eq!(255, magink.get_remaining(alice(), u32::MAX - 300));
    assert_eq!(1, magink.get_remaining(alice(), u32::MAX - 46));
    assert_eq!(0, magink.get_remaining(alice(), u32::MAX - 45));
    assert_eq!(0, magink.get_remaining(alice(), u32::MAX));
    assert_eq!(Ok(()), magink.claim(alice(), u32::MAX));
    assert_eq!(255, magink.get_remaining(alice(), u32::MAX));
}

#[test]
fn zero_era_is_claimable_at_once() {
    let mut magink = Magink::new(wizard_account());
    magink.start(alice(), 5, 0);
    assert_eq!(0, magink.get_remaining(alice(), 5));
    assert_eq!(Ok(()), magink.claim(alice(), 5));
    assert_eq!(1, magink.get_badges(alice()));
}

#[test]
fn account_comparison() {
    assert!(alice().same_as(&AccountId([0x01; 32])));
    assert!(!alice().same_as(&bob()));
    let mut almost = [0x01; 32];
    almost[31] = 0x02;
    assert!(!alice().same_as(&AccountId(almost)));
    assert_eq!(magink_wizard_target(), wizard_account());
}

fn magink_wizard_target() -> AccountId {
    Magink::new(wizard_account()).wizard_contract_account_id()
}

use pallet_faucet::{ensure_signed, Config, DispatchError, Error, Event, Origin, Pallet};

const ALICE: u64 = 1;
const BOB: u64 = 2;
const EXISTENTIAL_DEPOSIT: u128 = 500;
const MAX_BALANCE: u128 = 2_000;
const MIN_INTERVAL: u64 = 10;

/// A ledger in miniature around one faucet: free balances, the total
/// issuance, the block number and the event log.
struct Chain {
    faucet: Pallet,
    balances: Vec<(u64, u128)>,
    issuance: u128,
    block: u64,
    events: Vec<Event>,
}

impl Chain {
    fn new(balances: Vec<(u64, u128)>) -> Chain {
        let issuance = balances.iter().map(|(_, b)| *b).sum();
        Chain {
            faucet: Pallet::new(Config { max_balance: MAX_BALANCE, min_interval: MIN_INTERVAL }),
            balances,
            issuance,
            block: 0,
            events: Vec::new(),
        }
    }

    fn free_balance(&self, who: u64) -> u128 {
        self.balances.iter().find(|(a, _)| *a == who).map(|(_, b)| *b).unwrap_or(0)
    }

    fn set_balance(&mut self, who: u64, balance: u128) {
        self.balances.retain(|(a, _)| *a != who);
        self.balances.push((who, balance));
    }

    fn slash(&mut self, who: u64, amount: u128) {
        let balance = self.free_balance(who);
        self.set_balance(who, balance - amount);
        self.issuance -= amount;
    }

    fn kill(&mut self, who: u64) {
        let balance = self.free_balance(who);
        self.balances.retain(|(a, _)| *a != who);
        self.issuance -= balance;
        self.faucet.on_killed_account(&who);
    }

    fn mint(&mut self, origin: Origin) -> Result<(), DispatchError> {
        let who = ensure_signed(origin)?;
        let balance = self.free_balance(who);
        let event = self.faucet.mint(origin, self.block, balance)?;
        let Event::Minted { who, amount } = event;
        self.set_balance(who, balance + amount);
        self.issuance += amount;
        self.events.push(event);
        Ok(())
    }

    fn snapshot(&self) -> (Vec<(u64, u128)>, u128, Vec<Event>, Option<u64>, Option<u64>) {
        let mut balances = self.balances.clone();
        balances.sort();
        (
            balances,
            self.issuance,
            self.events.clone(),
            self.faucet.last_mint(ALICE),
            self.faucet.last_mint(BOB),
        )
    }

    /// Makes the call and checks that it fails with `expected` and leaves
    /// everything as it was.
    fn assert_noop(&mut self, origin: Origin, expected: DispatchError) {
        let before = self.snapshot();
        assert_eq!(self.mint(origin), Err(expected));
        assert_eq!(self.snapshot(), before);
    }
}

#[test]
fn mint() {
    let mut chain = Chain::new(vec![(ALICE, EXISTENTIAL_DEPOSIT)]);
    let block = 1;
    chain.block = block;

    assert_eq!(chain.mint(Origin::Signed(ALICE)), Ok(()));
    assert_eq!(chain.free_balance(ALICE), MAX_BALANCE);
    assert_eq!(chain.faucet.last_mint(ALICE), Some(block));

    let amount = MAX_BALANCE - EXISTENTIAL_DEPOSIT;
    assert_eq!(chain.events.last(), Some(&Event::Minted { who: ALICE, amount }));
}

#[test]
fn mint_twice() {
    let mut chain = Chain::new(vec![]);
    let _ = chain.mint(Origin::Signed(ALICE));
    chain.slash(ALICE, 1);

    let block = MIN_INTERVAL;
    chain.block = block;

    assert_eq!(chain.mint(Origin::Signed(ALICE)), Ok(()));
    assert_eq!(chain.free_balance(ALICE), MAX_BALANCE);
    assert_eq!(chain.faucet.last_mint(ALICE), Some(block));

    assert_eq!(chain.events.last(), Some(&Event::Minted { who: ALICE, amount: 1 }));
}

#[test]
fn must_be_signed() {
    let mut chain = Chain::new(vec![]);
    chain.assert_noop(Origin::Unsigned, DispatchError::BadOrigin);
}

#[test]
fn high_balance() {
    let mut chain = Chain::new(vec![(ALICE, MAX_BALANCE)]);
    chain.assert_noop(Origin::Signed(ALICE), DispatchError::Module(Error::HighBalance));
}

#[test]
fn short_interval() {
    let mut chain = Chain::new(vec![]);
    let _ = chain.mint(Origin::Signed(ALICE));
    chain.slash(ALICE, 1);

    chain.block = MIN_INTERVAL - 1;

    chain.assert_noop(Origin::Signed(ALICE), DispatchError::Module(Error::RecentlyMinted));
}

#[test]
fn first_mint_tops_up_to_the_ceiling() {
    let mut chain = Chain::new(vec![(ALICE, EXISTENTIAL_DEPOSIT), (BOB, 7)]);
    chain.block = 1;
    assert_eq!(chain.mint(Origin::Signed(ALICE)), Ok(()));
    assert_eq!(chain.free_balance(ALICE), 2_000);
    assert_eq!(chain.issuance, 2_007);
    assert_eq!(chain.events, vec![Event::Minted { who: ALICE, amount: 1_500 }]);
    assert_eq!(chain.faucet.last_mint(ALICE), Some(1));
    assert_eq!(chain.free_balance(BOB), 7);
    assert_eq!(chain.faucet.last_mint(BOB), None);
}

#[test]
fn second_mint_after_the_cooldown_from_block_one() {
    let mut chain = Chain::new(vec![(ALICE, EXISTENTIAL_DEPOSIT)]);
    chain.block = 1;
    assert_eq!(chain.mint(Origin::Signed(ALICE)), Ok(()));
    chain.slash(ALICE, 1);
    assert_eq!(chain.free_balance(ALICE), 1_999);

    chain.block = MIN_INTERVAL;
    chain.assert_noop(Origin::Signed(ALICE), DispatchError::Module(Error::RecentlyMinted));
    assert_eq!(chain.faucet.last_mint(ALICE), Some(1));

    chain.block = 1 + MIN_INTERVAL;
    assert_eq!(chain.mint(Origin::Signed(ALICE)), Ok(()));
    assert_eq!(chain.free_balance(ALICE), MAX_BALANCE);
    assert_eq!(chain.faucet.last_mint(ALICE), Some(11));
    assert_eq!(chain.events.last(), Some(&Event::Minted { who: ALICE, amount: 1 }));
}

#[test]
fn root_is_no_signed_account() {
    let mut chain = Chain::new(vec![(ALICE, EXISTENTIAL_DEPOSIT)]);
    chain.assert_noop(Origin::Root, DispatchError::BadOrigin);
}

#[test]
fn balance_above_the_ceiling_is_rejected() {
    let mut chain = Chain::new(vec![(ALICE, MAX_BALANCE + 1)]);
    chain.assert_noop(Origin::Signed(ALICE), DispatchError::Module(Error::HighBalance));
}

#[test]
fn repeated_rejections_change_nothing() {
    let mut chain = Chain::new(vec![(ALICE, EXISTENTIAL_DEPOSIT), (BOB, MAX_BALANCE)]);
    chain.block = 3;
    assert_eq!(chain.mint(Origin::Signed(ALICE)), Ok(()));
    chain.slash(ALICE, 100);
    let before = chain.snapshot();
    for block in 3..3 + MIN_INTERVAL {
        chain.block = block;
        assert_eq!(
            chain.mint(Origin::Signed(ALICE)),
            Err(DispatchError::Module(Error::RecentlyMinted))
        );
        assert_eq!(
            chain.mint(Origin::Signed(BOB)),
            Err(DispatchError::Module(Error::HighBalance))
        );
        assert_eq!(chain.mint(Origin::Unsigned), Err(DispatchError::BadOrigin));
        assert_eq!(chain.mint(Origin::Root), Err(DispatchError::BadOrigin));
        assert_eq!(chain.snapshot(), before);
    }
}

#[test]
fn killed_account_loses_its_record() {
    let mut chain = Chain::new(vec![(ALICE, EXISTENTIAL_DEPOSIT)]);
    chain.block = 1;
    assert_eq!(chain.mint(Origin::Signed(ALICE)), Ok(()));
    assert_eq!(chain.mint(Origin::Signed(BOB)), Ok(()));
    assert_eq!(chain.faucet.last_mint(ALICE), Some(1));

    chain.kill(ALICE);
    assert_eq!(chain.faucet.last_mint(ALICE), None);
    assert_eq!(chain.faucet.last_mint(BOB), Some(1));

    // The same identity, made anew within the old cooldown, has no record
    // to wait for.
    chain.block = 2;
    assert_eq!(chain.mint(Origin::Signed(ALICE)), Ok(()));
    assert_eq!(chain.free_balance(ALICE), MAX_BALANCE);
    assert_eq!(chain.faucet.last_mint(ALICE), Some(2));
    assert_eq!(chain.events.last(), Some(&Event::Minted { who: ALICE, amount: MAX_BALANCE }));
}

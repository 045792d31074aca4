use bet::engine::{FetchPrice, Module};
use bet::ledger::Balances;
use bet::position::Betting;

struct Price<const P: u64>;

impl<const P: u64> FetchPrice<u64> for Price<P> {
    fn fetch_price() -> u64 {
        P
    }
}

struct Chain {
    bet: Module,
    balances: Balances,
    block: u64,
}

fn new_test_ext() -> Chain {
    let bet = Module::new(5, 2, 10, 120).unwrap();
    let mut balances = Balances::new();
    for (who, amount) in [(1, 10), (2, 20), (3, 30), (4, 40)] {
        balances.make_free_balance_be(who, amount);
    }
    Chain { bet, balances, block: 0 }
}

fn account_is_liquid(chain: &Chain, who: u64) -> bool {
    chain.balances.is_liquid(who)
}

// Run until a particular block.
fn run_to_block<P: FetchPrice<u64>>(chain: &mut Chain, n: u64) {
    while chain.block < n {
        if chain.block > 1 {
            chain.bet.on_finalize::<P>(chain.block).unwrap();
        }
        chain.block += 1;
    }
}

// Run until the next bet index.
fn run_to_next_index<P: FetchPrice<u64>>(chain: &mut Chain) {
    let i = chain.bet.index();
    while chain.bet.index() == i {
        chain.bet.on_finalize::<P>(chain.block).unwrap();
        chain.block += 1;
    }
}

fn bet(chain: &mut Chain, who: u64) {
    assert_eq!(chain.bet.bet(Some(who), &mut chain.balances), Ok(()));
}

fn unbet(chain: &mut Chain, who: u64) {
    assert_eq!(chain.bet.unbet(Some(who), &mut chain.balances), Ok(()));
}

fn collect(chain: &mut Chain, who: u64) {
    assert_eq!(chain.bet.collect(Some(who), &mut chain.balances), Ok(()));
}

#[test]
fn config_works() {
    let chain = new_test_ext();
    assert_eq!(chain.bet.period(), 5);
    assert_eq!(chain.bet.samples(), 2);
    assert_eq!(chain.bet.target_attenuation(), 10);
    assert_eq!(chain.bet.target(), 120);
    assert_eq!(chain.bet.index(), 0);
    assert_eq!(chain.bet.bets(0), Betting::default());
    assert_eq!(chain.bet.prices(), Vec::<u64>::new());
    assert_eq!(chain.bet.pot(), 0);
    assert_eq!(chain.bet.total(), 0);
    assert_eq!(chain.bet.payouts(0), None);
}

#[test]
fn price_sampling_works() {
    let mut chain = new_test_ext();
    chain.bet.total = 1;

    run_to_block::<Price<100>>(&mut chain, 1);
    assert_eq!(chain.bet.prices(), Vec::<u64>::new());

    run_to_block::<Price<120>>(&mut chain, 2);
    assert_eq!(chain.bet.prices(), Vec::<u64>::new());
    // Take sample at the end of block 2: 80

    run_to_block::<Price<80>>(&mut chain, 3);
    assert_eq!(chain.bet.prices(), vec![80]);

    run_to_block::<Price<140>>(&mut chain, 4);
    assert_eq!(chain.bet.prices(), vec![80]);
    // Take sample at the end of block 4: 100

    run_to_block::<Price<100>>(&mut chain, 5);
    // Target set: Average of 80 and 100 is 90
    assert_eq!(chain.bet.target(), 90);
    assert_eq!(chain.bet.payouts(0), Some((1, 0)));
    // Beginning of a new index.
    assert_eq!(chain.bet.index(), 1);
    assert_eq!(chain.bet.prices(), Vec::<u64>::new());
}

#[test]
fn bet_unbet_works() {
    let mut chain = new_test_ext();
    run_to_block::<Price<100>>(&mut chain, 1);

    bet(&mut chain, 1);
    unbet(&mut chain, 1);
    collect(&mut chain, 1);
    assert!(account_is_liquid(&chain, 1));
    assert_eq!(chain.balances.free_balance(1), 10);
}

#[test]
fn bet_locking_works() {
    let mut chain = new_test_ext();
    chain.block = 1;
    bet(&mut chain, 1);
    assert!(!account_is_liquid(&chain, 1));
}

#[test]
fn bet_invalid_collect_should_not_work() {
    let mut chain = new_test_ext();
    chain.block = 1;
    bet(&mut chain, 1);

    assert_eq!(chain.bet.incoming(), 10);
    assert!(!account_is_liquid(&chain, 1));
    assert_eq!(chain.balances.free_balance(1), 10);

    run_to_next_index::<Price<120>>(&mut chain);

    assert_eq!(chain.bet.index(), 1);
    assert_eq!(chain.bet.total(), 10);

    unbet(&mut chain, 1);

    assert!(!account_is_liquid(&chain, 1));
    collect(&mut chain, 1);
    assert!(!account_is_liquid(&chain, 1));
}

#[test]
fn bet_win_unbet_collect_works() {
    let mut chain = new_test_ext();
    chain.block = 1;
    // index == 0
    bet(&mut chain, 1);

    assert_eq!(chain.bet.incoming(), 10);
    assert!(!account_is_liquid(&chain, 1));
    assert_eq!(chain.balances.free_balance(1), 10);

    run_to_next_index::<Price<120>>(&mut chain);
    // index == 1

    assert_eq!(chain.bet.index(), 1);
    assert_eq!(chain.bet.total(), 10);

    unbet(&mut chain, 1);
    assert!(!account_is_liquid(&chain, 1));
    assert_eq!(chain.bet.outgoing(), 10);

    chain.bet.contribute(10);

    run_to_next_index::<Price<100>>(&mut chain);
    // index == 2

    collect(&mut chain, 1);
    assert_eq!(chain.balances.free_balance(1), 20);
    assert!(!account_is_liquid(&chain, 1));

    run_to_next_index::<Price<100>>(&mut chain);
    // index == 3
    collect(&mut chain, 1);
    assert!(account_is_liquid(&chain, 1));
}

#[test]
fn bet_lose_unbet_works() {
    let mut chain = new_test_ext();
    chain.block = 1;
    // index == 0
    bet(&mut chain, 1);

    assert_eq!(chain.bet.incoming(), 10);
    assert!(!account_is_liquid(&chain, 1));
    assert_eq!(chain.balances.free_balance(1), 10);

    run_to_next_index::<Price<120>>(&mut chain);
    // index == 1

    assert_eq!(chain.bet.index(), 1);
    assert_eq!(chain.bet.total(), 10);

    unbet(&mut chain, 1);
    assert!(!account_is_liquid(&chain, 1));
    assert_eq!(chain.bet.outgoing(), 10);

    chain.bet.contribute(10);

    run_to_next_index::<Price<140>>(&mut chain);
    // index == 2

    collect(&mut chain, 1);
    assert_eq!(chain.balances.free_balance(1), 5);
    assert!(account_is_liquid(&chain, 1));
    assert_eq!(chain.bet.total(), 0);
}

#[test]
fn duplicate_bet_is_noop() {
    let mut chain = new_test_ext();
    chain.block = 1;
    // index == 0
    bet(&mut chain, 1);
    bet(&mut chain, 1);

    assert_eq!(chain.bet.incoming(), 10);
    assert_eq!(chain.bet.outgoing(), 0);
    assert!(!account_is_liquid(&chain, 1));
    assert_eq!(chain.balances.free_balance(1), 10);

    run_to_next_index::<Price<120>>(&mut chain);
    // index == 1

    bet(&mut chain, 1);
    assert_eq!(chain.bet.index(), 1);
    assert_eq!(chain.bet.total(), 10);
    assert_eq!(chain.bet.outgoing(), 0);
    assert_eq!(chain.bet.incoming(), 0);
    assert!(!account_is_liquid(&chain, 1));
    assert_eq!(chain.balances.free_balance(1), 10);

    chain.bet.contribute(10);

    run_to_next_index::<Price<100>>(&mut chain);
    // index == 2

    collect(&mut chain, 1);
    assert_eq!(chain.balances.free_balance(1), 20);
    assert!(!account_is_liquid(&chain, 1));
}

#[test]
fn duplicate_unbet_is_noop() {
    let mut chain = new_test_ext();
    chain.block = 1;
    // index == 0
    bet(&mut chain, 1);

    assert_eq!(chain.bet.incoming(), 10);
    assert!(!account_is_liquid(&chain, 1));
    assert_eq!(chain.balances.free_balance(1), 10);

    run_to_next_index::<Price<120>>(&mut chain);
    // index == 1

    assert_eq!(chain.bet.index(), 1);
    assert_eq!(chain.bet.total(), 10);

    unbet(&mut chain, 1);
    unbet(&mut chain, 1);
    assert!(!account_is_liquid(&chain, 1));
    assert_eq!(chain.bet.outgoing(), 10);
    assert_eq!(chain.bet.incoming(), 0);

    chain.bet.contribute(10);

    run_to_next_index::<Price<100>>(&mut chain);
    // index == 2

    unbet(&mut chain, 1);
    assert_eq!(chain.bet.outgoing(), 0);
    assert_eq!(chain.bet.incoming(), 0);
    collect(&mut chain, 1);
    assert_eq!(chain.balances.free_balance(1), 20);
    assert!(!account_is_liquid(&chain, 1));

    run_to_next_index::<Price<100>>(&mut chain);
    // index == 3
    unbet(&mut chain, 1);
    assert_eq!(chain.bet.outgoing(), 0);
    assert_eq!(chain.bet.incoming(), 0);
    collect(&mut chain, 1);
    assert!(account_is_liquid(&chain, 1));
}

#[test]
fn accumulated_bet_works() {
    let mut chain = new_test_ext();
    chain.block = 1;
    // index == 0
    bet(&mut chain, 1);

    assert_eq!(chain.bet.incoming(), 10);
    assert_eq!(chain.bet.outgoing(), 0);
    assert!(!account_is_liquid(&chain, 1));
    assert_eq!(chain.balances.free_balance(1), 10);

    run_to_next_index::<Price<120>>(&mut chain);
    // index == 1

    assert_eq!(chain.bet.index(), 1);
    assert_eq!(chain.bet.total(), 10);

    assert_eq!(chain.bet.incoming(), 0);
    assert_eq!(chain.bet.outgoing(), 0);
    assert!(!account_is_liquid(&chain, 1));
    assert_eq!(chain.balances.free_balance(1), 10);

    chain.bet.contribute(10);

    run_to_next_index::<Price<100>>(&mut chain);
    // index == 2

    assert_eq!(chain.bet.index(), 2);
    assert_eq!(chain.bet.total(), 20);

    unbet(&mut chain, 1);

    assert_eq!(chain.bet.incoming(), 0);
    assert_eq!(chain.bet.outgoing(), 20);
    assert!(!account_is_liquid(&chain, 1));
    assert_eq!(chain.balances.free_balance(1), 20);

    chain.bet.contribute(10);

    run_to_next_index::<Price<80>>(&mut chain);
    // index == 3

    assert_eq!(chain.bet.index(), 3);
    assert_eq!(chain.bet.total(), 0);

    collect(&mut chain, 1);

    assert_eq!(chain.bet.incoming(), 0);
    assert_eq!(chain.bet.outgoing(), 0);
    assert!(!account_is_liquid(&chain, 1));
    assert_eq!(chain.balances.free_balance(1), 30);

    chain.bet.contribute(10);

    run_to_next_index::<Price<60>>(&mut chain);
    // index == 4

    assert_eq!(chain.bet.index(), 4);
    assert_eq!(chain.bet.total(), 0);

    collect(&mut chain, 1);

    assert_eq!(chain.bet.incoming(), 0);
    assert_eq!(chain.bet.outgoing(), 0);
    assert!(account_is_liquid(&chain, 1));
    assert_eq!(chain.balances.free_balance(1), 30);
}

#[test]
fn unbet_bet_is_noop() {
    let mut chain = new_test_ext();
    chain.block = 1;
    // index == 0
    bet(&mut chain, 1);

    assert_eq!(chain.bet.incoming(), 10);
    assert_eq!(chain.bet.outgoing(), 0);
    assert!(!account_is_liquid(&chain, 1));
    assert_eq!(chain.balances.free_balance(1), 10);

    run_to_next_index::<Price<120>>(&mut chain);
    // index == 1

    assert_eq!(chain.bet.index(), 1);
    assert_eq!(chain.bet.total(), 10);

    unbet(&mut chain, 1);

    assert_eq!(chain.bet.incoming(), 0);
    assert_eq!(chain.bet.outgoing(), 10);

    bet(&mut chain, 1);

    assert_eq!(chain.bet.incoming(), 0);
    assert_eq!(chain.bet.outgoing(), 0);
    assert!(!account_is_liquid(&chain, 1));
    assert_eq!(chain.balances.free_balance(1), 10);

    chain.bet.contribute(10);

    run_to_next_index::<Price<100>>(&mut chain);
    // index == 2

    assert_eq!(chain.bet.index(), 2);
    assert_eq!(chain.bet.total(), 20);

    unbet(&mut chain, 1);

    assert_eq!(chain.bet.incoming(), 0);
    assert_eq!(chain.bet.outgoing(), 20);
    assert!(!account_is_liquid(&chain, 1));
    assert_eq!(chain.balances.free_balance(1), 20);

    chain.bet.contribute(10);

    run_to_next_index::<Price<80>>(&mut chain);
    // index == 3

    assert_eq!(chain.bet.index(), 3);
    assert_eq!(chain.bet.total(), 0);

    collect(&mut chain, 1);

    assert_eq!(chain.bet.incoming(), 0);
    assert_eq!(chain.bet.outgoing(), 0);
    assert!(!account_is_liquid(&chain, 1));
    assert_eq!(chain.balances.free_balance(1), 30);

    run_to_next_index::<Price<80>>(&mut chain);
    // index == 4

    assert_eq!(chain.bet.index(), 4);
    assert_eq!(chain.bet.total(), 0);

    collect(&mut chain, 1);

    assert_eq!(chain.bet.incoming(), 0);
    assert_eq!(chain.bet.outgoing(), 0);
    assert!(account_is_liquid(&chain, 1));
    assert_eq!(chain.balances.free_balance(1), 30);
}

use inflation_manager::inflation::{
    Error, Event, GenesisConfig, InflationState, Pallet, BLOCKS_PER_YEAR,
};
use inflation_manager::perbill::Perbill;
use inflation_manager::types::{InflationConfiguration, InflationParameters};

const ISSUANCE: u128 = 1_000_000_000_000_000_000;

fn config() -> InflationConfiguration {
    InflationConfiguration {
        base_inflation_parameters: InflationParameters {
            effective_inflation_rate: Perbill::from_parts(50_000_000),
            effective_disinflation_rate: Perbill::from_parts(900_000_000),
        },
        inflation_stagnation_year: 10,
        inflation_stagnation_rate: Perbill::from_parts(10_000_000),
    }
}

fn genesis(issuance: u128) -> Pallet {
    let mut pallet = Pallet::new();
    let event = GenesisConfig { inflation_configuration: config() }
        .build(&mut pallet, 0, issuance)
        .unwrap();
    assert_eq!(event, Event::InflationConfigurationSet { inflation_configuration: config() });
    pallet
}

fn rates(pallet: &Pallet) -> (u32, u32) {
    let p = pallet.effective_inflation_parameters().unwrap();
    (p.effective_inflation_rate.deconstruct(), p.effective_disinflation_rate.deconstruct())
}

#[test]
fn genesis_installs_first_year() {
    let pallet = genesis(1_000_000);
    assert_eq!(pallet.current_year(), Ok(1));
    // floor(0.05 * 1_000_000 / BLOCKS_PER_YEAR)
    assert_eq!(pallet.block_rewards(), Ok(0));
    assert_eq!(pallet.recalculation_at(), Ok(Some(BLOCKS_PER_YEAR)));
    assert_eq!(pallet.base_inflation_parameters(), Ok(config()));
    assert_eq!(rates(&pallet), (50_000_000, 900_000_000));
}

#[test]
fn genesis_reward_on_large_issuance() {
    let pallet = genesis(ISSUANCE);
    // 0.05 * 10^18 / 2_628_000, rounded down
    assert_eq!(pallet.block_rewards(), Ok(19_025_875_190));
}

#[test]
fn genesis_height_overflow() {
    let mut pallet = Pallet::new();
    let genesis = GenesisConfig { inflation_configuration: config() };
    assert_eq!(genesis.build(&mut pallet, u32::MAX - BLOCKS_PER_YEAR + 1, 1), Err(Error::ArithmeticOverflow));
    assert_eq!(pallet.current_year(), Err(Error::FiscalYearUninitialized));
    assert!(genesis.build(&mut pallet, u32::MAX - BLOCKS_PER_YEAR, 1).is_ok());
    assert_eq!(pallet.recalculation_at(), Ok(Some(u32::MAX)));
}

#[test]
fn uninitialized_engine_refuses() {
    let mut pallet = Pallet::new();
    assert_eq!(pallet.on_finalize(1, ISSUANCE), Err(Error::FiscalYearUninitialized));
    assert_eq!(pallet.current_year(), Err(Error::FiscalYearUninitialized));
    assert_eq!(pallet.block_rewards(), Err(Error::FiscalYearUninitialized));
    assert_eq!(pallet.recalculation_at(), Err(Error::FiscalYearUninitialized));
    assert_eq!(pallet.effective_inflation_parameters(), Err(Error::FiscalYearUninitialized));
    assert_eq!(pallet.base_inflation_parameters(), Err(Error::FiscalYearUninitialized));
}

#[test]
fn quiet_tick_only_reports() {
    let mut pallet = genesis(ISSUANCE);
    let before = pallet.block_rewards().unwrap();
    let events = pallet.on_finalize(1, 5 * ISSUANCE).unwrap();
    assert_eq!(pallet.block_rewards(), Ok(before));
    assert_eq!(pallet.current_year(), Ok(2));
    assert_eq!(pallet.recalculation_at(), Ok(Some(BLOCKS_PER_YEAR)));
    assert_eq!(
        events,
        vec![Event::InflationParametersUpdated {
            inflation_parameters: config().base_inflation_parameters,
            block_rewards: before,
            current_year: 1,
        }]
    );
}

#[test]
fn year_boundary_compounds_rates() {
    let mut pallet = genesis(ISSUANCE);
    let now = BLOCKS_PER_YEAR;
    let events = pallet.on_finalize(now, ISSUANCE).unwrap();
    // disinflation 0.9 * 0.9 = 0.81, inflation 0.05 * 0.81 = 0.0405
    assert_eq!(rates(&pallet), (40_500_000, 810_000_000));
    assert_eq!(pallet.current_year(), Ok(2));
    assert_eq!(pallet.recalculation_at(), Ok(Some(now + BLOCKS_PER_YEAR)));
    let rewards = 15_410_958_904;
    assert_eq!(pallet.block_rewards(), Ok(rewards));
    let params = pallet.effective_inflation_parameters().unwrap();
    assert_eq!(
        events,
        vec![
            Event::BlockRewardsUpdated { block_rewards: rewards },
            Event::InflationParametersUpdated {
                inflation_parameters: params,
                block_rewards: rewards,
                current_year: 1,
            },
        ]
    );
}

#[test]
fn stagnation_freezes_rates_for_good() {
    let mut pallet = genesis(ISSUANCE);
    for height in 1..10u32 {
        let events = pallet.on_finalize(height, ISSUANCE).unwrap();
        assert_eq!(events.len(), 1);
    }
    assert_eq!(pallet.current_year(), Ok(10));
    let events = pallet.on_finalize(10, ISSUANCE).unwrap();
    assert_eq!(rates(&pallet), (10_000_000, 1_000_000_000));
    assert_eq!(pallet.recalculation_at(), Ok(None));
    assert_eq!(pallet.current_year(), Ok(11));
    // 0.01 * 10^18 / 2_628_000
    assert_eq!(pallet.block_rewards(), Ok(3_805_175_038));
    assert_eq!(events.len(), 2);
    assert_eq!(events[0], Event::BlockRewardsUpdated { block_rewards: 3_805_175_038 });
    for k in 1..5u32 {
        let events = pallet.on_finalize(k * 10 * BLOCKS_PER_YEAR, 2 * ISSUANCE).unwrap();
        assert_eq!(events.len(), 1);
        assert_eq!(rates(&pallet), (10_000_000, 1_000_000_000));
        assert_eq!(pallet.recalculation_at(), Ok(None));
        assert_eq!(pallet.block_rewards(), Ok(3_805_175_038));
    }
}

#[test]
fn year_counts_blocks() {
    let mut pallet = genesis(ISSUANCE);
    for n in 1..=30u32 {
        pallet.on_finalize(n * (BLOCKS_PER_YEAR / 3), ISSUANCE).unwrap();
        assert_eq!(pallet.current_year(), Ok(1 + n as u128));
    }
}

#[test]
fn inflation_never_rises_before_stagnation() {
    let mut pallet = genesis(ISSUANCE);
    let mut previous = rates(&pallet).0;
    for n in 1..9u32 {
        pallet.on_finalize(n * BLOCKS_PER_YEAR, ISSUANCE).unwrap();
        let current = rates(&pallet).0;
        assert!(current < previous);
        previous = current;
    }
    assert_eq!(pallet.current_year(), Ok(9));
}

#[test]
fn tick_overflow_leaves_state() {
    let mut pallet = genesis(ISSUANCE);
    let late = u32::MAX - BLOCKS_PER_YEAR + 1;
    assert_eq!(pallet.on_finalize(late, ISSUANCE), Err(Error::ArithmeticOverflow));
    assert_eq!(pallet.current_year(), Ok(1));
    assert_eq!(rates(&pallet), (50_000_000, 900_000_000));

    let state = InflationState {
        inflation_configuration: config(),
        yearly_inflation_parameters: config().base_inflation_parameters,
        current_year: u128::MAX,
        recalculation_at: None,
        block_rewards: 7,
    };
    assert_eq!(state.tick(1, ISSUANCE), Err(Error::ArithmeticOverflow));
}

#[test]
fn tick_is_a_pure_transition() {
    let state = InflationState {
        inflation_configuration: config(),
        yearly_inflation_parameters: config().base_inflation_parameters,
        current_year: 3,
        recalculation_at: Some(100),
        block_rewards: 7,
    };
    let (next, events) = state.tick(100, ISSUANCE).unwrap();
    assert_eq!(state.tick(100, ISSUANCE), Ok((next, events.clone())));
    assert_eq!(next.current_year, 4);
    assert_eq!(next.recalculation_at, Some(100 + BLOCKS_PER_YEAR));
    assert_eq!(events.len(), 2);
    let (quiet, events) = state.tick(99, ISSUANCE).unwrap();
    assert_eq!(quiet.block_rewards, 7);
    assert_eq!(quiet.recalculation_at, Some(100));
    assert_eq!(events.len(), 1);
}

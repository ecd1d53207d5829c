use vstd::prelude::*;

use crate::perbill::{Perbill, BILLION};
use crate::types::{Balance, BlockNumber, InflationConfiguration, InflationParameters};

verus! {

/// Blocks in one fiscal year: 365 days of 12-second blocks.
pub const BLOCKS_PER_YEAR: BlockNumber = 2_628_000;

/// Tokens minted per block for an inflation `rate` (parts per billion):
/// `floor(rate * total_issuance / BLOCKS_PER_YEAR)`.
pub open spec fn reward_formula(rate: nat, total_issuance: nat) -> nat {
    (rate * total_issuance) / (BILLION as nat * BLOCKS_PER_YEAR as nat)
}

/// `next` is one year of compounding after `params`: the disinflation rate is
/// multiplied by the base one, then the inflation rate by the new disinflation rate.
pub open spec fn compounded(
    params: InflationParameters,
    base_disinflation: Perbill,
    next: InflationParameters,
) -> bool {
    &&& next.effective_disinflation_rate@ == (params.effective_disinflation_rate@
        * base_disinflation@) / (BILLION as nat)
    &&& next.effective_inflation_rate@ == (params.effective_inflation_rate@
        * next.effective_disinflation_rate@) / (BILLION as nat)
}

/// Events published by the engine.
#[derive(Clone, Copy, Debug, PartialEq, Eq, Structural)]
pub enum Event {
    /// Reported on every block: the year before it advanced, the rates and the reward.
    InflationParametersUpdated {
        inflation_parameters: InflationParameters,
        block_rewards: Balance,
        current_year: u128,
    },
    /// The schedule was installed at genesis.
    InflationConfigurationSet { inflation_configuration: InflationConfiguration },
    /// The per-block reward was recomputed.
    BlockRewardsUpdated { block_rewards: Balance },
}

/// Errors of the engine.
#[derive(Clone, Copy, Debug, PartialEq, Eq, Structural)]
pub enum Error {
    /// The engine was read or ticked before genesis.
    FiscalYearUninitialized,
    /// The year counter or the next recalculation height would leave its integer type.
    ArithmeticOverflow,
}

/// Everything the engine keeps between blocks.
#[derive(Clone, Copy, Debug, PartialEq, Eq, Structural)]
pub struct InflationState {
    pub inflation_configuration: InflationConfiguration,
    pub yearly_inflation_parameters: InflationParameters,
    /// Advances by one on every block; starts at 1.
    pub current_year: u128,
    /// The height of the next yearly recalculation; `None` for good once
    /// inflation has stagnated.
    pub recalculation_at: Option<BlockNumber>,
    pub block_rewards: Balance,
}

impl InflationState {
    /// All rates lie in `[0, 1]`.
    pub open spec fn wf(self) -> bool {
        &&& self.inflation_configuration.wf()
        &&& self.yearly_inflation_parameters.wf()
    }

    /// The state installed at genesis, at height `now`.
    pub open spec fn is_genesis(
        self,
        config: InflationConfiguration,
        now: BlockNumber,
        total_issuance: Balance,
    ) -> bool {
        &&& self.inflation_configuration == config
        &&& self.yearly_inflation_parameters == config.base_inflation_parameters
        &&& self.current_year == 1
        &&& self.recalculation_at == Some((now + BLOCKS_PER_YEAR) as BlockNumber)
        &&& self.block_rewards == reward_formula(
            config.base_inflation_parameters.effective_inflation_rate@,
            total_issuance as nat,
        )
    }

    /// This block is the one of the stagnation year.
    pub open spec fn stagnates(self) -> bool {
        self.current_year == self.inflation_configuration.inflation_stagnation_year
    }

    /// A yearly recalculation is due at height `now`.
    pub open spec fn recalculation_due(self, now: BlockNumber) -> bool {
        match self.recalculation_at {
            Some(target) => now >= target && self.current_year
                < self.inflation_configuration.inflation_stagnation_year,
            None => false,
        }
    }

    /// The rates change at height `now`.
    pub open spec fn recalculates(self, now: BlockNumber) -> bool {
        self.stagnates() || self.recalculation_due(now)
    }

    /// A tick at `now` would carry the year counter or the next recalculation
    /// height past the largest value of its type.
    pub open spec fn tick_overflows(self, now: BlockNumber) -> bool {
        ||| self.current_year == u128::MAX
        ||| (self.recalculation_due(now) && now + BLOCKS_PER_YEAR > u32::MAX)
    }

    /// `next` is the state after a block at height `now` with `total_issuance`
    /// units in existence.
    pub open spec fn steps_to(
        self,
        now: BlockNumber,
        total_issuance: Balance,
        next: InflationState,
    ) -> bool {
        let config = self.inflation_configuration;
        let params = next.yearly_inflation_parameters;
        &&& next.inflation_configuration == config
        &&& next.current_year == self.current_year + 1
        &&& if self.stagnates() {
            &&& params.effective_inflation_rate == config.inflation_stagnation_rate
            &&& params.effective_disinflation_rate@ == BILLION
            &&& next.recalculation_at is None
        } else if self.recalculation_due(now) {
            &&& compounded(
                self.yearly_inflation_parameters,
                config.base_inflation_parameters.effective_disinflation_rate,
                params,
            )
            &&& next.recalculation_at == Some((now + BLOCKS_PER_YEAR) as BlockNumber)
        } else {
            &&& params == self.yearly_inflation_parameters
            &&& next.recalculation_at == self.recalculation_at
        }
        &&& next.block_rewards == if self.recalculates(now) {
            reward_formula(params.effective_inflation_rate@, total_issuance as nat)
        } else {
            self.block_rewards as nat
        }
    }

    /// The events of the block at `now` that led from `self` to `next`.
    pub open spec fn tick_events(self, now: BlockNumber, next: InflationState) -> Seq<Event> {
        let report = Event::InflationParametersUpdated {
            inflation_parameters: next.yearly_inflation_parameters,
            block_rewards: next.block_rewards,
            current_year: self.current_year,
        };
        if self.recalculates(now) {
            seq![Event::BlockRewardsUpdated { block_rewards: next.block_rewards }, report]
        } else {
            seq![report]
        }
    }

    /// The transition of one block at height `now`, with `total_issuance` units
    /// in existence: the new state and the events to publish, in order.
    pub fn tick(&self, now: BlockNumber, total_issuance: Balance) -> (r: Result<
        (InflationState, Vec<Event>),
        Error,
    >)
        ensures
            self.tick_overflows(now) <==> r is Err,
            r is Err ==> r->Err_0 == Error::ArithmeticOverflow,
            r matches Ok((next, events)) ==> self.steps_to(now, total_issuance, next)
                && events@ == self.tick_events(now, next),
    {
        let config = self.inflation_configuration;
        if self.current_year == u128::MAX {
            return Err(Error::ArithmeticOverflow);
        }
        let mut params = self.yearly_inflation_parameters;
        let mut recalculation_at = self.recalculation_at;
        let mut block_rewards = self.block_rewards;
        let mut recalculated = false;

        // the stagnation year freezes the rates and ends recalculation for good
        if self.current_year == config.inflation_stagnation_year {
            params = InflationParameters {
                effective_inflation_rate: config.inflation_stagnation_rate,
                effective_disinflation_rate: Perbill::one(),
            };
            recalculation_at = None;
            recalculated = true;
        }
        // a new fiscal year compounds the rates until stagnation
        if let Some(target) = recalculation_at {
            if now >= target && self.current_year < config.inflation_stagnation_year {
                if now > u32::MAX - BLOCKS_PER_YEAR {
                    return Err(Error::ArithmeticOverflow);
                }
                params = Pallet::update_inflation_parameters(
                    &params,
                    &config.base_inflation_parameters,
                );
                recalculation_at = Some(now + BLOCKS_PER_YEAR);
                recalculated = true;
            }
        }
        let mut events: Vec<Event> = Vec::new();
        if recalculated {
            block_rewards = Pallet::rewards_per_block(&params, total_issuance);
            events.push(Event::BlockRewardsUpdated { block_rewards });
        }
        let next = InflationState {
            inflation_configuration: config,
            yearly_inflation_parameters: params,
            current_year: self.current_year + 1,
            recalculation_at,
            block_rewards,
        };
        events.push(
            Event::InflationParametersUpdated {
                inflation_parameters: params,
                block_rewards,
                current_year: self.current_year,
            },
        );
        Ok((next, events))
    }
}

/// The engine as a store: empty until genesis has run.
pub struct Pallet {
    state: Option<InflationState>,
}

impl View for Pallet {
    type V = Option<InflationState>;

    /// The stored state; `None` before genesis.
    closed spec fn view(&self) -> Option<InflationState> {
        self.state
    }
}

impl Pallet {
    /// A store on which genesis has not run yet.
    pub fn new() -> (r: Pallet)
        ensures
            r@ is None,
    {
        Pallet { state: None }
    }

    /// Tokens to mint per block under `inflation_parameters` when
    /// `total_issuance` units exist.
    pub fn rewards_per_block(inflation_parameters: &InflationParameters, total_issuance: Balance) -> (r:
        Balance)
        ensures
            r as nat == reward_formula(
                inflation_parameters.effective_inflation_rate@,
                total_issuance as nat,
            ),
    {
        let rewards_total = inflation_parameters.effective_inflation_rate.mul_floor(total_issuance);
        proof {
            let rate = inflation_parameters.effective_inflation_rate@;
            vstd::arithmetic::div_mod::lemma_div_denominator(
                rate * total_issuance,
                BILLION as int,
                BLOCKS_PER_YEAR as int,
            );
        }
        rewards_total / (BLOCKS_PER_YEAR as u128)
    }

    /// The rates of the fiscal year after one with `inflation_parameters`.
    pub fn update_inflation_parameters(
        inflation_parameters: &InflationParameters,
        base_inflation_parameters: &InflationParameters,
    ) -> (r: InflationParameters)
        ensures
            compounded(
                *inflation_parameters,
                base_inflation_parameters.effective_disinflation_rate,
                r,
            ),
    {
        let effective_disinflation_rate = inflation_parameters.effective_disinflation_rate.mul(
            base_inflation_parameters.effective_disinflation_rate,
        );
        let effective_inflation_rate = inflation_parameters.effective_inflation_rate.mul(
            effective_disinflation_rate,
        );
        InflationParameters { effective_inflation_rate, effective_disinflation_rate }
    }

    /// Runs the end-of-block transition at height `now`. Before genesis it
    /// fails with `FiscalYearUninitialized`; on overflow it fails with
    /// `ArithmeticOverflow`; on failure the store is left as it was.
    pub fn on_finalize(&mut self, now: BlockNumber, total_issuance: Balance) -> (r: Result<
        Vec<Event>,
        Error,
    >)
        ensures
            match old(self)@ {
                None => {
                    &&& r == Err::<Vec<Event>, Error>(Error::FiscalYearUninitialized)
                    &&& final(self)@ == old(self)@
                },
                Some(s) => if s.tick_overflows(now) {
                    &&& r == Err::<Vec<Event>, Error>(Error::ArithmeticOverflow)
                    &&& final(self)@ == old(self)@
                } else {
                    &&& r is Ok
                    &&& final(self)@ is Some
                    &&& s.steps_to(now, total_issuance, final(self)@->Some_0)
                    &&& r->Ok_0@ == s.tick_events(now, final(self)@->Some_0)
                },
            },
    {
        match self.state {
            None => Err(Error::FiscalYearUninitialized),
            Some(s) => match s.tick(now, total_issuance) {
                Ok((next, events)) => {
                    self.state = Some(next);
                    Ok(events)
                },
                Err(e) => Err(e),
            },
        }
    }
    /// The installed schedule.
    pub fn base_inflation_parameters(&self) -> (r: Result<InflationConfiguration, Error>)
        ensures
            match self@ {
                None => r == Err::<InflationConfiguration, Error>(Error::FiscalYearUninitialized),
                Some(s) => r == Ok::<InflationConfiguration, Error>(s.inflation_configuration),
            },
    {
        match self.state {
            None => Err(Error::FiscalYearUninitialized),
            Some(s) => Ok(s.inflation_configuration),
        }
    }

    /// The rates of the current fiscal year.
    pub fn effective_inflation_parameters(&self) -> (r: Result<InflationParameters, Error>)
        ensures
            match self@ {
                None => r == Err::<InflationParameters, Error>(Error::FiscalYearUninitialized),
                Some(s) => r == Ok::<InflationParameters, Error>(s.yearly_inflation_parameters),
            },
    {
        match self.state {
            None => Err(Error::FiscalYearUninitialized),
            Some(s) => Ok(s.yearly_inflation_parameters),
        }
    }

    /// The year counter.
    pub fn current_year(&self) -> (r: Result<u128, Error>)
        ensures
            match self@ {
                None => r == Err::<u128, Error>(Error::FiscalYearUninitialized),
                Some(s) => r == Ok::<u128, Error>(s.current_year),
            },
    {
        match self.state {
            None => Err(Error::FiscalYearUninitialized),
            Some(s) => Ok(s.current_year),
        }
    }

    /// The height of the next recalculation, `None` once inflation has stagnated.
    pub fn recalculation_at(&self) -> (r: Result<Option<BlockNumber>, Error>)
        ensures
            match self@ {
                None => r == Err::<Option<BlockNumber>, Error>(Error::FiscalYearUninitialized),
                Some(s) => r == Ok::<Option<BlockNumber>, Error>(s.recalculation_at),
            },
    {
        match self.state {
            None => Err(Error::FiscalYearUninitialized),
            Some(s) => Ok(s.recalculation_at),
        }
    }

    /// The tokens to mint per block.
    pub fn block_rewards(&self) -> (r: Result<Balance, Error>)
        ensures
            match self@ {
                None => r == Err::<Balance, Error>(Error::FiscalYearUninitialized),
                Some(s) => r == Ok::<Balance, Error>(s.block_rewards),
            },
    {
        match self.state {
            None => Err(Error::FiscalYearUninitialized),
            Some(s) => Ok(s.block_rewards),
        }
    }
}

/// What genesis installs.
#[derive(Clone, Copy, Debug, PartialEq, Eq, Structural)]
pub struct GenesisConfig {
    pub inflation_configuration: InflationConfiguration,
}

impl GenesisConfig {
    /// Installs the schedule into `pallet` at height `now`, with `total_issuance`
    /// units in existence: year 1, the base rates, the first recalculation a
    /// fiscal year ahead, and the reward for the base inflation rate. Fails with
    /// `ArithmeticOverflow`, leaving `pallet` as it was, when that height does
    /// not fit a block number.
    pub fn build(&self, pallet: &mut Pallet, now: BlockNumber, total_issuance: Balance) -> (r:
        Result<Event, Error>)
        ensures
            now + BLOCKS_PER_YEAR > u32::MAX <==> r is Err,
            r is Err ==> r->Err_0 == Error::ArithmeticOverflow && final(pallet)@ == old(pallet)@,
            r is Ok ==> {
                &&& r->Ok_0 == Event::InflationConfigurationSet {
                    inflation_configuration: self.inflation_configuration,
                }
                &&& final(pallet)@ is Some
                &&& final(pallet)@->Some_0.is_genesis(
                    self.inflation_configuration,
                    now,
                    total_issuance,
                )
            },
    {
        if now > u32::MAX - BLOCKS_PER_YEAR {
            return Err(Error::ArithmeticOverflow);
        }
        let config = self.inflation_configuration;
        let base = config.base_inflation_parameters;
        let block_rewards = Pallet::rewards_per_block(&base, total_issuance);
        pallet.state = Some(
            InflationState {
                inflation_configuration: config,
                yearly_inflation_parameters: base,
                current_year: 1,
                recalculation_at: Some(now + BLOCKS_PER_YEAR),
                block_rewards,
            },
        );
        Ok(Event::InflationConfigurationSet { inflation_configuration: config })
    }
}

} // verus!

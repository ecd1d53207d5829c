use vstd::prelude::*;

use crate::inflation::{compounded, reward_formula, InflationState, BLOCKS_PER_YEAR};
use crate::perbill::{lemma_product_bounded, BILLION};
use crate::types::{Balance, BlockNumber, InflationConfiguration};

verus! {

/// `states` is a run of the engine: `states[i + 1]` follows `states[i]` through a
/// block at height `heights[i]` with `issuances[i]` units in existence.
pub open spec fn is_run(
    states: Seq<InflationState>,
    heights: Seq<BlockNumber>,
    issuances: Seq<Balance>,
) -> bool {
    &&& states.len() == heights.len() + 1
    &&& issuances.len() == heights.len()
    &&& forall|i: int|
        0 <= i < heights.len() ==> #[trigger] states[i].steps_to(
            heights[i],
            issuances[i],
            states[i + 1],
        )
}

/// The configuration never changes along a run.
pub proof fn lemma_run_keeps_configuration(
    states: Seq<InflationState>,
    heights: Seq<BlockNumber>,
    issuances: Seq<Balance>,
)
    requires
        is_run(states, heights, issuances),
    ensures
        forall|i: int|
            0 <= i < states.len() ==> #[trigger] states[i].inflation_configuration
                == states[0].inflation_configuration,
    decreases heights.len(),
{
    if heights.len() > 0 {
        let n = heights.len() - 1;
        lemma_run_keeps_configuration(states.drop_last(), heights.drop_last(), issuances.drop_last());
        assert(states[n].steps_to(heights[n], issuances[n], states[n + 1]));
        assert forall|i: int| 0 <= i < states.len() implies #[trigger] states[i].inflation_configuration
            == states[0].inflation_configuration by {
            let prefix = states.drop_last();
            assert(prefix[0] == states[0]);
            assert(prefix[n] == states[n]);
            assert(prefix[n].inflation_configuration == prefix[0].inflation_configuration);
            if i < states.len() - 1 {
                assert(prefix[i] == states[i]);
                assert(prefix[i].inflation_configuration == prefix[0].inflation_configuration);
            }
        }
    }
}

/// After `n` blocks from genesis the year counter is `1 + n`, whatever the
/// heights and issuances.
pub proof fn lemma_year_counts_blocks(
    states: Seq<InflationState>,
    heights: Seq<BlockNumber>,
    issuances: Seq<Balance>,
    config: InflationConfiguration,
    genesis_height: BlockNumber,
    genesis_issuance: Balance,
)
    requires
        is_run(states, heights, issuances),
        states[0].is_genesis(config, genesis_height, genesis_issuance),
    ensures
        forall|n: int| 0 <= n < states.len() ==> #[trigger] states[n].current_year == 1 + n,
    decreases heights.len(),
{
    if heights.len() > 0 {
        let n = heights.len() - 1;
        lemma_year_counts_blocks(
            states.drop_last(),
            heights.drop_last(),
            issuances.drop_last(),
            config,
            genesis_height,
            genesis_issuance,
        );
        assert(states[n].steps_to(heights[n], issuances[n], states[n + 1]));
        assert forall|m: int| 0 <= m < states.len() implies #[trigger] states[m].current_year == 1
            + m by {
            let prefix = states.drop_last();
            assert(prefix[n] == states[n]);
            assert(prefix[n].current_year == 1 + n);
            if m < states.len() - 1 {
                assert(prefix[m] == states[m]);
                assert(prefix[m].current_year == 1 + m);
            }
        }
    }
}

/// Once the year counter reaches the stagnation year, every later state holds
/// the stagnation inflation rate and has recalculation switched off.
pub proof fn lemma_stagnation_is_permanent(
    states: Seq<InflationState>,
    heights: Seq<BlockNumber>,
    issuances: Seq<Balance>,
    k: int,
)
    requires
        is_run(states, heights, issuances),
        0 <= k < states.len(),
        states[k].stagnates(),
    ensures
        forall|j: int|
            k < j < states.len() ==> {
                &&& #[trigger] states[j].yearly_inflation_parameters.effective_inflation_rate
                    == states[k].inflation_configuration.inflation_stagnation_rate
                &&& states[j].recalculation_at is None
                &&& states[j].current_year > states[j].inflation_configuration.inflation_stagnation_year
            },
    decreases states.len() - k,
{
    lemma_run_keeps_configuration(states, heights, issuances);
    if k + 1 < states.len() {
        let config = states[0].inflation_configuration;
        assert(states[k].steps_to(heights[k], issuances[k], states[k + 1]));
        assert forall|j: int| k + 1 <= j < states.len() implies {
            &&& #[trigger] states[j].yearly_inflation_parameters.effective_inflation_rate
                == config.inflation_stagnation_rate
            &&& states[j].recalculation_at is None
            &&& states[j].current_year > config.inflation_stagnation_year
        } by {
            lemma_after_stagnation(states, heights, issuances, k + 1, j);
        }
    }
}

/// Helper: from a state past stagnation with recalculation off, nothing changes
/// the inflation rate again.
proof fn lemma_after_stagnation(
    states: Seq<InflationState>,
    heights: Seq<BlockNumber>,
    issuances: Seq<Balance>,
    k: int,
    j: int,
)
    requires
        is_run(states, heights, issuances),
        0 <= k <= j < states.len(),
        forall|i: int|
            0 <= i < states.len() ==> #[trigger] states[i].inflation_configuration
                == states[0].inflation_configuration,
        states[k].yearly_inflation_parameters.effective_inflation_rate
            == states[0].inflation_configuration.inflation_stagnation_rate,
        states[k].recalculation_at is None,
        states[k].current_year > states[0].inflation_configuration.inflation_stagnation_year,
    ensures
        states[j].yearly_inflation_parameters.effective_inflation_rate
            == states[0].inflation_configuration.inflation_stagnation_rate,
        states[j].recalculation_at is None,
        states[j].current_year > states[0].inflation_configuration.inflation_stagnation_year,
    decreases j - k,
{
    if k < j {
        assert(states[k].steps_to(heights[k], issuances[k], states[k + 1]));
        assert(states[k].inflation_configuration == states[0].inflation_configuration);
        lemma_after_stagnation(states, heights, issuances, k + 1, j);
    }
}

/// One block keeps every rate within `[0, 1]`.
pub proof fn lemma_step_keeps_rates_bounded(
    s: InflationState,
    now: BlockNumber,
    total_issuance: Balance,
    next: InflationState,
)
    requires
        s.wf(),
        s.steps_to(now, total_issuance, next),
    ensures
        next.wf(),
        !s.stagnates() ==> next.yearly_inflation_parameters.effective_inflation_rate@
            <= s.yearly_inflation_parameters.effective_inflation_rate@,
{
    let config = s.inflation_configuration;
    let params = s.yearly_inflation_parameters;
    let d0 = config.base_inflation_parameters.effective_disinflation_rate@;
    if !s.stagnates() && s.recalculation_due(now) {
        let nd = next.yearly_inflation_parameters.effective_disinflation_rate@;
        lemma_product_bounded(d0, params.effective_disinflation_rate@);
        lemma_product_bounded(nd, params.effective_inflation_rate@);
        assert(nd == (params.effective_disinflation_rate@ * d0) / (BILLION as nat));
        assert(params.effective_disinflation_rate@ * d0 == d0 * params.effective_disinflation_rate@)
            by (nonlinear_arith);
        assert(params.effective_inflation_rate@ * nd == nd * params.effective_inflation_rate@)
            by (nonlinear_arith);
    }
}

/// Until the stagnation year, the inflation rate never rises from one block to
/// the next: each recalculation scales it by a disinflation rate in `[0, 1]`.
pub proof fn lemma_inflation_non_increasing(
    states: Seq<InflationState>,
    heights: Seq<BlockNumber>,
    issuances: Seq<Balance>,
)
    requires
        is_run(states, heights, issuances),
        states[0].wf(),
    ensures
        forall|i: int| 0 <= i < states.len() ==> #[trigger] states[i].wf(),
        forall|i: int|
            0 <= i < heights.len() && !states[i].stagnates() ==> {
                #[trigger] states[i + 1].yearly_inflation_parameters.effective_inflation_rate@
                    <= states[i].yearly_inflation_parameters.effective_inflation_rate@
            },
    decreases heights.len(),
{
    if heights.len() > 0 {
        let n = heights.len() - 1;
        lemma_inflation_non_increasing(
            states.drop_last(),
            heights.drop_last(),
            issuances.drop_last(),
        );
        assert(states.drop_last()[n] == states[n]);
        assert(states[n].steps_to(heights[n], issuances[n], states[n + 1]));
        lemma_step_keeps_rates_bounded(states[n], heights[n], issuances[n], states[n + 1]);
        assert forall|i: int| 0 <= i < states.len() implies #[trigger] states[i].wf() by {
            if i < states.len() - 1 {
                assert(states.drop_last()[i] == states[i]);
            }
        }
        assert forall|i: int|
            0 <= i < heights.len() && !states[i].stagnates() implies {
                #[trigger] states[i + 1].yearly_inflation_parameters.effective_inflation_rate@
                    <= states[i].yearly_inflation_parameters.effective_inflation_rate@
            } by {
            if i < n {
                assert(states.drop_last()[i] == states[i]);
                assert(states.drop_last()[i + 1] == states[i + 1]);
            }
        }
    }
}

/// The reward formula rounds down by less than one block's worth: over a year it
/// mints at most `floor(rate * total_issuance)`, and fewer than
/// `BLOCKS_PER_YEAR` units less.
pub proof fn lemma_rounding_bound(rate: nat, total_issuance: nat)
    ensures
        reward_formula(rate, total_issuance) * BLOCKS_PER_YEAR <= (rate * total_issuance) / (
        BILLION as nat),
        (rate * total_issuance) / (BILLION as nat) - reward_formula(rate, total_issuance)
            * BLOCKS_PER_YEAR < BLOCKS_PER_YEAR,
{
    let yearly = (rate * total_issuance) / (BILLION as nat);
    vstd::arithmetic::div_mod::lemma_div_denominator(
        (rate * total_issuance) as int,
        BILLION as int,
        BLOCKS_PER_YEAR as int,
    );
    vstd::arithmetic::div_mod::lemma_fundamental_div_mod(yearly as int, BLOCKS_PER_YEAR as int);
    vstd::arithmetic::div_mod::lemma_mod_bound(yearly as int, BLOCKS_PER_YEAR as int);
}

} // verus!

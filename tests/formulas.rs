use inflation_manager::currency::NewCurrencyId;
use inflation_manager::inflation::{Pallet, BLOCKS_PER_YEAR};
use inflation_manager::perbill::{Perbill, BILLION};
use inflation_manager::types::InflationParameters;

fn params(inflation: u32, disinflation: u32) -> InflationParameters {
    InflationParameters {
        effective_inflation_rate: Perbill::from_parts(inflation),
        effective_disinflation_rate: Perbill::from_parts(disinflation),
    }
}

#[test]
fn perbill_saturates_and_multiplies() {
    assert_eq!(Perbill::from_parts(BILLION + 1).deconstruct(), BILLION);
    assert_eq!(Perbill::one().deconstruct(), BILLION);
    assert_eq!(Perbill::from_parts(0).deconstruct(), 0);
    // 0.333333333 * 0.5 = 0.1666666665, rounded down
    let product = Perbill::from_parts(333_333_333).mul(Perbill::from_parts(500_000_000));
    assert_eq!(product.deconstruct(), 166_666_666);
    assert_eq!(Perbill::one().mul(Perbill::from_parts(7)).deconstruct(), 7);
}

#[test]
fn perbill_mul_floor_rounds_down() {
    // 0.999999999 * 3 = 2.999999997
    assert_eq!(Perbill::from_parts(999_999_999).mul_floor(3), 2);
    assert_eq!(Perbill::from_parts(500_000_000).mul_floor(u128::MAX), u128::MAX / 2);
    assert_eq!(Perbill::from_parts(250_000_000).mul_floor(1_000), 250);
}

#[test]
fn reward_formula_values() {
    assert_eq!(BLOCKS_PER_YEAR, 365 * 24 * 60 * 60 / 12);
    let full = params(BILLION, BILLION);
    assert_eq!(Pallet::rewards_per_block(&full, BLOCKS_PER_YEAR as u128 * 5 + 3), 5);
    assert_eq!(Pallet::rewards_per_block(&params(0, BILLION), u128::MAX), 0);
    assert_eq!(Pallet::rewards_per_block(&full, u128::MAX), u128::MAX / BLOCKS_PER_YEAR as u128);
}

#[test]
fn reward_formula_is_deterministic() {
    let p = params(37_000_000, 950_000_000);
    let first = Pallet::rewards_per_block(&p, 123_456_789_000_000_000_000);
    let second = Pallet::rewards_per_block(&p, 123_456_789_000_000_000_000);
    assert_eq!(first, second);
}

#[test]
fn reward_rounding_stays_within_a_year_of_blocks() {
    let bpy = BLOCKS_PER_YEAR as u128;
    for (rate, issuance) in [(50_000_000u32, 1_000_000u128), (123_456_789, 987_654_321_987_654_321), (BILLION, 5 * bpy - 1)] {
        let rewards = Pallet::rewards_per_block(&params(rate, 0), issuance);
        let yearly = Perbill::from_parts(rate).mul_floor(issuance);
        assert!(rewards * bpy <= yearly);
        assert!(yearly - rewards * bpy < bpy);
    }
}

#[test]
fn compounding_rule_values() {
    let next = Pallet::update_inflation_parameters(&params(40_500_000, 810_000_000), &params(50_000_000, 900_000_000));
    // disinflation 0.81 * 0.9 = 0.729; inflation 0.0405 * 0.729 = 0.0295245
    assert_eq!(next.effective_disinflation_rate.deconstruct(), 729_000_000);
    assert_eq!(next.effective_inflation_rate.deconstruct(), 29_524_500);
}

#[test]
fn currency_id_kinds() {
    let native = NewCurrencyId::Token(0);
    let token = NewCurrencyId::Token(4);
    let pair = NewCurrencyId::LPToken(0, 4);
    assert!(native.is_token() && native.is_native_token() && !native.is_lp_token());
    assert!(token.is_token() && !token.is_native_token());
    assert!(pair.is_lp_token() && !pair.is_token() && !pair.is_native_token());
    assert_eq!(token.type_index(), 0);
    assert_eq!(pair.type_index(), 1);
    assert_eq!(NewCurrencyId::default(), native);
}

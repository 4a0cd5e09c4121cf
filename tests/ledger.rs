use universe_solana::{
    apply_transaction_tax, burn_tokens, calculate_reward, claim_rewards, claim_vested_tokens,
    compound_rewards, create_planet, get_planet_name_for_level, get_reward_for_level, initialize,
    initialize_user, pending_reward, setup_vesting, split_nft_tax, transfer_planet, transfer_with_tax,
    update_config, vested_amount, Address, Authority, Config, ErrorCode, Party, Planet, TokenBurn, TokenMove,
    VestingType, PLANET_CREATION_COST, REWARD_INTERVAL, VESTING_DURATION,
};

fn addr(b: u8) -> Address {
    Address([b; 32])
}

fn admin() -> Address {
    addr(2)
}

fn config_at(now: i64) -> Config {
    initialize(addr(1), admin(), addr(3), addr(4), addr(5), addr(6), 254, now)
}

/// A configuration whose planets cost 1000 token units.
fn small_cost_config() -> Config {
    let mut config = config_at(0);
    update_config(&mut config, admin(), None, Some(1000), None, None, None).unwrap();
    config
}

fn planet(level: u8, rate: u8, locked: u64, last_claim: i64) -> Planet {
    Planet {
        owner: addr(10),
        compound_level: level,
        daily_reward: rate,
        last_claim,
        locked_tokens: locked,
        name: get_planet_name_for_level(level),
        planet_id: addr(20),
    }
}

#[test]
fn initialize_sets_documented_constants() {
    let c = config_at(77);
    assert_eq!(c.total_supply, 1_000_000_000_000_000_000);
    assert_eq!(c.planet_creation_cost, 1_000_000_000_000);
    assert_eq!(c.max_planets_per_user, 10);
    assert_eq!(c.reward_rate, 4);
    assert_eq!(c.reward_interval, 28_800);
    assert_eq!(c.admin, admin());
    assert_eq!((c.transaction_tax_rate, c.liquidity_tax_rate, c.reward_tax_rate), (3, 1, 2));
    assert_eq!((c.nft_transfer_tax_rate, c.team_nft_tax_rate, c.reward_nft_tax_rate), (5, 2, 3));
    assert_eq!(c.vesting_start_time, 77);
    assert_eq!(c.ecosystem_vesting_duration, 31_536_000);
    assert_eq!(c.treasury_vesting_duration, VESTING_DURATION);
}

#[test]
fn create_planet_starts_at_earth() {
    let config = small_cost_config();
    let mut user = initialize_user(addr(10));
    let (p, cost) = create_planet(&mut user, &config, addr(20), 1_000).unwrap();
    assert_eq!(p.compound_level, 0);
    assert_eq!(p.daily_reward, 4);
    assert_eq!(p.name, "Earth");
    assert_eq!(p.locked_tokens, 1000);
    assert_eq!(p.last_claim, 1_000);
    assert_eq!(p.owner, addr(10));
    assert_eq!(
        cost,
        TokenMove { from: Party::Caller, to: Party::RewardPool, authority: Authority::Caller, amount: 1000 }
    );
    assert_eq!(user.planets, vec![addr(20)]);
}

#[test]
fn create_planet_locks_default_cost() {
    let config = config_at(0);
    let mut user = initialize_user(addr(10));
    let (p, cost) = create_planet(&mut user, &config, addr(20), 0).unwrap();
    assert_eq!(p.locked_tokens, PLANET_CREATION_COST);
    assert_eq!(cost.amount, 1_000_000_000_000);
}

#[test]
fn create_planet_refuses_beyond_cap() {
    let config = config_at(0);
    let mut user = initialize_user(addr(10));
    for i in 0..10u8 {
        create_planet(&mut user, &config, addr(100 + i), 0).unwrap();
    }
    let before = user.planets.clone();
    assert_eq!(create_planet(&mut user, &config, addr(200), 0).unwrap_err(), ErrorCode::MaxPlanetsReached);
    assert_eq!(user.planets, before);
}

#[test]
fn claim_after_one_interval_pays_four_percent() {
    let config = small_cost_config();
    let mut user = initialize_user(addr(10));
    let (mut p, _) = create_planet(&mut user, &config, addr(20), 1_000).unwrap();
    let paid = claim_rewards(&mut p, &config, addr(10), 1_000 + 28_800).unwrap();
    assert_eq!(
        paid,
        TokenMove { from: Party::RewardPool, to: Party::Caller, authority: Authority::Program, amount: 40 }
    );
    assert_eq!(p.last_claim, 1_000 + 28_800);
    assert_eq!(p.locked_tokens, 1000);
    assert_eq!(p.compound_level, 0);
}

#[test]
fn compound_after_claim_moves_to_moon() {
    let config = small_cost_config();
    let mut user = initialize_user(addr(10));
    let (mut p, _) = create_planet(&mut user, &config, addr(20), 0).unwrap();
    claim_rewards(&mut p, &config, addr(10), 28_800).unwrap();
    let reward = compound_rewards(&mut p, &config, addr(10), 57_600).unwrap();
    assert_eq!(reward, 40);
    assert_eq!(p.locked_tokens, 1040);
    assert_eq!(p.compound_level, 1);
    assert_eq!(p.daily_reward, 5);
    assert_eq!(p.name, "Moon");
    assert_eq!(p.last_claim, 57_600);
}

#[test]
fn reward_not_ready_one_second_early() {
    let config = config_at(0);
    let mut p = planet(0, 4, 1000, 500);
    let before = p.clone();
    assert_eq!(claim_rewards(&mut p, &config, addr(10), 500 + 28_799).unwrap_err(), ErrorCode::RewardNotReady);
    assert_eq!(compound_rewards(&mut p, &config, addr(10), 500 + 28_799).unwrap_err(), ErrorCode::RewardNotReady);
    assert_eq!(p.last_claim, before.last_claim);
    assert_eq!(p.locked_tokens, before.locked_tokens);
    assert_eq!(p.compound_level, before.compound_level);
}

#[test]
fn reward_not_ready_when_clock_behind() {
    let config = config_at(0);
    let mut p = planet(0, 4, 1000, 10_000);
    assert_eq!(claim_rewards(&mut p, &config, addr(10), 0).unwrap_err(), ErrorCode::RewardNotReady);
}

#[test]
fn partial_intervals_accrue_pro_rata() {
    let config = config_at(0);
    let mut p = planet(0, 4, 1000, 0);
    // one and a half intervals: 1000 * 4% * 1.5 = 60
    let paid = claim_rewards(&mut p, &config, addr(10), 43_200).unwrap();
    assert_eq!(paid.amount, 60);
}

#[test]
fn reward_truncates_toward_zero() {
    // 999 * 4% = 39.96: the fraction is lost
    assert_eq!(calculate_reward(999, 4, 28_800, REWARD_INTERVAL), 39);
    assert_eq!(calculate_reward(1000, 4, 28_800, REWARD_INTERVAL), 40);
    assert_eq!(calculate_reward(1000, 4, 0, REWARD_INTERVAL), 0);
}

#[test]
fn reward_saturates_at_largest_amount() {
    assert_eq!(calculate_reward(u64::MAX, 255, u64::MAX, 1), u64::MAX);
    assert_eq!(calculate_reward(u64::MAX, 100, 28_800, REWARD_INTERVAL), u64::MAX);
}

#[test]
fn reward_grows_with_locked_and_elapsed_and_rate() {
    let base = calculate_reward(5_000, 6, 40_000, REWARD_INTERVAL);
    assert!(calculate_reward(5_001, 6, 40_000, REWARD_INTERVAL) >= base);
    assert!(calculate_reward(5_000, 6, 40_001, REWARD_INTERVAL) >= base);
    assert_eq!(calculate_reward(5_000, 12, 40_000, REWARD_INTERVAL), 833);
    assert_eq!(base, 416);
    assert_eq!(calculate_reward(10_000_000, 12, 57_600, REWARD_INTERVAL), 2 * calculate_reward(10_000_000, 6, 57_600, REWARD_INTERVAL));
}

#[test]
fn pending_reward_reports_without_changing() {
    let config = config_at(0);
    let p = planet(2, 6, 10_000, 0);
    assert_eq!(pending_reward(&p, &config, 28_800), Ok(600));
    assert_eq!(pending_reward(&p, &config, 100), Err(ErrorCode::RewardNotReady));
}

#[test]
fn ladder_has_no_tier_nine() {
    let expected: [(u8, u8, &str); 10] = [
        (0, 4, "Earth"),
        (1, 5, "Moon"),
        (2, 6, "Mercury"),
        (3, 7, "Venus"),
        (4, 8, "Mars"),
        (5, 9, "Jupiter"),
        (6, 10, "Saturn"),
        (7, 11, "Uranus"),
        (8, 12, "Neptune"),
        (10, 14, "Sun"),
    ];
    for (level, rate, name) in expected {
        assert_eq!(get_reward_for_level(level), Ok(rate));
        assert_eq!(get_planet_name_for_level(level), name);
    }
    assert_eq!(get_reward_for_level(9), Err(ErrorCode::InvalidCompoundLevel));
    assert_eq!(get_planet_name_for_level(9), "Unknown");
    assert_eq!(get_reward_for_level(11), Err(ErrorCode::InvalidCompoundLevel));
}

#[test]
fn compound_from_neptune_fails() {
    let config = config_at(0);
    let mut p = planet(8, 12, 5_000, 0);
    assert_eq!(compound_rewards(&mut p, &config, addr(10), 28_800).unwrap_err(), ErrorCode::InvalidCompoundLevel);
    assert_eq!(p.compound_level, 8);
    assert_eq!(p.daily_reward, 12);
    assert_eq!(p.name, "Neptune");
    assert_eq!(p.locked_tokens, 5_000);
    assert_eq!(p.last_claim, 0);
}

#[test]
fn compound_walks_the_ladder_to_neptune() {
    let config = config_at(0);
    let mut p = planet(0, 4, 100_000, 0);
    let mut now: i64 = 0;
    for level in 1..=8u8 {
        now += 28_800;
        compound_rewards(&mut p, &config, addr(10), now).unwrap();
        assert_eq!(p.compound_level, level);
        assert_eq!(get_reward_for_level(level), Ok(p.daily_reward));
        assert_eq!(get_planet_name_for_level(level), p.name);
    }
}

#[test]
fn transfer_planet_splits_tax() {
    let config = config_at(0);
    let mut p = planet(1, 5, 1040, 0);
    let mut seller = initialize_user(addr(10));
    seller.planets = vec![addr(21), addr(20), addr(22)];
    let mut buyer = initialize_user(addr(11));
    buyer.planets = vec![addr(30)];
    let moves = transfer_planet(&mut p, &mut seller, &mut buyer, &config, addr(10)).unwrap();
    assert_eq!(
        moves,
        vec![
            TokenMove { from: Party::Caller, to: Party::TeamWallet, authority: Authority::Caller, amount: 20 },
            TokenMove { from: Party::Caller, to: Party::RewardPool, authority: Authority::Caller, amount: 32 },
        ]
    );
    assert_eq!(p.owner, addr(11));
    assert_eq!(p.locked_tokens, 1040);
    assert_eq!(seller.planets, vec![addr(21), addr(22)]);
    assert_eq!(buyer.planets, vec![addr(30), addr(20)]);
}

#[test]
fn nft_tax_parts_sum_to_whole() {
    let config = config_at(0);
    let t = split_nft_tax(1040, &config);
    assert_eq!((t.tax, t.team_tax, t.reward_tax), (52, 20, 32));
    for locked in [0u64, 1, 19, 99, 12_345, u64::MAX] {
        let t = split_nft_tax(locked, &config);
        assert_eq!(t.team_tax + t.reward_tax, t.tax);
    }
}

#[test]
fn transfer_with_tax_makes_three_moves_in_order() {
    let config = config_at(0);
    let moves = transfer_with_tax(1000, &config).unwrap();
    assert_eq!(
        moves,
        vec![
            TokenMove { from: Party::Caller, to: Party::LiquidityWallet, authority: Authority::Caller, amount: 10 },
            TokenMove { from: Party::Caller, to: Party::RewardPool, authority: Authority::Caller, amount: 20 },
            TokenMove { from: Party::Caller, to: Party::Recipient, authority: Authority::Caller, amount: 970 },
        ]
    );
}

#[test]
fn transaction_tax_slack_stays_in_net() {
    let config = config_at(0);
    // total 4 (4.5 truncated), liquidity 1, reward 3: the missing unit is not refunded
    let split = apply_transaction_tax(150, &config).unwrap();
    assert_eq!((split.total_tax, split.liquidity_tax, split.reward_tax, split.net), (4, 1, 3, 146));
}

#[test]
fn transaction_tax_refuses_excess_sub_rates() {
    let mut config = config_at(0);
    config.liquidity_tax_rate = 2;
    config.reward_tax_rate = 2;
    assert_eq!(apply_transaction_tax(100, &config).unwrap_err(), ErrorCode::InvalidTaxCalculation);
    assert_eq!(transfer_with_tax(100, &config).unwrap_err(), ErrorCode::InvalidTaxCalculation);
}

#[test]
fn vesting_half_way_releases_half() {
    let config = config_at(0);
    let mut vesting = setup_vesting(&config, admin(), 200_000_000, 150_000_000, 80_000_000, 0).unwrap();
    let paid = claim_vested_tokens(&mut vesting, &config, admin(), VestingType::Ecosystem, 15_768_000).unwrap();
    assert_eq!(
        paid,
        TokenMove {
            from: Party::VestingVault,
            to: Party::Recipient,
            authority: Authority::Program,
            amount: 100_000_000
        }
    );
    assert_eq!(vesting.ecosystem_claimed, 100_000_000);
    assert_eq!(vesting.treasury_claimed, 0);
    assert_eq!(vesting.last_claim_time, 15_768_000);
}

#[test]
fn vesting_claims_are_cumulative() {
    let config = config_at(1_000);
    let mut vesting = setup_vesting(&config, admin(), 200_000_000, 150_000_000, 80_000_000, 1_000).unwrap();
    let first = claim_vested_tokens(&mut vesting, &config, admin(), VestingType::Treasury, 1_000 + 7_884_000).unwrap();
    assert_eq!(first.amount, 37_500_000);
    assert_eq!(
        claim_vested_tokens(&mut vesting, &config, admin(), VestingType::Treasury, 1_000 + 7_884_000).unwrap_err(),
        ErrorCode::NoVestedTokens
    );
    assert_eq!(vesting.treasury_claimed, 37_500_000);
    let second = claim_vested_tokens(&mut vesting, &config, admin(), VestingType::Treasury, 1_000 + 15_768_000).unwrap();
    assert_eq!(second.amount, 37_500_000);
    assert_eq!(vesting.treasury_claimed, 75_000_000);
    assert_eq!(vesting.ecosystem_claimed, 0);
}

#[test]
fn vesting_before_start_has_nothing() {
    let config = config_at(1_000_000);
    let mut vesting = setup_vesting(&config, admin(), 200_000_000, 150_000_000, 0, 0).unwrap();
    assert_eq!(
        claim_vested_tokens(&mut vesting, &config, admin(), VestingType::Ecosystem, 999_999).unwrap_err(),
        ErrorCode::NoVestedTokens
    );
    assert_eq!(vesting.ecosystem_claimed, 0);
}

#[test]
fn vesting_is_not_clamped_past_duration() {
    let config = config_at(0);
    let mut vesting = setup_vesting(&config, admin(), 200_000_000, 150_000_000, 0, 0).unwrap();
    let full = claim_vested_tokens(&mut vesting, &config, admin(), VestingType::Ecosystem, 31_536_000).unwrap();
    assert_eq!(full.amount, 200_000_000);
    assert_eq!(vesting.ecosystem_claimed, vesting.ecosystem_amount);
    // twice the duration: progress is not clamped, so the release goes on past the allocation
    let later = claim_vested_tokens(&mut vesting, &config, admin(), VestingType::Ecosystem, 63_072_000).unwrap();
    assert_eq!(later.amount, 200_000_000);
    assert_eq!(vesting.ecosystem_claimed, 400_000_000);
    assert_eq!(vested_amount(200_000_000, 31_536_000, 63_072_000), 400_000_000);
    assert_eq!(vested_amount(200_000_000, 31_536_000, -5), 0);
}

#[test]
fn update_config_rejects_excess_sub_rates() {
    let mut config = config_at(0);
    let before = config;
    assert_eq!(
        update_config(&mut config, admin(), None, None, None, Some(2), Some(2)),
        Err(ErrorCode::InvalidTaxRates)
    );
    assert_eq!(config.liquidity_tax_rate, before.liquidity_tax_rate);
    assert_eq!(config.reward_tax_rate, before.reward_tax_rate);
    assert_eq!(config.transaction_tax_rate, 3);
}

#[test]
fn update_config_applies_given_overrides_only() {
    let mut config = config_at(0);
    assert_eq!(update_config(&mut config, admin(), Some(7), None, Some(6), Some(2), Some(4)), Ok(()));
    assert_eq!(config.reward_rate, 7);
    assert_eq!(config.planet_creation_cost, PLANET_CREATION_COST);
    assert_eq!((config.transaction_tax_rate, config.liquidity_tax_rate, config.reward_tax_rate), (6, 2, 4));
    assert_eq!(update_config(&mut config, admin(), None, None, Some(6), Some(3), None), Err(ErrorCode::InvalidTaxRates));
    assert_eq!(config.liquidity_tax_rate, 2);
}

#[test]
fn non_admin_is_unauthorized() {
    let mut config = config_at(0);
    let stranger = addr(99);
    assert_eq!(
        update_config(&mut config, stranger, Some(9), None, None, None, None),
        Err(ErrorCode::Unauthorized)
    );
    assert_eq!(config.reward_rate, 4);
    assert_eq!(burn_tokens(&config, stranger, 5), Err(ErrorCode::Unauthorized));
    assert_eq!(
        burn_tokens(&config, admin(), 5),
        Ok(TokenBurn { from: Party::BurnReserve, authority: Authority::Caller, amount: 5 })
    );
    assert_eq!(setup_vesting(&config, stranger, 1, 1, 1, 0).unwrap_err(), ErrorCode::Unauthorized);
    let mut vesting = setup_vesting(&config, admin(), 200_000_000, 150_000_000, 0, 0).unwrap();
    assert_eq!(
        claim_vested_tokens(&mut vesting, &config, stranger, VestingType::Ecosystem, 15_768_000).unwrap_err(),
        ErrorCode::Unauthorized
    );
    assert_eq!(vesting.ecosystem_claimed, 0);
}

#[test]
fn addresses_compare_by_bytes() {
    let mut a = [7u8; 32];
    let b = Address(a);
    a[31] = 8;
    assert!(b != Address(a));
    assert!(b == Address([7u8; 32]));
}

#[test]
fn only_the_owner_claims_or_compounds() {
    let config = config_at(0);
    let mut p = planet(0, 4, 1000, 0);
    assert_eq!(claim_rewards(&mut p, &config, addr(11), 28_800).unwrap_err(), ErrorCode::Unauthorized);
    assert_eq!(compound_rewards(&mut p, &config, addr(11), 28_800).unwrap_err(), ErrorCode::Unauthorized);
    assert_eq!(p.last_claim, 0);
    assert_eq!(p.locked_tokens, 1000);
    assert_eq!(p.compound_level, 0);
}

#[test]
fn only_the_owner_sells() {
    let config = config_at(0);
    let mut p = planet(1, 5, 1040, 0);
    let mut seller = initialize_user(addr(10));
    seller.planets = vec![addr(20)];
    let mut buyer = initialize_user(addr(11));
    assert_eq!(
        transfer_planet(&mut p, &mut seller, &mut buyer, &config, addr(11)).unwrap_err(),
        ErrorCode::Unauthorized
    );
    assert_eq!(p.owner, addr(10));
    assert_eq!(seller.planets, vec![addr(20)]);
    assert!(buyer.planets.is_empty());
}

#[test]
fn transfer_refuses_a_full_buyer() {
    let config = config_at(0);
    let mut p = planet(1, 5, 1040, 0);
    let mut seller = initialize_user(addr(10));
    seller.planets = vec![addr(20)];
    let mut buyer = initialize_user(addr(11));
    buyer.planets = (0..10u8).map(|i| addr(100 + i)).collect();
    assert_eq!(
        transfer_planet(&mut p, &mut seller, &mut buyer, &config, addr(10)).unwrap_err(),
        ErrorCode::MaxPlanetsReached
    );
    assert_eq!(p.owner, addr(10));
    assert_eq!(seller.planets, vec![addr(20)]);
    assert_eq!(buyer.planets.len(), 10);
}

#[test]
fn reward_scales_with_whole_rate_multiples() {
    let one = calculate_reward(999, 3, 28_800, REWARD_INTERVAL);
    let triple = calculate_reward(999, 9, 28_800, REWARD_INTERVAL);
    assert_eq!((one, triple), (29, 89));
    assert!(3 * one <= triple && triple < 3 * (one + 1));
}

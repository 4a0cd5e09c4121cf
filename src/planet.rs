use vstd::prelude::*;
use crate::address::Address;
use crate::config::Config;
use crate::error::ErrorCode;
use crate::ladder::{get_planet_name_for_level, get_reward_for_level, ladder_name, ladder_rate};
use crate::movement::{Authority, Party, TokenMove};
use crate::reward::{accrued, calculate_reward, reward_spec};
use crate::tax::{split_nft_tax, percent_of, team_share};

verus! {

/// An owner and the identifiers of the planets it holds, in order of acquisition.
#[derive(Clone, Debug)]
pub struct User {
    pub authority: Address,
    pub planets: Vec<Address>,
}

/// A position of locked tokens with a reward tier.
#[derive(Clone, Debug)]
pub struct Planet {
    pub owner: Address,
    pub compound_level: u8,
    pub daily_reward: u8,
    pub last_claim: i64,
    pub locked_tokens: u64,
    pub name: String,
    pub planet_id: Address,
}

impl Planet {
    /// Rate and name are the ladder's entries for the tier.
    pub open spec fn wf(&self) -> bool {
        &&& ladder_rate(self.compound_level) == Some(self.daily_reward)
        &&& self.name@ == ladder_name(self.compound_level)
    }

    /// Seconds since the last claim or compound.
    pub open spec fn elapsed(&self, now: i64) -> int {
        now - self.last_claim
    }

    pub open spec fn reward_ready(&self, config: Config, now: i64) -> bool {
        self.elapsed(now) >= config.reward_interval
    }

    /// The reward accrued by `now`, once ready.
    pub open spec fn reward_at(&self, config: Config, now: i64) -> int {
        reward_spec(self.locked_tokens, self.daily_reward, self.elapsed(now) as u64, config.reward_interval)
    }
}

/// Rate of the tier one above `level`, if the ladder has it.
pub open spec fn next_rate(level: u8) -> Option<u8> {
    if level < 255 {
        ladder_rate((level + 1) as u8)
    } else {
        None
    }
}

/// `ids` with every occurrence of `id` taken out, order kept.
pub open spec fn without(ids: Seq<Address>, id: Address) -> Seq<Address>
    decreases ids.len(),
{
    if ids.len() == 0 {
        ids
    } else {
        let rest = without(ids.drop_last(), id);
        if ids.last()@ == id@ {
            rest
        } else {
            rest.push(ids.last())
        }
    }
}

/// A new owner record holding no planets.
pub fn initialize_user(authority: Address) -> (u: User)
    ensures
        u.authority == authority,
        u.planets@.len() == 0,
{
    User { authority, planets: Vec::new() }
}

/// Creates a tier-0 planet for `user`, locking the creation cost, which moves from the
/// caller to the reward pool. Fails with `MaxPlanetsReached`, changing nothing, when the user
/// already holds the maximum number of planets.
pub fn create_planet(user: &mut User, config: &Config, planet_id: Address, now: i64) -> (r: Result<
    (Planet, TokenMove),
    ErrorCode,
>)
    ensures
        old(user).planets@.len() >= config.max_planets_per_user ==> r == Err::<
            (Planet, TokenMove),
            ErrorCode,
        >(ErrorCode::MaxPlanetsReached) && *final(user) == *old(user),
        old(user).planets@.len() < config.max_planets_per_user ==> {
            &&& r is Ok
            &&& r->Ok_0.0.wf()
            &&& r->Ok_0.0.owner == old(user).authority
            &&& r->Ok_0.0.compound_level == 0
            &&& r->Ok_0.0.daily_reward == 4
            &&& r->Ok_0.0.name@ == "Earth"@
            &&& r->Ok_0.0.last_claim == now
            &&& r->Ok_0.0.locked_tokens == config.planet_creation_cost
            &&& r->Ok_0.0.planet_id == planet_id
            &&& r->Ok_0.1 == (TokenMove {
                from: Party::Caller,
                to: Party::RewardPool,
                authority: Authority::Caller,
                amount: config.planet_creation_cost,
            })
            &&& final(user).authority == old(user).authority
            &&& final(user).planets@ == old(user).planets@.push(planet_id)
        },
{
    if user.planets.len() >= config.max_planets_per_user as usize {
        return Err(ErrorCode::MaxPlanetsReached);
    }
    let planet = Planet {
        owner: user.authority,
        compound_level: 0,
        daily_reward: 4,
        last_claim: now,
        locked_tokens: config.planet_creation_cost,
        name: get_planet_name_for_level(0),
        planet_id,
    };
    proof {
        reveal_strlit("Earth");
    }
    user.planets.push(planet_id);
    let cost = TokenMove {
        from: Party::Caller,
        to: Party::RewardPool,
        authority: Authority::Caller,
        amount: config.planet_creation_cost,
    };
    Ok((planet, cost))
}

/// The reward `planet` has accrued by `now`; `RewardNotReady` before a full reward interval
/// has passed since its last claim.
pub fn pending_reward(planet: &Planet, config: &Config, now: i64) -> (r: Result<u64, ErrorCode>)
    requires
        config.reward_interval > 0,
    ensures
        r == if planet.reward_ready(*config, now) {
            Ok::<u64, ErrorCode>(planet.reward_at(*config, now) as u64)
        } else {
            Err::<u64, ErrorCode>(ErrorCode::RewardNotReady)
        },
        r is Ok ==> r->Ok_0 == planet.reward_at(*config, now),
{
    let elapsed: i128 = now as i128 - planet.last_claim as i128;
    if elapsed < config.reward_interval as i128 {
        return Err(ErrorCode::RewardNotReady);
    }
    Ok(calculate_reward(planet.locked_tokens, planet.daily_reward, elapsed as u64, config.reward_interval))
}

/// Pays the accrued reward out of the reward pool to the owner's token account, under the
/// program's signing capability, and restarts the accrual clock. Only the owner may claim
/// (`Unauthorized`); `RewardNotReady` before a full reward interval has passed. On failure
/// nothing changes.
pub fn claim_rewards(planet: &mut Planet, config: &Config, caller: Address, now: i64) -> (r: Result<
    TokenMove,
    ErrorCode,
>)
    requires
        config.wf(),
    ensures
        caller@ != old(planet).owner@ ==> r == Err::<TokenMove, ErrorCode>(ErrorCode::Unauthorized)
            && *final(planet) == *old(planet),
        caller@ == old(planet).owner@ && !old(planet).reward_ready(*config, now) ==> r == Err::<
            TokenMove,
            ErrorCode,
        >(ErrorCode::RewardNotReady) && *final(planet) == *old(planet),
        caller@ == old(planet).owner@ && old(planet).reward_ready(*config, now) ==> r == Ok::<
            TokenMove,
            ErrorCode,
        >(
            TokenMove {
                from: Party::RewardPool,
                to: Party::Caller,
                authority: Authority::Program,
                amount: old(planet).reward_at(*config, now) as u64,
            },
        ) && *final(planet) == (Planet { last_claim: now, ..*old(planet) }),
        old(planet).wf() ==> final(planet).wf(),
{
    if caller != planet.owner {
        return Err(ErrorCode::Unauthorized);
    }
    let reward = pending_reward(planet, config, now)?;
    planet.last_claim = now;
    Ok(TokenMove { from: Party::RewardPool, to: Party::Caller, authority: Authority::Program, amount: reward })
}

/// Folds the accrued reward into the locked balance, raises the tier by one with the
/// ladder's rate and name, and restarts the accrual clock; no tokens move. Only the owner may
/// compound (`Unauthorized`); `RewardNotReady` before a full reward interval has passed;
/// `InvalidCompoundLevel` when the ladder has no next tier. On failure nothing changes. The
/// result is the reward compounded, accrued at the old rate.
pub fn compound_rewards(planet: &mut Planet, config: &Config, caller: Address, now: i64) -> (r: Result<
    u64,
    ErrorCode,
>)
    requires
        config.wf(),
        old(planet).reward_ready(*config, now) ==> old(planet).locked_tokens + old(planet).reward_at(
            *config,
            now,
        ) <= u64::MAX,
    ensures
        caller@ != old(planet).owner@ ==> r == Err::<u64, ErrorCode>(ErrorCode::Unauthorized)
            && *final(planet) == *old(planet),
        caller@ == old(planet).owner@ && !old(planet).reward_ready(*config, now) ==> r == Err::<
            u64,
            ErrorCode,
        >(ErrorCode::RewardNotReady) && *final(planet) == *old(planet),
        caller@ == old(planet).owner@ && old(planet).reward_ready(*config, now) && next_rate(
            old(planet).compound_level,
        ) is None ==> r == Err::<u64, ErrorCode>(ErrorCode::InvalidCompoundLevel) && *final(planet)
            == *old(planet),
        caller@ == old(planet).owner@ && old(planet).reward_ready(*config, now) && next_rate(
            old(planet).compound_level,
        ) is Some ==> {
            &&& r == Ok::<u64, ErrorCode>(old(planet).reward_at(*config, now) as u64)
            &&& old(planet).reward_at(*config, now) == accrued(
                old(planet).locked_tokens as int,
                old(planet).daily_reward as int,
                old(planet).elapsed(now),
                config.reward_interval as int,
            )
            &&& final(planet).locked_tokens == old(planet).locked_tokens + old(planet).reward_at(*config, now)
            &&& final(planet).compound_level == old(planet).compound_level + 1
            &&& Some(final(planet).daily_reward) == next_rate(old(planet).compound_level)
            &&& final(planet).name@ == ladder_name(final(planet).compound_level)
            &&& final(planet).last_claim == now
            &&& final(planet).owner == old(planet).owner
            &&& final(planet).planet_id == old(planet).planet_id
        },
        old(planet).wf() ==> final(planet).wf(),
{
    if caller != planet.owner {
        return Err(ErrorCode::Unauthorized);
    }
    let reward = pending_reward(planet, config, now)?;
    proof {
        // The cap on the reward never binds here: a capped reward would leave no room in the
        // locked balance unless nothing is locked, and then nothing accrues.
        let l = planet.locked_tokens as int;
        let e = planet.elapsed(now);
        if l == 0 {
            assert(l * (planet.daily_reward as int) * e == 0) by (nonlinear_arith)
                requires
                    l == 0,
            ;
        }
    }
    let level = match planet.compound_level.checked_add(1) {
        Some(level) => level,
        None => return Err(ErrorCode::InvalidCompoundLevel),
    };
    let rate = get_reward_for_level(level)?;
    planet.locked_tokens = planet.locked_tokens + reward;
    planet.compound_level = level;
    planet.daily_reward = rate;
    planet.name = get_planet_name_for_level(level);
    planet.last_claim = now;
    Ok(reward)
}

/// Hands `planet` from `seller` to `buyer`. Only the planet's owner may sell it
/// (`Unauthorized`), and the buyer must have room under the planet cap
/// (`MaxPlanetsReached`); on failure nothing changes. The seller pays the NFT transfer tax
/// out of its own token balance, the team's part to the team wallet and the rest to the
/// reward pool; the locked balance is untouched. The result is the two transfers, in that
/// order.
pub fn transfer_planet(
    planet: &mut Planet,
    seller: &mut User,
    buyer: &mut User,
    config: &Config,
    caller: Address,
) -> (r: Result<Vec<TokenMove>, ErrorCode>)
    requires
        config.wf(),
    ensures
        caller@ != old(planet).owner@ ==> r == Err::<Vec<TokenMove>, ErrorCode>(ErrorCode::Unauthorized),
        caller@ == old(planet).owner@ && old(buyer).planets@.len() >= config.max_planets_per_user ==> r
            == Err::<Vec<TokenMove>, ErrorCode>(ErrorCode::MaxPlanetsReached),
        r is Err ==> *final(planet) == *old(planet) && *final(seller) == *old(seller) && *final(buyer)
            == *old(buyer),
        caller@ == old(planet).owner@ && old(buyer).planets@.len() < config.max_planets_per_user ==> {
            let tax = percent_of(old(planet).locked_tokens as int, config.nft_transfer_tax_rate as int);
            let team_tax = team_share(tax, config.team_nft_tax_rate as int, config.nft_transfer_tax_rate as int);
            &&& r is Ok
            &&& r->Ok_0@ == nft_tax_moves(team_tax as u64, (tax - team_tax) as u64)
            &&& r->Ok_0@[0].amount + r->Ok_0@[1].amount == tax
            &&& *final(planet) == (Planet { owner: old(buyer).authority, ..*old(planet) })
            &&& final(buyer).authority == old(buyer).authority
            &&& final(buyer).planets@ == old(buyer).planets@.push(old(planet).planet_id)
            &&& final(seller).authority == old(seller).authority
            &&& final(seller).planets@ == without(old(seller).planets@, old(planet).planet_id)
        },
        old(buyer).planets@.len() <= config.max_planets_per_user ==> final(buyer).planets@.len()
            <= config.max_planets_per_user,
        old(planet).wf() ==> final(planet).wf(),
{
    if caller != planet.owner {
        return Err(ErrorCode::Unauthorized);
    }
    if buyer.planets.len() >= config.max_planets_per_user as usize {
        return Err(ErrorCode::MaxPlanetsReached);
    }
    let tax = split_nft_tax(planet.locked_tokens, config);
    let mut moves: Vec<TokenMove> = Vec::new();
    moves.push(
        TokenMove { from: Party::Caller, to: Party::TeamWallet, authority: Authority::Caller, amount: tax.team_tax },
    );
    moves.push(
        TokenMove {
            from: Party::Caller,
            to: Party::RewardPool,
            authority: Authority::Caller,
            amount: tax.reward_tax,
        },
    );
    planet.owner = buyer.authority;
    buyer.planets.push(planet.planet_id);
    remove_planet(seller, planet.planet_id);
    proof {
        assert(moves@ =~= nft_tax_moves(tax.team_tax, tax.reward_tax));
    }
    Ok(moves)
}

/// The transfers that pay a planet transfer's tax: the team's part, then the reward pool's,
/// both from the caller and signed by the caller.
pub open spec fn nft_tax_moves(team_tax: u64, reward_tax: u64) -> Seq<TokenMove> {
    seq![
        TokenMove { from: Party::Caller, to: Party::TeamWallet, authority: Authority::Caller, amount: team_tax },
        TokenMove { from: Party::Caller, to: Party::RewardPool, authority: Authority::Caller, amount: reward_tax },
    ]
}

fn remove_planet(user: &mut User, id: Address)
    ensures
        final(user).authority == old(user).authority,
        final(user).planets@ == without(old(user).planets@, id),
{
    let ghost ids = user.planets@;
    let mut kept: Vec<Address> = Vec::new();
    let mut i: usize = 0;
    while i < user.planets.len()
        invariant
            user.planets@ == ids,
            0 <= i <= ids.len(),
            kept@ == without(ids.subrange(0, i as int), id),
        decreases ids.len() - i,
    {
        let current = user.planets[i];
        proof {
            assert(ids.subrange(0, i + 1).drop_last() =~= ids.subrange(0, i as int));
        }
        if current != id {
            kept.push(current);
        }
        i = i + 1;
    }
    proof {
        assert(ids.subrange(0, ids.len() as int) =~= ids);
    }
    user.planets = kept;
}

} // verus!

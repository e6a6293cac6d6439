//! Bot decisions (one to three bots): the state machine, where a bot walks, and who is spawned.
use vstd::prelude::*;

verus! {

/// State machine of a bot.
#[derive(Debug, Clone, Copy, PartialEq, Eq, Structural)]
pub enum BotState {
    /// Patrol: walk slowly between waypoints.
    Patrol,
    /// Player spotted: dodge sideways.
    Flank,
    /// Take cover behind the nearest barricade.
    Cover,
    /// Fire from cover.
    Attack,
}

/// How far the player is from a bot's patrol point, as bands of distance.
#[derive(Debug, Clone, Copy, PartialEq, Eq, Structural)]
pub enum PlayerRange {
    /// Closer than 6 m.
    Near,
    /// At least 6 m and closer than 20 m.
    Mid,
    /// 20 m or more.
    Far,
}

/// The state a bot switches to, given how far the player is and whether
/// the bot has picked a cover spot.
pub open spec fn spec_next_bot_state(range: PlayerRange, has_cover: bool) -> BotState {
    match range {
        PlayerRange::Near => if has_cover { BotState::Attack } else { BotState::Cover },
        PlayerRange::Mid => BotState::Flank,
        PlayerRange::Far => BotState::Patrol,
    }
}

/// Decides a bot's next state.
pub fn next_bot_state(range: PlayerRange, has_cover: bool) -> (s: BotState)
    ensures
        s == spec_next_bot_state(range, has_cover),
{
    match range {
        PlayerRange::Near => if has_cover { BotState::Attack } else { BotState::Cover },
        PlayerRange::Mid => BotState::Flank,
        PlayerRange::Far => BotState::Patrol,
    }
}

/// Where a bot walks.
#[derive(Debug, Clone, Copy, PartialEq, Eq, Structural)]
pub enum MoveGoal {
    /// Its patrol point.
    PatrolPoint,
    /// Two metres beside its patrol point (along +Z).
    FlankPoint,
    /// The cover spot it picked.
    CoverSpot,
    /// The nearest barricade: it has not picked a spot yet, and the caller
    /// records the nearest cover as its spot.
    NearestCover,
}

pub open spec fn spec_movement_goal(state: BotState, has_spot: bool, cover_exists: bool) -> MoveGoal {
    match state {
        BotState::Patrol => MoveGoal::PatrolPoint,
        BotState::Flank => MoveGoal::FlankPoint,
        BotState::Cover | BotState::Attack => if has_spot {
            MoveGoal::CoverSpot
        } else if cover_exists {
            MoveGoal::NearestCover
        } else {
            MoveGoal::PatrolPoint
        },
    }
}

/// Where a bot in `state` walks: when it hides or attacks, to the spot it
/// picked, or else to the nearest barricade if there is one; otherwise to its
/// patrol point or beside it. `has_spot` says whether it picked a spot,
/// `cover_exists` whether the level has any cover.
pub fn movement_goal(state: BotState, has_spot: bool, cover_exists: bool) -> (g: MoveGoal)
    ensures
        g == spec_movement_goal(state, has_spot, cover_exists),
{
    match state {
        BotState::Patrol => MoveGoal::PatrolPoint,
        BotState::Flank => MoveGoal::FlankPoint,
        BotState::Cover | BotState::Attack => {
            if has_spot {
                MoveGoal::CoverSpot
            } else if cover_exists {
                MoveGoal::NearestCover
            } else {
                MoveGoal::PatrolPoint
            }
        },
    }
}

pub open spec fn spec_bot_may_aim(is_dead: bool, state: BotState) -> bool {
    !is_dead && state == BotState::Attack
}

/// Whether a bot may aim at the player this frame: dead bots do not shoot,
/// and only attacking bots do. (Its fire cooldown is checked by the caller.)
pub fn bot_may_aim(is_dead: bool, state: BotState) -> (r: bool)
    ensures
        r == spec_bot_may_aim(is_dead, state),
{
    !is_dead && state == BotState::Attack
}

/// How many bots there are and how they are set up.
#[derive(Debug, Clone, Copy, PartialEq, Eq, Structural)]
pub struct BotConfig {
    pub count: usize,
}

impl Default for BotConfig {
    /// One bot.
    fn default() -> (c: Self)
        ensures
            c.count == 1,
    {
        BotConfig { count: 1 }
    }
}

/// The score shown on the HUD.
#[derive(Debug, Clone, Copy, PartialEq, Eq, Structural)]
pub struct Score(pub u32);

impl Default for Score {
    fn default() -> (s: Self)
        ensures
            s.0 == 0,
    {
        Score(0)
    }
}

/// Fewest and most bots in a game.
pub const MIN_BOTS: usize = 1;
pub const MAX_BOTS: usize = 3;

/// Number of bots spawned for a configured count: between one and three.
pub open spec fn spec_bots_to_spawn(count: usize) -> usize {
    if count < MIN_BOTS {
        MIN_BOTS
    } else if count > MAX_BOTS {
        MAX_BOTS
    } else {
        count
    }
}

impl BotConfig {
    /// Number of bots to spawn: the configured count, kept between 1 and 3.
    pub fn bots_to_spawn(&self) -> (n: usize)
        ensures
            n == spec_bots_to_spawn(self.count),
            MIN_BOTS <= n <= MAX_BOTS,
    {
        if self.count < MIN_BOTS {
            MIN_BOTS
        } else if self.count > MAX_BOTS {
            MAX_BOTS
        } else {
            self.count
        }
    }

    /// The ids of the bots to spawn, in spawn order: 1, 2, ... up to the
    /// number of bots. Each bot has its own id so that bots do not hit one another.
    pub fn bot_ids(&self) -> (ids: Vec<u32>)
        ensures
            ids@.len() == spec_bots_to_spawn(self.count),
            forall|i: int| 0 <= i < ids@.len() ==> ids@[i] == i + 1,
    {
        let n = self.bots_to_spawn();
        let mut ids: Vec<u32> = Vec::new();
        let mut i: usize = 0;
        while i < n
            invariant
                n == spec_bots_to_spawn(self.count),
                n <= MAX_BOTS,
                0 <= i <= n,
                ids@.len() == i,
                forall|j: int| 0 <= j < i ==> ids@[j] == j + 1,
            decreases n - i,
        {
            ids.push(i as u32 + 1);
            i = i + 1;
        }
        ids
    }
}

/// Bot ids are distinct: two bots of one spawn never share an id.
pub proof fn lemma_bot_ids_distinct(ids: Seq<u32>)
    requires
        forall|i: int| 0 <= i < ids.len() ==> ids[i] == i + 1,
    ensures
        forall|i: int, j: int| 0 <= i < ids.len() && 0 <= j < ids.len() && i != j ==> ids[i] != ids[j],
{
}

/// A bot that has the player near and a level with cover goes into cover,
/// heads for the nearest barricade, and once that spot is recorded attacks
/// and may aim (while alive).
pub proof fn lemma_near_player_leads_to_attack(is_dead: bool)
    ensures
        spec_next_bot_state(PlayerRange::Near, false) == BotState::Cover,
        spec_movement_goal(BotState::Cover, false, true) == MoveGoal::NearestCover,
        spec_next_bot_state(PlayerRange::Near, true) == BotState::Attack,
        spec_movement_goal(BotState::Attack, true, true) == MoveGoal::CoverSpot,
        !is_dead ==> spec_bot_may_aim(is_dead, spec_next_bot_state(PlayerRange::Near, true)),
        !spec_bot_may_aim(is_dead, spec_next_bot_state(PlayerRange::Near, false)),
{
}

/// Only living attacking bots shoot: a bot may aim exactly when it is alive
/// and in Attack; patrolling, flanking or hiding bots, and dead bots, never do.
pub proof fn lemma_only_live_attackers_aim(is_dead: bool, state: BotState)
    ensures
        spec_bot_may_aim(is_dead, state) ==> !is_dead && state == BotState::Attack,
        !is_dead && state == BotState::Attack ==> spec_bot_may_aim(is_dead, state),
        !spec_bot_may_aim(is_dead, BotState::Patrol),
        !spec_bot_may_aim(is_dead, BotState::Flank),
        !spec_bot_may_aim(is_dead, BotState::Cover),
        !spec_bot_may_aim(true, state),
{
}

/// The bot state follows the player's distance: far away a bot patrols, at
/// middle distance it flanks, and near it hides, attacking once it has a
/// cover spot; a cover spot matters only when the player is near.
pub proof fn lemma_bot_state_by_range(has_cover: bool)
    ensures
        spec_next_bot_state(PlayerRange::Far, has_cover) == BotState::Patrol,
        spec_next_bot_state(PlayerRange::Mid, has_cover) == BotState::Flank,
        spec_next_bot_state(PlayerRange::Near, true) == BotState::Attack,
        spec_next_bot_state(PlayerRange::Near, false) == BotState::Cover,
{
}

/// A patrolling bot walks to its patrol point and a flanking one beside it,
/// whatever the cover; a hiding or attacking bot walks to its spot when it
/// has one, to the nearest barricade when it has none but the level has
/// cover, and only without any cover back to its patrol point.
pub proof fn lemma_bot_goals(state: BotState, has_spot: bool, cover_exists: bool)
    ensures
        spec_movement_goal(BotState::Patrol, has_spot, cover_exists) == MoveGoal::PatrolPoint,
        spec_movement_goal(BotState::Flank, has_spot, cover_exists) == MoveGoal::FlankPoint,
        (state == BotState::Cover || state == BotState::Attack) ==> spec_movement_goal(
            state,
            true,
            cover_exists,
        ) == MoveGoal::CoverSpot && spec_movement_goal(state, false, true)
            == MoveGoal::NearestCover && spec_movement_goal(state, false, false)
            == MoveGoal::PatrolPoint,
{
}

/// Between one and three bots spawn: a count inside that range is kept, a
/// lower one gives one bot, a higher one three.
pub proof fn lemma_bot_count(count: usize)
    ensures
        1 <= spec_bots_to_spawn(count) <= 3,
        1 <= count <= 3 ==> spec_bots_to_spawn(count) == count,
        count < 1 ==> spec_bots_to_spawn(count) == 1,
        count > 3 ==> spec_bots_to_spawn(count) == 3,
{
}

} // verus!

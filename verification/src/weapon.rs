//! Weapon inventory and the firing state machine.
//!
//! Every weapon kind has a magazine (`current_ammo` out of `max_ammo`) and a
//! reserve. The state machine decides phase changes, ammunition transfer and
//! which delay the caller has to arm on its frame clock; the clock itself
//! (seconds as floating point) lives outside the library.
use vstd::prelude::*;

verus! {

/// The three weapon kinds.
#[derive(Debug, Clone, Copy, PartialEq, Eq, Hash, Structural)]
pub enum WeaponType {
    Revolver,
    Winchester,
    Shotgun,
}

/// Phase of the active weapon's handling cycle.
#[derive(Debug, Clone, Copy, PartialEq, Eq, Structural)]
pub enum WeaponPhase {
    Ready,
    Uncocked,
    Cocking,
    LeverOut,
    LeverIn,
    BreakingOpen,
    Reloading,
    DryFire,
}

/// A delay that a transition asks the caller to arm on the weapon timer.
/// The caller turns it into seconds; while the timer runs the trigger is
/// ignored, and when it runs out `timer_elapsed` is called.
#[derive(Debug, Clone, Copy, PartialEq, Eq, Structural)]
pub enum Delay {
    /// Set the timer to zero.
    Zero,
    /// The active weapon's reload time.
    Reload,
    /// The active weapon's cocking time.
    Cock,
    /// Half of the active weapon's lever time.
    HalfLever,
    /// The short click of an empty weapon (0.08 s).
    DryFire,
    /// The pause between two fanned revolver shots (0.14 s).
    Fanning,
    /// Breaking open an emptied shotgun (0.25 s).
    BreakOpen,
    /// The active weapon's cycle time.
    Cycle,
}

/// What a pull of the trigger did.
#[derive(Debug, Clone, Copy, PartialEq, Eq, Structural)]
pub enum TriggerResult {
    /// The weapon was not ready: nothing happened to the ammunition.
    Nothing,
    /// The magazine was empty: the weapon clicked.
    DryFire,
    /// One round left the barrel.
    Fired,
}

/// One weapon of the inventory with its ammunition.
#[derive(Debug, Clone, Copy)]
pub struct Weapon {
    pub weapon_type: WeaponType,
    pub current_ammo: u32,
    pub max_ammo: u32,
    pub reserve: u32,
}

/// The discrete part of the weapon handling: which weapon is drawn, its
/// phase, and how many shots were fired so far (the seed of the spread).
#[derive(Debug, Clone, Copy)]
pub struct WeaponState {
    pub active: WeaponType,
    pub phase: WeaponPhase,
    pub shot_sequence: u64,
}

pub open spec fn spec_max_ammo(t: WeaponType) -> u32 {
    match t {
        WeaponType::Revolver => 6,
        WeaponType::Winchester => 12,
        WeaponType::Shotgun => 2,
    }
}

pub open spec fn spec_reserve(t: WeaponType) -> u32 {
    match t {
        WeaponType::Revolver => 36,
        WeaponType::Winchester => 60,
        WeaponType::Shotgun => 24,
    }
}

pub open spec fn spec_display(t: WeaponType) -> Seq<char> {
    match t {
        WeaponType::Revolver => "Revolver"@,
        WeaponType::Winchester => "Winchester"@,
        WeaponType::Shotgun => "Shotgun"@,
    }
}

pub open spec fn spec_long_name(t: WeaponType) -> Seq<char> {
    match t {
        WeaponType::Revolver => "Single-Action Revolver"@,
        WeaponType::Winchester => "Lever-Action Rifle"@,
        WeaponType::Shotgun => "Double-Barrel Shotgun"@,
    }
}

pub open spec fn spec_pellet_count(t: WeaponType) -> usize {
    match t {
        WeaponType::Shotgun => 12,
        _ => 1,
    }
}

/// The phase a weapon is in when drawn: the revolver has to be cocked,
/// the others are ready.
pub open spec fn spec_default_phase(t: WeaponType) -> WeaponPhase {
    match t {
        WeaponType::Revolver => WeaponPhase::Uncocked,
        _ => WeaponPhase::Ready,
    }
}

impl WeaponType {
    /// Magazine size.
    pub fn max_ammo(self) -> (r: u32)
        ensures
            r == spec_max_ammo(self),
    {
        match self {
            WeaponType::Revolver => 6,
            WeaponType::Winchester => 12,
            WeaponType::Shotgun => 2,
        }
    }

    /// Rounds in reserve when the game starts.
    pub fn reserve(self) -> (r: u32)
        ensures
            r == spec_reserve(self),
    {
        match self {
            WeaponType::Revolver => 36,
            WeaponType::Winchester => 60,
            WeaponType::Shotgun => 24,
        }
    }

    /// Short name shown on the HUD.
    pub fn display(self) -> (r: &'static str)
        ensures
            r@ == spec_display(self),
    {
        match self {
            WeaponType::Revolver => "Revolver",
            WeaponType::Winchester => "Winchester",
            WeaponType::Shotgun => "Shotgun",
        }
    }

    /// Long name of the weapon model.
    pub fn long_name(self) -> (r: &'static str)
        ensures
            r@ == spec_long_name(self),
    {
        match self {
            WeaponType::Revolver => "Single-Action Revolver",
            WeaponType::Winchester => "Lever-Action Rifle",
            WeaponType::Shotgun => "Double-Barrel Shotgun",
        }
    }

    /// Paintballs per shot.
    pub fn pellet_count(self) -> (r: usize)
        ensures
            r == spec_pellet_count(self),
    {
        match self {
            WeaponType::Revolver => 1,
            WeaponType::Winchester => 1,
            WeaponType::Shotgun => 12,
        }
    }

    /// Phase of the weapon when it is drawn.
    pub fn default_phase(self) -> (r: WeaponPhase)
        ensures
            r == spec_default_phase(self),
    {
        match self {
            WeaponType::Revolver => WeaponPhase::Uncocked,
            _ => WeaponPhase::Ready,
        }
    }
}

impl Weapon {
    /// A weapon with a full magazine and the full starting reserve.
    pub fn new(weapon_type: WeaponType) -> (w: Self)
        ensures
            w == spec_new_weapon(weapon_type),
    {
        Weapon {
            weapon_type,
            current_ammo: weapon_type.max_ammo(),
            max_ammo: weapon_type.max_ammo(),
            reserve: weapon_type.reserve(),
        }
    }

    /// The magazine does not hold more than it can.
    pub open spec fn well_formed(self) -> bool {
        self.current_ammo <= self.max_ammo
    }

    /// Rounds in the magazine and in reserve together.
    pub open spec fn total_rounds(self) -> int {
        self.current_ammo + self.reserve
    }
}

pub open spec fn spec_new_weapon(t: WeaponType) -> Weapon {
    Weapon {
        weapon_type: t,
        current_ammo: spec_max_ammo(t),
        max_ammo: spec_max_ammo(t),
        reserve: spec_reserve(t),
    }
}

/// Rounds a reload moves from the reserve into the magazine: what is
/// missing, as far as the reserve reaches.
pub open spec fn rounds_to_load(w: Weapon) -> u32 {
    let needed: u32 = if w.current_ammo < w.max_ammo {
        (w.max_ammo - w.current_ammo) as u32
    } else {
        0
    };
    if needed < w.reserve {
        needed
    } else {
        w.reserve
    }
}

/// The weapon after a completed reload.
pub open spec fn reloaded(w: Weapon) -> Weapon {
    Weapon {
        current_ammo: (w.current_ammo + rounds_to_load(w)) as u32,
        reserve: (w.reserve - rounds_to_load(w)) as u32,
        ..w
    }
}

/// Index of the first weapon of kind `t` in `ws`, if there is one.
pub open spec fn first_of_type(ws: Seq<Weapon>, t: WeaponType) -> Option<int>
    decreases ws.len(),
{
    if ws.len() == 0 {
        None
    } else {
        match first_of_type(ws.drop_last(), t) {
            Some(i) => Some(i),
            None => if ws.last().weapon_type == t {
                Some(ws.len() - 1)
            } else {
                None
            },
        }
    }
}

/// `first_of_type` names the first weapon of the kind, or says that there is none.
pub proof fn lemma_first_of_type(ws: Seq<Weapon>, t: WeaponType)
    ensures
        match first_of_type(ws, t) {
            Some(i) => 0 <= i < ws.len() && ws[i].weapon_type == t && forall|j: int|
                0 <= j < i ==> ws[j].weapon_type != t,
            None => forall|j: int| 0 <= j < ws.len() ==> ws[j].weapon_type != t,
        },
    decreases ws.len(),
{
    if ws.len() > 0 {
        lemma_first_of_type(ws.drop_last(), t);
        let p = ws.drop_last();
        assert(forall|j: int| 0 <= j < p.len() ==> p[j] == ws[j]);
    }
}

/// Finds the first weapon of kind `t`.
pub fn find_weapon(weapons: &Vec<Weapon>, t: WeaponType) -> (r: Option<usize>)
    ensures
        match r {
            Some(i) => i < weapons@.len() && weapons@[i as int].weapon_type == t && first_of_type(
                weapons@,
                t,
            ) == Some(i as int),
            None => first_of_type(weapons@, t) is None,
        },
{
    proof {
        lemma_first_of_type(weapons@, t);
    }
    let n = weapons.len();
    let mut i: usize = 0;
    while i < n
        invariant
            n == weapons@.len(),
            0 <= i <= n,
            forall|j: int| 0 <= j < i ==> weapons@[j].weapon_type != t,
            match first_of_type(weapons@, t) {
                Some(k) => 0 <= k < weapons@.len() && weapons@[k].weapon_type == t && forall|j: int|
                    0 <= j < k ==> weapons@[j].weapon_type != t,
                None => forall|j: int|
                    0 <= j < weapons@.len() ==> weapons@[j].weapon_type != t,
            },
        decreases n - i,
    {
        if weapons[i].weapon_type == t {
            return Some(i);
        }
        i = i + 1;
    }
    None
}

/// Moves rounds from the reserve into the magazine.
pub fn reload_weapon(w: &mut Weapon)
    ensures
        *final(w) == reloaded(*old(w)),
{
    let needed = w.max_ammo.saturating_sub(w.current_ammo);
    let loaded = if needed < w.reserve {
        needed
    } else {
        w.reserve
    };
    w.current_ammo = w.current_ammo + loaded;
    w.reserve = w.reserve - loaded;
}

/// The kinds in the order their models are set up and listed.
pub open spec fn spec_all_types() -> Seq<WeaponType> {
    seq![WeaponType::Revolver, WeaponType::Winchester, WeaponType::Shotgun]
}

/// The inventory at the start of a game: one full weapon of each kind, in
/// the order revolver, Winchester, shotgun.
pub open spec fn spec_starting_inventory() -> Seq<Weapon> {
    spec_all_types().map_values(|t: WeaponType| spec_new_weapon(t))
}

/// The weapon kinds in setup order.
pub fn all_types() -> (ts: Vec<WeaponType>)
    ensures
        ts@ == spec_all_types(),
{
    let ts = vec![WeaponType::Revolver, WeaponType::Winchester, WeaponType::Shotgun];
    assert(ts@ =~= spec_all_types());
    ts
}

/// The inventory at the start of a game.
pub fn starting_inventory() -> (ws: Vec<Weapon>)
    ensures
        ws@ == spec_starting_inventory(),
{
    let ws = vec![
        Weapon::new(WeaponType::Revolver),
        Weapon::new(WeaponType::Winchester),
        Weapon::new(WeaponType::Shotgun),
    ];
    assert(ws@ =~= spec_starting_inventory());
    ws
}

/// Only the model of the active weapon is shown.
pub fn model_visible(model: WeaponType, active: WeaponType) -> (r: bool)
    ensures
        r == (model == active),
{
    model == active
}

/// The state a game starts in: revolver drawn and uncocked, no shot fired.
pub open spec fn spec_initial_state() -> WeaponState {
    WeaponState { active: WeaponType::Revolver, phase: WeaponPhase::Uncocked, shot_sequence: 0 }
}

/// Drawing weapon `t`.
pub open spec fn spec_switch_to(st: WeaponState, t: WeaponType) -> WeaponState {
    WeaponState { active: t, phase: spec_default_phase(t), ..st }
}

/// The weapon kind that digit keys 1, 2 and 3 select; the lowest pressed key wins.
pub open spec fn spec_switch_choice(key1: bool, key2: bool, key3: bool) -> Option<WeaponType> {
    if key1 {
        Some(WeaponType::Revolver)
    } else if key2 {
        Some(WeaponType::Winchester)
    } else if key3 {
        Some(WeaponType::Shotgun)
    } else {
        None
    }
}

/// Whether the active weapon may be reloaded: its magazine is not full and
/// there is reserve left.
pub open spec fn can_reload(ws: Seq<Weapon>, t: WeaponType) -> bool {
    match first_of_type(ws, t) {
        Some(i) => ws[i].current_ammo < ws[i].max_ammo && ws[i].reserve > 0,
        None => false,
    }
}

/// The reload key: start a reload where one is possible (the shotgun only
/// when ready or broken open); otherwise cock the revolver or close the
/// Winchester's lever.
pub open spec fn spec_press_reload(st: WeaponState, ws: Seq<Weapon>) -> (WeaponState, Option<Delay>) {
    if can_reload(ws, st.active) && (st.active != WeaponType::Shotgun || st.phase
        == WeaponPhase::Ready || st.phase == WeaponPhase::BreakingOpen) {
        (WeaponState { phase: WeaponPhase::Reloading, ..st }, Some(Delay::Reload))
    } else if st.active == WeaponType::Revolver && st.phase == WeaponPhase::Uncocked {
        (WeaponState { phase: WeaponPhase::Cocking, ..st }, Some(Delay::Cock))
    } else if st.active == WeaponType::Winchester && st.phase == WeaponPhase::LeverOut {
        (WeaponState { phase: WeaponPhase::LeverIn, ..st }, Some(Delay::HalfLever))
    } else {
        (st, None)
    }
}

/// The weapon timer ran out: finish the step that armed it.
pub open spec fn spec_timer_elapsed(st: WeaponState, ws: Seq<Weapon>) -> (
    WeaponState,
    Seq<Weapon>,
    Option<Delay>,
) {
    match st.phase {
        WeaponPhase::Cocking => (WeaponState { phase: WeaponPhase::Ready, ..st }, ws, None),
        WeaponPhase::LeverOut => (
            WeaponState { phase: WeaponPhase::LeverIn, ..st },
            ws,
            Some(Delay::HalfLever),
        ),
        WeaponPhase::LeverIn => (WeaponState { phase: WeaponPhase::Ready, ..st }, ws, None),
        WeaponPhase::Reloading => (
            WeaponState { phase: spec_default_phase(st.active), ..st },
            match first_of_type(ws, st.active) {
                Some(i) => ws.update(i, reloaded(ws[i])),
                None => ws,
            },
            None,
        ),
        WeaponPhase::DryFire => (
            WeaponState {
                phase: if st.active == WeaponType::Revolver {
                    WeaponPhase::Uncocked
                } else {
                    WeaponPhase::Ready
                },
                ..st
            },
            ws,
            None,
        ),
        _ => (st, ws, None),
    }
}

/// The weapon after one round left its magazine.
pub open spec fn spent(w: Weapon) -> Weapon {
    Weapon { current_ammo: (w.current_ammo - 1) as u32, ..w }
}

pub open spec fn next_shot(st: WeaponState) -> u64 {
    vstd::wrapping::u64_specs::wrapping_add(st.shot_sequence, 1)
}

/// The trigger is pulled while the weapon timer is idle. `right_held` is the
/// right mouse button, which fans the revolver's hammer.
pub open spec fn spec_pull_trigger(st: WeaponState, ws: Seq<Weapon>, right_held: bool) -> (
    WeaponState,
    Seq<Weapon>,
    TriggerResult,
    Option<Delay>,
) {
    match first_of_type(ws, st.active) {
        None => (st, ws, TriggerResult::Nothing, None),
        Some(i) => {
            let w = ws[i];
            if w.current_ammo == 0 {
                (
                    WeaponState { phase: WeaponPhase::DryFire, ..st },
                    ws,
                    TriggerResult::DryFire,
                    Some(Delay::DryFire),
                )
            } else {
                match st.active {
                    WeaponType::Revolver => {
                        let ph = if st.phase == WeaponPhase::Uncocked {
                            WeaponPhase::Ready
                        } else {
                            st.phase
                        };
                        if ph == WeaponPhase::Ready || right_held {
                            (
                                WeaponState {
                                    phase: if right_held {
                                        WeaponPhase::Ready
                                    } else {
                                        WeaponPhase::Uncocked
                                    },
                                    shot_sequence: next_shot(st),
                                    ..st
                                },
                                ws.update(i, spent(w)),
                                TriggerResult::Fired,
                                Some(
                                    if right_held {
                                        Delay::Fanning
                                    } else {
                                        Delay::Zero
                                    },
                                ),
                            )
                        } else {
                            (WeaponState { phase: ph, ..st }, ws, TriggerResult::Nothing, None)
                        }
                    },
                    WeaponType::Winchester => {
                        if st.phase == WeaponPhase::Ready {
                            (
                                WeaponState {
                                    phase: WeaponPhase::LeverOut,
                                    shot_sequence: next_shot(st),
                                    ..st
                                },
                                ws.update(i, spent(w)),
                                TriggerResult::Fired,
                                Some(Delay::HalfLever),
                            )
                        } else {
                            (st, ws, TriggerResult::Nothing, None)
                        }
                    },
                    WeaponType::Shotgun => {
                        if st.phase == WeaponPhase::Ready {
                            let emptied = w.current_ammo == 1;
                            (
                                WeaponState {
                                    phase: if emptied {
                                        WeaponPhase::BreakingOpen
                                    } else {
                                        WeaponPhase::Ready
                                    },
                                    shot_sequence: next_shot(st),
                                    ..st
                                },
                                ws.update(i, spent(w)),
                                TriggerResult::Fired,
                                Some(
                                    if emptied {
                                        Delay::BreakOpen
                                    } else {
                                        Delay::Cycle
                                    },
                                ),
                            )
                        } else {
                            (st, ws, TriggerResult::Nothing, None)
                        }
                    },
                }
            }
        },
    }
}

/// Which weapon the digit keys select.
pub fn switch_choice(key1: bool, key2: bool, key3: bool) -> (r: Option<WeaponType>)
    ensures
        r == spec_switch_choice(key1, key2, key3),
{
    if key1 {
        Some(WeaponType::Revolver)
    } else if key2 {
        Some(WeaponType::Winchester)
    } else if key3 {
        Some(WeaponType::Shotgun)
    } else {
        None
    }
}

impl WeaponState {
    /// The state at the start of a game.
    pub fn new() -> (s: Self)
        ensures
            s == spec_initial_state(),
    {
        WeaponState {
            active: WeaponType::Revolver,
            phase: WeaponType::Revolver.default_phase(),
            shot_sequence: 0,
        }
    }

    /// Draws weapon `t`. The caller clears the weapon and muzzle-flash timers.
    pub fn switch_to(&mut self, t: WeaponType)
        ensures
            *final(self) == spec_switch_to(*old(self), t),
    {
        self.active = t;
        self.phase = t.default_phase();
    }

    /// The reload key was pressed. Returns the delay to arm, if any.
    pub fn press_reload(&mut self, weapons: &Vec<Weapon>) -> (d: Option<Delay>)
        ensures
            (*final(self), d) == spec_press_reload(*old(self), weapons@),
    {
        let mut can = false;
        match find_weapon(weapons, self.active) {
            Some(i) => {
                can = weapons[i].current_ammo < weapons[i].max_ammo && weapons[i].reserve > 0;
            },
            None => {},
        }
        let allowed = match self.active {
            WeaponType::Shotgun => match self.phase {
                WeaponPhase::Ready | WeaponPhase::BreakingOpen => true,
                _ => false,
            },
            _ => true,
        };
        if can && allowed {
            self.phase = WeaponPhase::Reloading;
            Some(Delay::Reload)
        } else {
            match (self.active, self.phase) {
                (WeaponType::Revolver, WeaponPhase::Uncocked) => {
                    self.phase = WeaponPhase::Cocking;
                    Some(Delay::Cock)
                },
                (WeaponType::Winchester, WeaponPhase::LeverOut) => {
                    self.phase = WeaponPhase::LeverIn;
                    Some(Delay::HalfLever)
                },
                _ => None,
            }
        }
    }

    /// The weapon timer ran out. Finishes the armed step (a reload moves the
    /// rounds into the active weapon) and returns the next delay to arm, if any.
    pub fn timer_elapsed(&mut self, weapons: &mut Vec<Weapon>) -> (d: Option<Delay>)
        ensures
            (*final(self), final(weapons)@, d) == spec_timer_elapsed(*old(self), old(weapons)@),
    {
        match self.phase {
            WeaponPhase::Cocking => {
                self.phase = WeaponPhase::Ready;
                None
            },
            WeaponPhase::LeverOut => {
                self.phase = WeaponPhase::LeverIn;
                Some(Delay::HalfLever)
            },
            WeaponPhase::LeverIn => {
                self.phase = WeaponPhase::Ready;
                None
            },
            WeaponPhase::Reloading => {
                match find_weapon(weapons, self.active) {
                    Some(i) => {
                        let mut w = weapons[i];
                        reload_weapon(&mut w);
                        weapons.set(i, w);
                    },
                    None => {},
                }
                self.phase = self.active.default_phase();
                None
            },
            WeaponPhase::DryFire => {
                self.phase = match self.active {
                    WeaponType::Revolver => WeaponPhase::Uncocked,
                    _ => WeaponPhase::Ready,
                };
                None
            },
            _ => None,
        }
    }

    /// The trigger is pulled while the weapon timer is idle. Returns what
    /// happened and the delay to arm, if any.
    pub fn pull_trigger(&mut self, weapons: &mut Vec<Weapon>, right_held: bool) -> (r: (
        TriggerResult,
        Option<Delay>,
    ))
        ensures
            (*final(self), final(weapons)@, r.0, r.1) == spec_pull_trigger(
                *old(self),
                old(weapons)@,
                right_held,
            ),
    {
        let i = match find_weapon(weapons, self.active) {
            Some(i) => i,
            None => {
                return (TriggerResult::Nothing, None);
            },
        };
        let mut w = weapons[i];
        if w.current_ammo == 0 {
            self.phase = WeaponPhase::DryFire;
            return (TriggerResult::DryFire, Some(Delay::DryFire));
        }
        match self.active {
            WeaponType::Revolver => {
                if self.phase == WeaponPhase::Uncocked {
                    self.phase = WeaponPhase::Ready;
                }
                if self.phase == WeaponPhase::Ready || right_held {
                    w.current_ammo = w.current_ammo - 1;
                    weapons.set(i, w);
                    self.shot_sequence = self.shot_sequence.wrapping_add(1);
                    if right_held {
                        self.phase = WeaponPhase::Ready;
                        (TriggerResult::Fired, Some(Delay::Fanning))
                    } else {
                        self.phase = WeaponPhase::Uncocked;
                        (TriggerResult::Fired, Some(Delay::Zero))
                    }
                } else {
                    (TriggerResult::Nothing, None)
                }
            },
            WeaponType::Winchester => {
                if self.phase == WeaponPhase::Ready {
                    w.current_ammo = w.current_ammo - 1;
                    weapons.set(i, w);
                    self.shot_sequence = self.shot_sequence.wrapping_add(1);
                    self.phase = WeaponPhase::LeverOut;
                    (TriggerResult::Fired, Some(Delay::HalfLever))
                } else {
                    (TriggerResult::Nothing, None)
                }
            },
            WeaponType::Shotgun => {
                if self.phase == WeaponPhase::Ready {
                    w.current_ammo = w.current_ammo - 1;
                    weapons.set(i, w);
                    self.shot_sequence = self.shot_sequence.wrapping_add(1);
                    if w.current_ammo == 0 {
                        self.phase = WeaponPhase::BreakingOpen;
                        (TriggerResult::Fired, Some(Delay::BreakOpen))
                    } else {
                        self.phase = WeaponPhase::Ready;
                        (TriggerResult::Fired, Some(Delay::Cycle))
                    }
                } else {
                    (TriggerResult::Nothing, None)
                }
            },
        }
    }
}

impl Default for WeaponState {
    fn default() -> (s: Self)
        ensures
            s == spec_initial_state(),
    {
        WeaponState::new()
    }
}


/// All weapons of an inventory hold no more rounds than their magazine takes.
pub open spec fn all_well_formed(ws: Seq<Weapon>) -> bool {
    forall|i: int| 0 <= i < ws.len() ==> (#[trigger] ws[i]).well_formed()
}

/// A reload neither creates nor destroys rounds, keeps the magazine within its
/// size, and fills it as far as the reserve reaches.
pub proof fn lemma_reload_conserves_rounds(w: Weapon)
    requires
        w.well_formed(),
    ensures
        reloaded(w).total_rounds() == w.total_rounds(),
        reloaded(w).well_formed(),
        reloaded(w).max_ammo == w.max_ammo,
        reloaded(w).weapon_type == w.weapon_type,
        reloaded(w).current_ammo == if w.total_rounds() < w.max_ammo {
            w.total_rounds()
        } else {
            w.max_ammo as int
        },
{
}

/// A new weapon starts with a full magazine.
pub proof fn lemma_new_weapon_full(t: WeaponType)
    ensures
        spec_new_weapon(t).current_ammo == spec_new_weapon(t).max_ammo,
        spec_new_weapon(t).well_formed(),
        spec_new_weapon(t).max_ammo > 0,
{
}

/// Pressing the reload key when a reload is possible, and letting the
/// reload time run out, moves the missing rounds from the reserve into the
/// active weapon and leaves it drawn in its default phase; nothing else in
/// the inventory changes.
pub proof fn lemma_reload_cycle(st: WeaponState, ws: Seq<Weapon>)
    requires
        can_reload(ws, st.active),
        st.active != WeaponType::Shotgun || st.phase == WeaponPhase::Ready || st.phase
            == WeaponPhase::BreakingOpen,
    ensures
        ({
            let (st1, d1) = spec_press_reload(st, ws);
            let (st2, ws2, d2) = spec_timer_elapsed(st1, ws);
            let i = first_of_type(ws, st.active)->0;
            &&& d1 == Some(Delay::Reload)
            &&& st1.phase == WeaponPhase::Reloading
            &&& ws2 == ws.update(i, reloaded(ws[i]))
            &&& st2 == spec_switch_to(st, st.active)
            &&& d2 is None
        }),
{
}

/// No transition puts more rounds into a magazine than it takes, and no
/// transition creates rounds: each weapon's rounds (magazine and reserve)
/// stay the same or, for the weapon that fires, drop by one.
pub proof fn lemma_transitions_keep_inventory_sound(st: WeaponState, ws: Seq<Weapon>, right_held: bool)
    requires
        all_well_formed(ws),
    ensures
        ({
            let (_st1, ws1, _d1) = spec_timer_elapsed(st, ws);
            &&& all_well_formed(ws1)
            &&& ws1.len() == ws.len()
            &&& forall|i: int| 0 <= i < ws.len() ==> (#[trigger] ws1[i]).total_rounds()
                == ws[i].total_rounds()
        }),
        ({
            let (_st2, ws2, r, _d2) = spec_pull_trigger(st, ws, right_held);
            &&& all_well_formed(ws2)
            &&& ws2.len() == ws.len()
            &&& forall|i: int|
                0 <= i < ws.len() ==> (#[trigger] ws2[i]).total_rounds() <= ws[i].total_rounds()
        }),
{
    lemma_first_of_type(ws, st.active);
    match first_of_type(ws, st.active) {
        Some(i) => {
            lemma_reload_conserves_rounds(ws[i]);
        },
        None => {},
    }
}

/// A pull of the trigger fires at most one round: when it fires, exactly
/// one round leaves the active weapon's magazine, nothing else in the
/// inventory changes and the shot counter advances by one; otherwise the
/// inventory and the shot counter are untouched.
pub proof fn lemma_one_round_per_shot(st: WeaponState, ws: Seq<Weapon>, right_held: bool)
    ensures
        ({
            let (st1, ws1, r, _d) = spec_pull_trigger(st, ws, right_held);
            &&& r == TriggerResult::Fired ==> {
                let i = first_of_type(ws, st.active)->0;
                &&& first_of_type(ws, st.active) is Some
                &&& ws[i].current_ammo > 0
                &&& ws1 == ws.update(i, spent(ws[i]))
                &&& st1.shot_sequence == next_shot(st)
            }
            &&& r != TriggerResult::Fired ==> ws1 == ws && st1.shot_sequence == st.shot_sequence
            &&& st1.active == st.active
        }),
{
}

/// An empty magazine never fires: the weapon clicks and nothing changes but
/// the phase.
pub proof fn lemma_empty_weapon_clicks(st: WeaponState, ws: Seq<Weapon>, right_held: bool)
    requires
        first_of_type(ws, st.active) is Some,
        ws[first_of_type(ws, st.active)->0].current_ammo == 0,
    ensures
        ({
            let (st1, ws1, r, d) = spec_pull_trigger(st, ws, right_held);
            &&& r == TriggerResult::DryFire
            &&& ws1 == ws
            &&& st1 == (WeaponState { phase: WeaponPhase::DryFire, ..st })
            &&& d == Some(Delay::DryFire)
        }),
{
}

/// After a dry fire click the revolver is uncocked again and the other
/// weapons are ready, with nothing else changed.
pub proof fn lemma_dry_fire_recovers(st: WeaponState, ws: Seq<Weapon>)
    requires
        st.phase == WeaponPhase::DryFire,
    ensures
        spec_timer_elapsed(st, ws) == (
            spec_switch_to(st, st.active),
            ws,
            None::<Delay>,
        ),
{
}

/// Whether `i` is the first weapon of kind `t` in `ws`.
pub open spec fn is_first_of(ws: Seq<Weapon>, t: WeaponType, i: int) -> bool {
    &&& 0 <= i < ws.len()
    &&& ws[i].weapon_type == t
    &&& forall|j: int| 0 <= j < i ==> ws[j].weapon_type != t
}

proof fn lemma_first_of_type_is(ws: Seq<Weapon>, t: WeaponType, i: int)
    requires
        is_first_of(ws, t, i),
    ensures
        first_of_type(ws, t) == Some(i),
{
    lemma_first_of_type(ws, t);
    match first_of_type(ws, t) {
        Some(k) => {
            if k < i {
                assert(ws[k].weapon_type != t);
            } else if k > i {
                assert(ws[i].weapon_type != t);
            }
        },
        None => {
            assert(ws[i].weapon_type != t);
        },
    }
}

/// A revolver with rounds in its magazine fires on every pull when it is
/// cocked or uncocked (it cocks itself), and in any phase when fanned: one
/// round leaves its magazine, the shot counter advances, it ends uncocked
/// (cocked again when fanning) and the next pull waits for no delay (for
/// the fanning pause when fanning).
pub proof fn lemma_revolver_fires(st: WeaponState, ws: Seq<Weapon>, i: int, right_held: bool)
    requires
        st.active == WeaponType::Revolver,
        is_first_of(ws, WeaponType::Revolver, i),
        ws[i].current_ammo > 0,
        st.phase == WeaponPhase::Ready || st.phase == WeaponPhase::Uncocked || right_held,
    ensures
        ({
            let (st1, ws1, r, d) = spec_pull_trigger(st, ws, right_held);
            &&& r == TriggerResult::Fired
            &&& ws1.len() == ws.len()
            &&& ws1[i].current_ammo == ws[i].current_ammo - 1
            &&& ws1[i].reserve == ws[i].reserve
            &&& ws1[i].max_ammo == ws[i].max_ammo
            &&& ws1[i].weapon_type == ws[i].weapon_type
            &&& forall|j: int| 0 <= j < ws.len() && j != i ==> ws1[j] == ws[j]
            &&& st1.active == WeaponType::Revolver
            &&& st1.shot_sequence == (if st.shot_sequence == u64::MAX {
                0
            } else {
                st.shot_sequence + 1
            })
            &&& st1.phase == (if right_held {
                WeaponPhase::Ready
            } else {
                WeaponPhase::Uncocked
            })
            &&& d == Some(
                if right_held {
                    Delay::Fanning
                } else {
                    Delay::Zero
                },
            )
        }),
{
    lemma_first_of_type_is(ws, WeaponType::Revolver, i);
}

/// The Winchester and the shotgun fire exactly when they are ready and have
/// a round: then one round leaves the magazine; otherwise nothing but the
/// phase can change (an empty one clicks).
pub proof fn lemma_long_guns_fire_when_ready(st: WeaponState, ws: Seq<Weapon>, i: int, right_held: bool)
    requires
        st.active != WeaponType::Revolver,
        is_first_of(ws, st.active, i),
    ensures
        ({
            let (st1, ws1, r, d) = spec_pull_trigger(st, ws, right_held);
            &&& (r == TriggerResult::Fired) == (st.phase == WeaponPhase::Ready && ws[i].current_ammo > 0)
            &&& r == TriggerResult::Fired ==> ws1[i].current_ammo == ws[i].current_ammo - 1
                && ws1.len() == ws.len()
            &&& r != TriggerResult::Fired ==> ws1 == ws
            &&& (r == TriggerResult::DryFire) == (ws[i].current_ammo == 0)
        }),
{
    lemma_first_of_type_is(ws, st.active, i);
}

/// The reload key starts a reload exactly when the active weapon's magazine
/// is not full and there is reserve left (for the shotgun, only when it is
/// ready or broken open); a full magazine or an empty reserve never enters
/// the reload, and without a weapon of the active kind nothing is reloaded.
pub proof fn lemma_reload_key_needs_room_and_reserve(st: WeaponState, ws: Seq<Weapon>)
    ensures
        ({
            let (st1, d) = spec_press_reload(st, ws);
            let starts = d == Some(Delay::Reload);
            &&& starts ==> st1.phase == WeaponPhase::Reloading
            &&& st1.phase == WeaponPhase::Reloading ==> starts || st.phase == WeaponPhase::Reloading
            &&& forall|i: int|
                is_first_of(ws, st.active, i) ==> (starts <==> (ws[i].current_ammo < ws[i].max_ammo
                    && ws[i].reserve > 0 && (st.active != WeaponType::Shotgun || st.phase
                    == WeaponPhase::Ready || st.phase == WeaponPhase::BreakingOpen)))
            &&& forall|i: int|
                is_first_of(ws, st.active, i) && ws[i].current_ammo >= ws[i].max_ammo ==> !starts
                    && (st1.phase == WeaponPhase::Reloading ==> st.phase == WeaponPhase::Reloading)
            &&& (forall|j: int| 0 <= j < ws.len() ==> ws[j].weapon_type != st.active) ==> !starts
            &&& st1.active == st.active
            &&& st1.shot_sequence == st.shot_sequence
        }),
{
    lemma_first_of_type(ws, st.active);
    assert forall|i: int| is_first_of(ws, st.active, i) implies first_of_type(ws, st.active) == Some(
        i,
    ) by {
        lemma_first_of_type_is(ws, st.active, i);
    }
}

/// When the timer runs out: cocking ends ready, the lever goes from out to
/// in (arming half the lever time again) and from in to ready, a reload
/// ends in the drawn phase with the missing rounds loaded into the first
/// weapon of the active kind, and a dry-fire click ends uncocked for the
/// revolver and ready otherwise. The shot counter and the active weapon
/// never change.
pub proof fn lemma_timer_transitions(st: WeaponState, ws: Seq<Weapon>, i: int)
    ensures
        ({
            let (st1, ws1, d) = spec_timer_elapsed(st, ws);
            &&& st1.active == st.active
            &&& st1.shot_sequence == st.shot_sequence
            &&& st.phase == WeaponPhase::Cocking ==> st1.phase == WeaponPhase::Ready && ws1 == ws && d is None
            &&& st.phase == WeaponPhase::LeverOut ==> st1.phase == WeaponPhase::LeverIn && ws1 == ws && d
                == Some(Delay::HalfLever)
            &&& st.phase == WeaponPhase::LeverIn ==> st1.phase == WeaponPhase::Ready && ws1 == ws && d is None
            &&& st.phase == WeaponPhase::DryFire ==> ws1 == ws && d is None && (st1.phase
                == WeaponPhase::Uncocked <==> st.active == WeaponType::Revolver) && (st.active
                != WeaponType::Revolver ==> st1.phase == WeaponPhase::Ready)
            &&& st.phase == WeaponPhase::Reloading ==> d is None && (st1.phase == if st.active
                == WeaponType::Revolver {
                WeaponPhase::Uncocked
            } else {
                WeaponPhase::Ready
            }) && (is_first_of(ws, st.active, i) ==> ws1.len() == ws.len() && ws1[i].current_ammo
                == ws[i].current_ammo + rounds_to_load(ws[i]) && ws1[i].reserve == ws[i].reserve
                - rounds_to_load(ws[i]) && forall|j: int| 0 <= j < ws.len() && j != i ==> ws1[j]
                == ws[j])
        }),
{
    if is_first_of(ws, st.active, i) {
        lemma_first_of_type_is(ws, st.active, i);
    }
}

/// Digit key 1 draws the revolver, 2 the Winchester, 3 the shotgun; the
/// lowest held key wins and no key changes nothing. Drawing a weapon makes
/// it active in its drawn phase (the revolver uncocked) and keeps the shot
/// counter.
pub proof fn lemma_switching(st: WeaponState, k2: bool, k3: bool, t: WeaponType)
    ensures
        spec_switch_choice(true, k2, k3) == Some(WeaponType::Revolver),
        spec_switch_choice(false, true, k3) == Some(WeaponType::Winchester),
        spec_switch_choice(false, false, true) == Some(WeaponType::Shotgun),
        spec_switch_choice(false, false, false) is None,
        spec_switch_to(st, t).active == t,
        spec_switch_to(st, t).shot_sequence == st.shot_sequence,
        spec_switch_to(st, WeaponType::Revolver).phase == WeaponPhase::Uncocked,
        t != WeaponType::Revolver ==> spec_switch_to(st, t).phase == WeaponPhase::Ready,
{
}

/// Phases in which the weapon waits for the player rather than for the timer.
pub open spec fn is_idle_phase(p: WeaponPhase) -> bool {
    p == WeaponPhase::Ready || p == WeaponPhase::Uncocked || p == WeaponPhase::BreakingOpen
}

/// The handling never gets stuck: at most two runs of the timer bring any
/// phase back to one where the weapon waits for the player, and an idle
/// phase stays as it is.
pub proof fn lemma_timer_settles(st: WeaponState, ws: Seq<Weapon>)
    ensures
        ({
            let (st1, ws1, _d1) = spec_timer_elapsed(st, ws);
            let (st2, _ws2, _d2) = spec_timer_elapsed(st1, ws1);
            &&& is_idle_phase(st2.phase)
            &&& is_idle_phase(st.phase) ==> st1 == st && ws1 == ws
            &&& st2.active == st.active
        }),
{
}

} // verus!

use fps_paintball_wildwest::weapon::{
    all_types, model_visible, starting_inventory, find_weapon, reload_weapon, switch_choice, Delay, TriggerResult, Weapon, WeaponPhase,
    WeaponState, WeaponType,
};

fn arsenal() -> Vec<Weapon> {
    vec![
        Weapon::new(WeaponType::Revolver),
        Weapon::new(WeaponType::Winchester),
        Weapon::new(WeaponType::Shotgun),
    ]
}

#[test]
fn weapon_tables() {
    assert_eq!(WeaponType::Revolver.max_ammo(), 6);
    assert_eq!(WeaponType::Winchester.max_ammo(), 12);
    assert_eq!(WeaponType::Shotgun.max_ammo(), 2);
    assert_eq!(WeaponType::Revolver.reserve(), 36);
    assert_eq!(WeaponType::Winchester.reserve(), 60);
    assert_eq!(WeaponType::Shotgun.reserve(), 24);
    assert_eq!(WeaponType::Revolver.display(), "Revolver");
    assert_eq!(WeaponType::Winchester.display(), "Winchester");
    assert_eq!(WeaponType::Shotgun.display(), "Shotgun");
    assert_eq!(WeaponType::Revolver.long_name(), "Single-Action Revolver");
    assert_eq!(WeaponType::Winchester.long_name(), "Lever-Action Rifle");
    assert_eq!(WeaponType::Shotgun.long_name(), "Double-Barrel Shotgun");
    assert_eq!(WeaponType::Revolver.pellet_count(), 1);
    assert_eq!(WeaponType::Winchester.pellet_count(), 1);
    assert_eq!(WeaponType::Shotgun.pellet_count(), 12);
    assert_eq!(WeaponType::Revolver.default_phase(), WeaponPhase::Uncocked);
    assert_eq!(WeaponType::Winchester.default_phase(), WeaponPhase::Ready);
    assert_eq!(WeaponType::Shotgun.default_phase(), WeaponPhase::Ready);
}

#[test]
fn new_weapon_is_full() {
    let w = Weapon::new(WeaponType::Winchester);
    assert_eq!(w.weapon_type, WeaponType::Winchester);
    assert_eq!(w.current_ammo, 12);
    assert_eq!(w.max_ammo, 12);
    assert_eq!(w.reserve, 60);
}

#[test]
fn initial_state_is_uncocked_revolver() {
    let st = WeaponState::new();
    assert_eq!(st.active, WeaponType::Revolver);
    assert_eq!(st.phase, WeaponPhase::Uncocked);
    assert_eq!(st.shot_sequence, 0);
    let d = WeaponState::default();
    assert_eq!(d.phase, WeaponPhase::Uncocked);
}

#[test]
fn find_weapon_takes_first_of_kind() {
    let mut ws = arsenal();
    ws.push(Weapon::new(WeaponType::Revolver));
    assert_eq!(find_weapon(&ws, WeaponType::Revolver), Some(0));
    assert_eq!(find_weapon(&ws, WeaponType::Shotgun), Some(2));
    let only_rifle = vec![Weapon::new(WeaponType::Winchester)];
    assert_eq!(find_weapon(&only_rifle, WeaponType::Shotgun), None);
}

#[test]
fn reload_moves_missing_rounds() {
    let mut w = Weapon { weapon_type: WeaponType::Revolver, current_ammo: 2, max_ammo: 6, reserve: 36 };
    reload_weapon(&mut w);
    assert_eq!((w.current_ammo, w.reserve), (6, 32));
    let mut low = Weapon { weapon_type: WeaponType::Revolver, current_ammo: 1, max_ammo: 6, reserve: 3 };
    reload_weapon(&mut low);
    assert_eq!((low.current_ammo, low.reserve), (4, 0));
    let mut over = Weapon { weapon_type: WeaponType::Shotgun, current_ammo: 5, max_ammo: 2, reserve: 3 };
    reload_weapon(&mut over);
    assert_eq!((over.current_ammo, over.reserve), (5, 3));
}

#[test]
fn revolver_auto_cocks_and_uncocks_after_a_shot() {
    let mut st = WeaponState::new();
    let mut ws = arsenal();
    let (r, d) = st.pull_trigger(&mut ws, false);
    assert_eq!(r, TriggerResult::Fired);
    assert_eq!(d, Some(Delay::Zero));
    assert_eq!(st.phase, WeaponPhase::Uncocked);
    assert_eq!(st.shot_sequence, 1);
    assert_eq!(ws[0].current_ammo, 5);
    assert_eq!(ws[0].reserve, 36);
    assert_eq!(ws[1].current_ammo, 12);
}

#[test]
fn revolver_fanning() {
    let mut st = WeaponState::new();
    let mut ws = arsenal();
    let (r, d) = st.pull_trigger(&mut ws, true);
    assert_eq!(r, TriggerResult::Fired);
    assert_eq!(d, Some(Delay::Fanning));
    assert_eq!(st.phase, WeaponPhase::Ready);
    // Fanning fires even while the hammer is being cocked.
    st.phase = WeaponPhase::Cocking;
    let (r, _) = st.pull_trigger(&mut ws, true);
    assert_eq!(r, TriggerResult::Fired);
    assert_eq!(ws[0].current_ammo, 4);
    assert_eq!(st.shot_sequence, 2);
}

#[test]
fn revolver_not_ready_without_fanning() {
    let mut st = WeaponState::new();
    st.phase = WeaponPhase::Cocking;
    let mut ws = arsenal();
    let (r, d) = st.pull_trigger(&mut ws, false);
    assert_eq!(r, TriggerResult::Nothing);
    assert_eq!(d, None);
    assert_eq!(st.phase, WeaponPhase::Cocking);
    assert_eq!(ws[0].current_ammo, 6);
}

#[test]
fn winchester_lever_cycle() {
    let mut st = WeaponState::new();
    st.switch_to(WeaponType::Winchester);
    assert_eq!(st.phase, WeaponPhase::Ready);
    let mut ws = arsenal();
    let (r, d) = st.pull_trigger(&mut ws, false);
    assert_eq!((r, d), (TriggerResult::Fired, Some(Delay::HalfLever)));
    assert_eq!(st.phase, WeaponPhase::LeverOut);
    assert_eq!(ws[1].current_ammo, 11);
    // Not ready while the lever is out.
    let (r, _) = st.pull_trigger(&mut ws, false);
    assert_eq!(r, TriggerResult::Nothing);
    assert_eq!(st.timer_elapsed(&mut ws), Some(Delay::HalfLever));
    assert_eq!(st.phase, WeaponPhase::LeverIn);
    assert_eq!(st.timer_elapsed(&mut ws), None);
    assert_eq!(st.phase, WeaponPhase::Ready);
}

#[test]
fn shotgun_breaks_open_when_empty() {
    let mut st = WeaponState::new();
    st.switch_to(WeaponType::Shotgun);
    let mut ws = arsenal();
    let (r, d) = st.pull_trigger(&mut ws, false);
    assert_eq!((r, d), (TriggerResult::Fired, Some(Delay::Cycle)));
    assert_eq!(st.phase, WeaponPhase::Ready);
    let (r, d) = st.pull_trigger(&mut ws, false);
    assert_eq!((r, d), (TriggerResult::Fired, Some(Delay::BreakOpen)));
    assert_eq!(st.phase, WeaponPhase::BreakingOpen);
    assert_eq!(ws[2].current_ammo, 0);
    // Broken open: reload is allowed.
    assert_eq!(st.press_reload(&ws), Some(Delay::Reload));
    assert_eq!(st.phase, WeaponPhase::Reloading);
    assert_eq!(st.timer_elapsed(&mut ws), None);
    assert_eq!(st.phase, WeaponPhase::Ready);
    assert_eq!((ws[2].current_ammo, ws[2].reserve), (2, 22));
}

#[test]
fn empty_magazine_dry_fires() {
    let mut st = WeaponState::new();
    let mut ws = arsenal();
    ws[0].current_ammo = 0;
    let (r, d) = st.pull_trigger(&mut ws, true);
    assert_eq!((r, d), (TriggerResult::DryFire, Some(Delay::DryFire)));
    assert_eq!(st.phase, WeaponPhase::DryFire);
    assert_eq!(st.shot_sequence, 0);
    assert_eq!(ws[0].current_ammo, 0);
    assert_eq!(st.timer_elapsed(&mut ws), None);
    assert_eq!(st.phase, WeaponPhase::Uncocked);
}

#[test]
fn dry_fire_recovery_of_rifle() {
    let mut st = WeaponState::new();
    st.switch_to(WeaponType::Winchester);
    st.phase = WeaponPhase::DryFire;
    let mut ws = arsenal();
    assert_eq!(st.timer_elapsed(&mut ws), None);
    assert_eq!(st.phase, WeaponPhase::Ready);
}

#[test]
fn trigger_without_weapon_does_nothing() {
    let mut st = WeaponState::new();
    let mut ws = vec![Weapon::new(WeaponType::Shotgun)];
    let (r, d) = st.pull_trigger(&mut ws, false);
    assert_eq!((r, d), (TriggerResult::Nothing, None));
    assert_eq!(st.phase, WeaponPhase::Uncocked);
}

#[test]
fn reload_key_decisions() {
    // Full magazine: the key cocks the revolver instead.
    let mut st = WeaponState::new();
    let ws = arsenal();
    assert_eq!(st.press_reload(&ws), Some(Delay::Cock));
    assert_eq!(st.phase, WeaponPhase::Cocking);
    assert_eq!(st.timer_elapsed(&mut arsenal()), None);
    assert_eq!(st.phase, WeaponPhase::Ready);
    // Ready revolver with a full magazine: nothing to do.
    assert_eq!(st.press_reload(&ws), None);
    assert_eq!(st.phase, WeaponPhase::Ready);
    // Winchester with the lever out closes it.
    let mut rifle = WeaponState::new();
    rifle.switch_to(WeaponType::Winchester);
    rifle.phase = WeaponPhase::LeverOut;
    assert_eq!(rifle.press_reload(&ws), Some(Delay::HalfLever));
    assert_eq!(rifle.phase, WeaponPhase::LeverIn);
    // Shotgun in the middle of its cycle may not be reloaded.
    let mut shotgun = WeaponState::new();
    shotgun.switch_to(WeaponType::Shotgun);
    shotgun.phase = WeaponPhase::LeverIn;
    let mut half = arsenal();
    half[2].current_ammo = 1;
    assert_eq!(shotgun.press_reload(&half), None);
    assert_eq!(shotgun.phase, WeaponPhase::LeverIn);
    // No reserve: no reload.
    let mut dry = arsenal();
    dry[1].current_ammo = 3;
    dry[1].reserve = 0;
    let mut r2 = WeaponState::new();
    r2.switch_to(WeaponType::Winchester);
    assert_eq!(r2.press_reload(&dry), None);
    assert_eq!(r2.phase, WeaponPhase::Ready);
}

#[test]
fn reload_cycle_conserves_rounds() {
    let mut st = WeaponState::new();
    let mut ws = arsenal();
    for _ in 0..4 {
        st.pull_trigger(&mut ws, false);
    }
    assert_eq!(ws[0].current_ammo, 2);
    let before = ws[0].current_ammo + ws[0].reserve;
    assert_eq!(st.press_reload(&ws), Some(Delay::Reload));
    assert_eq!(st.timer_elapsed(&mut ws), None);
    assert_eq!(ws[0].current_ammo + ws[0].reserve, before);
    assert_eq!(ws[0].current_ammo, 6);
    assert_eq!(st.phase, WeaponPhase::Uncocked);
}

#[test]
fn switching_resets_phase() {
    let mut st = WeaponState::new();
    st.phase = WeaponPhase::Reloading;
    st.shot_sequence = 7;
    st.switch_to(WeaponType::Shotgun);
    assert_eq!(st.active, WeaponType::Shotgun);
    assert_eq!(st.phase, WeaponPhase::Ready);
    assert_eq!(st.shot_sequence, 7);
    st.switch_to(WeaponType::Revolver);
    assert_eq!(st.phase, WeaponPhase::Uncocked);
}

#[test]
fn switch_keys() {
    assert_eq!(switch_choice(true, true, true), Some(WeaponType::Revolver));
    assert_eq!(switch_choice(false, true, true), Some(WeaponType::Winchester));
    assert_eq!(switch_choice(false, false, true), Some(WeaponType::Shotgun));
    assert_eq!(switch_choice(false, false, false), None);
}

#[test]
fn shot_counter_wraps() {
    let mut st = WeaponState::new();
    st.shot_sequence = u64::MAX;
    let mut ws = arsenal();
    st.pull_trigger(&mut ws, false);
    assert_eq!(st.shot_sequence, 0);
}

#[test]
fn idle_phases_ignore_the_timer() {
    let mut ws = arsenal();
    for ph in [WeaponPhase::Ready, WeaponPhase::Uncocked, WeaponPhase::BreakingOpen] {
        let mut st = WeaponState::new();
        st.phase = ph;
        assert_eq!(st.timer_elapsed(&mut ws), None);
        assert_eq!(st.phase, ph);
    }
}

#[test]
fn starting_inventory_and_models() {
    assert_eq!(
        all_types(),
        vec![WeaponType::Revolver, WeaponType::Winchester, WeaponType::Shotgun]
    );
    let inv = starting_inventory();
    assert_eq!(inv.len(), 3);
    for (w, t) in inv.iter().zip(all_types()) {
        assert_eq!(w.weapon_type, t);
        assert_eq!(w.current_ammo, t.max_ammo());
        assert_eq!(w.max_ammo, t.max_ammo());
        assert_eq!(w.reserve, t.reserve());
    }
    assert!(model_visible(WeaponType::Shotgun, WeaponType::Shotgun));
    assert!(!model_visible(WeaponType::Revolver, WeaponType::Shotgun));
}

#[test]
fn timer_settles_from_every_phase() {
    let phases = [
        WeaponPhase::Ready,
        WeaponPhase::Uncocked,
        WeaponPhase::Cocking,
        WeaponPhase::LeverOut,
        WeaponPhase::LeverIn,
        WeaponPhase::BreakingOpen,
        WeaponPhase::Reloading,
        WeaponPhase::DryFire,
    ];
    for t in all_types() {
        for ph in phases {
            let mut st = WeaponState::new();
            st.switch_to(t);
            st.phase = ph;
            let mut ws = starting_inventory();
            st.timer_elapsed(&mut ws);
            st.timer_elapsed(&mut ws);
            assert!(matches!(
                st.phase,
                WeaponPhase::Ready | WeaponPhase::Uncocked | WeaponPhase::BreakingOpen
            ));
            assert_eq!(st.active, t);
        }
    }
}

#[test]
fn rounds_never_grow_over_a_fight() {
    let mut st = WeaponState::new();
    let mut ws = starting_inventory();
    let total = |ws: &Vec<Weapon>| ws.iter().map(|w| (w.current_ammo + w.reserve) as u64).sum::<u64>();
    let mut last = total(&ws);
    for step in 0..400u32 {
        match step % 7 {
            0 => {
                st.press_reload(&ws);
            }
            1 | 2 | 3 => {
                st.pull_trigger(&mut ws, step % 2 == 0);
            }
            4 => {
                st.timer_elapsed(&mut ws);
            }
            5 => {
                if step % 3 == 0 {
                    st.switch_to(WeaponType::Shotgun);
                } else if step % 3 == 1 {
                    st.switch_to(WeaponType::Winchester);
                }
            }
            _ => {
                st.timer_elapsed(&mut ws);
            }
        }
        let now = total(&ws);
        assert!(now <= last);
        for w in &ws {
            assert!(w.current_ammo <= w.max_ammo);
        }
        last = now;
    }
}

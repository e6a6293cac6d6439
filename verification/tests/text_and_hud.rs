use fps_paintball_wildwest::hud::{
    active_ammo_text, ammo_text, ascii_silhouette, control_line, control_rows, weapon_name_text,
    HudState,
};
use fps_paintball_wildwest::text::{decimal, parse_u32, push_padded, str_equal};
use fps_paintball_wildwest::weapon::{Weapon, WeaponType};

#[test]
fn decimal_rendering() {
    assert_eq!(decimal(0), "0");
    assert_eq!(decimal(7), "7");
    assert_eq!(decimal(10), "10");
    assert_eq!(decimal(305), "305");
    assert_eq!(decimal(u32::MAX), "4294967295");
    for n in [1u32, 9, 99, 100, 65535, 1_000_000] {
        assert_eq!(decimal(n), n.to_string());
    }
}

#[test]
fn parse_like_std() {
    let cases = [
        "0", "42", "+42", "007", "", "+", "-1", "-0", "4x", " 4", "4 ", "4294967295",
        "4294967296", "99999999999999999999", "+4294967295", "++1", "12a34",
    ];
    for c in cases {
        assert_eq!(parse_u32(c), c.parse::<u32>().ok(), "input {:?}", c);
    }
    assert_eq!(parse_u32("120"), Some(120));
    assert_eq!(parse_u32("abc"), None);
}

#[test]
fn string_equality() {
    assert!(str_equal("Revolver", "Revolver"));
    assert!(!str_equal("Revolver", "Revolve"));
    assert!(!str_equal("Revolver", "revolver"));
    assert!(str_equal("", ""));
}

#[test]
fn padding() {
    let mut s = String::from(">");
    push_padded(&mut s, "ab", 5);
    assert_eq!(s, ">ab   ");
    let mut t = String::new();
    push_padded(&mut t, "longer than width", 4);
    assert_eq!(t, "longer than width");
}

#[test]
fn ammo_line() {
    let w = Weapon { weapon_type: WeaponType::Winchester, current_ammo: 11, max_ammo: 12, reserve: 60 };
    assert_eq!(ammo_text(&w), "Ammo: 11 / 12   Reserve: 60");
    assert_eq!(
        ammo_text(&w),
        format!("Ammo: {} / {}   Reserve: {}", w.current_ammo, w.max_ammo, w.reserve)
    );
    let ws = vec![Weapon::new(WeaponType::Revolver), w];
    assert_eq!(
        active_ammo_text(WeaponType::Winchester, &ws).as_deref(),
        Some("Ammo: 11 / 12   Reserve: 60")
    );
    assert_eq!(active_ammo_text(WeaponType::Shotgun, &ws), None);
}

#[test]
fn name_lines() {
    assert_eq!(weapon_name_text(WeaponType::Shotgun), "Weapon: Shotgun");
    assert_eq!(ascii_silhouette("Revolver"), "[ R ]  (1)  single-action revolver");
    assert_eq!(ascii_silhouette("Winchester"), "[ W ]  (2)  lever-action rifle");
    assert_eq!(ascii_silhouette("Shotgun"), "[ S ]  (3)  double-barrel shotgun");
    assert_eq!(ascii_silhouette("Derringer"), "");
    assert_eq!(ascii_silhouette(WeaponType::Winchester.display()), "[ W ]  (2)  lever-action rifle");
}

#[test]
fn hud_follows_active_weapon() {
    let mut hud = HudState::default();
    assert_eq!(hud.active_weapon_name, "");
    let mut ws = vec![Weapon::new(WeaponType::Revolver), Weapon::new(WeaponType::Shotgun)];
    ws[1].current_ammo = 1;
    hud.show_weapon(WeaponType::Shotgun, &ws);
    assert_eq!(hud.active_weapon_name, "Shotgun");
    assert_eq!((hud.current_ammo, hud.max_ammo, hud.reserve), (1, 2, 24));
    hud.show_weapon(WeaponType::Winchester, &ws);
    assert_eq!(hud.active_weapon_name, "Winchester");
    assert_eq!((hud.current_ammo, hud.max_ammo, hud.reserve), (1, 2, 24));
}

#[test]
fn controls_table() {
    let rows = control_rows();
    assert_eq!(rows.len(), 10);
    assert_eq!(rows[0], ("WASD", "Bewegen"));
    assert_eq!(rows[9], ("R", "Nachladen / Cock-Cycle"));
    for (k, d) in &rows {
        assert_eq!(control_line(k, d), format!("{:14}  {}", k, d));
    }
    assert_eq!(control_line("Space", "Springen"), "Space           Springen");
    assert_eq!(control_line("Averyveryverylongkey", "x"), "Averyveryverylongkey  x");
}

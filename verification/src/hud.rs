//! What the HUD shows: the active weapon's name and ammunition, the weapon
//! silhouette line and the table of controls.
use vstd::prelude::*;
use vstd::string::*;
use crate::text::{pad_right, push_decimal, push_padded, spec_decimal, str_equal};
use crate::weapon::{find_weapon, first_of_type, spec_display, Weapon, WeaponType};

verus! {

/// Width of the key column of the controls table.
pub const CONTROL_KEY_WIDTH: usize = 14;

/// The HUD's copy of the active weapon's state.
#[derive(Debug)]
pub struct HudState {
    pub active_weapon_name: String,
    pub current_ammo: u32,
    pub max_ammo: u32,
    pub reserve: u32,
}

impl Default for HudState {
    fn default() -> (h: Self)
        ensures
            h.active_weapon_name@ == Seq::<char>::empty(),
            h.current_ammo == 0,
            h.max_ammo == 0,
            h.reserve == 0,
    {
        HudState { active_weapon_name: String::new(), current_ammo: 0, max_ammo: 0, reserve: 0 }
    }
}

impl HudState {
    /// Copies the name of the active weapon and, if the inventory holds a
    /// weapon of that kind, the ammunition of the first such weapon.
    pub fn show_weapon(&mut self, active: WeaponType, weapons: &Vec<Weapon>)
        ensures
            final(self).active_weapon_name@ == spec_display(active),
            match first_of_type(weapons@, active) {
                Some(i) => {
                    &&& final(self).current_ammo == weapons@[i].current_ammo
                    &&& final(self).max_ammo == weapons@[i].max_ammo
                    &&& final(self).reserve == weapons@[i].reserve
                },
                None => {
                    &&& final(self).current_ammo == old(self).current_ammo
                    &&& final(self).max_ammo == old(self).max_ammo
                    &&& final(self).reserve == old(self).reserve
                },
            },
    {
        self.active_weapon_name = String::from_str(active.display());
        match find_weapon(weapons, active) {
            Some(i) => {
                self.current_ammo = weapons[i].current_ammo;
                self.max_ammo = weapons[i].max_ammo;
                self.reserve = weapons[i].reserve;
            },
            None => {},
        }
    }
}

/// The ammunition line: "Ammo: <current> / <max>   Reserve: <reserve>".
pub open spec fn spec_ammo_text(w: Weapon) -> Seq<char> {
    "Ammo: "@ + spec_decimal(w.current_ammo as nat) + " / "@ + spec_decimal(w.max_ammo as nat)
        + "   Reserve: "@ + spec_decimal(w.reserve as nat)
}

/// The ammunition line of a weapon.
pub fn ammo_text(w: &Weapon) -> (s: String)
    ensures
        s@ == spec_ammo_text(*w),
{
    let mut s = String::from_str("Ammo: ");
    push_decimal(&mut s, w.current_ammo);
    s.append(" / ");
    push_decimal(&mut s, w.max_ammo);
    s.append("   Reserve: ");
    push_decimal(&mut s, w.reserve);
    s
}

/// The ammunition line for the active weapon: the first weapon of that kind
/// in the inventory, or nothing when there is none.
pub fn active_ammo_text(active: WeaponType, weapons: &Vec<Weapon>) -> (s: Option<String>)
    ensures
        match first_of_type(weapons@, active) {
            Some(i) => s is Some && s->0@ == spec_ammo_text(weapons@[i]),
            None => s is None,
        },
{
    match find_weapon(weapons, active) {
        Some(i) => Some(ammo_text(&weapons[i])),
        None => None,
    }
}

/// The weapon name line: "Weapon: <name>".
pub fn weapon_name_text(active: WeaponType) -> (s: String)
    ensures
        s@ == "Weapon: "@ + spec_display(active),
{
    let mut s = String::from_str("Weapon: ");
    s.append(active.display());
    s
}

/// The silhouette line for a short weapon name; empty for an unknown name.
pub open spec fn spec_ascii_silhouette(name: Seq<char>) -> Seq<char> {
    if name == "Revolver"@ {
        "[ R ]  (1)  single-action revolver"@
    } else if name == "Winchester"@ {
        "[ W ]  (2)  lever-action rifle"@
    } else if name == "Shotgun"@ {
        "[ S ]  (3)  double-barrel shotgun"@
    } else {
        Seq::empty()
    }
}

/// The silhouette line for a short weapon name.
pub fn ascii_silhouette(name: &str) -> (s: String)
    ensures
        s@ == spec_ascii_silhouette(name@),
{
    if str_equal(name, "Revolver") {
        String::from_str("[ R ]  (1)  single-action revolver")
    } else if str_equal(name, "Winchester") {
        String::from_str("[ W ]  (2)  lever-action rifle")
    } else if str_equal(name, "Shotgun") {
        String::from_str("[ S ]  (3)  double-barrel shotgun")
    } else {
        String::new()
    }
}

/// The rows of the controls table: key and what it does.
pub open spec fn spec_control_rows() -> Seq<(Seq<char>, Seq<char>)> {
    seq![
        ("WASD"@, "Bewegen"@),
        ("Pfeiltasten"@, "Umsehen"@),
        ("Space"@, "Springen"@),
        ("Shift"@, "Sprinten"@),
        ("Ctrl"@, "Ducken"@),
        ("Shift+Ctrl"@, "Slide"@),
        ("1 / 2 / 3"@, "Waffe wechseln"@),
        ("Linksklick"@, "Schiessen / halten"@),
        ("Rechtsklick"@, "Revolver-Fanning"@),
        ("R"@, "Nachladen / Cock-Cycle"@),
    ]
}

/// The rows of the controls table.
pub fn control_rows() -> (rows: Vec<(&'static str, &'static str)>)
    ensures
        rows@.map_values(|r: (&'static str, &'static str)| (r.0@, r.1@)) == spec_control_rows(),
{
    let rows = vec![
        ("WASD", "Bewegen"),
        ("Pfeiltasten", "Umsehen"),
        ("Space", "Springen"),
        ("Shift", "Sprinten"),
        ("Ctrl", "Ducken"),
        ("Shift+Ctrl", "Slide"),
        ("1 / 2 / 3", "Waffe wechseln"),
        ("Linksklick", "Schiessen / halten"),
        ("Rechtsklick", "Revolver-Fanning"),
        ("R", "Nachladen / Cock-Cycle"),
    ];
    assert(rows@.map_values(|r: (&'static str, &'static str)| (r.0@, r.1@)) =~= spec_control_rows());
    rows
}

/// One line of the controls table: the key padded to 14 characters, two
/// spaces, the description.
pub fn control_line(key: &str, desc: &str) -> (s: String)
    ensures
        s@ == pad_right(key@, CONTROL_KEY_WIDTH as nat) + "  "@ + desc@,
{
    let mut s = String::new();
    push_padded(&mut s, key, CONTROL_KEY_WIDTH);
    s.append("  ");
    s.append(desc);
    s
}

} // verus!

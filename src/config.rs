use vstd::prelude::*;

use crate::preset::Preset;

verus! {

/// The daemon's settings: the preset bound to each power state at startup, an
/// optional pinned battery device, and the presets by name.
#[derive(Debug)]
pub struct Config {
    pub upower_battery_path: Option<String>,
    pub on_battery: String,
    pub on_wallpower: String,
    pub presets: Vec<(String, Preset)>,
}

/// Why a configuration was refused.
#[derive(Debug, PartialEq, Eq)]
pub enum ConfigError {
    /// Two presets carry this name.
    DuplicatePreset(String),
    /// `on_battery` names a preset that does not exist.
    UnknownOnBatteryPreset,
    /// `on_wallpower` names a preset that does not exist.
    UnknownOnWallpowerPreset,
}

/// The names of the presets, in order.
pub open spec fn preset_names(ps: Seq<(String, Preset)>) -> Seq<Seq<char>> {
    ps.map_values(|p: (String, Preset)| p.0@)
}

/// Some preset carries `name`.
pub open spec fn has_preset(ps: Seq<(String, Preset)>, name: Seq<char>) -> bool {
    exists|i: int| 0 <= i < ps.len() && #[trigger] ps[i].0@ == name
}

/// `i` is the position of the first preset named `name`.
pub open spec fn first_named(ps: Seq<(String, Preset)>, name: Seq<char>, i: int) -> bool {
    &&& 0 <= i < ps.len()
    &&& ps[i].0@ == name
    &&& forall|j: int| 0 <= j < i ==> #[trigger] ps[j].0@ != name
}

/// The preset names are unique.
pub open spec fn unique_names(ps: Seq<(String, Preset)>) -> bool {
    forall|i: int, j: int| 0 <= i < j < ps.len() ==> #[trigger] ps[i].0@ != #[trigger] ps[j].0@
}

impl Config {
    /// The configuration's invariant: unique preset names, and both default
    /// names among them.
    pub open spec fn wf(&self) -> bool {
        &&& unique_names(self.presets@)
        &&& has_preset(self.presets@, self.on_battery@)
        &&& has_preset(self.presets@, self.on_wallpower@)
    }

    /// Validates and assembles a configuration. Duplicate preset names are
    /// refused first, then an unknown `on_battery`, then an unknown
    /// `on_wallpower`.
    pub fn new(
        upower_battery_path: Option<String>,
        on_battery: String,
        on_wallpower: String,
        presets: Vec<(String, Preset)>,
    ) -> (r: Result<Config, ConfigError>)
        ensures
            r is Ok <==> {
                &&& unique_names(presets@)
                &&& has_preset(presets@, on_battery@)
                &&& has_preset(presets@, on_wallpower@)
            },
            match r {
                Ok(c) => {
                    &&& c.wf()
                    &&& c.upower_battery_path == upower_battery_path
                    &&& c.on_battery == on_battery
                    &&& c.on_wallpower == on_wallpower
                    &&& c.presets == presets
                },
                Err(ConfigError::DuplicatePreset(name)) => {
                    &&& !unique_names(presets@)
                    &&& exists|i: int, j: int|
                        0 <= i < j < presets@.len() && presets@[i].0@ == name@ && presets@[j].0@ == name@
                },
                Err(ConfigError::UnknownOnBatteryPreset) => {
                    &&& unique_names(presets@)
                    &&& !has_preset(presets@, on_battery@)
                },
                Err(ConfigError::UnknownOnWallpowerPreset) => {
                    &&& unique_names(presets@)
                    &&& has_preset(presets@, on_battery@)
                    &&& !has_preset(presets@, on_wallpower@)
                },
            },
    {
        match find_duplicate(&presets) {
            Some(name) => return Err(ConfigError::DuplicatePreset(name)),
            None => {},
        }
        if find_preset(&presets, on_battery.as_str()).is_none() {
            return Err(ConfigError::UnknownOnBatteryPreset);
        }
        if find_preset(&presets, on_wallpower.as_str()).is_none() {
            return Err(ConfigError::UnknownOnWallpowerPreset);
        }
        Ok(Config { upower_battery_path, on_battery, on_wallpower, presets })
    }

    /// The preset of the given name.
    pub fn preset(&self, name: &str) -> (r: Option<&Preset>)
        ensures
            r is Some <==> has_preset(self.presets@, name@),
            r matches Some(p) ==> exists|i: int| first_named(self.presets@, name@, i) && *p == self.presets@[i].1,
    {
        match find_preset(&self.presets, name) {
            Some(i) => Some(&self.presets[i].1),
            None => None,
        }
    }
}

/// The position of the first preset named `name`.
pub fn find_preset(presets: &Vec<(String, Preset)>, name: &str) -> (r: Option<usize>)
    ensures
        r is None <==> !has_preset(presets@, name@),
        r matches Some(i) ==> first_named(presets@, name@, i as int),
{
    let target = String::from_str(name);
    let mut i: usize = 0;
    while i < presets.len()
        invariant
            i <= presets.len(),
            target@ == name@,
            forall|j: int| 0 <= j < i ==> #[trigger] presets@[j].0@ != name@,
        decreases presets.len() - i,
    {
        if presets[i].0.eq(&target) {
            return Some(i);
        }
        i = i + 1;
    }
    None
}

/// A name that two presets share, if there is one.
fn find_duplicate(presets: &Vec<(String, Preset)>) -> (r: Option<String>)
    ensures
        r is None <==> unique_names(presets@),
        r matches Some(name) ==> exists|i: int, j: int|
            0 <= i < j < presets@.len() && presets@[i].0@ == name@ && presets@[j].0@ == name@,
{
    let mut j: usize = 0;
    while j < presets.len()
        invariant
            j <= presets.len(),
            forall|a: int, b: int| 0 <= a < b < j ==> #[trigger] presets@[a].0@ != #[trigger] presets@[b].0@,
        decreases presets.len() - j,
    {
        let mut i: usize = 0;
        while i < j
            invariant
                i <= j < presets.len(),
                forall|a: int| 0 <= a < i ==> #[trigger] presets@[a].0@ != presets@[j as int].0@,
            decreases j - i,
        {
            if presets[i].0.eq(&presets[j].0) {
                return Some(presets[j].0.clone());
            }
            i = i + 1;
        }
        j = j + 1;
    }
    None
}

} // verus!

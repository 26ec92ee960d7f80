use vstd::prelude::*;

verus! {

/// Name of the configuration directory, inside the user's home directory.
pub const CONFIG_DIR_NAME: &'static str = ".desk-control";

/// Name of the configuration file, inside the configuration directory.
pub const CONFIG_FILE_NAME: &'static str = "config";

/// Preset height of the `Short` preset in a fresh configuration (mm).
pub const DEFAULT_SHORT_MM: u16 = 650;

/// Preset height of the `Tall` preset in a fresh configuration (mm).
pub const DEFAULT_TALL_MM: u16 = 850;

/// Preset height of the `Grande` preset in a fresh configuration (mm).
pub const DEFAULT_GRANDE_MM: u16 = 1050;

/// Preset height of the `Venti` preset in a fresh configuration (mm).
pub const DEFAULT_VENTI_MM: u16 = 1250;

/// The four height presets, each in millimetres.
#[derive(Debug, Clone, Copy, PartialEq, Eq, Structural)]
pub struct HeightPresets {
    /// Typically the sitting height.
    pub short: u16,
    /// A mid-level height.
    pub tall: u16,
    /// Typically the standing height.
    pub grande: u16,
    /// The highest preset.
    pub venti: u16,
}

/// Settings of the desk control application.
#[derive(Debug, Clone)]
pub struct Config {
    /// Hardware address of the desk chosen earlier, if any.
    pub desk_address: Option<String>,
    /// The height presets.
    pub presets: HeightPresets,
}

/// The presets, named after drink sizes.
#[derive(Debug, Clone, Copy, PartialEq, Eq, Structural)]
pub enum DrinkSize {
    Short,
    Tall,
    Grande,
    Venti,
}

/// The height stored for a preset.
pub open spec fn preset_height(p: HeightPresets, size: DrinkSize) -> u16 {
    match size {
        DrinkSize::Short => p.short,
        DrinkSize::Tall => p.tall,
        DrinkSize::Grande => p.grande,
        DrinkSize::Venti => p.venti,
    }
}

/// The display name of a preset.
pub open spec fn drink_name(size: DrinkSize) -> Seq<char> {
    match size {
        DrinkSize::Short => "Short"@,
        DrinkSize::Tall => "Tall"@,
        DrinkSize::Grande => "Grande"@,
        DrinkSize::Venti => "Venti"@,
    }
}

/// `base` followed by the path component `name`, with one `/` between them
/// unless `base` is empty or already ends with one.
pub open spec fn path_join(base: Seq<char>, name: Seq<char>) -> Seq<char> {
    if base.len() == 0 || base.last() == '/' {
        base + name
    } else {
        base + seq!['/'] + name
    }
}

/// The configuration directory for a home directory.
pub open spec fn config_dir_of(home: Seq<char>) -> Seq<char> {
    path_join(home, CONFIG_DIR_NAME@)
}

/// The configuration file for a home directory.
pub open spec fn config_file_of(home: Seq<char>) -> Seq<char> {
    path_join(config_dir_of(home), CONFIG_FILE_NAME@)
}

/// Append the path component `name` to `base`.
fn join_path(base: &str, name: &str) -> (r: String)
    ensures
        r@ == path_join(base@, name@),
{
    let mut r = String::from_str(base);
    let n = base.unicode_len();
    if n > 0 && base.get_char(n - 1) != '/' {
        r.append("/");
        proof {
            reveal_strlit("/");
        }
    }
    r.append(name);
    r
}

impl Default for Config {
    fn default() -> (r: Self)
        ensures
            r.desk_address is None,
            r.presets == (HeightPresets {
                short: DEFAULT_SHORT_MM,
                tall: DEFAULT_TALL_MM,
                grande: DEFAULT_GRANDE_MM,
                venti: DEFAULT_VENTI_MM,
            }),
    {
        Config {
            desk_address: None,
            presets: HeightPresets {
                short: DEFAULT_SHORT_MM,
                tall: DEFAULT_TALL_MM,
                grande: DEFAULT_GRANDE_MM,
                venti: DEFAULT_VENTI_MM,
            },
        }
    }
}

impl Config {
    /// The configuration directory (`<home>/.desk-control`) for the given
    /// home directory.
    pub fn config_dir(home: &str) -> (r: String)
        ensures
            r@ == config_dir_of(home@),
    {
        join_path(home, CONFIG_DIR_NAME)
    }

    /// The configuration file (`<home>/.desk-control/config`) for the given
    /// home directory.
    pub fn config_file(home: &str) -> (r: String)
        ensures
            r@ == config_file_of(home@),
    {
        let dir = Config::config_dir(home);
        join_path(dir.as_str(), CONFIG_FILE_NAME)
    }

    /// The height of a preset, in millimetres.
    pub fn get_preset(&self, preset: DrinkSize) -> (h: u16)
        ensures
            h == preset_height(self.presets, preset),
    {
        match preset {
            DrinkSize::Short => self.presets.short,
            DrinkSize::Tall => self.presets.tall,
            DrinkSize::Grande => self.presets.grande,
            DrinkSize::Venti => self.presets.venti,
        }
    }

    /// Set the height of one preset; the address and the other presets stay.
    pub fn set_preset(&mut self, preset: DrinkSize, height_mm: u16)
        ensures
            final(self).desk_address == old(self).desk_address,
            preset_height(final(self).presets, preset) == height_mm,
            forall|other: DrinkSize|
                other != preset ==> preset_height(final(self).presets, other)
                    == preset_height(old(self).presets, other),
    {
        match preset {
            DrinkSize::Short => self.presets.short = height_mm,
            DrinkSize::Tall => self.presets.tall = height_mm,
            DrinkSize::Grande => self.presets.grande = height_mm,
            DrinkSize::Venti => self.presets.venti = height_mm,
        }
    }
}

impl DrinkSize {
    /// Every preset, from lowest to highest.
    pub fn all() -> (r: Vec<DrinkSize>)
        ensures
            r@ == seq![DrinkSize::Short, DrinkSize::Tall, DrinkSize::Grande, DrinkSize::Venti],
    {
        vec![DrinkSize::Short, DrinkSize::Tall, DrinkSize::Grande, DrinkSize::Venti]
    }

    /// The display name of the preset.
    pub fn name(&self) -> (r: &'static str)
        ensures
            r@ == drink_name(*self),
    {
        match self {
            DrinkSize::Short => "Short",
            DrinkSize::Tall => "Tall",
            DrinkSize::Grande => "Grande",
            DrinkSize::Venti => "Venti",
        }
    }
}

} // verus!

use vstd::prelude::*;

use crate::config::DrinkSize;

verus! {

/// What the application does when a menu entry is chosen; the tray front end
/// calls these.
pub trait MenuCallback: Send + Sync {
    /// A preset was chosen: move the desk to it.
    fn on_preset_selected(&self, preset: DrinkSize);

    /// The user asked to find and remember a desk.
    fn on_configure_desk(&self);

    /// The user asked how to change the presets.
    fn on_configure_presets(&self);

    /// The user asked to quit.
    fn on_quit(&self);
}

/// The entry of the menu that was chosen.
#[derive(Debug, Clone, Copy, PartialEq, Eq, Structural)]
pub enum MenuChoice {
    /// One of the presets.
    Preset(DrinkSize),
    /// "Configure Desk...".
    ConfigureDesk,
    /// "Configure Presets...".
    ConfigurePresets,
    /// "Quit".
    Quit,
    /// None of the entries this menu handles.
    Unknown,
}

/// The identifiers of the menu's entries.
pub struct MenuIds {
    /// Each preset with the identifier of its entry, in menu order.
    pub presets: Vec<(DrinkSize, String)>,
    pub configure_desk: String,
    pub configure_presets: String,
    pub quit: String,
}

/// The preset of the first preset entry, at or after `i`, whose identifier is `id`.
pub open spec fn preset_with_id(presets: Seq<(DrinkSize, String)>, id: Seq<char>, i: nat) -> Option<
    DrinkSize,
>
    decreases presets.len() - i,
{
    if i >= presets.len() {
        None
    } else if presets[i as int].1@ == id {
        Some(presets[i as int].0)
    } else {
        preset_with_id(presets, id, i + 1)
    }
}

/// The entry an identifier stands for: preset entries first, then the others.
pub open spec fn choice_of(ids: MenuIds, id: Seq<char>) -> MenuChoice {
    match preset_with_id(ids.presets@, id, 0) {
        Some(p) => MenuChoice::Preset(p),
        None => if id == ids.configure_desk@ {
            MenuChoice::ConfigureDesk
        } else if id == ids.configure_presets@ {
            MenuChoice::ConfigurePresets
        } else if id == ids.quit@ {
            MenuChoice::Quit
        } else {
            MenuChoice::Unknown
        },
    }
}

impl MenuIds {
    /// The entry that the identifier `clicked` stands for.
    pub fn choice(&self, clicked: &String) -> (r: MenuChoice)
        ensures
            r == choice_of(*self, clicked@),
    {
        let mut i: usize = 0;
        while i < self.presets.len()
            invariant
                i <= self.presets@.len(),
                preset_with_id(self.presets@, clicked@, 0) == preset_with_id(
                    self.presets@,
                    clicked@,
                    i as nat,
                ),
            decreases self.presets@.len() - i,
        {
            if self.presets[i].1 == *clicked {
                return MenuChoice::Preset(self.presets[i].0);
            }
            i = i + 1;
        }
        if self.configure_desk == *clicked {
            MenuChoice::ConfigureDesk
        } else if self.configure_presets == *clicked {
            MenuChoice::ConfigurePresets
        } else if self.quit == *clicked {
            MenuChoice::Quit
        } else {
            MenuChoice::Unknown
        }
    }
}

} // verus!

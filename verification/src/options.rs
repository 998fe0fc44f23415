//! Install options, and the table that maps feature names onto them.

use vstd::prelude::*;
use vstd::string::StringSliceAdditionalSpecFns;

verus! {

/// The switches that a caller sets for one install. Each one belongs to one
/// optional feature, which is found by its name.
#[derive(Debug, Clone, Copy, PartialEq, Eq, Structural)]
pub struct InstallOptions {
    /// Use the widescreen command bar.
    pub widescreen_command_bar: bool,
    /// Allow the game to run in a window.
    pub windowed_mode: bool,
    /// Forward ports through UPnP.
    pub upnp: bool,
    /// Use the darker red on the mini-map.
    pub alternate_red: bool,
    /// Use the darker purple on the mini-map.
    pub alternate_purple: bool,
    /// Use the darker grey on the mini-map.
    pub alternate_gray: bool,
    /// Raise the population caps to 1000.
    pub extend_population_caps: bool,
    /// Show grass in place of snow and ice.
    pub replace_snow_with_grass: bool,
    /// Animate water.
    pub water_animation: bool,
    /// Use the precision scrolling system.
    pub precision_scrolling: bool,
    /// Add to a group with shift.
    pub shift_group_append: bool,
    /// React to object hotkeys on key down.
    pub keydown_hotkeys: bool,
    /// Use the new format for save file names.
    pub savegame_format: bool,
    /// Queue units in several buildings at once.
    pub multiple_queue: bool,
    /// Keep the original patrol delay.
    pub original_patrol_delay: bool,
    /// Let water move.
    pub water_movement: bool,
    /// Run the weather system.
    pub weather_system: bool,
    /// Load custom terrains.
    pub custom_terrains: bool,
    /// Draw terrain under water.
    pub terrain_underwater: bool,
    /// Show the age as a number.
    pub numeric_age_display: bool,
}

impl InstallOptions {
    /// The options with every switch off.
    pub fn bare() -> (r: InstallOptions)
        ensures
            r == bare_options(),
    {
        InstallOptions {
            widescreen_command_bar: false,
            windowed_mode: false,
            upnp: false,
            alternate_red: false,
            alternate_purple: false,
            alternate_gray: false,
            extend_population_caps: false,
            replace_snow_with_grass: false,
            water_animation: false,
            precision_scrolling: false,
            shift_group_append: false,
            keydown_hotkeys: false,
            savegame_format: false,
            multiple_queue: false,
            original_patrol_delay: false,
            water_movement: false,
            weather_system: false,
            custom_terrains: false,
            terrain_underwater: false,
            numeric_age_display: false,
        }
    }
}

/// The options with every switch off.
pub open spec fn bare_options() -> InstallOptions {
    InstallOptions {
        widescreen_command_bar: false,
        windowed_mode: false,
        upnp: false,
        alternate_red: false,
        alternate_purple: false,
        alternate_gray: false,
        extend_population_caps: false,
        replace_snow_with_grass: false,
        water_animation: false,
        precision_scrolling: false,
        shift_group_append: false,
        keydown_hotkeys: false,
        savegame_format: false,
        multiple_queue: false,
        original_patrol_delay: false,
        water_movement: false,
        weather_system: false,
        custom_terrains: false,
        terrain_underwater: false,
        numeric_age_display: false,
    }
}

/// The state that the options ask of the feature called `name`, or `None`
/// where no switch belongs to that name. A feature whose name says that it
/// disables something is governed by a switch that enables it, and so gets the
/// switch's negation.
pub open spec fn toggle_of(name: Seq<char>, options: InstallOptions) -> Option<bool> {
    if name == "Widescreen interface style"@ {
        Some(options.widescreen_command_bar)
    } else if name == "Windowed mode support"@ {
        Some(options.windowed_mode)
    } else if name == "Port forwarding support"@ {
        Some(options.upnp)
    } else if name == "Darken mini-map red"@ {
        Some(options.alternate_red)
    } else if name == "Darken mini-map purple"@ {
        Some(options.alternate_purple)
    } else if name == "Darken mini-map grey"@ {
        Some(options.alternate_gray)
    } else if name == "Population caps to 1000"@ {
        Some(options.extend_population_caps)
    } else if name == "Snow/ice terrain removal"@ {
        Some(options.replace_snow_with_grass)
    } else if name == "Enable water animation"@ {
        Some(options.water_animation)
    } else if name == "Precision scrolling system"@ {
        Some(options.precision_scrolling)
    } else if name == "Shift group appending"@ {
        Some(options.shift_group_append)
    } else if name == "Keydown object hotkeys"@ {
        Some(options.keydown_hotkeys)
    } else if name == "New save filename format"@ {
        Some(options.savegame_format)
    } else if name == "Multiple building queue"@ {
        Some(options.multiple_queue)
    } else if name == "Original patrol default"@ {
        Some(options.original_patrol_delay)
    } else if name == "Disable water movement"@ {
        Some(!options.water_movement)
    } else if name == "Disable weather system"@ {
        Some(!options.weather_system)
    } else if name == "Disable custom terrains"@ {
        Some(!options.custom_terrains)
    } else if name == "Disable terrain underwater"@ {
        Some(!options.terrain_underwater)
    } else if name == "Numeric age display"@ {
        Some(options.numeric_age_display)
    } else {
        None
    }
}

/// Whether two texts hold the same characters.
pub fn same_text(a: &str, b: &str) -> (r: bool)
    ensures
        r == (a@ == b@),
{
    let x = a.as_bytes();
    let y = b.as_bytes();
    proof {
        vstd::utf8::encode_utf8_decode_utf8(a@);
        vstd::utf8::encode_utf8_decode_utf8(b@);
    }
    if x.len() != y.len() {
        return false;
    }
    let mut i: usize = 0;
    while i < x.len()
        invariant
            x@.len() == y@.len(),
            i <= x@.len(),
            forall|k: int| 0 <= k < i ==> x@[k] == y@[k],
            x@ == vstd::utf8::encode_utf8(a@),
            y@ == vstd::utf8::encode_utf8(b@),
        decreases x@.len() - i,
    {
        if x[i] != y[i] {
            return false;
        }
        i += 1;
    }
    assert(x@ =~= y@);
    true
}

/// Looks a feature's name up in the table of switches.
pub fn toggle_for(name: &str, options: &InstallOptions) -> (r: Option<bool>)
    ensures
        r == toggle_of(name@, *options),
{
    if same_text(name, "Widescreen interface style") {
        Some(options.widescreen_command_bar)
    } else if same_text(name, "Windowed mode support") {
        Some(options.windowed_mode)
    } else if same_text(name, "Port forwarding support") {
        Some(options.upnp)
    } else if same_text(name, "Darken mini-map red") {
        Some(options.alternate_red)
    } else if same_text(name, "Darken mini-map purple") {
        Some(options.alternate_purple)
    } else if same_text(name, "Darken mini-map grey") {
        Some(options.alternate_gray)
    } else if same_text(name, "Population caps to 1000") {
        Some(options.extend_population_caps)
    } else if same_text(name, "Snow/ice terrain removal") {
        Some(options.replace_snow_with_grass)
    } else if same_text(name, "Enable water animation") {
        Some(options.water_animation)
    } else if same_text(name, "Precision scrolling system") {
        Some(options.precision_scrolling)
    } else if same_text(name, "Shift group appending") {
        Some(options.shift_group_append)
    } else if same_text(name, "Keydown object hotkeys") {
        Some(options.keydown_hotkeys)
    } else if same_text(name, "New save filename format") {
        Some(options.savegame_format)
    } else if same_text(name, "Multiple building queue") {
        Some(options.multiple_queue)
    } else if same_text(name, "Original patrol default") {
        Some(options.original_patrol_delay)
    } else if same_text(name, "Disable water movement") {
        Some(!options.water_movement)
    } else if same_text(name, "Disable weather system") {
        Some(!options.weather_system)
    } else if same_text(name, "Disable custom terrains") {
        Some(!options.custom_terrains)
    } else if same_text(name, "Disable terrain underwater") {
        Some(!options.terrain_underwater)
    } else if same_text(name, "Numeric age display") {
        Some(options.numeric_age_display)
    } else {
        None
    }
}

} // verus!

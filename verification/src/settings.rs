//! Engine configuration.
//!
//! The configuration is handed to the engine at construction and never
//! mutated afterwards. Pixel quantities are integers; fractional settings
//! (the stick deadzone) use the same fixed-point scale as stick directions.
//! The string-to-string mappings are plain lookup tables searched front to
//! back; the first entry with a matching key wins.

use vstd::prelude::*;

verus! {

/// Looks a key up in a sequence of key/value pairs: the value of the first
/// pair whose key matches, or `None` when no key matches.
pub open spec fn assoc(pairs: Seq<(String, String)>, key: Seq<char>) -> Option<Seq<char>>
    decreases pairs.len(),
{
    if pairs.len() == 0 {
        None
    } else if pairs[0].0@ == key {
        Some(pairs[0].1@)
    } else {
        assoc(pairs.drop_first(), key)
    }
}

/// Whether some entry of `names` reads `key`.
pub open spec fn contains_name(names: Seq<String>, key: Seq<char>) -> bool {
    exists|i: int| 0 <= i < names.len() && names[i]@ == key
}

/// Skipping entries whose keys do not match leaves the lookup's result
/// unchanged.
proof fn lemma_assoc_skip(pairs: Seq<(String, String)>, key: Seq<char>, i: int)
    requires
        0 <= i <= pairs.len(),
        forall|j: int| 0 <= j < i ==> pairs[j].0@ != key,
    ensures
        assoc(pairs, key) == assoc(pairs.skip(i), key),
    decreases i,
{
    if i > 0 {
        lemma_assoc_skip(pairs, key, i - 1);
        assert(pairs.skip(i - 1).len() > 0);
        assert(pairs.skip(i - 1)[0] == pairs[i - 1]);
        assert(pairs.skip(i - 1).drop_first() =~= pairs.skip(i));
    } else {
        assert(pairs.skip(0) =~= pairs);
    }
}

/// Finds the value mapped to `key` in a lookup table of key/value pairs.
pub fn map_get<'a>(pairs: &'a Vec<(String, String)>, key: &String) -> (r: Option<&'a String>)
    ensures
        match r {
            Some(v) => assoc(pairs@, key@) == Some(v@),
            None => assoc(pairs@, key@) is None,
        },
{
    let n = pairs.len();
    let mut i: usize = 0;
    while i < n
        invariant
            n == pairs@.len(),
            0 <= i <= n,
            forall|j: int| 0 <= j < i ==> pairs@[j].0@ != key@,
        decreases n - i,
    {
        let entry = &pairs[i];
        if entry.0 == *key {
            proof {
                lemma_assoc_skip(pairs@, key@, i as int);
                assert(pairs@.skip(i as int)[0] == pairs@[i as int]);
            }
            return Some(&entry.1);
        }
        i += 1;
    }
    proof {
        lemma_assoc_skip(pairs@, key@, n as int);
        assert(pairs@.skip(n as int) =~= Seq::<(String, String)>::empty());
    }
    None
}

/// Whether `key` appears in a list of names.
pub fn name_in_list(names: &Vec<String>, key: &String) -> (r: bool)
    ensures
        r == contains_name(names@, key@),
{
    let n = names.len();
    let mut i: usize = 0;
    while i < n
        invariant
            n == names@.len(),
            0 <= i <= n,
            forall|j: int| 0 <= j < i ==> names@[j]@ != key@,
        decreases n - i,
    {
        if names[i] == *key {
            return true;
        }
        i += 1;
    }
    false
}

/// Screen and overlay presentation settings.
#[derive(Clone, Debug)]
pub struct Overlay {
    pub screen_height: u32,
    pub screen_width: u32,
    pub show_crosshair: bool,
    pub show_buttons: bool,
    pub always_show_overlay: bool,
    pub windowed_mode: bool,
}

impl Overlay {
    /// Screen dimensions small enough that every resolved coordinate fits
    /// comfortably in the engine's integer arithmetic.
    pub open spec fn wf(self) -> bool {
        self.screen_height <= 1_000_000 && self.screen_width <= 1_000_000
    }

    pub fn screen_height(&self) -> (r: u32)
        ensures
            r == self.screen_height,
    {
        self.screen_height
    }

    pub fn screen_width(&self) -> (r: u32)
        ensures
            r == self.screen_width,
    {
        self.screen_width
    }

    pub fn show_crosshair(&self) -> (r: bool)
        ensures
            r == self.show_crosshair,
    {
        self.show_crosshair
    }

    pub fn show_buttons(&self) -> (r: bool)
        ensures
            r == self.show_buttons,
    {
        self.show_buttons
    }

    pub fn always_show_overlay(&self) -> (r: bool)
        ensures
            r == self.always_show_overlay,
    {
        self.always_show_overlay
    }

    pub fn windowed_mode(&self) -> (r: bool)
        ensures
            r == self.windowed_mode,
    {
        self.windowed_mode
    }
}

/// Controller geometry and feel settings. All pixel values are integers;
/// `controller_deadzone` is a fixed-point fraction of full stick deflection
/// scaled by `crate::geometry::DIR_SCALE`.
#[derive(Clone, Debug)]
pub struct Controller {
    pub controller_deadzone: u32,
    pub character_x_offset_px: i32,
    pub character_y_offset_px: i32,
    pub walk_circle_radius_px: u32,
    pub close_circle_radius_px: u32,
    pub mid_circle_radius_px: u32,
    pub far_circle_radius_px: u32,
    pub free_mouse_sensitivity_px: u32,
    pub controller_type: String,
}

impl Controller {
    /// Radii, offsets and sensitivity small enough that every resolved
    /// coordinate fits comfortably in the engine's integer arithmetic.
    pub open spec fn wf(self) -> bool {
        &&& self.walk_circle_radius_px <= 1_000_000
        &&& self.close_circle_radius_px <= 1_000_000
        &&& self.mid_circle_radius_px <= 1_000_000
        &&& self.far_circle_radius_px <= 1_000_000
        &&& self.free_mouse_sensitivity_px <= 1_000_000
        &&& -1_000_000 <= self.character_x_offset_px <= 1_000_000
        &&& -1_000_000 <= self.character_y_offset_px <= 1_000_000
    }

    pub fn controller_deadzone(&self) -> (r: u32)
        ensures
            r == self.controller_deadzone,
    {
        self.controller_deadzone
    }

    pub fn character_x_offset_px(&self) -> (r: i32)
        ensures
            r == self.character_x_offset_px,
    {
        self.character_x_offset_px
    }

    pub fn character_y_offset_px(&self) -> (r: i32)
        ensures
            r == self.character_y_offset_px,
    {
        self.character_y_offset_px
    }

    pub fn walk_circle_radius_px(&self) -> (r: u32)
        ensures
            r == self.walk_circle_radius_px,
    {
        self.walk_circle_radius_px
    }

    pub fn close_circle_radius_px(&self) -> (r: u32)
        ensures
            r == self.close_circle_radius_px,
    {
        self.close_circle_radius_px
    }

    pub fn mid_circle_radius_px(&self) -> (r: u32)
        ensures
            r == self.mid_circle_radius_px,
    {
        self.mid_circle_radius_px
    }

    pub fn far_circle_radius_px(&self) -> (r: u32)
        ensures
            r == self.far_circle_radius_px,
    {
        self.far_circle_radius_px
    }

    pub fn free_mouse_sensitivity_px(&self) -> (r: u32)
        ensures
            r == self.free_mouse_sensitivity_px,
    {
        self.free_mouse_sensitivity_px
    }

    pub fn controller_type(&self) -> (r: &String)
        ensures
            r == &self.controller_type,
    {
        &self.controller_type
    }
}

/// The full configuration the engine reads: key mappings, aimability and
/// distance policies, and geometry constants.
#[derive(Clone, Debug)]
pub struct ApplicationSettings {
    pub overlay: Overlay,
    pub button_mapping: Vec<(String, String)>,
    pub ability_mapping: Vec<(String, String)>,
    pub aimable_buttons: Vec<String>,
    pub action_distances: Vec<(String, String)>,
    pub controller: Controller,
}

impl ApplicationSettings {
    pub open spec fn wf(self) -> bool {
        self.overlay.wf() && self.controller.wf()
    }

    pub fn overlay_settings(&self) -> (r: &Overlay)
        ensures
            r == &self.overlay,
    {
        &self.overlay
    }

    pub fn button_mapping_settings(&self) -> (r: &Vec<(String, String)>)
        ensures
            r == &self.button_mapping,
    {
        &self.button_mapping
    }

    pub fn ability_mapping_settings(&self) -> (r: &Vec<(String, String)>)
        ensures
            r == &self.ability_mapping,
    {
        &self.ability_mapping
    }

    pub fn aimable_buttons(&self) -> (r: &Vec<String>)
        ensures
            r == &self.aimable_buttons,
    {
        &self.aimable_buttons
    }

    pub fn action_distances(&self) -> (r: &Vec<(String, String)>)
        ensures
            r == &self.action_distances,
    {
        &self.action_distances
    }

    pub fn controller_settings(&self) -> (r: &Controller)
        ensures
            r == &self.controller,
    {
        &self.controller
    }
}

} // verus!

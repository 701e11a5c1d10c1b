//! The action planning and targeting engine.
//!
//! Each frame the host feeds the engine button edge transitions and analog
//! stick samples, then asks it to resolve the tick. The engine drains its
//! queue of planned actions newest-first and answers with the exact sequence
//! of pointer-move and press/release commands to perform; the host carries
//! them out against the real input-injection layer.

use vstd::prelude::*;

use crate::geometry::{scale_mul, scale_mul_spec, Direction, DIR_SCALE};
use crate::settings::{assoc, contains_name, map_get, name_in_list, ApplicationSettings};

verus! {

/// The qualitative targeting range configured for an action. `Unset` means
/// no ranged-targeting policy is configured, which is distinct from a radius
/// of zero.
#[derive(Clone, Copy, PartialEq, Eq, Structural, Debug)]
pub enum ActionDistance {
    Close,
    Mid,
    Far,
    Unset,
}

/// One edge-triggered button transition reported by the input-capture layer
/// for this tick. At most one of the two flags may be set; the engine clears
/// a flag once it has consumed the edge.
#[derive(Clone, Debug)]
pub struct ControllerButton {
    pub name: String,
    pub just_pressed: bool,
    pub just_unpressed: bool,
}

/// One analog stick sample for this tick. `angle` is the stick angle as a
/// scaled unit vector and `direction` the raw deflection vector in the same
/// fixed-point scale; both are meaningful only outside the deadzone.
#[derive(Clone, Copy, Debug)]
pub struct AnalogStick {
    pub in_deadzone: bool,
    pub angle: Direction,
    pub direction: Direction,
}

/// An action waiting in the queue between button ingestion and the tick's
/// resolution. For a release, aimability and distance are meaningless and
/// held at `false` / `ActionDistance::Unset`.
#[derive(Clone, Debug)]
pub struct PendingAction {
    pub name: String,
    pub just_pressed: bool,
    pub aimable: bool,
    pub distance: ActionDistance,
}

/// A command for the external dispatch layer: an absolute pointer move in
/// screen pixels, or a press or release of a named key.
#[derive(Clone, PartialEq, Eq, Debug)]
pub enum Command {
    MoveTo { x: i64, y: i64 },
    Press { key: String },
    Release { key: String },
}

/// The mathematical shape of a `Command`, used by the contracts.
pub enum CmdSpec {
    MoveTo { x: int, y: int },
    Press { key: Seq<char> },
    Release { key: Seq<char> },
}

impl View for Command {
    type V = CmdSpec;

    open spec fn view(&self) -> CmdSpec {
        match self {
            Command::MoveTo { x, y } => CmdSpec::MoveTo { x: *x as int, y: *y as int },
            Command::Press { key } => CmdSpec::Press { key: key@ },
            Command::Release { key } => CmdSpec::Release { key: key@ },
        }
    }
}

/// The views of a sequence of commands.
pub open spec fn cmds_view(cmds: Seq<Command>) -> Seq<CmdSpec> {
    Seq::new(cmds.len(), |i: int| cmds[i]@)
}

/// The views of a sequence of names.
pub open spec fn names_view(names: Seq<String>) -> Seq<Seq<char>> {
    Seq::new(names.len(), |i: int| names[i]@)
}

/// A fatal contract breach between the engine and its collaborators. The
/// engine never guesses past one of these: the tick that detects it is
/// abandoned with the engine's state unchanged.
#[derive(Clone, PartialEq, Eq, Debug)]
pub enum EngineError {
    /// A button reported both edges in one tick.
    EdgeConflict { action: String },
    /// A queued action has no entry in the button mapping.
    UnmappedAction { action: String },
    /// A held ability key has no entry in the ability mapping.
    UnmappedAbility { key: String },
}

/// The range an action classifies to: the tag configured for it in the
/// distance map (`"close"`, `"mid"` or `"far"`), or `Unset` for any other
/// tag or when the action is absent from the map.
pub open spec fn classify_spec(s: ApplicationSettings, name: Seq<char>) -> ActionDistance {
    match assoc(s.action_distances@, name) {
        Option::None => ActionDistance::Unset,
        Option::Some(tag) => if tag == "close"@ {
            ActionDistance::Close
        } else if tag == "mid"@ {
            ActionDistance::Mid
        } else if tag == "far"@ {
            ActionDistance::Far
        } else {
            ActionDistance::Unset
        },
    }
}

/// The pixel radius for a qualitative range. `Unset` falls back to the
/// walking radius: targeting degrades to movement-circle geometry, not to
/// the screen center.
pub open spec fn radius_spec(s: ApplicationSettings, d: ActionDistance) -> int {
    match d {
        ActionDistance::Close => s.controller.close_circle_radius_px as int,
        ActionDistance::Mid => s.controller.mid_circle_radius_px as int,
        ActionDistance::Far => s.controller.far_circle_radius_px as int,
        ActionDistance::Unset => s.controller.walk_circle_radius_px as int,
    }
}

/// Whether an action's targeting angle may come from the aim stick.
pub open spec fn aimable_spec(s: ApplicationSettings, name: Seq<char>) -> bool {
    contains_name(s.aimable_buttons@, name)
}

/// The screen point at `radius` pixels from the avatar in direction `dir`.
/// The avatar sits at the screen center plus the configured offsets; the
/// vertical term is subtracted because screen-space y grows downward while
/// the direction convention is y-up.
pub open spec fn resolve_spec(s: ApplicationSettings, radius: int, dir: Direction) -> (int, int) {
    (
        s.overlay.screen_width as int / 2 + scale_mul_spec(dir.x as int, radius)
            + s.controller.character_x_offset_px as int,
        s.overlay.screen_height as int / 2 - scale_mul_spec(dir.y as int, radius)
            - s.controller.character_y_offset_px as int,
    )
}

/// The free-aim target: the hover position nudged by the aim stick's raw
/// deflection times the configured sensitivity, or the origin when no hover
/// position is available.
pub open spec fn free_move_spec(
    s: ApplicationSettings,
    dir: Direction,
    hover: Option<(i32, i32)>,
) -> (int, int) {
    match hover {
        Option::Some(pos) => (
            pos.0 as int + scale_mul_spec(dir.x as int, s.controller.free_mouse_sensitivity_px as int),
            pos.1 as int - scale_mul_spec(dir.y as int, s.controller.free_mouse_sensitivity_px as int),
        ),
        Option::None => (0, 0),
    }
}

/// The pre-press pointer move a planned press triggers, if any: an aimable
/// press while walking aims at the action's circle (by the aim stick when it
/// is also held, else by the walk stick); a non-aimable press with a
/// configured distance follows the walk stick; anything else moves nothing.
pub open spec fn press_move(st: ActionManager, a: PendingAction) -> Option<(int, int)> {
    if a.aimable && st.holding_walk && st.holding_aim {
        Some(resolve_spec(st.settings, radius_spec(st.settings, a.distance), st.aiming_angle))
    } else if a.aimable && st.holding_walk {
        Some(resolve_spec(st.settings, radius_spec(st.settings, a.distance), st.walking_angle))
    } else if !a.aimable && a.distance != ActionDistance::Unset && st.holding_walk {
        Some(resolve_spec(st.settings, radius_spec(st.settings, a.distance), st.walking_angle))
    } else {
        None
    }
}

/// The commands one planned action resolves to, assuming its name is mapped:
/// for a press, the optional pre-move followed by the press of the mapped
/// key; for a release, just the release of the mapped key.
pub open spec fn action_cmds(st: ActionManager, a: PendingAction) -> Seq<CmdSpec> {
    let key = assoc(st.settings.button_mapping@, a.name@)->Some_0;
    if a.just_pressed {
        match press_move(st, a) {
            Some(pos) => seq![
                CmdSpec::MoveTo { x: pos.0, y: pos.1 },
                CmdSpec::Press { key },
            ],
            None => seq![CmdSpec::Press { key }],
        }
    } else {
        seq![CmdSpec::Release { key }]
    }
}

/// The commands draining a queue emits: last-enqueued first, each action's
/// commands in turn.
pub open spec fn drain_cmds(st: ActionManager, q: Seq<PendingAction>) -> Seq<CmdSpec>
    decreases q.len(),
{
    if q.len() == 0 {
        Seq::empty()
    } else {
        action_cmds(st, q.last()) + drain_cmds(st, q.drop_last())
    }
}

/// The action names the held ability keys map to, assuming each is mapped.
pub open spec fn actions_of_keys(s: ApplicationSettings, keys: Seq<Seq<char>>) -> Seq<Seq<char>> {
    Seq::new(keys.len(), |i: int| assoc(s.ability_mapping@, keys[i])->Some_0)
}

/// Whether some action of the set has a configured distance.
pub open spec fn any_ranged(s: ApplicationSettings, actions: Seq<Seq<char>>) -> bool {
    exists|i: int|
        0 <= i < actions.len() && classify_spec(s, actions[i]) != ActionDistance::Unset
}

/// Whether some action with a configured distance is also aimable.
pub open spec fn some_aimable_spec(s: ApplicationSettings, actions: Seq<Seq<char>>) -> bool {
    exists|i: int|
        0 <= i < actions.len() && classify_spec(s, actions[i]) != ActionDistance::Unset
            && aimable_spec(s, actions[i])
}

/// The largest radius among the actions with a configured distance, zero
/// when there is none.
pub open spec fn max_ranged_radius(s: ApplicationSettings, actions: Seq<Seq<char>>) -> int
    decreases actions.len(),
{
    if actions.len() == 0 {
        0
    } else {
        let last_r = if classify_spec(s, actions.last()) != ActionDistance::Unset {
            radius_spec(s, classify_spec(s, actions.last()))
        } else {
            0
        };
        vstd::math::max(last_r, max_ranged_radius(s, actions.drop_last()))
    }
}

/// The radius the swivel targets: the largest configured radius among the
/// held actions, or the walking radius when none of them has one.
pub open spec fn chosen_radius(s: ApplicationSettings, actions: Seq<Seq<char>>) -> int {
    if any_ranged(s, actions) {
        max_ranged_radius(s, actions)
    } else {
        s.controller.walk_circle_radius_px as int
    }
}

/// The continuous re-aim move while abilities are held during a walk: the
/// chosen radius, along the aim stick when some surviving action is aimable
/// and the aim stick is held, else along the walk stick.
pub open spec fn swivel_cmds(st: ActionManager, actions: Seq<Seq<char>>) -> Seq<CmdSpec> {
    let dir = if some_aimable_spec(st.settings, actions) && st.holding_aim {
        st.aiming_angle
    } else {
        st.walking_angle
    };
    let pos = resolve_spec(st.settings, chosen_radius(st.settings, actions), dir);
    seq![CmdSpec::MoveTo { x: pos.0, y: pos.1 }]
}

/// The synthetic primary-click block: while walking with no ability held the
/// cursor snaps to the walking circle and the primary click is held down;
/// otherwise the primary click is released.
pub open spec fn walk_cmds(st: ActionManager, holding_ability: bool) -> Seq<CmdSpec> {
    if st.holding_walk && !holding_ability {
        let pos = resolve_spec(
            st.settings,
            st.settings.controller.walk_circle_radius_px as int,
            st.walking_angle,
        );
        seq![
            CmdSpec::MoveTo { x: pos.0, y: pos.1 },
            CmdSpec::Press { key: "LeftClick"@ },
        ]
    } else {
        seq![CmdSpec::Release { key: "LeftClick"@ }]
    }
}

/// Every command a whole tick emits, in dispatch order: the drained queue,
/// then the swivel move, then the free-aim move, then the primary-click
/// block.
pub open spec fn tick_cmds(
    st: ActionManager,
    held: Seq<Seq<char>>,
    hover: Option<(i32, i32)>,
) -> Seq<CmdSpec> {
    let holding_ability = held.len() > 0;
    drain_cmds(st, st.planned_actions@) + (if holding_ability && st.holding_walk {
        swivel_cmds(st, actions_of_keys(st.settings, held))
    } else {
        Seq::empty()
    }) + (if st.holding_aim && !st.holding_walk {
        seq![
            CmdSpec::MoveTo {
                x: free_move_spec(st.settings, st.aiming_stick_direction, hover).0,
                y: free_move_spec(st.settings, st.aiming_stick_direction, hover).1,
            },
        ]
    } else {
        Seq::empty()
    }) + walk_cmds(st, holding_ability)
}

/// Whether some queued action is missing from the button mapping.
pub open spec fn has_unmapped_action(s: ApplicationSettings, q: Seq<PendingAction>) -> bool {
    exists|i: int| 0 <= i < q.len() && assoc(s.button_mapping@, q[i].name@) is None
}

/// Whether some held ability key is missing from the ability mapping.
pub open spec fn has_unmapped_ability(s: ApplicationSettings, held: Seq<Seq<char>>) -> bool {
    exists|i: int| 0 <= i < held.len() && assoc(s.ability_mapping@, held[i]) is None
}

/// The configuration-integrity faults a tick can hit: a queued action with
/// no key mapping, or — when the swivel will run — a held ability key with
/// no action mapping.
pub open spec fn tick_fails(st: ActionManager, held: Seq<Seq<char>>) -> bool {
    has_unmapped_action(st.settings, st.planned_actions@) || (held.len() > 0 && st.holding_walk
        && has_unmapped_ability(st.settings, held))
}

/// Law: for every configuration, an action with no configured distance
/// resolves to the walking radius — never to zero.
pub proof fn lemma_unset_radius_is_walk(s: ApplicationSettings)
    ensures
        radius_spec(s, ActionDistance::Unset) == s.controller.walk_circle_radius_px as int,
{
}

/// Law: resolving any radius at angle zero lands exactly `radius` pixels
/// right of the avatar, and at a quarter turn exactly `radius` pixels above
/// it — the screen-space sign flip of the vertical term preserved.
pub proof fn lemma_resolve_axes(s: ApplicationSettings, radius: int)
    requires
        0 <= radius,
    ensures
        resolve_spec(s, radius, Direction { x: DIR_SCALE, y: 0i32 }) == (
            s.overlay.screen_width as int / 2 + radius + s.controller.character_x_offset_px as int,
            s.overlay.screen_height as int / 2 - s.controller.character_y_offset_px as int,
        ),
        resolve_spec(s, radius, Direction { x: 0i32, y: DIR_SCALE }) == (
            s.overlay.screen_width as int / 2 + s.controller.character_x_offset_px as int,
            s.overlay.screen_height as int / 2 - radius
                - s.controller.character_y_offset_px as int,
        ),
{
    crate::geometry::lemma_scale_mul_units(radius);
}

/// Law: the queue drains last-in first-out. Enqueuing `a` then `b` on top of
/// any queue makes the tick dispatch `b`'s commands before `a`'s, ahead of
/// the rest of the drain.
pub proof fn lemma_drain_lifo(
    st: ActionManager,
    q: Seq<PendingAction>,
    a: PendingAction,
    b: PendingAction,
)
    ensures
        drain_cmds(st, q.push(a).push(b)) == action_cmds(st, b) + action_cmds(st, a) + drain_cmds(
            st,
            q,
        ),
{
    let qa = q.push(a);
    let qab = qa.push(b);
    assert(qab.last() == b);
    assert(qab.drop_last() =~= qa);
    assert(qa.last() == a);
    assert(qa.drop_last() =~= q);
    assert(drain_cmds(st, qa) == action_cmds(st, a) + drain_cmds(st, q));
    assert(drain_cmds(st, qab) == action_cmds(st, b) + drain_cmds(st, qa));
    assert(action_cmds(st, b) + (action_cmds(st, a) + drain_cmds(st, q)) =~= action_cmds(st, b)
        + action_cmds(st, a) + drain_cmds(st, q));
}

/// The engine: the queue of planned actions, the configuration, and the
/// analog-hold state latched from the most recent stick samples.
pub struct ActionManager {
    pub planned_actions: Vec<PendingAction>,
    pub settings: ApplicationSettings,
    pub holding_walk: bool,
    pub walking_angle: Direction,
    pub holding_aim: bool,
    pub aiming_angle: Direction,
    pub aiming_stick_direction: Direction,
    pub holding_ability: bool,
}

impl ActionManager {
    /// The configuration is within the engine's arithmetic bounds and every
    /// latched direction is a well-formed scaled unit vector.
    pub open spec fn wf(self) -> bool {
        &&& self.settings.wf()
        &&& self.walking_angle.wf()
        &&& self.aiming_angle.wf()
        &&& self.aiming_stick_direction.wf()
    }

    /// A fresh engine: empty queue, nothing held, both angles latched at
    /// angle zero and no raw aim deflection.
    pub fn initialize(application_settings: ApplicationSettings) -> (m: ActionManager)
        ensures
            m.settings == application_settings,
            m.planned_actions@ == Seq::<PendingAction>::empty(),
            !m.holding_walk,
            !m.holding_aim,
            !m.holding_ability,
            m.walking_angle == (Direction { x: DIR_SCALE, y: 0i32 }),
            m.aiming_angle == (Direction { x: DIR_SCALE, y: 0i32 }),
            m.aiming_stick_direction == (Direction { x: 0i32, y: 0i32 }),
            application_settings.wf() ==> m.wf(),
    {
        let m = ActionManager {
            planned_actions: Vec::new(),
            settings: application_settings,
            holding_walk: false,
            walking_angle: Direction::east(),
            holding_aim: false,
            aiming_angle: Direction::east(),
            aiming_stick_direction: Direction::zero(),
            holding_ability: false,
        };
        proof {
            assert(m.planned_actions@ =~= Seq::<PendingAction>::empty());
        }
        m
    }

    /// Classifies an action name through the configured distance-tag map:
    /// `"close"`, `"mid"` and `"far"` give the matching variant, any other
    /// tag or a missing entry gives `ActionDistance::Unset`.
    pub fn get_ability_action_distance(&self, name: &String) -> (d: ActionDistance)
        ensures
            d == classify_spec(self.settings, name@),
    {
        match map_get(&self.settings.action_distances, name) {
            Option::None => ActionDistance::Unset,
            Option::Some(tag) => {
                let close_tag: String = "close".to_owned();
                let mid_tag: String = "mid".to_owned();
                let far_tag: String = "far".to_owned();
                if *tag == close_tag {
                    ActionDistance::Close
                } else if *tag == mid_tag {
                    ActionDistance::Mid
                } else if *tag == far_tag {
                    ActionDistance::Far
                } else {
                    ActionDistance::Unset
                }
            },
        }
    }

    /// The pixel radius configured for a qualitative range, the walking
    /// radius for `ActionDistance::Unset`.
    pub fn get_attack_circle_radius(&self, action_distance: ActionDistance) -> (r: u32)
        requires
            self.wf(),
        ensures
            r as int == radius_spec(self.settings, action_distance),
            r <= 1_000_000,
    {
        match action_distance {
            ActionDistance::Close => self.settings.controller.close_circle_radius_px,
            ActionDistance::Mid => self.settings.controller.mid_circle_radius_px,
            ActionDistance::Far => self.settings.controller.far_circle_radius_px,
            ActionDistance::Unset => self.settings.controller.walk_circle_radius_px,
        }
    }

    /// Converts a radius and a direction into the absolute screen point on
    /// the circle of that radius around the avatar.
    pub fn get_radial_location(&self, circle_radius: u32, angle: Direction) -> (loc: (i64, i64))
        requires
            self.wf(),
            angle.wf(),
            circle_radius <= 1_000_000,
        ensures
            loc.0 as int == resolve_spec(self.settings, circle_radius as int, angle).0,
            loc.1 as int == resolve_spec(self.settings, circle_radius as int, angle).1,
    {
        let screen_adjustment_x = scale_mul(angle.x, circle_radius);
        let screen_adjustment_y = scale_mul(angle.y, circle_radius);
        let new_x = (self.settings.overlay.screen_width / 2) as i64 + screen_adjustment_x
            + self.settings.controller.character_x_offset_px as i64;
        let new_y = (self.settings.overlay.screen_height / 2) as i64 - screen_adjustment_y
            - self.settings.controller.character_y_offset_px as i64;
        (new_x, new_y)
    }

    /// The free-aim pointer target: the current hover position nudged by the
    /// latched aim deflection, or the origin when no hover position exists.
    pub fn get_free_move_update(&self, hover_pos: Option<(i32, i32)>) -> (loc: (i64, i64))
        requires
            self.wf(),
        ensures
            loc.0 as int == free_move_spec(self.settings, self.aiming_stick_direction, hover_pos).0,
            loc.1 as int == free_move_spec(self.settings, self.aiming_stick_direction, hover_pos).1,
    {
        match hover_pos {
            Option::Some(position) => {
                let screen_adjustment_x = scale_mul(
                    self.aiming_stick_direction.x,
                    self.settings.controller.free_mouse_sensitivity_px,
                );
                let screen_adjustment_y = scale_mul(
                    self.aiming_stick_direction.y,
                    self.settings.controller.free_mouse_sensitivity_px,
                );
                (position.0 as i64 + screen_adjustment_x, position.1 as i64 - screen_adjustment_y)
            },
            Option::None => (0i64, 0i64),
        }
    }

    /// Latches the analog-hold state from this tick's stick samples: a stick
    /// outside its deadzone sets its holding flag and latches its angle (and,
    /// for the aim stick, its raw deflection); a stick inside the deadzone
    /// only clears the flag, leaving the previous latch in place.
    pub fn process_input_analogs(&mut self, left_stick: AnalogStick, right_stick: AnalogStick)
        ensures
            final(self).holding_walk == !left_stick.in_deadzone,
            final(self).walking_angle == if !left_stick.in_deadzone {
                left_stick.angle
            } else {
                old(self).walking_angle
            },
            final(self).holding_aim == !right_stick.in_deadzone,
            final(self).aiming_angle == if !right_stick.in_deadzone {
                right_stick.angle
            } else {
                old(self).aiming_angle
            },
            final(self).aiming_stick_direction == if !right_stick.in_deadzone {
                right_stick.direction
            } else {
                old(self).aiming_stick_direction
            },
            final(self).planned_actions == old(self).planned_actions,
            final(self).settings == old(self).settings,
            final(self).holding_ability == old(self).holding_ability,
    {
        if !left_stick.in_deadzone {
            self.holding_walk = true;
            self.walking_angle = left_stick.angle;
        } else {
            self.holding_walk = false;
        }
        if !right_stick.in_deadzone {
            self.holding_aim = true;
            self.aiming_angle = right_stick.angle;
            self.aiming_stick_direction = right_stick.direction;
        } else {
            self.holding_aim = false;
        }
    }
}

/// Whether some button of this tick reports both edges at once, the
/// contract breach that aborts ingestion.
pub open spec fn has_conflict(buttons: Seq<ControllerButton>) -> bool {
    exists|i: int| 0 <= i < buttons.len() && buttons[i].just_pressed && buttons[i].just_unpressed
}

/// The planned action a single conflict-free button transition turns into:
/// a press record tagged with aimability and classified distance, a release
/// record with neither, or nothing when no edge is set.
pub open spec fn planned_of(s: ApplicationSettings, b: ControllerButton) -> Option<PendingAction> {
    if b.just_pressed {
        Some(
            PendingAction {
                name: b.name,
                just_pressed: true,
                aimable: aimable_spec(s, b.name@),
                distance: classify_spec(s, b.name@),
            },
        )
    } else if b.just_unpressed {
        Some(
            PendingAction {
                name: b.name,
                just_pressed: false,
                aimable: false,
                distance: ActionDistance::Unset,
            },
        )
    } else {
        None
    }
}

/// The planned actions a whole tick's transitions turn into, in input order.
pub open spec fn planned_seq(s: ApplicationSettings, buttons: Seq<ControllerButton>) -> Seq<
    PendingAction,
>
    decreases buttons.len(),
{
    if buttons.len() == 0 {
        Seq::empty()
    } else {
        let rest = planned_seq(s, buttons.drop_last());
        match planned_of(s, buttons.last()) {
            Some(p) => rest.push(p),
            None => rest,
        }
    }
}

impl ActionManager {
    /// Converts this tick's button transitions into planned actions, newest
    /// at the back of the queue, and clears the edge flags it consumed. A
    /// button reporting both edges at once is a contract breach of the
    /// input-capture layer: the whole ingestion is refused, nothing is
    /// enqueued and no flag is touched.
    pub fn process_input_buttons(&mut self, named_controller_buttons: &mut Vec<ControllerButton>)
        -> (r: Result<(), EngineError>)
        ensures
            r is Err <==> has_conflict(old(named_controller_buttons)@),
            match r {
                Ok(()) => {
                    &&& final(self).planned_actions@ == old(self).planned_actions@
                        + planned_seq(old(self).settings, old(named_controller_buttons)@)
                    &&& final(named_controller_buttons)@.len() == old(
                        named_controller_buttons,
                    )@.len()
                    &&& forall|i: int|
                        0 <= i < old(named_controller_buttons)@.len() ==> {
                            &&& (#[trigger] final(named_controller_buttons)@[i]).name == old(
                                named_controller_buttons,
                            )@[i].name
                            &&& !final(named_controller_buttons)@[i].just_pressed
                            &&& !final(named_controller_buttons)@[i].just_unpressed
                        }
                },
                Err(e) => {
                    &&& *final(self) == *old(self)
                    &&& *final(named_controller_buttons) == *old(named_controller_buttons)
                    &&& e matches EngineError::EdgeConflict { action } && exists|i: int|
                        0 <= i < old(named_controller_buttons)@.len()
                            && (#[trigger] old(named_controller_buttons)@[i]).just_pressed
                            && old(named_controller_buttons)@[i].just_unpressed
                            && action == old(named_controller_buttons)@[i].name
                },
            },
            final(self).settings == old(self).settings,
            final(self).holding_walk == old(self).holding_walk,
            final(self).walking_angle == old(self).walking_angle,
            final(self).holding_aim == old(self).holding_aim,
            final(self).aiming_angle == old(self).aiming_angle,
            final(self).aiming_stick_direction == old(self).aiming_stick_direction,
            final(self).holding_ability == old(self).holding_ability,
    {
        let n = named_controller_buttons.len();
        let mut i: usize = 0;
        while i < n
            invariant
                n == named_controller_buttons@.len(),
                0 <= i <= n,
                forall|j: int|
                    0 <= j < i ==> !((#[trigger] named_controller_buttons@[j]).just_pressed
                        && named_controller_buttons@[j].just_unpressed),
            decreases n - i,
        {
            if named_controller_buttons[i].just_pressed
                && named_controller_buttons[i].just_unpressed {
                return Err(
                    EngineError::EdgeConflict { action: named_controller_buttons[i].name.clone() },
                );
            }
            i += 1;
        }
        let ghost s = self.settings;
        let ghost orig = named_controller_buttons@;
        let mut i: usize = 0;
        while i < n
            invariant
                n == named_controller_buttons@.len(),
                n == orig.len(),
                0 <= i <= n,
                self.settings == s,
                self.settings == old(self).settings,
                self.holding_walk == old(self).holding_walk,
                self.walking_angle == old(self).walking_angle,
                self.holding_aim == old(self).holding_aim,
                self.aiming_angle == old(self).aiming_angle,
                self.aiming_stick_direction == old(self).aiming_stick_direction,
                self.holding_ability == old(self).holding_ability,
                self.planned_actions@ == old(self).planned_actions@ + planned_seq(
                    s,
                    orig.take(i as int),
                ),
                forall|j: int| i <= j < n ==> named_controller_buttons@[j] == orig[j],
                forall|j: int|
                    0 <= j < i ==> {
                        &&& (#[trigger] named_controller_buttons@[j]).name == orig[j].name
                        &&& !named_controller_buttons@[j].just_pressed
                        &&& !named_controller_buttons@[j].just_unpressed
                    },
            decreases n - i,
        {
            proof {
                assert(orig.take(i + 1).drop_last() =~= orig.take(i as int));
                assert(orig.take(i + 1).last() == orig[i as int]);
            }
            let just_pressed = named_controller_buttons[i].just_pressed;
            let just_unpressed = named_controller_buttons[i].just_unpressed;
            if just_pressed {
                let action_name = named_controller_buttons[i].name.clone();
                let can_be_aimed = name_in_list(&self.settings.aimable_buttons, &action_name);
                let action_distance = self.get_ability_action_distance(&action_name);
                self.planned_actions.push(
                    PendingAction {
                        name: action_name,
                        just_pressed: true,
                        aimable: can_be_aimed,
                        distance: action_distance,
                    },
                );
                named_controller_buttons[i] = ControllerButton {
                    name: named_controller_buttons[i].name.clone(),
                    just_pressed: false,
                    just_unpressed: false,
                };
            } else if just_unpressed {
                let action_name = named_controller_buttons[i].name.clone();
                self.planned_actions.push(
                    PendingAction {
                        name: action_name,
                        just_pressed: false,
                        aimable: false,
                        distance: ActionDistance::Unset,
                    },
                );
                named_controller_buttons[i] = ControllerButton {
                    name: named_controller_buttons[i].name.clone(),
                    just_pressed: false,
                    just_unpressed: false,
                };
            }
            i += 1;
        }
        proof {
            assert(orig.take(n as int) =~= orig);
        }
        Ok(())
    }

    /// Resolves one tick: drains the queue newest-first into press/release
    /// commands (with their pre-moves), then emits the swivel move while
    /// abilities are held during a walk, the free-aim move while aiming
    /// without walking, and the synthetic primary-click block. The caller
    /// reports which ability keys the dispatch layer currently holds and the
    /// pointer hover position, if any; the returned commands are in dispatch
    /// order. A lookup miss in either mapping is a configuration-integrity
    /// fault: the tick is abandoned, the engine untouched.
    #[verifier::loop_isolation(false)]
    #[verifier::rlimit(50)]
    pub fn handle_character_actions(
        &mut self,
        held_ability_keys: &Vec<String>,
        hover_pos: Option<(i32, i32)>,
    ) -> (r: Result<Vec<Command>, EngineError>)
        requires
            old(self).wf(),
        ensures
            final(self).wf(),
            final(self).settings == old(self).settings,
            final(self).holding_walk == old(self).holding_walk,
            final(self).walking_angle == old(self).walking_angle,
            final(self).holding_aim == old(self).holding_aim,
            final(self).aiming_angle == old(self).aiming_angle,
            final(self).aiming_stick_direction == old(self).aiming_stick_direction,
            r is Err <==> tick_fails(*old(self), names_view(held_ability_keys@)),
            match r {
                Ok(cmds) => {
                    &&& cmds_view(cmds@) == tick_cmds(
                        *old(self),
                        names_view(held_ability_keys@),
                        hover_pos,
                    )
                    &&& final(self).planned_actions@ == Seq::<PendingAction>::empty()
                    &&& final(self).holding_ability == (held_ability_keys@.len() > 0)
                },
                Err(e) => {
                    &&& *final(self) == *old(self)
                    &&& match e {
                        EngineError::UnmappedAction { action } => {
                            &&& assoc(old(self).settings.button_mapping@, action@) is None
                            &&& exists|i: int|
                                0 <= i < old(self).planned_actions@.len() && (#[trigger] old(
                                    self,
                                ).planned_actions@[i]).name == action
                        },
                        EngineError::UnmappedAbility { key } => {
                            &&& !has_unmapped_action(
                                old(self).settings,
                                old(self).planned_actions@,
                            )
                            &&& held_ability_keys@.len() > 0 && old(self).holding_walk
                            &&& assoc(old(self).settings.ability_mapping@, key@) is None
                            &&& exists|i: int|
                                0 <= i < held_ability_keys@.len() && (#[trigger] held_ability_keys@[i])@
                                    == key@
                        },
                        EngineError::EdgeConflict { .. } => false,
                    }
                },
            },
    {
        let ghost st = *self;
        let ghost q = self.planned_actions@;
        let mut cmds: Vec<Command> = Vec::new();

        // Drain the queue, newest first. The engine itself is only mutated
        // once the whole tick is known to succeed.
        let n = self.planned_actions.len();
        let mut i: usize = n;
        proof {
            assert(cmds_view(cmds@) =~= Seq::<CmdSpec>::empty());
            assert(q.take(n as int) =~= q);
            assert(Seq::<CmdSpec>::empty() + drain_cmds(st, q) =~= drain_cmds(st, q));
        }
        while i > 0
            invariant
                *self == st,
                st == *old(self),
                st.wf(),
                n == q.len(),
                q == self.planned_actions@,
                0 <= i <= n,
                forall|j: int|
                    i <= j < n ==> assoc(
                        st.settings.button_mapping@,
                        (#[trigger] q[j]).name@,
                    ) is Some,
                cmds_view(cmds@) + drain_cmds(st, q.take(i as int)) == drain_cmds(st, q),
            decreases i,
        {
            i -= 1;
            proof {
                assert(q.take(i + 1).drop_last() =~= q.take(i as int));
                assert(q.take(i + 1).last() == q[i as int]);
            }
            let ghost pre = cmds@;
            let a = &self.planned_actions[i];
            match map_get(&self.settings.button_mapping, &a.name) {
                Option::None => {
                    return Err(EngineError::UnmappedAction { action: a.name.clone() });
                },
                Option::Some(key) => {
                    let key_name = key.clone();
                    if a.just_pressed {
                        if a.aimable {
                            if self.holding_walk && self.holding_aim {
                                let radius = self.get_attack_circle_radius(a.distance);
                                let (new_x, new_y) = self.get_radial_location(
                                    radius,
                                    self.aiming_angle,
                                );
                                cmds.push(Command::MoveTo { x: new_x, y: new_y });
                            } else if self.holding_walk {
                                let radius = self.get_attack_circle_radius(a.distance);
                                let (new_x, new_y) = self.get_radial_location(
                                    radius,
                                    self.walking_angle,
                                );
                                cmds.push(Command::MoveTo { x: new_x, y: new_y });
                            }
                        } else if a.distance != ActionDistance::Unset && self.holding_walk {
                            let radius = self.get_attack_circle_radius(a.distance);
                            let (new_x, new_y) = self.get_radial_location(
                                radius,
                                self.walking_angle,
                            );
                            cmds.push(Command::MoveTo { x: new_x, y: new_y });
                        }
                        cmds.push(Command::Press { key: key_name });
                    } else {
                        cmds.push(Command::Release { key: key_name });
                    }
                },
            }
            proof {
                assert(cmds_view(cmds@) =~= cmds_view(pre) + action_cmds(st, q[i as int]));
                assert(cmds_view(cmds@) + drain_cmds(st, q.take(i as int)) =~= drain_cmds(st, q));
            }
        }
        proof {
            assert(q.take(0) =~= Seq::<PendingAction>::empty());
            assert(cmds_view(cmds@) + drain_cmds(st, q.take(0)) =~= cmds_view(cmds@));
        }
        let ghost drained = cmds_view(cmds@);

        // Live held-ability state, reported by the dispatch layer.
        let ghost held_views = names_view(held_ability_keys@);
        let holding_ability = held_ability_keys.len() > 0;

        // The swivel: while an ability is held during a walk, keep the
        // cursor on the largest configured circle among the held actions.
        let ghost sw: Seq<CmdSpec> = if holding_ability && st.holding_walk {
            swivel_cmds(st, actions_of_keys(st.settings, held_views))
        } else {
            Seq::empty()
        };
        if holding_ability && self.holding_walk {
            let k = held_ability_keys.len();
            let mut held_ability_actions: Vec<String> = Vec::new();
            let mut j: usize = 0;
            while j < k
                invariant
                    *self == st,
                    st == *old(self),
                    st.wf(),
                    k == held_ability_keys@.len(),
                    0 <= j <= k,
                    held_ability_actions@.len() == j,
                    forall|t: int|
                        0 <= t < j ==> assoc(
                            st.settings.ability_mapping@,
                            held_ability_keys@[t]@,
                        ) == Some((#[trigger] held_ability_actions@[t])@),
                    !has_unmapped_action(st.settings, q),
                decreases k - j,
            {
                match map_get(&self.settings.ability_mapping, &held_ability_keys[j]) {
                    Option::None => {
                        proof {
                            assert(held_views[j as int] == held_ability_keys@[j as int]@);
                            assert(has_unmapped_ability(st.settings, held_views));
                            assert(held_views.len() == held_ability_keys@.len());
                        }
                        return Err(
                            EngineError::UnmappedAbility { key: held_ability_keys[j].clone() },
                        );
                    },
                    Option::Some(act) => {
                        let action = act.clone();
                        held_ability_actions.push(action);
                    },
                }
                j += 1;
            }
            let ghost acts = actions_of_keys(st.settings, held_views);
            proof {
                assert(forall|t: int|
                    0 <= t < k ==> names_view(held_ability_actions@)[t] == acts[t]);
                assert(names_view(held_ability_actions@) =~= acts);
                assert forall|t: int| 0 <= t < held_views.len() implies assoc(
                    st.settings.ability_mapping@,
                    #[trigger] held_views[t],
                ) is Some by {
                    assert(assoc(st.settings.ability_mapping@, held_ability_keys@[t]@) == Some(
                        held_ability_actions@[t]@,
                    ));
                }
                assert(!has_unmapped_ability(st.settings, held_views));
            }
            let m = held_ability_actions.len();
            let mut some_held_action_aimable = false;
            let mut any_ranged_found = false;
            let mut chosen_distance: u32 = 0;
            let mut t: usize = 0;
            while t < m
                invariant
                    *self == st,
                    st == *old(self),
                    st.wf(),
                    m == held_ability_actions@.len(),
                    m == acts.len(),
                    names_view(held_ability_actions@) == acts,
                    0 <= t <= m,
                    some_held_action_aimable == some_aimable_spec(
                        st.settings,
                        acts.take(t as int),
                    ),
                    any_ranged_found == any_ranged(st.settings, acts.take(t as int)),
                    chosen_distance as int == max_ranged_radius(st.settings, acts.take(t as int)),
                    chosen_distance <= 1_000_000,
                decreases m - t,
            {
                proof {
                    assert(acts.take(t + 1).drop_last() =~= acts.take(t as int));
                    assert(acts.take(t + 1).last() == acts[t as int]);
                    assert(acts[t as int] == held_ability_actions@[t as int]@);
                }
                let dist = self.get_ability_action_distance(&held_ability_actions[t]);
                if dist != ActionDistance::Unset {
                    any_ranged_found = true;
                    if name_in_list(&self.settings.aimable_buttons, &held_ability_actions[t]) {
                        some_held_action_aimable = true;
                    }
                    let rad = self.get_attack_circle_radius(dist);
                    if rad > chosen_distance {
                        chosen_distance = rad;
                    }
                }
                t += 1;
            }
            proof {
                assert(acts.take(m as int) =~= acts);
            }
            let chosen = if any_ranged_found {
                chosen_distance
            } else {
                self.settings.controller.walk_circle_radius_px
            };
            let dir = if some_held_action_aimable && self.holding_aim {
                self.aiming_angle
            } else {
                self.walking_angle
            };
            let (new_x, new_y) = self.get_radial_location(chosen, dir);
            cmds.push(Command::MoveTo { x: new_x, y: new_y });
        }
        proof {
            assert(cmds_view(cmds@) =~= drained + sw);
            assert(!tick_fails(st, held_views));
        }

        // Free-aim: aiming without walking steers the pointer directly.
        let ghost fa: Seq<CmdSpec> = if st.holding_aim && !st.holding_walk {
            seq![
                CmdSpec::MoveTo {
                    x: free_move_spec(st.settings, st.aiming_stick_direction, hover_pos).0,
                    y: free_move_spec(st.settings, st.aiming_stick_direction, hover_pos).1,
                },
            ]
        } else {
            Seq::empty()
        };
        if self.holding_aim && !self.holding_walk {
            let (new_x_pos, new_y_pos) = self.get_free_move_update(hover_pos);
            cmds.push(Command::MoveTo { x: new_x_pos, y: new_y_pos });
        }
        proof {
            assert(cmds_view(cmds@) =~= drained + sw + fa);
        }

        // Walking with no ability engaged drags the primary click along the
        // walking circle; anything else lets it go.
        if self.holding_walk && !holding_ability {
            let (new_x, new_y) = self.get_radial_location(
                self.settings.controller.walk_circle_radius_px,
                self.walking_angle,
            );
            cmds.push(Command::MoveTo { x: new_x, y: new_y });
            cmds.push(Command::Press { key: "LeftClick".to_owned() });
        } else {
            cmds.push(Command::Release { key: "LeftClick".to_owned() });
        }
        proof {
            assert(cmds_view(cmds@) =~= drained + sw + fa + walk_cmds(st, holding_ability));
            assert(cmds_view(cmds@) =~= tick_cmds(st, held_views, hover_pos));
        }

        self.planned_actions = Vec::new();
        self.holding_ability = holding_ability;
        proof {
            assert(self.planned_actions@ =~= Seq::<PendingAction>::empty());
        }
        Ok(cmds)
    }
}

} // verus!

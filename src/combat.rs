//! The combat state machine: the encounter's phases, their transitions on
//! each tick, and their effects on the player's health and profile.
use crate::dodge::{
    jumps, lands, moved_token, mode_of_roll, with_spawn, DodgeState, Token, FLOOR, HEART_START_X,
    HEART_START_Y, SPAWN_INTERVAL,
};
use crate::hazards::{any_hit, survivors, Bone, DodgeMode, FLIGHT_PATTERNS, GRAVITY_PATTERNS, LANE_HEIGHT, LANE_WIDTH};
use crate::input::InputSnapshot;
use crate::lines::{
    fasik_lines, fasik_lines_vec, hit_line, hit_text, musrik_lines, musrik_lines_vec, pick_line,
    pick_owned, pick_static, pick_text, taunt_lines, taunt_lines_vec, teblig_lines, teblig_lines_vec,
};
use crate::system::{first_named, position_of, synced, SystemState, User};
use crate::texts::TextResources;
use crate::timing::{abs, damage_at, AttackBar, MAX_BAR_SPEED, TRACK_CENTER, TRACK_END, TRACK_START};
use crate::geometry::{Point, Rect};
use vstd::prelude::*;

verus! {

/// Index of the last option of the main menu.
pub const MENU_LAST: u32 = 3;
/// Index of the last accusation.
pub const TEKFIR_LAST: u32 = 8;
/// Index of the last item.
pub const ITEM_LAST: u32 = 3;
/// Index of the last preaching option; it is the flight.
pub const TEBLIG_LAST: u32 = 1;
/// Ticks the player must survive for the enemy's turn to end.
pub const SURVIVAL_TICKS: u32 = 400;
/// The enemy's health at the start of an encounter.
pub const ENEMY_MAX_HP: u32 = 500;
/// The attack bar's speed, in milli-pixels per tick.
pub const BAR_SPEED: i64 = 8_000;
/// The enemy's shake after a hit, in thousandths of a tick.
pub const SHAKE_ON_HIT: u32 = 10_000;
/// How much the shake fades per tick.
pub const SHAKE_DECAY: u32 = 500;
/// The player's greatest health.
pub const MAX_HEALTH: i32 = 100;

/// The phase of an encounter.
#[derive(Clone, Copy, Debug, PartialEq, Eq, Structural)]
pub enum TurnPhase {
    Menu,
    TekfirSubMenu,
    ItemSubMenu,
    TebligSubMenu,
    Fighting,
    ResultText,
    SansTurn,
}

/// What a tick tells the host.
#[derive(Clone, Copy, Debug, PartialEq, Eq, Structural)]
pub enum EncounterOutcome {
    /// The encounter goes on.
    Continue,
    /// The enemy was defeated; back to the overworld.
    Victory,
    /// The player's health ran out; on to the game-over scene.
    Defeat,
    /// The player fled; back to the overworld.
    Fled,
}

/// The player's health, owned outside the encounter.
#[derive(Clone, Copy, Debug, PartialEq, Eq, Structural)]
pub struct PlayerRecord {
    pub health: i32,
}

impl PlayerRecord {
    pub open spec fn wf(&self) -> bool {
        0 <= self.health <= MAX_HEALTH
    }

    /// A player at full health.
    pub fn new() -> (r: PlayerRecord)
        ensures
            r.wf(),
            r.health == MAX_HEALTH,
    {
        PlayerRecord { health: MAX_HEALTH }
    }
}

/// The random rolls a tick may use; each is taken modulo the number of
/// choices it picks from.
#[derive(Clone, Copy, Debug, PartialEq, Eq, Structural, Default)]
pub struct Draws {
    /// Picks a dialogue line.
    pub line: u32,
    /// Picks the dodge mode on entry to the enemy's turn.
    pub mode: u32,
    /// Picks the hazard pattern of a spawn.
    pub pattern: u32,
    /// Picks the offset of a sweeping hazard within its band.
    pub lane: u32,
}

/// What a tick tells the host: the outcome, and whether the profile
/// changed so that the user record should be written.
#[derive(Clone, Copy, Debug, PartialEq, Eq, Structural)]
pub struct Step {
    pub outcome: EncounterOutcome,
    pub save_profile: bool,
}

/// A lifetime counter that a combat action raises.
#[derive(Clone, Copy, Debug, PartialEq, Eq, Structural)]
pub enum Tally {
    Teblig,
    Cihad,
    Tekfir,
}

/// What a tick does to the user profile.
#[derive(Clone, Copy, Debug, PartialEq, Eq, Structural)]
pub enum ProfileChange {
    Unchanged,
    /// One counter goes up and the profile is saved.
    Count(Tally),
    /// Defeat: the stage reached goes back to the first.
    StageReset,
}

/// One combat session, from the menu to victory, defeat or flight.
pub struct CombatEncounter {
    pub turn: TurnPhase,
    pub menu_selection: u32,
    pub sub_menu_selection: u32,
    pub enemy_hp: u32,
    pub enemy_max_hp: u32,
    /// What the last action did.
    pub action_text: String,
    /// What the enemy says.
    pub dialogue_text: String,
    /// Ticks since the current phase began (counted in the enemy's turn).
    pub timer: u32,
    pub attack_bar: AttackBar,
    pub dodge: DodgeState,
    /// Decorative shake of the enemy, in thousandths of a tick.
    pub enemy_shake: u32,
    /// `Continue` while the encounter runs, then how it ended.
    pub outcome: EncounterOutcome,
}

/// The encounter as plain values.
pub struct EncounterView {
    pub turn: TurnPhase,
    pub menu_selection: u32,
    pub sub_menu_selection: u32,
    pub enemy_hp: u32,
    pub enemy_max_hp: u32,
    pub action_text: Seq<char>,
    pub dialogue_text: Seq<char>,
    pub timer: u32,
    pub bar: AttackBar,
    pub token: Token,
    pub mode: DodgeMode,
    pub bones: Seq<Bone>,
    pub enemy_shake: u32,
    pub outcome: EncounterOutcome,
}

impl View for CombatEncounter {
    type V = EncounterView;

    open spec fn view(&self) -> EncounterView {
        EncounterView {
            turn: self.turn,
            menu_selection: self.menu_selection,
            sub_menu_selection: self.sub_menu_selection,
            enemy_hp: self.enemy_hp,
            enemy_max_hp: self.enemy_max_hp,
            action_text: self.action_text@,
            dialogue_text: self.dialogue_text@,
            timer: self.timer,
            bar: self.attack_bar,
            token: self.dodge.token,
            mode: self.dodge.mode,
            bones: self.dodge.bones@,
            enemy_shake: self.enemy_shake,
            outcome: self.outcome,
        }
    }
}

/// A cursor moved one back and one forward, within `[0, last]`.
pub open spec fn nav(sel: u32, back: bool, forward: bool, last: u32) -> u32 {
    let s = if back && sel > 0 { (sel - 1) as u32 } else { sel };
    if forward && s < last { (s + 1) as u32 } else { s }
}

/// The line of the enemy after the last hit.
pub open spec fn victory_line() -> Seq<char> {
    "welp... i'm going to grillby's."@
}

/// The line when the enemy's turn ends.
pub open spec fn closing_line() -> Seq<char> {
    "You feel your sins crawling on your back."@
}

pub open spec fn miss_line() -> Seq<char> {
    "MISS"@
}

/// Health after using item `option`.
pub open spec fn healed(health: int, option: u32) -> int {
    if option == 0 {
        if health + 50 < MAX_HEALTH { health + 50 } else { MAX_HEALTH as int }
    } else if option == 1 {
        if health + 20 < MAX_HEALTH { health + 20 } else { MAX_HEALTH as int }
    } else if option == 2 {
        if health + 10 < MAX_HEALTH { health + 10 } else { MAX_HEALTH as int }
    } else {
        MAX_HEALTH as int
    }
}

/// What using item `option` says.
pub open spec fn item_line(option: u32) -> Seq<char> {
    if option == 0 {
        "Zemzem içtin.\nCanın 50 arttı!"@
    } else if option == 1 {
        "Hurma yedin.\nCanın 20 arttı!"@
    } else if option == 2 {
        "Zeytin yedin.\nCanın 10 arttı!"@
    } else {
        "Ayetel Kürsi okudun.\nCanın tamamen doldu!"@
    }
}

/// The reply to accusation `option`, picked by `roll`.
pub open spec fn tekfir_line(texts: TextResources, option: u32, roll: u32) -> Seq<char> {
    let a = texts.combat_actions;
    if option == 0 {
        pick_line(musrik_lines(), roll as int)
    } else if option == 1 {
        pick_line(fasik_lines(), roll as int)
    } else if option == 2 {
        pick_text(a.munafik@, roll as int)
    } else if option == 3 {
        pick_text(a.kafir@, roll as int)
    } else if option == 4 {
        pick_text(a.zindik@, roll as int)
    } else if option == 5 {
        pick_text(a.tagut@, roll as int)
    } else if option == 6 {
        pick_text(a.deccal@, roll as int)
    } else if option == 7 {
        pick_text(a.ebu_cehil@, roll as int)
    } else {
        pick_text(a.yecuc@, roll as int)
    }
}

/// The main menu: left and right move the cursor; confirm opens the chosen
/// action: the attack bar, or one of the three submenus.
pub open spec fn menu_next(v: EncounterView, input: InputSnapshot) -> EncounterView {
    let sel = nav(v.menu_selection, input.left_pressed, input.right_pressed, MENU_LAST);
    let v1 = EncounterView { menu_selection: sel, ..v };
    if !input.confirm {
        v1
    } else if sel == 0 {
        EncounterView {
            turn: TurnPhase::Fighting,
            timer: 0,
            bar: AttackBar { position: TRACK_START, active: true, ..v.bar },
            action_text: Seq::empty(),
            ..v1
        }
    } else if sel == 1 {
        EncounterView { turn: TurnPhase::TekfirSubMenu, sub_menu_selection: 0, timer: 0, ..v1 }
    } else if sel == 2 {
        EncounterView { turn: TurnPhase::ItemSubMenu, sub_menu_selection: 0, timer: 0, ..v1 }
    } else {
        EncounterView { turn: TurnPhase::TebligSubMenu, sub_menu_selection: 0, timer: 0, ..v1 }
    }
}

/// A submenu's cursor and cancel: the state before its confirm is handled.
pub open spec fn submenu_nav(v: EncounterView, input: InputSnapshot, last: u32) -> EncounterView {
    EncounterView {
        sub_menu_selection: nav(v.sub_menu_selection, input.up_pressed, input.down_pressed, last),
        turn: if input.cancel { TurnPhase::Menu } else { v.turn },
        timer: if input.cancel { 0 } else { v.timer },
        ..v
    }
}

/// The accusation submenu: confirm makes the accusation and shows the reply.
pub open spec fn tekfir_next(
    v: EncounterView,
    input: InputSnapshot,
    texts: TextResources,
    roll: u32,
) -> EncounterView {
    let v1 = submenu_nav(v, input, TEKFIR_LAST);
    if input.confirm {
        EncounterView {
            turn: TurnPhase::ResultText,
            timer: 0,
            action_text: tekfir_line(texts, v1.sub_menu_selection, roll),
            ..v1
        }
    } else {
        v1
    }
}

/// The item submenu: confirm uses the item.
pub open spec fn item_next(v: EncounterView, input: InputSnapshot) -> EncounterView {
    let v1 = submenu_nav(v, input, ITEM_LAST);
    if input.confirm {
        EncounterView {
            turn: TurnPhase::ResultText,
            timer: 0,
            action_text: item_line(v1.sub_menu_selection),
            ..v1
        }
    } else {
        v1
    }
}

/// The preaching submenu: confirm preaches (the first option) or flees.
pub open spec fn teblig_next(v: EncounterView, input: InputSnapshot, roll: u32) -> EncounterView {
    let v1 = submenu_nav(v, input, TEBLIG_LAST);
    if !input.confirm {
        v1
    } else if v1.sub_menu_selection == 0 {
        EncounterView {
            turn: TurnPhase::ResultText,
            timer: 0,
            action_text: pick_line(teblig_lines(), roll as int),
            ..v1
        }
    } else {
        EncounterView { outcome: EncounterOutcome::Fled, ..v1 }
    }
}

/// Damage of a press with the bar at `position`.
pub open spec fn strike_damage(position: int) -> int {
    damage_at(abs(position - TRACK_CENTER))
}

/// This tick's press lands a hit of some damage.
pub open spec fn strikes(v: EncounterView, input: InputSnapshot) -> bool {
    let pos = v.bar.position + v.bar.speed;
    v.bar.active && pos <= TRACK_END && input.confirm && strike_damage(pos) > 0
}

/// The attack: the bar advances; past the end of the track it misses; a
/// press resolves it into damage, which the enemy's health takes (down to
/// none, when the enemy's last line is set).
pub open spec fn fighting_next(v: EncounterView, input: InputSnapshot) -> EncounterView {
    if !v.bar.active {
        v
    } else {
        let pos = v.bar.position + v.bar.speed;
        let moved = AttackBar { position: pos as i64, ..v.bar };
        let stopped = AttackBar { active: false, ..moved };
        if pos > TRACK_END {
            EncounterView {
                bar: stopped,
                action_text: miss_line(),
                timer: 0,
                turn: TurnPhase::ResultText,
                ..v
            }
        } else if !input.confirm {
            EncounterView { bar: moved, ..v }
        } else if strike_damage(pos) > 0 {
            let d = strike_damage(pos);
            let hp = if d >= v.enemy_hp { 0 } else { v.enemy_hp - d };
            EncounterView {
                bar: stopped,
                action_text: hit_line(d as nat),
                enemy_shake: SHAKE_ON_HIT,
                enemy_hp: hp as u32,
                dialogue_text: if hp == 0 { victory_line() } else { v.dialogue_text },
                timer: 0,
                turn: TurnPhase::ResultText,
                ..v
            }
        } else {
            EncounterView {
                bar: stopped,
                action_text: miss_line(),
                timer: 0,
                turn: TurnPhase::ResultText,
                ..v
            }
        }
    }
}

/// The result screen: confirm ends the encounter in victory when the enemy
/// has no health left, else starts the enemy's turn with a taunt.
pub open spec fn result_next(v: EncounterView, input: InputSnapshot, roll: u32) -> EncounterView {
    if !input.confirm {
        v
    } else if v.enemy_hp == 0 {
        EncounterView { outcome: EncounterOutcome::Victory, ..v }
    } else {
        EncounterView {
            turn: TurnPhase::SansTurn,
            timer: 0,
            dialogue_text: pick_line(taunt_lines(), roll as int),
            ..v
        }
    }
}

/// The hazards on the enemy's turn before they move this tick.
pub open spec fn sans_spawned(v: EncounterView, draws: Draws) -> Seq<Bone> {
    let bones = if v.timer == 0 { Seq::empty() } else { v.bones };
    with_spawn(bones, sans_mode(v, draws), v.timer + 1, draws.pattern as int, draws.lane as int)
}

/// The dodge mode on this tick of the enemy's turn: picked on its first tick.
pub open spec fn sans_mode(v: EncounterView, draws: Draws) -> DodgeMode {
    if v.timer == 0 { mode_of_roll(draws.mode as int) } else { v.mode }
}

/// The token on the enemy's turn before it moves this tick: back at its
/// start, at rest, on the turn's first tick.
pub open spec fn sans_start(v: EncounterView) -> Token {
    if v.timer == 0 {
        Token {
            pos: Point { x: HEART_START_X, y: HEART_START_Y },
            velocity: Point { x: 0, y: 0 },
            ..v.token
        }
    } else {
        v.token
    }
}

/// The token on the enemy's turn after it moved this tick.
pub open spec fn sans_token(v: EncounterView, input: InputSnapshot, draws: Draws) -> Token {
    moved_token(sans_mode(v, draws), sans_start(v), input)
}

/// Whether a hazard touches the token on this tick of the enemy's turn.
pub open spec fn sans_hit(v: EncounterView, input: InputSnapshot, draws: Draws) -> bool {
    any_hit(sans_token(v, input, draws).hitbox(), sans_spawned(v, draws))
}

/// The player's health after a tick of the enemy's turn: one point less
/// on a hit, never below none.
pub open spec fn sans_health(v: EncounterView, input: InputSnapshot, draws: Draws, health: int) -> int {
    let h = if sans_hit(v, input, draws) { health - 1 } else { health };
    if h <= 0 { 0 } else { h }
}

/// The enemy's turn: on its first tick the token returns to its start and
/// a mode is picked; each tick the token moves, hazards spawn, move and
/// are culled; a hit costs a point of health; no health left is defeat;
/// past the survival time the turn ends and the menu returns.
pub open spec fn sans_next(v: EncounterView, input: InputSnapshot, draws: Draws, health: int) -> EncounterView {
    let mode = sans_mode(v, draws);
    let t = (v.timer + 1) as u32;
    let survived = t > SURVIVAL_TICKS;
    EncounterView {
        timer: if survived { 0 } else { t },
        token: sans_token(v, input, draws),
        mode: if survived { DodgeMode::Gravity } else { mode },
        bones: if survived { Seq::empty() } else { survivors(sans_spawned(v, draws)) },
        turn: if survived { TurnPhase::Menu } else { v.turn },
        dialogue_text: if survived { closing_line() } else { v.dialogue_text },
        outcome: if sans_health(v, input, draws, health) == 0 { EncounterOutcome::Defeat } else { v.outcome },
        ..v
    }
}

/// Relates the encounter, the player's health and the profile before and
/// after a tick with `input` and rolls `draws`, reporting `r`.
///
/// A finished encounter changes nothing and repeats its outcome. A running
/// one goes to `encounter_next`, the health to `next_health`, the profile
/// by `profile_change`, and `r` reports the new outcome and whether the
/// user record must be written.
pub open spec fn ticked(
    pre: EncounterView,
    post: EncounterView,
    health: int,
    health_after: int,
    system: SystemState,
    system_after: SystemState,
    input: InputSnapshot,
    draws: Draws,
    texts: TextResources,
    r: Step,
) -> bool {
    &&& system_after.language == system.language
    &&& if pre.outcome != EncounterOutcome::Continue {
        &&& post == pre
        &&& health_after == health
        &&& system_after.current_user == system.current_user
        &&& system_after.users@ == system.users@
        &&& r == (Step { outcome: pre.outcome, save_profile: false })
    } else {
        let change = profile_change(pre, input, draws, health);
        &&& post == encounter_next(pre, input, draws, texts, health)
        &&& health_after == next_health(pre, input, draws, health)
        &&& system_after.current_user == changed_user(system.current_user, change)
        &&& system_after.users@ == if change == ProfileChange::Unchanged {
            system.users@
        } else {
            synced(system.users@, system_after.current_user)
        }
        &&& r.outcome == post.outcome
        &&& r.save_profile == saves(system.users@, system.current_user, change)
    }
}

/// Rolls that a tick of `v` may draw: each within the number of choices it
/// picks from in that state.
pub open spec fn fair_draws(v: EncounterView, texts: TextResources, d: Draws) -> bool {
    &&& d.mode < 2
    &&& d.pattern < FLIGHT_PATTERNS
    &&& d.lane < LANE_WIDTH
    &&& v.turn == TurnPhase::ResultText ==> d.line < taunt_lines().len()
    &&& v.turn == TurnPhase::TebligSubMenu ==> d.line < teblig_lines().len()
}

/// Relies on rand's `thread_rng` and `Rng::gen_range`, which draws a value
/// of the range `0..n`. `gen_range` panics only on an empty range;
/// `thread_rng` panics only when the operating system cannot seed it, which
/// no argument can rule out.
#[verifier::external_body]
fn roll_below(n: u32) -> (r: u32)
    requires
        0 < n,
    ensures
        r < n,
{
    rand::Rng::gen_range(&mut rand::thread_rng(), 0..n)
}

/// Through the enemy's turn the player's health never rises and never
/// drops below none.
pub proof fn lemma_sans_turn_health(v: EncounterView, input: InputSnapshot, draws: Draws, health: int)
    requires
        0 <= health,
        v.turn == TurnPhase::SansTurn,
    ensures
        0 <= next_health(v, input, draws, health) <= health,
{
}

/// In gravity mode on the enemy's turn the token never ends a tick below
/// the floor; a jump leaves it unable to jump, and landing lets it jump.
pub proof fn lemma_gravity_floor(v: EncounterView, input: InputSnapshot, draws: Draws)
    requires
        v.turn == TurnPhase::SansTurn,
        v.token.wf(),
        v.timer > 0 ==> v.token.pos.y <= FLOOR,
        sans_mode(v, draws) == DodgeMode::Gravity,
    ensures
        sans_token(v, input, draws).pos.y <= FLOOR,
        jumps(sans_start(v), input) ==> !sans_token(v, input, draws).can_jump,
        lands(sans_start(v), input) ==> sans_token(v, input, draws).can_jump,
{
}

/// Confirming the flight in the preaching submenu ends the encounter as
/// fled, without the result screen and without touching the profile or
/// the player's health.
pub proof fn lemma_flee(v: EncounterView, input: InputSnapshot, draws: Draws, texts: TextResources, health: int)
    requires
        v.turn == TurnPhase::TebligSubMenu,
        input.confirm,
        submenu_nav(v, input, TEBLIG_LAST).sub_menu_selection == 1,
    ensures
        phase_next(v, input, draws, texts, health).outcome == EncounterOutcome::Fled,
        phase_next(v, input, draws, texts, health).turn != TurnPhase::ResultText,
        profile_change(v, input, draws, health) == ProfileChange::Unchanged,
        next_health(v, input, draws, health) == health,
{
}

/// A bar that runs past the end of the track before any press is a miss,
/// whatever its speed: the enemy keeps its health and the result screen
/// says so.
pub proof fn lemma_overshoot_misses(v: EncounterView, input: InputSnapshot)
    requires
        v.turn == TurnPhase::Fighting,
        v.bar.active,
        v.bar.position + v.bar.speed > TRACK_END,
    ensures
        fighting_next(v, input).enemy_hp == v.enemy_hp,
        fighting_next(v, input).action_text == miss_line(),
        fighting_next(v, input).turn == TurnPhase::ResultText,
        !fighting_next(v, input).bar.active,
        !strikes(v, input),
{
}

/// What a renderer needs to draw the encounter.
pub struct CombatRenderModel {
    pub turn: TurnPhase,
    pub menu_selection: u32,
    pub sub_menu_selection: u32,
    pub bar_position: i64,
    pub bar_active: bool,
    pub heart: Point,
    pub hazards: Vec<Rect>,
    pub enemy_hp: u32,
    pub enemy_max_hp: u32,
    pub enemy_shake: u32,
    pub action_text: String,
    pub dialogue_text: String,
}

/// A counter raised by one, staying at its greatest value.
pub open spec fn bumped(c: u32) -> u32 {
    if c < u32::MAX { (c + 1) as u32 } else { c }
}

pub open spec fn tallied(u: User, t: Tally) -> User {
    match t {
        Tally::Teblig => User { teblig_count: bumped(u.teblig_count), ..u },
        Tally::Cihad => User { cihad_count: bumped(u.cihad_count), ..u },
        Tally::Tekfir => User { tekfir_count: bumped(u.tekfir_count), ..u },
    }
}

/// The logged-in user after `change`.
pub open spec fn changed_user(current: Option<User>, change: ProfileChange) -> Option<User> {
    match current {
        None => None,
        Some(u) => match change {
            ProfileChange::Unchanged => Some(u),
            ProfileChange::Count(t) => Some(tallied(u, t)),
            ProfileChange::StageReset => Some(User { current_stage: 1, ..u }),
        },
    }
}

/// Whether `change` asks for the user record to be written: after every
/// counted action; after defeat only when the logged-in user is listed.
pub open spec fn saves(users: Seq<User>, current: Option<User>, change: ProfileChange) -> bool {
    match change {
        ProfileChange::Unchanged => false,
        ProfileChange::Count(_) => true,
        ProfileChange::StageReset => match current {
            None => false,
            Some(u) => first_named(users, u.username@) is Some,
        },
    }
}

/// What a tick of a running encounter does to the profile.
pub open spec fn profile_change(v: EncounterView, input: InputSnapshot, draws: Draws, health: int) -> ProfileChange {
    match v.turn {
        TurnPhase::TekfirSubMenu => if input.confirm {
            ProfileChange::Count(Tally::Tekfir)
        } else {
            ProfileChange::Unchanged
        },
        TurnPhase::TebligSubMenu => if input.confirm && submenu_nav(v, input, TEBLIG_LAST).sub_menu_selection == 0 {
            ProfileChange::Count(Tally::Teblig)
        } else {
            ProfileChange::Unchanged
        },
        TurnPhase::Fighting => if strikes(v, input) {
            ProfileChange::Count(Tally::Cihad)
        } else {
            ProfileChange::Unchanged
        },
        TurnPhase::SansTurn => if sans_health(v, input, draws, health) == 0 {
            ProfileChange::StageReset
        } else {
            ProfileChange::Unchanged
        },
        _ => ProfileChange::Unchanged,
    }
}

/// The player's health after a tick of a running encounter.
pub open spec fn next_health(v: EncounterView, input: InputSnapshot, draws: Draws, health: int) -> int {
    match v.turn {
        TurnPhase::ItemSubMenu => if input.confirm {
            healed(health, submenu_nav(v, input, ITEM_LAST).sub_menu_selection)
        } else {
            health
        },
        TurnPhase::SansTurn => sans_health(v, input, draws, health),
        _ => health,
    }
}

/// The encounter after its current phase handled a tick.
pub open spec fn phase_next(
    v: EncounterView,
    input: InputSnapshot,
    draws: Draws,
    texts: TextResources,
    health: int,
) -> EncounterView {
    match v.turn {
        TurnPhase::Menu => menu_next(v, input),
        TurnPhase::TekfirSubMenu => tekfir_next(v, input, texts, draws.line),
        TurnPhase::ItemSubMenu => item_next(v, input),
        TurnPhase::TebligSubMenu => teblig_next(v, input, draws.line),
        TurnPhase::Fighting => fighting_next(v, input),
        TurnPhase::ResultText => result_next(v, input, draws.line),
        TurnPhase::SansTurn => sans_next(v, input, draws, health),
    }
}

/// The shake fades on every tick, down to none.
pub open spec fn faded(v: EncounterView) -> EncounterView {
    EncounterView {
        enemy_shake: if v.enemy_shake > SHAKE_DECAY { (v.enemy_shake - SHAKE_DECAY) as u32 } else { 0 },
        ..v
    }
}

/// The encounter after a tick.
pub open spec fn encounter_next(
    v: EncounterView,
    input: InputSnapshot,
    draws: Draws,
    texts: TextResources,
    health: int,
) -> EncounterView {
    faded(phase_next(v, input, draws, texts, health))
}

/// `after` is `before` with counter `t` of the logged-in user raised and
/// the progress copied into the user list.
pub open spec fn counted(before: SystemState, after: SystemState, t: Tally) -> bool {
    &&& after.current_user == changed_user(before.current_user, ProfileChange::Count(t))
    &&& after.users@ == synced(before.users@, after.current_user)
}

/// The profile did not change.
pub open spec fn untouched(before: SystemState, after: SystemState) -> bool {
    &&& after.current_user == before.current_user
    &&& after.users@ == before.users@
}

/// Raises counter `t` of the logged-in user and copies the progress into
/// the user list.
fn record(system: &mut SystemState, t: Tally)
    ensures
        final(system).current_user == changed_user(old(system).current_user, ProfileChange::Count(t)),
        final(system).users@ == synced(old(system).users@, final(system).current_user),
        final(system).language == old(system).language,
{
    match &mut system.current_user {
        Some(u) => match t {
            Tally::Teblig => {
                if u.teblig_count < u32::MAX {
                    u.teblig_count = u.teblig_count + 1;
                }
            },
            Tally::Cihad => {
                if u.cihad_count < u32::MAX {
                    u.cihad_count = u.cihad_count + 1;
                }
            },
            Tally::Tekfir => {
                if u.tekfir_count < u32::MAX {
                    u.tekfir_count = u.tekfir_count + 1;
                }
            },
        },
        None => {},
    }
    system.sync_current_user();
}

/// Sends the logged-in user back to the first stage and copies that into
/// the user list; tells whether the user is listed, so that the record
/// must be written.
fn reset_stage(system: &mut SystemState) -> (listed: bool)
    ensures
        final(system).current_user == changed_user(old(system).current_user, ProfileChange::StageReset),
        final(system).users@ == synced(old(system).users@, final(system).current_user),
        final(system).language == old(system).language,
        listed == saves(old(system).users@, old(system).current_user, ProfileChange::StageReset),
{
    match &mut system.current_user {
        Some(u) => {
            u.current_stage = 1;
        },
        None => {},
    }
    let listed = match &system.current_user {
        Some(u) => position_of(&system.users, &u.username).is_some(),
        None => false,
    };
    system.sync_current_user();
    listed
}

impl CombatEncounter {
    pub open spec fn wf(&self) -> bool {
        &&& self.enemy_hp <= self.enemy_max_hp
        &&& self.menu_selection <= MENU_LAST
        &&& self.sub_menu_selection <= TEKFIR_LAST
        &&& self.turn == TurnPhase::ItemSubMenu ==> self.sub_menu_selection <= ITEM_LAST
        &&& self.turn == TurnPhase::TebligSubMenu ==> self.sub_menu_selection <= TEBLIG_LAST
        &&& self.turn == TurnPhase::SansTurn ==> self.timer <= SURVIVAL_TICKS
        &&& self.turn == TurnPhase::SansTurn && self.timer > 0 && self.dodge.mode == DodgeMode::Gravity
            ==> self.dodge.token.pos.y <= FLOOR
        &&& self.attack_bar.wf()
        &&& self.dodge.wf()
    }

    /// A fresh encounter: the enemy at full health `enemy_max_hp`, the
    /// attack bar at rest with speed `bar_speed`, in the menu.
    pub fn with_rules(enemy_max_hp: u32, bar_speed: i64) -> (r: CombatEncounter)
        requires
            0 <= bar_speed <= MAX_BAR_SPEED,
        ensures
            r.wf(),
            r.turn == TurnPhase::Menu,
            r.menu_selection == 0,
            r.sub_menu_selection == 0,
            r.enemy_hp == enemy_max_hp,
            r.enemy_max_hp == enemy_max_hp,
            r.action_text@.len() == 0,
            r.dialogue_text@.len() == 0,
            r.timer == 0,
            r.attack_bar.speed == bar_speed,
            !r.attack_bar.active,
            r.dodge.mode == DodgeMode::Gravity,
            r.dodge.bones@.len() == 0,
            r.enemy_shake == 0,
            r.outcome == EncounterOutcome::Continue,
    {
        CombatEncounter {
            turn: TurnPhase::Menu,
            menu_selection: 0,
            sub_menu_selection: 0,
            enemy_hp: enemy_max_hp,
            enemy_max_hp,
            action_text: String::new(),
            dialogue_text: String::new(),
            timer: 0,
            attack_bar: AttackBar::new(bar_speed),
            dodge: DodgeState::new(),
            enemy_shake: 0,
            outcome: EncounterOutcome::Continue,
        }
    }

    /// A fresh encounter with the standard enemy health and bar speed.
    pub fn new() -> (r: CombatEncounter)
        ensures
            r.wf(),
            r.turn == TurnPhase::Menu,
            r.menu_selection == 0,
            r.sub_menu_selection == 0,
            r.enemy_hp == ENEMY_MAX_HP,
            r.enemy_max_hp == ENEMY_MAX_HP,
            r.action_text@.len() == 0,
            r.dialogue_text@.len() == 0,
            r.timer == 0,
            r.attack_bar.speed == BAR_SPEED,
            !r.attack_bar.active,
            r.dodge.mode == DodgeMode::Gravity,
            r.dodge.bones@.len() == 0,
            r.enemy_shake == 0,
            r.outcome == EncounterOutcome::Continue,
    {
        CombatEncounter::with_rules(ENEMY_MAX_HP, BAR_SPEED)
    }

    fn menu_tick(&mut self, input: InputSnapshot)
        requires
            old(self).wf(),
            old(self).turn == TurnPhase::Menu,
        ensures
            final(self)@ == menu_next(old(self)@, input),
            final(self).wf(),
    {
        if input.left_pressed && self.menu_selection > 0 {
            self.menu_selection = self.menu_selection - 1;
        }
        if input.right_pressed && self.menu_selection < MENU_LAST {
            self.menu_selection = self.menu_selection + 1;
        }
        if input.confirm {
            if self.menu_selection == 0 {
                self.turn = TurnPhase::Fighting;
                self.timer = 0;
                self.attack_bar.start();
                self.action_text = String::new();
            } else if self.menu_selection == 1 {
                self.turn = TurnPhase::TekfirSubMenu;
                self.sub_menu_selection = 0;
                self.timer = 0;
            } else if self.menu_selection == 2 {
                self.turn = TurnPhase::ItemSubMenu;
                self.sub_menu_selection = 0;
                self.timer = 0;
            } else {
                self.turn = TurnPhase::TebligSubMenu;
                self.sub_menu_selection = 0;
                self.timer = 0;
            }
        }
    }

    fn submenu_tick(&mut self, input: InputSnapshot, last: u32)
        requires
            old(self).wf(),
            old(self).sub_menu_selection <= last <= TEKFIR_LAST,
        ensures
            final(self)@ == submenu_nav(old(self)@, input, last),
            final(self).sub_menu_selection <= last,
            final(self).enemy_hp == old(self).enemy_hp,
            final(self).attack_bar == old(self).attack_bar,
            final(self).dodge == old(self).dodge,
    {
        if input.up_pressed && self.sub_menu_selection > 0 {
            self.sub_menu_selection = self.sub_menu_selection - 1;
        }
        if input.down_pressed && self.sub_menu_selection < last {
            self.sub_menu_selection = self.sub_menu_selection + 1;
        }
        if input.cancel {
            self.turn = TurnPhase::Menu;
            self.timer = 0;
        }
    }

    fn tekfir_tick(&mut self, system: &mut SystemState, input: InputSnapshot, texts: &TextResources, roll: u32) -> (saved: bool)
        requires
            old(self).wf(),
            old(self).turn == TurnPhase::TekfirSubMenu,
            texts.wf(),
        ensures
            final(self)@ == tekfir_next(old(self)@, input, *texts, roll),
            final(self).wf(),
            final(system).language == old(system).language,
            input.confirm ==> counted(*old(system), *final(system), Tally::Tekfir),
            !input.confirm ==> untouched(*old(system), *final(system)),
            saved == input.confirm,
    {
        self.submenu_tick(input, TEKFIR_LAST);
        if input.confirm {
            self.turn = TurnPhase::ResultText;
            self.timer = 0;
            record(system, Tally::Tekfir);
            let a = &texts.combat_actions;
            let k = self.sub_menu_selection;
            self.action_text = if k == 0 {
                pick_static(&musrik_lines_vec(), roll)
            } else if k == 1 {
                pick_static(&fasik_lines_vec(), roll)
            } else if k == 2 {
                pick_owned(&a.munafik, roll)
            } else if k == 3 {
                pick_owned(&a.kafir, roll)
            } else if k == 4 {
                pick_owned(&a.zindik, roll)
            } else if k == 5 {
                pick_owned(&a.tagut, roll)
            } else if k == 6 {
                pick_owned(&a.deccal, roll)
            } else if k == 7 {
                pick_owned(&a.ebu_cehil, roll)
            } else {
                pick_owned(&a.yecuc, roll)
            };
            true
        } else {
            false
        }
    }

    fn item_tick(&mut self, player: &mut PlayerRecord, input: InputSnapshot)
        requires
            old(self).wf(),
            old(self).turn == TurnPhase::ItemSubMenu,
            old(player).wf(),
        ensures
            final(self)@ == item_next(old(self)@, input),
            final(self).wf(),
            final(player).wf(),
            final(player).health == next_health(old(self)@, input, Draws { line: 0, mode: 0, pattern: 0, lane: 0 }, old(player).health as int),
    {
        self.submenu_tick(input, ITEM_LAST);
        if input.confirm {
            self.turn = TurnPhase::ResultText;
            self.timer = 0;
            let k = self.sub_menu_selection;
            let h = player.health;
            if k == 0 {
                self.action_text = "Zemzem içtin.\nCanın 50 arttı!".to_string();
                player.health = if h + 50 < MAX_HEALTH { h + 50 } else { MAX_HEALTH };
            } else if k == 1 {
                self.action_text = "Hurma yedin.\nCanın 20 arttı!".to_string();
                player.health = if h + 20 < MAX_HEALTH { h + 20 } else { MAX_HEALTH };
            } else if k == 2 {
                self.action_text = "Zeytin yedin.\nCanın 10 arttı!".to_string();
                player.health = if h + 10 < MAX_HEALTH { h + 10 } else { MAX_HEALTH };
            } else {
                self.action_text = "Ayetel Kürsi okudun.\nCanın tamamen doldu!".to_string();
                player.health = MAX_HEALTH;
            }
        }
    }

    fn teblig_tick(&mut self, system: &mut SystemState, input: InputSnapshot, roll: u32) -> (saved: bool)
        requires
            old(self).wf(),
            old(self).turn == TurnPhase::TebligSubMenu,
        ensures
            final(self)@ == teblig_next(old(self)@, input, roll),
            final(self).wf(),
            final(system).language == old(system).language,
            saved == (input.confirm && final(self).sub_menu_selection == 0),
            saved ==> counted(*old(system), *final(system), Tally::Teblig),
            !saved ==> untouched(*old(system), *final(system)),
    {
        self.submenu_tick(input, TEBLIG_LAST);
        if input.confirm {
            if self.sub_menu_selection == 0 {
                self.turn = TurnPhase::ResultText;
                self.timer = 0;
                record(system, Tally::Teblig);
                self.action_text = pick_static(&teblig_lines_vec(), roll);
                return true;
            } else {
                self.outcome = EncounterOutcome::Fled;
            }
        }
        false
    }

    fn fighting_tick(&mut self, system: &mut SystemState, input: InputSnapshot) -> (saved: bool)
        requires
            old(self).wf(),
            old(self).turn == TurnPhase::Fighting,
        ensures
            final(self)@ == fighting_next(old(self)@, input),
            final(self).wf(),
            final(system).language == old(system).language,
            saved == strikes(old(self)@, input),
            saved ==> counted(*old(system), *final(system), Tally::Cihad),
            !saved ==> untouched(*old(system), *final(system)),
    {
        match self.attack_bar.tick(input.confirm) {
            None => false,
            Some(d) => {
                self.timer = 0;
                self.turn = TurnPhase::ResultText;
                if d > 0 {
                    self.action_text = hit_text(d);
                    record(system, Tally::Cihad);
                    self.enemy_shake = SHAKE_ON_HIT;
                    self.enemy_hp = if d >= self.enemy_hp { 0 } else { self.enemy_hp - d };
                    if self.enemy_hp == 0 {
                        self.dialogue_text = "welp... i'm going to grillby's.".to_string();
                    }
                    true
                } else {
                    self.action_text = "MISS".to_string();
                    false
                }
            },
        }
    }

    fn result_tick(&mut self, input: InputSnapshot, roll: u32)
        requires
            old(self).wf(),
            old(self).turn == TurnPhase::ResultText,
        ensures
            final(self)@ == result_next(old(self)@, input, roll),
            final(self).wf(),
    {
        if input.confirm {
            if self.enemy_hp == 0 {
                self.outcome = EncounterOutcome::Victory;
            } else {
                self.turn = TurnPhase::SansTurn;
                self.timer = 0;
                self.dialogue_text = pick_static(&taunt_lines_vec(), roll);
            }
        }
    }

    fn sans_tick(&mut self, player: &mut PlayerRecord, system: &mut SystemState, input: InputSnapshot, draws: Draws) -> (saved: bool)
        requires
            old(self).wf(),
            old(self).turn == TurnPhase::SansTurn,
            old(player).wf(),
        ensures
            final(self)@ == sans_next(old(self)@, input, draws, old(player).health as int),
            final(self).wf(),
            final(player).wf(),
            final(player).health == sans_health(old(self)@, input, draws, old(player).health as int),
            final(system).current_user == changed_user(old(system).current_user, profile_change(old(self)@, input, draws, old(player).health as int)),
            final(system).language == old(system).language,
            profile_change(old(self)@, input, draws, old(player).health as int) != ProfileChange::Unchanged
                ==> final(system).users@ == synced(old(system).users@, final(system).current_user),
            profile_change(old(self)@, input, draws, old(player).health as int) == ProfileChange::Unchanged
                ==> final(system).users@ == old(system).users@,
            saved == saves(old(system).users@, old(system).current_user, profile_change(old(self)@, input, draws, old(player).health as int)),
    {
        let ghost pre = self@;
        let ghost h0 = player.health as int;
        if self.timer == 0 {
            self.dodge.enter(draws.mode);
        }
        self.timer = self.timer + 1;
        let hit = self.dodge.tick(self.timer, input, draws.pattern, draws.lane);
        if hit {
            player.health = player.health - 1;
        }
        let mut saved = false;
        if player.health <= 0 {
            player.health = 0;
            self.outcome = EncounterOutcome::Defeat;
            saved = reset_stage(system);
        }
        if self.timer > SURVIVAL_TICKS {
            self.turn = TurnPhase::Menu;
            self.timer = 0;
            self.dialogue_text = "You feel your sins crawling on your back.".to_string();
            self.dodge.finish();
            assert(self.dodge.bones@ =~= Seq::<Bone>::empty());
        }
        let ghost post = sans_next(pre, input, draws, h0);
        assert(self.timer == post.timer);
        assert(self.dodge.token == post.token);
        assert(self.dodge.mode == post.mode);
        assert(self.dodge.bones@ == post.bones);
        assert(self.turn == post.turn);
        assert(self.dialogue_text@ == post.dialogue_text);
        assert(self.outcome == post.outcome);
        saved
    }

    /// One tick of the encounter with the given rolls.
    ///
    /// A finished encounter is left as it is and repeats its outcome. A
    /// running one lets its current phase handle the tick, fades the
    /// enemy's shake, and reports the outcome and whether the user record
    /// must be written.
    pub fn update(
        &mut self,
        player: &mut PlayerRecord,
        system: &mut SystemState,
        input: InputSnapshot,
        draws: Draws,
        texts: &TextResources,
    ) -> (r: Step)
        requires
            old(self).wf(),
            old(player).wf(),
            texts.wf(),
        ensures
            final(self).wf(),
            final(player).wf(),
            final(system).language == old(system).language,
            ticked(
                old(self)@,
                final(self)@,
                old(player).health as int,
                final(player).health as int,
                *old(system),
                *final(system),
                input,
                draws,
                *texts,
                r,
            ),
    {
        if self.outcome != EncounterOutcome::Continue {
            return Step { outcome: self.outcome, save_profile: false };
        }
        let ghost pre = self@;
        let saved = match self.turn {
            TurnPhase::Menu => {
                self.menu_tick(input);
                false
            },
            TurnPhase::TekfirSubMenu => self.tekfir_tick(system, input, texts, draws.line),
            TurnPhase::ItemSubMenu => {
                self.item_tick(player, input);
                false
            },
            TurnPhase::TebligSubMenu => self.teblig_tick(system, input, draws.line),
            TurnPhase::Fighting => self.fighting_tick(system, input),
            TurnPhase::ResultText => {
                self.result_tick(input, draws.line);
                false
            },
            TurnPhase::SansTurn => self.sans_tick(player, system, input, draws),
        };
        if self.enemy_shake > SHAKE_DECAY {
            self.enemy_shake = self.enemy_shake - SHAKE_DECAY;
        } else {
            self.enemy_shake = 0;
        }
        Step { outcome: self.outcome, save_profile: saved }
    }

    /// Draws the rolls that a tick of this encounter needs: a line of the
    /// pool that a confirm would pick from, the mode on entry to the
    /// enemy's turn, and a pattern and lane on a spawn tick.
    pub fn roll_draws(&self, texts: &TextResources) -> (d: Draws)
        requires
            self.wf(),
            texts.wf(),
        ensures
            fair_draws(self@, *texts, d),
    {
        let a = &texts.combat_actions;
        let pool: usize = match self.turn {
            TurnPhase::TekfirSubMenu => {
                let k = self.sub_menu_selection;
                if k <= 1 {
                    3
                } else if k == 2 {
                    a.munafik.len()
                } else if k == 3 {
                    a.kafir.len()
                } else if k == 4 {
                    a.zindik.len()
                } else if k == 5 {
                    a.tagut.len()
                } else if k == 6 {
                    a.deccal.len()
                } else if k == 7 {
                    a.ebu_cehil.len()
                } else {
                    a.yecuc.len()
                }
            },
            TurnPhase::TebligSubMenu => teblig_lines_vec().len(),
            TurnPhase::ResultText => taunt_lines_vec().len(),
            _ => 1,
        };
        let line = if pool <= u32::MAX as usize { roll_below(pool as u32) } else { roll_below(u32::MAX) };
        let entering = self.turn == TurnPhase::SansTurn && self.timer == 0;
        let mode = if entering { roll_below(2) } else { 0 };
        let spawning = self.turn == TurnPhase::SansTurn && self.timer < SURVIVAL_TICKS
            && (self.timer + 1) % SPAWN_INTERVAL == 0;
        let mut pattern: u32 = 0;
        let mut lane: u32 = 0;
        if spawning {
            match self.dodge.mode {
                DodgeMode::Gravity => {
                    pattern = roll_below(GRAVITY_PATTERNS);
                },
                DodgeMode::FreeFlight => {
                    pattern = roll_below(FLIGHT_PATTERNS);
                    if pattern <= 1 {
                        lane = roll_below(LANE_HEIGHT);
                    } else if pattern <= 3 {
                        lane = roll_below(LANE_WIDTH);
                    }
                },
            }
        }
        Draws { line, mode, pattern, lane }
    }

    /// One tick of the encounter with freshly drawn rolls: whatever they
    /// are, they are fair for this state and the tick is the one `update`
    /// makes with them.
    pub fn tick(
        &mut self,
        player: &mut PlayerRecord,
        system: &mut SystemState,
        input: InputSnapshot,
        texts: &TextResources,
    ) -> (r: Step)
        requires
            old(self).wf(),
            old(player).wf(),
            texts.wf(),
        ensures
            final(self).wf(),
            final(player).wf(),
            exists|d: Draws|
                fair_draws(old(self)@, *texts, d) && #[trigger] ticked(
                    old(self)@,
                    final(self)@,
                    old(player).health as int,
                    final(player).health as int,
                    *old(system),
                    *final(system),
                    input,
                    d,
                    *texts,
                    r,
                ),
    {
        let draws = self.roll_draws(texts);
        self.update(player, system, input, draws, texts)
    }

    /// A snapshot of what is on screen: phase, cursors, bar, token, the
    /// hazards' rectangles in order, the enemy's health and the texts.
    pub fn render_model(&self) -> (m: CombatRenderModel)
        ensures
            m.turn == self.turn,
            m.menu_selection == self.menu_selection,
            m.sub_menu_selection == self.sub_menu_selection,
            m.bar_position == self.attack_bar.position,
            m.bar_active == self.attack_bar.active,
            m.heart == self.dodge.token.pos,
            m.hazards@.len() == self.dodge.bones@.len(),
            forall|i: int| 0 <= i < m.hazards@.len() ==> #[trigger] m.hazards@[i] == self.dodge.bones@[i].area(),
            m.enemy_hp == self.enemy_hp,
            m.enemy_max_hp == self.enemy_max_hp,
            m.enemy_shake == self.enemy_shake,
            m.action_text@ == self.action_text@,
            m.dialogue_text@ == self.dialogue_text@,
    {
        let mut hazards: Vec<Rect> = Vec::new();
        let mut i: usize = 0;
        while i < self.dodge.bones.len()
            invariant
                i <= self.dodge.bones.len(),
                hazards@.len() == i,
                forall|j: int| 0 <= j < i ==> #[trigger] hazards@[j] == self.dodge.bones@[j].area(),
            decreases self.dodge.bones.len() - i,
        {
            hazards.push(self.dodge.bones[i].rect());
            i = i + 1;
        }
        CombatRenderModel {
            turn: self.turn,
            menu_selection: self.menu_selection,
            sub_menu_selection: self.sub_menu_selection,
            bar_position: self.attack_bar.position,
            bar_active: self.attack_bar.active,
            heart: self.dodge.token.pos,
            hazards,
            enemy_hp: self.enemy_hp,
            enemy_max_hp: self.enemy_max_hp,
            enemy_shake: self.enemy_shake,
            action_text: self.action_text.clone(),
            dialogue_text: self.dialogue_text.clone(),
        }
    }
}

} // verus!

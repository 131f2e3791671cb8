use gorkitale::{
    CombatEncounter, Draws, EncounterOutcome, InputSnapshot, PlayerRecord, Step, SystemState,
    TextResources, TurnPhase, User, ENEMY_MAX_HP, MAX_HEALTH, SURVIVAL_TICKS, TRACK_START,
};

fn idle() -> InputSnapshot {
    InputSnapshot::idle()
}

fn confirm() -> InputSnapshot {
    InputSnapshot { confirm: true, ..InputSnapshot::idle() }
}

fn cancel() -> InputSnapshot {
    InputSnapshot { cancel: true, ..InputSnapshot::idle() }
}

fn right() -> InputSnapshot {
    InputSnapshot { right_pressed: true, ..InputSnapshot::idle() }
}

fn down() -> InputSnapshot {
    InputSnapshot { down_pressed: true, ..InputSnapshot::idle() }
}

fn player_named(name: &str, stage: u32) -> User {
    User {
        username: name.to_string(),
        teblig_count: 2,
        cihad_count: 3,
        tekfir_count: 4,
        current_stage: stage,
    }
}

fn logged_in(name: &str, stage: u32) -> SystemState {
    let mut system = SystemState::new("");
    system.users.push(player_named("other", 2));
    system.users.push(player_named(name, stage));
    system.current_user = Some(player_named(name, stage));
    system
}

struct Fixture {
    enc: CombatEncounter,
    player: PlayerRecord,
    system: SystemState,
    texts: TextResources,
}

impl Fixture {
    fn new(enc: CombatEncounter) -> Fixture {
        Fixture {
            enc,
            player: PlayerRecord::new(),
            system: logged_in("ali", 3),
            texts: TextResources::new_english(),
        }
    }

    fn step(&mut self, input: InputSnapshot, draws: Draws) -> Step {
        self.enc.update(&mut self.player, &mut self.system, input, draws, &self.texts)
    }
}

/// Rolls under which gravity mode sends only high hazards, which a token on
/// the floor never touches.
fn harmless() -> Draws {
    Draws { line: 0, mode: 0, pattern: 1, lane: 0 }
}

#[test]
fn new_encounter_starts_in_menu_at_full_health() {
    let enc = CombatEncounter::new();
    assert_eq!(enc.turn, TurnPhase::Menu);
    assert_eq!(enc.enemy_hp, ENEMY_MAX_HP);
    assert_eq!(enc.enemy_max_hp, ENEMY_MAX_HP);
    assert_eq!(enc.outcome, EncounterOutcome::Continue);
    assert_eq!(enc.menu_selection, 0);
}

#[test]
fn full_encounter_ends_in_victory() {
    // A bar speed of ten pixels reaches the centre exactly on its 35th tick.
    let mut f = Fixture::new(CombatEncounter::with_rules(ENEMY_MAX_HP, 10_000));
    let mut rounds = 0;
    while f.enc.enemy_hp > 0 {
        rounds += 1;
        assert_eq!(f.enc.turn, TurnPhase::Menu);
        f.step(confirm(), harmless());
        assert_eq!(f.enc.turn, TurnPhase::Fighting);
        assert_eq!(f.enc.attack_bar.position, TRACK_START);
        for _ in 0..34 {
            f.step(idle(), harmless());
        }
        let before = f.enc.enemy_hp;
        let r = f.step(confirm(), harmless());
        assert!(r.save_profile);
        assert_eq!(f.enc.attack_bar.position, 400_000);
        assert_eq!(f.enc.enemy_hp, before - 100);
        assert_eq!(f.enc.turn, TurnPhase::ResultText);
        assert_eq!(f.enc.action_text, "CİHAD! 100 HASAR");
        if f.enc.enemy_hp > 0 {
            f.step(confirm(), harmless());
            assert_eq!(f.enc.turn, TurnPhase::SansTurn);
            for _ in 0..=SURVIVAL_TICKS {
                f.step(idle(), harmless());
            }
            assert_eq!(f.player.health, MAX_HEALTH);
        }
    }
    assert_eq!(rounds, 5);
    assert_eq!(f.enc.dialogue_text, "welp... i'm going to grillby's.");
    assert_eq!(f.enc.turn, TurnPhase::ResultText);
    let r = f.step(confirm(), harmless());
    assert_eq!(r.outcome, EncounterOutcome::Victory);
    assert_ne!(f.enc.turn, TurnPhase::SansTurn);
    assert_eq!(f.system.current_user.as_ref().unwrap().cihad_count, 8);
}

#[test]
fn flee_ends_without_counting() {
    let mut f = Fixture::new(CombatEncounter::new());
    for _ in 0..3 {
        f.step(right(), Draws::default());
    }
    assert_eq!(f.enc.menu_selection, 3);
    f.step(confirm(), Draws::default());
    assert_eq!(f.enc.turn, TurnPhase::TebligSubMenu);
    f.step(down(), Draws::default());
    let r = f.step(confirm(), Draws::default());
    assert_eq!(r.outcome, EncounterOutcome::Fled);
    assert!(!r.save_profile);
    let u = f.system.current_user.as_ref().unwrap();
    assert_eq!((u.teblig_count, u.cihad_count, u.tekfir_count), (2, 3, 4));
    assert_eq!(f.system.users[1].teblig_count, 2);
}

#[test]
fn submenu_cancel_keeps_menu_cursor() {
    let mut f = Fixture::new(CombatEncounter::new());
    f.step(right(), Draws::default());
    assert_eq!(f.enc.menu_selection, 1);
    f.step(confirm(), Draws::default());
    assert_eq!(f.enc.turn, TurnPhase::TekfirSubMenu);
    f.step(down(), Draws::default());
    f.step(cancel(), Draws::default());
    assert_eq!(f.enc.turn, TurnPhase::Menu);
    assert_eq!(f.enc.timer, 0);
    assert_eq!(f.enc.menu_selection, 1);
    assert_eq!(f.system.current_user.as_ref().unwrap().tekfir_count, 4);
}

#[test]
fn defeat_resets_stage_once() {
    let mut f = Fixture::new(CombatEncounter::new());
    f.player.health = 1;
    // An immediate press misses.
    f.step(confirm(), Draws::default());
    let r = f.step(confirm(), Draws::default());
    assert_eq!(f.enc.action_text, "MISS");
    assert!(!r.save_profile);
    assert_eq!(f.enc.turn, TurnPhase::ResultText);
    f.step(confirm(), Draws::default());
    assert_eq!(f.enc.turn, TurnPhase::SansTurn);
    // Gravity mode, both-sides pattern: floor-level hazards reach the token.
    let converging = Draws { line: 0, mode: 0, pattern: 2, lane: 0 };
    let mut defeats = 0;
    let mut saves = 0;
    for _ in 0..SURVIVAL_TICKS {
        let r = f.step(idle(), converging);
        if r.outcome == EncounterOutcome::Defeat {
            defeats += 1;
            if r.save_profile {
                saves += 1;
            }
        }
    }
    assert!(defeats > 0);
    assert_eq!(saves, 1);
    assert_eq!(f.player.health, 0);
    assert_eq!(f.enc.outcome, EncounterOutcome::Defeat);
    assert_eq!(f.system.current_user.as_ref().unwrap().current_stage, 1);
    assert_eq!(f.system.users[1].current_stage, 1);
    assert_eq!(f.system.users[0].current_stage, 2);
}

#[test]
fn health_never_rises_in_enemy_turn() {
    let mut f = Fixture::new(CombatEncounter::new());
    f.player.health = 30;
    f.step(confirm(), Draws::default());
    f.step(confirm(), Draws::default());
    f.step(confirm(), Draws::default());
    assert_eq!(f.enc.turn, TurnPhase::SansTurn);
    let mut last = f.player.health;
    let mut tick: u32 = 0;
    while f.enc.turn == TurnPhase::SansTurn && f.enc.outcome == EncounterOutcome::Continue {
        let draws = Draws { line: 0, mode: 0, pattern: tick / 40, lane: tick * 7_919 };
        let held = InputSnapshot { up_held: tick % 3 == 0, left_held: tick % 5 == 0, ..idle() };
        f.step(held, draws);
        assert!(f.player.health <= last);
        assert!(f.player.health >= 0);
        last = f.player.health;
        tick += 1;
    }
    assert!(last < 30);
}

#[test]
fn survival_returns_to_menu_and_clears_hazards() {
    let mut f = Fixture::new(CombatEncounter::new());
    f.step(confirm(), harmless());
    f.step(confirm(), harmless());
    f.step(confirm(), Draws { line: 3, ..harmless() });
    assert_eq!(f.enc.dialogue_text, "birds are singing, flowers are blooming...");
    for _ in 0..SURVIVAL_TICKS {
        f.step(idle(), harmless());
    }
    assert_eq!(f.enc.turn, TurnPhase::SansTurn);
    assert!(!f.enc.dodge.bones.is_empty());
    f.step(idle(), harmless());
    assert_eq!(f.enc.turn, TurnPhase::Menu);
    assert_eq!(f.enc.timer, 0);
    assert!(f.enc.dodge.bones.is_empty());
    assert_eq!(f.enc.dialogue_text, "You feel your sins crawling on your back.");
}

#[test]
fn items_heal_up_to_the_maximum() {
    let mut f = Fixture::new(CombatEncounter::new());
    f.player.health = 40;
    f.step(right(), Draws::default());
    f.step(right(), Draws::default());
    f.step(confirm(), Draws::default());
    assert_eq!(f.enc.turn, TurnPhase::ItemSubMenu);
    f.step(down(), Draws::default());
    let r = f.step(confirm(), Draws::default());
    assert!(!r.save_profile);
    assert_eq!(f.player.health, 60);
    assert_eq!(f.enc.action_text, "Hurma yedin.\nCanın 20 arttı!");
    f.player.health = 95;
    f.enc.turn = TurnPhase::ItemSubMenu;
    f.enc.sub_menu_selection = 0;
    f.step(confirm(), Draws::default());
    assert_eq!(f.player.health, MAX_HEALTH);
}

#[test]
fn accusation_counts_and_picks_a_reply() {
    let mut f = Fixture::new(CombatEncounter::new());
    f.step(right(), Draws::default());
    f.step(confirm(), Draws::default());
    for _ in 0..3 {
        f.step(down(), Draws::default());
    }
    assert_eq!(f.enc.sub_menu_selection, 3);
    let r = f.step(confirm(), Draws { line: 4, ..Draws::default() });
    assert!(r.save_profile);
    assert_eq!(f.enc.turn, TurnPhase::ResultText);
    assert_eq!(f.enc.action_text, "You called him Infidel.\n'I take that as a compliment' he said.");
    assert_eq!(f.system.current_user.as_ref().unwrap().tekfir_count, 5);
    assert_eq!(f.system.users[1].tekfir_count, 5);
}

#[test]
fn preaching_counts_and_picks_a_line() {
    let mut f = Fixture::new(CombatEncounter::new());
    for _ in 0..3 {
        f.step(right(), Draws::default());
    }
    f.step(confirm(), Draws::default());
    let r = f.step(confirm(), Draws { line: 21, ..Draws::default() });
    assert!(r.save_profile);
    assert_eq!(f.enc.action_text, "Tövbe etmesini söyledin.\nUmursamadı.");
    assert_eq!(f.system.current_user.as_ref().unwrap().teblig_count, 3);
}

#[test]
fn finished_encounter_ignores_ticks() {
    let mut f = Fixture::new(CombatEncounter::new());
    for _ in 0..3 {
        f.step(right(), Draws::default());
    }
    f.step(confirm(), Draws::default());
    f.step(down(), Draws::default());
    f.step(confirm(), Draws::default());
    let r = f.step(confirm(), Draws::default());
    assert_eq!(r, Step { outcome: EncounterOutcome::Fled, save_profile: false });
    assert_eq!(f.enc.turn, TurnPhase::TebligSubMenu);
}

#[test]
fn shake_fades_after_a_hit() {
    let mut f = Fixture::new(CombatEncounter::with_rules(ENEMY_MAX_HP, 10_000));
    f.step(confirm(), harmless());
    for _ in 0..34 {
        f.step(idle(), harmless());
    }
    f.step(confirm(), harmless());
    assert_eq!(f.enc.enemy_shake, 9_500);
    f.step(idle(), harmless());
    assert_eq!(f.enc.enemy_shake, 9_000);
}

#[test]
fn rolled_draws_are_fair() {
    let mut f = Fixture::new(CombatEncounter::new());
    f.enc.turn = TurnPhase::ResultText;
    for _ in 0..50 {
        let d = f.enc.roll_draws(&f.texts);
        assert!(d.line < 10);
    }
    f.enc.turn = TurnPhase::SansTurn;
    f.enc.timer = 0;
    for _ in 0..50 {
        let d = f.enc.roll_draws(&f.texts);
        assert!(d.mode < 2);
    }
    let r = f.enc.tick(&mut f.player, &mut f.system, idle(), &f.texts);
    assert_eq!(r.outcome, EncounterOutcome::Continue);
    assert_eq!(f.enc.timer, 1);
}

#[test]
fn render_model_mirrors_state() {
    let mut f = Fixture::new(CombatEncounter::new());
    f.step(confirm(), harmless());
    f.step(confirm(), harmless());
    f.step(confirm(), harmless());
    for _ in 0..45 {
        f.step(idle(), harmless());
    }
    let m = f.enc.render_model();
    assert_eq!(m.turn, TurnPhase::SansTurn);
    assert_eq!(m.heart, f.enc.dodge.token.pos);
    assert_eq!(m.hazards.len(), f.enc.dodge.bones.len());
    assert_eq!(m.hazards.len(), 1);
    assert_eq!(m.hazards[0], f.enc.dodge.bones[0].rect());
    assert_eq!(m.dialogue_text, f.enc.dialogue_text);
}

#[test]
fn every_phase_entry_resets_the_timer() {
    let mut f = Fixture::new(CombatEncounter::new());
    f.enc.timer = 17;
    f.step(right(), Draws::default());
    f.step(right(), Draws::default());
    f.step(confirm(), Draws::default());
    assert_eq!(f.enc.turn, TurnPhase::ItemSubMenu);
    assert_eq!(f.enc.timer, 0);
    f.enc.timer = 5;
    f.step(confirm(), Draws::default());
    assert_eq!(f.enc.turn, TurnPhase::ResultText);
    assert_eq!(f.enc.timer, 0);
}

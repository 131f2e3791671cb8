use gorkitale::{
    asset_list, parse_u32, parse_users, record_of, split_text, AssetType, Language, MenuSubState,
    SystemState, TextResources, User, ASSET_COUNT,
};

fn user(name: &str, t: u32, c: u32, k: u32, s: u32) -> User {
    User { username: name.to_string(), teblig_count: t, cihad_count: c, tekfir_count: k, current_stage: s }
}

#[test]
fn record_reads_full_and_short_lines() {
    let users = parse_users("ayşe,1,2,3,4\nbob,5,x,7\r\nbad,1\n\ncem,+8,9,10,zz\n");
    assert_eq!(users.len(), 3);
    assert_eq!(users[0].username, "ayşe");
    assert_eq!((users[0].teblig_count, users[0].cihad_count, users[0].tekfir_count, users[0].current_stage), (1, 2, 3, 4));
    assert_eq!((users[1].teblig_count, users[1].cihad_count, users[1].tekfir_count, users[1].current_stage), (5, 0, 7, 1));
    assert_eq!(users[2].username, "cem");
    assert_eq!((users[2].teblig_count, users[2].current_stage), (8, 1));
}

#[test]
fn empty_record_has_no_users() {
    let s = SystemState::new("");
    assert!(s.users.is_empty());
    assert!(s.current_user.is_none());
    assert_eq!(s.language, Language::English);
}

#[test]
fn record_round_trips() {
    let users = vec![user("ali", 1, 22, 333, 4), user("veli", 0, 0, 0, 1)];
    let text = record_of(&users);
    assert_eq!(text, "ali,1,22,333,4\nveli,0,0,0,1\n");
    let back = parse_users(&text);
    assert_eq!(back.len(), 2);
    assert_eq!(back[0].username, "ali");
    assert_eq!(back[0].tekfir_count, 333);
    assert_eq!(back[1].current_stage, 1);
}

#[test]
fn numbers_read_like_u32() {
    assert_eq!(parse_u32("0"), Some(0));
    assert_eq!(parse_u32("+5"), Some(5));
    assert_eq!(parse_u32("4294967295"), Some(u32::MAX));
    assert_eq!(parse_u32("4294967296"), None);
    assert_eq!(parse_u32("99999999999999999999"), None);
    assert_eq!(parse_u32(""), None);
    assert_eq!(parse_u32("+"), None);
    assert_eq!(parse_u32("-1"), None);
    assert_eq!(parse_u32("1 "), None);
}

#[test]
fn split_keeps_empty_pieces() {
    assert_eq!(split_text("a,,b,", ','), vec!["a", "", "b", ""]);
    assert_eq!(split_text("", ','), vec![""]);
}

#[test]
fn save_copies_current_progress() {
    let mut s = SystemState::new("ali,1,2,3,4\nveli,0,0,0,1\n");
    s.current_user = Some(user("veli", 9, 8, 7, 2));
    let text = s.save_users();
    assert_eq!(text, "ali,1,2,3,4\nveli,9,8,7,2\n");
}

#[test]
fn user_moves_to_top() {
    let mut s = SystemState::new("ali,1,2,3,4\nveli,0,0,0,1\ncan,5,5,5,5\n");
    let text = s.set_user_as_top(2);
    assert_eq!(text.as_deref(), Some("can,5,5,5,5\nali,1,2,3,4\nveli,0,0,0,1\n"));
    assert_eq!(s.set_user_as_top(3), None);
    assert_eq!(s.users[0].username, "can");
}

#[test]
fn text_tables_have_full_pools() {
    for t in [TextResources::new_turkish(), TextResources::new_english()] {
        assert_eq!(t.combat_actions.munafik.len(), 3);
        assert_eq!(t.combat_actions.yecuc.len(), 3);
        assert_eq!(t.game_over_messages.equal.len(), 5);
    }
    let en = TextResources::new_english();
    assert_eq!(en.ui.game_over_title, "GAME OVER");
    assert_eq!(en.ui.user_label, "User: ");
    assert_eq!(en.combat_actions.munafik[0], "You called him Hypocrite.\nHe shrugged.");
    assert_eq!(en.gaster_dialogues, vec!["darker darker yet darker...", "photon readings negative...", "this next experiment..."]);
    assert_eq!(en.game_over_messages.equal[4], "Skill issue.");
    let tr = TextResources::new_turkish();
    assert_eq!(tr.ui.game_over_title, "OYUN BİTTİ");
    assert_eq!(tr.ui.return_menu, "Menüye Dön");
    assert_eq!(tr.combat_actions.munafik[0], "Ona Münafık dedin.\nOmuz silkti.");
    assert_eq!(tr.gaster_dialogues[0], "çakar çakmaz çakan çakmak...");
    assert_eq!(tr.game_over_messages.equal[0], "Nice try, maybe next time.");
    for line in &tr.combat_actions.yecuc {
        assert!(line.starts_with("Ona Yecüc dedin.\n"));
    }
}

#[test]
fn asset_catalogue() {
    let list = asset_list();
    assert_eq!(list.len(), ASSET_COUNT);
    assert_eq!(list[0].path, "./assets/chara1.png");
    assert_eq!(list[14].asset_type, AssetType::Sound);
    assert_eq!(list[19].name, "Player Takke");
    assert_eq!(list[19].path, "./assets/chara_mavi_takke.png");
    assert_ne!(MenuSubState::Main, MenuSubState::Credits);
}

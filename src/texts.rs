//! Text tables: the dialogue-line pools of combat actions and the strings
//! of other scenes, in Turkish and in English.
use vstd::prelude::*;

verus! {

/// All texts of one language.
pub struct TextResources {
    pub combat_actions: CombatActionTexts,
    pub gaster_dialogues: Vec<String>,
    pub game_over_messages: GameOverMessages,
    pub ui: UiTexts,
}

/// Line pools, one per accusation that the player can make in combat.
pub struct CombatActionTexts {
    pub munafik: Vec<String>,
    pub kafir: Vec<String>,
    pub zindik: Vec<String>,
    pub tagut: Vec<String>,
    pub deccal: Vec<String>,
    pub ebu_cehil: Vec<String>,
    pub yecuc: Vec<String>,
}

/// Closing messages of the game-over screen, by which action dominated.
pub struct GameOverMessages {
    pub teblig_high: Vec<String>,
    pub tekfir_high: Vec<String>,
    pub equal: Vec<String>,
}

/// Labels of the game-over screen.
pub struct UiTexts {
    pub game_over_title: String,
    pub return_menu: String,
    pub quit_game: String,
    pub user_label: String,
}

impl CombatActionTexts {
    /// Every pool has a line to pick.
    pub open spec fn wf(&self) -> bool {
        &&& self.munafik.len() > 0
        &&& self.kafir.len() > 0
        &&& self.zindik.len() > 0
        &&& self.tagut.len() > 0
        &&& self.deccal.len() > 0
        &&& self.ebu_cehil.len() > 0
        &&& self.yecuc.len() > 0
    }
}

/// The texts of a list of lines.
pub open spec fn lines_of(v: Vec<String>) -> Seq<Seq<char>> {
    v@.map_values(|s: String| s@)
}

/// Owned copies of string literals, in order.
fn owned_lines(v: Vec<&'static str>) -> (r: Vec<String>)
    ensures
        lines_of(r) == v@.map_values(|s: &'static str| s@),
{
    let mut r: Vec<String> = Vec::new();
    let mut i: usize = 0;
    while i < v.len()
        invariant
            i <= v.len(),
            r@.len() == i,
            forall|j: int| 0 <= j < i ==> #[trigger] r@[j]@ == v@[j]@,
        decreases v.len() - i,
    {
        r.push(v[i].to_string());
        i = i + 1;
    }
    assert(lines_of(r) =~= v@.map_values(|s: &'static str| s@));
    r
}

/// The Turkish `munafik` lines.
pub open spec fn turkish_munafik() -> Seq<Seq<char>> {
    seq![
        "Ona Münafık dedin.\nOmuz silkti."@,
        "Ona Münafık dedin.\n'Kanıtın var mı?' dedi."@,
        "Ona Münafık dedin.\nGülüp geçti."@,
    ]
}

/// The Turkish `kafir` lines.
pub open spec fn turkish_kafir() -> Seq<Seq<char>> {
    seq![
        "Ona Kafir dedin.\nSırıttı."@,
        "Ona Kafir dedin.\n'Bunu iltifat sayarım' dedi."@,
        "Ona Kafir dedin.\nSeni ciddiye almadı."@,
    ]
}

/// The Turkish `zindik` lines.
pub open spec fn turkish_zindik() -> Seq<Seq<char>> {
    seq![
        "Ona Zındık dedin.\nKahkaha attı."@,
        "Ona Zındık dedin.\n'Eski moda bir hakaret' dedi."@,
        "Ona Zındık dedin.\nSadece başını salladı."@,
    ]
}

/// The Turkish `tagut` lines.
pub open spec fn turkish_tagut() -> Seq<Seq<char>> {
    seq![
        "Ona Tağut dedin.\nGöz kırptı."@,
        "Ona Tağut dedin.\n'Gücümü kabul ediyorsun' dedi."@,
        "Ona Tağut dedin.\nSana tepeden baktı."@,
    ]
}

/// The Turkish `deccal` lines.
pub open spec fn turkish_deccal() -> Seq<Seq<char>> {
    seq![
        "Ona Deccal dedin.\n'Tek gözüm bile yeter' dedi."@,
        "Ona Deccal dedin.\nAlnını gösterdi."@,
        "Ona Deccal dedin.\n'Daha zamanı gelmedi' dedi."@,
    ]
}

/// The Turkish `ebu_cehil` lines.
pub open spec fn turkish_ebu_cehil() -> Seq<Seq<char>> {
    seq![
        "Ona Ebu Cehil dedin.\n'Cehalet mutluluktur' dedi."@,
        "Ona Ebu Cehil dedin.\nKarpuz fırlattı."@,
        "Ona Ebu Cehil dedin.\n'Bedir'de görüşürüz' dedi."@,
    ]
}

/// The Turkish `yecuc` lines.
pub open spec fn turkish_yecuc() -> Seq<Seq<char>> {
    seq![
        "Ona Yecüc dedin.\n'Mecüc nerede?' diye sordu."@,
        "Ona Yecüc dedin.\nDuvarı kemirmeye başladı."@,
        "Ona Yecüc dedin.\nSürü halinde saldırdı."@,
    ]
}

/// The Turkish `gaster_dialogues` lines.
pub open spec fn turkish_gaster() -> Seq<Seq<char>> {
    seq![
        "çakar çakmaz çakan çakmak..."@,
        "bir berber bir berbere..."@,
        "şu köşe yaz köşesi..."@,
    ]
}

/// The Turkish `teblig_high` lines.
pub open spec fn turkish_teblig_high() -> Seq<Seq<char>> {
    seq![
        "Tebliğin yetersiz kaldı..."@,
        "Daha fazla anlatmalıydın."@,
        "Sözlerin kalplere ulaşmadı."@,
        "Hidayet Allah'tandır ama sen de çabalamadın."@,
    ]
}

/// The Turkish `tekfir_high` lines.
pub open spec fn turkish_tekfir_high() -> Seq<Seq<char>> {
    seq![
        "Herkesi tekfir ettin, yalnız kaldın."@,
        "Aşırılık seni bitirdi."@,
        "Tekfir kılıcı seni de kesti."@,
        "Hariciler bile senden korkardı."@,
    ]
}

/// The Turkish `equal` lines.
pub open spec fn turkish_equal() -> Seq<Seq<char>> {
    seq![
        "Nice try, maybe next time."@,
        "Klavye kullanmayı yeni mi öğrendin?"@,
        "Ne emmeye ne gömmeye..."@,
        "Ortada kaldın, arafta yandın."@,
        "Skill issue."@,
    ]
}

/// The English `munafik` lines.
pub open spec fn english_munafik() -> Seq<Seq<char>> {
    seq![
        "You called him Hypocrite.\nHe shrugged."@,
        "You called him Hypocrite.\n'Got proof?' he asked."@,
        "You called him Hypocrite.\nHe laughed it off."@,
    ]
}

/// The English `kafir` lines.
pub open spec fn english_kafir() -> Seq<Seq<char>> {
    seq![
        "You called him Infidel.\nHe grinned."@,
        "You called him Infidel.\n'I take that as a compliment' he said."@,
        "You called him Infidel.\nHe didn't take you seriously."@,
    ]
}

/// The English `zindik` lines.
pub open spec fn english_zindik() -> Seq<Seq<char>> {
    seq![
        "You called him Heretic.\nHe laughed out loud."@,
        "You called him Heretic.\n'Old fashioned insult' he said."@,
        "You called him Heretic.\nHe just nodded."@,
    ]
}

/// The English `tagut` lines.
pub open spec fn english_tagut() -> Seq<Seq<char>> {
    seq![
        "You called him Tyrant.\nHe winked."@,
        "You called him Tyrant.\n'You acknowledge my power' he said."@,
        "You called him Tyrant.\nHe looked down on you."@,
    ]
}

/// The English `deccal` lines.
pub open spec fn english_deccal() -> Seq<Seq<char>> {
    seq![
        "You called him Antichrist.\n'One eye is enough' he said."@,
        "You called him Antichrist.\nHe pointed to his forehead."@,
        "You called him Antichrist.\n'Not time yet' he said."@,
    ]
}

/// The English `ebu_cehil` lines.
pub open spec fn english_ebu_cehil() -> Seq<Seq<char>> {
    seq![
        "You called him Abu Jahl.\n'Ignorance is bliss' he said."@,
        "You called him Abu Jahl.\nHe threw a watermelon."@,
        "You called him Abu Jahl.\n'See you at Badr' he said."@,
    ]
}

/// The English `yecuc` lines.
pub open spec fn english_yecuc() -> Seq<Seq<char>> {
    seq![
        "You called him Gog.\n'Where is Magog?' he asked."@,
        "You called him Gog.\nHe started gnawing the wall."@,
        "You called him Gog.\nHe attacked in a swarm."@,
    ]
}

/// The English `gaster_dialogues` lines.
pub open spec fn english_gaster() -> Seq<Seq<char>> {
    seq![
        "darker darker yet darker..."@,
        "photon readings negative..."@,
        "this next experiment..."@,
    ]
}

/// The English `teblig_high` lines.
pub open spec fn english_teblig_high() -> Seq<Seq<char>> {
    seq![
        "Your preaching was insufficient..."@,
        "You should have explained more."@,
        "Your words did not reach hearts."@,
        "Guidance is from God, but you didn't try enough."@,
    ]
}

/// The English `tekfir_high` lines.
pub open spec fn english_tekfir_high() -> Seq<Seq<char>> {
    seq![
        "You excommunicated everyone, now you are alone."@,
        "Extremism finished you."@,
        "The sword of Takfir cut you too."@,
        "Even Kharijites would fear you."@,
    ]
}

/// The English `equal` lines.
pub open spec fn english_equal() -> Seq<Seq<char>> {
    seq![
        "Nice try, maybe next time."@,
        "Did you just learn to use a keyboard?"@,
        "Neither here nor there..."@,
        "Stuck in the middle, burned in limbo."@,
        "Skill issue."@,
    ]
}

impl TextResources {
    /// Every pool of combat lines has a line to pick.
    pub open spec fn wf(&self) -> bool {
        self.combat_actions.wf()
    }

    /// The Turkish texts.
    pub fn new_turkish() -> (r: Self)
        ensures
            r.wf(),
            lines_of(r.combat_actions.munafik) == turkish_munafik(),
            lines_of(r.combat_actions.kafir) == turkish_kafir(),
            lines_of(r.combat_actions.zindik) == turkish_zindik(),
            lines_of(r.combat_actions.tagut) == turkish_tagut(),
            lines_of(r.combat_actions.deccal) == turkish_deccal(),
            lines_of(r.combat_actions.ebu_cehil) == turkish_ebu_cehil(),
            lines_of(r.combat_actions.yecuc) == turkish_yecuc(),
            lines_of(r.gaster_dialogues) == turkish_gaster(),
            lines_of(r.game_over_messages.teblig_high) == turkish_teblig_high(),
            lines_of(r.game_over_messages.tekfir_high) == turkish_tekfir_high(),
            lines_of(r.game_over_messages.equal) == turkish_equal(),
            r.ui.game_over_title@ == "OYUN BİTTİ"@,
            r.ui.return_menu@ == "Menüye Dön"@,
            r.ui.quit_game@ == "Oyundan Çık"@,
            r.ui.user_label@ == "Kullanıcı: "@,
    {
        let munafik = vec![
            "Ona Münafık dedin.\nOmuz silkti.",
            "Ona Münafık dedin.\n'Kanıtın var mı?' dedi.",
            "Ona Münafık dedin.\nGülüp geçti.",
        ];
        assert(munafik@.map_values(|s: &'static str| s@) =~= turkish_munafik());
        let munafik = owned_lines(munafik);
        let kafir = vec![
            "Ona Kafir dedin.\nSırıttı.",
            "Ona Kafir dedin.\n'Bunu iltifat sayarım' dedi.",
            "Ona Kafir dedin.\nSeni ciddiye almadı.",
        ];
        assert(kafir@.map_values(|s: &'static str| s@) =~= turkish_kafir());
        let kafir = owned_lines(kafir);
        let zindik = vec![
            "Ona Zındık dedin.\nKahkaha attı.",
            "Ona Zındık dedin.\n'Eski moda bir hakaret' dedi.",
            "Ona Zındık dedin.\nSadece başını salladı.",
        ];
        assert(zindik@.map_values(|s: &'static str| s@) =~= turkish_zindik());
        let zindik = owned_lines(zindik);
        let tagut = vec![
            "Ona Tağut dedin.\nGöz kırptı.",
            "Ona Tağut dedin.\n'Gücümü kabul ediyorsun' dedi.",
            "Ona Tağut dedin.\nSana tepeden baktı.",
        ];
        assert(tagut@.map_values(|s: &'static str| s@) =~= turkish_tagut());
        let tagut = owned_lines(tagut);
        let deccal = vec![
            "Ona Deccal dedin.\n'Tek gözüm bile yeter' dedi.",
            "Ona Deccal dedin.\nAlnını gösterdi.",
            "Ona Deccal dedin.\n'Daha zamanı gelmedi' dedi.",
        ];
        assert(deccal@.map_values(|s: &'static str| s@) =~= turkish_deccal());
        let deccal = owned_lines(deccal);
        let ebu_cehil = vec![
            "Ona Ebu Cehil dedin.\n'Cehalet mutluluktur' dedi.",
            "Ona Ebu Cehil dedin.\nKarpuz fırlattı.",
            "Ona Ebu Cehil dedin.\n'Bedir'de görüşürüz' dedi.",
        ];
        assert(ebu_cehil@.map_values(|s: &'static str| s@) =~= turkish_ebu_cehil());
        let ebu_cehil = owned_lines(ebu_cehil);
        let yecuc = vec![
            "Ona Yecüc dedin.\n'Mecüc nerede?' diye sordu.",
            "Ona Yecüc dedin.\nDuvarı kemirmeye başladı.",
            "Ona Yecüc dedin.\nSürü halinde saldırdı.",
        ];
        assert(yecuc@.map_values(|s: &'static str| s@) =~= turkish_yecuc());
        let yecuc = owned_lines(yecuc);
        let gaster_dialogues = vec![
            "çakar çakmaz çakan çakmak...",
            "bir berber bir berbere...",
            "şu köşe yaz köşesi...",
        ];
        assert(gaster_dialogues@.map_values(|s: &'static str| s@) =~= turkish_gaster());
        let gaster_dialogues = owned_lines(gaster_dialogues);
        let teblig_high = vec![
            "Tebliğin yetersiz kaldı...",
            "Daha fazla anlatmalıydın.",
            "Sözlerin kalplere ulaşmadı.",
            "Hidayet Allah'tandır ama sen de çabalamadın.",
        ];
        assert(teblig_high@.map_values(|s: &'static str| s@) =~= turkish_teblig_high());
        let teblig_high = owned_lines(teblig_high);
        let tekfir_high = vec![
            "Herkesi tekfir ettin, yalnız kaldın.",
            "Aşırılık seni bitirdi.",
            "Tekfir kılıcı seni de kesti.",
            "Hariciler bile senden korkardı.",
        ];
        assert(tekfir_high@.map_values(|s: &'static str| s@) =~= turkish_tekfir_high());
        let tekfir_high = owned_lines(tekfir_high);
        let equal = vec![
            "Nice try, maybe next time.",
            "Klavye kullanmayı yeni mi öğrendin?",
            "Ne emmeye ne gömmeye...",
            "Ortada kaldın, arafta yandın.",
            "Skill issue.",
        ];
        assert(equal@.map_values(|s: &'static str| s@) =~= turkish_equal());
        let equal = owned_lines(equal);
        TextResources {
            combat_actions: CombatActionTexts { munafik, kafir, zindik, tagut, deccal, ebu_cehil, yecuc },
            gaster_dialogues,
            game_over_messages: GameOverMessages { teblig_high, tekfir_high, equal },
            ui: UiTexts {
                game_over_title: "OYUN BİTTİ".to_string(),
                return_menu: "Menüye Dön".to_string(),
                quit_game: "Oyundan Çık".to_string(),
                user_label: "Kullanıcı: ".to_string(),
            },
        }
    }

    /// The English texts.
    pub fn new_english() -> (r: Self)
        ensures
            r.wf(),
            lines_of(r.combat_actions.munafik) == english_munafik(),
            lines_of(r.combat_actions.kafir) == english_kafir(),
            lines_of(r.combat_actions.zindik) == english_zindik(),
            lines_of(r.combat_actions.tagut) == english_tagut(),
            lines_of(r.combat_actions.deccal) == english_deccal(),
            lines_of(r.combat_actions.ebu_cehil) == english_ebu_cehil(),
            lines_of(r.combat_actions.yecuc) == english_yecuc(),
            lines_of(r.gaster_dialogues) == english_gaster(),
            lines_of(r.game_over_messages.teblig_high) == english_teblig_high(),
            lines_of(r.game_over_messages.tekfir_high) == english_tekfir_high(),
            lines_of(r.game_over_messages.equal) == english_equal(),
            r.ui.game_over_title@ == "GAME OVER"@,
            r.ui.return_menu@ == "Return to Menu"@,
            r.ui.quit_game@ == "Quit Game"@,
            r.ui.user_label@ == "User: "@,
    {
        let munafik = vec![
            "You called him Hypocrite.\nHe shrugged.",
            "You called him Hypocrite.\n'Got proof?' he asked.",
            "You called him Hypocrite.\nHe laughed it off.",
        ];
        assert(munafik@.map_values(|s: &'static str| s@) =~= english_munafik());
        let munafik = owned_lines(munafik);
        let kafir = vec![
            "You called him Infidel.\nHe grinned.",
            "You called him Infidel.\n'I take that as a compliment' he said.",
            "You called him Infidel.\nHe didn't take you seriously.",
        ];
        assert(kafir@.map_values(|s: &'static str| s@) =~= english_kafir());
        let kafir = owned_lines(kafir);
        let zindik = vec![
            "You called him Heretic.\nHe laughed out loud.",
            "You called him Heretic.\n'Old fashioned insult' he said.",
            "You called him Heretic.\nHe just nodded.",
        ];
        assert(zindik@.map_values(|s: &'static str| s@) =~= english_zindik());
        let zindik = owned_lines(zindik);
        let tagut = vec![
            "You called him Tyrant.\nHe winked.",
            "You called him Tyrant.\n'You acknowledge my power' he said.",
            "You called him Tyrant.\nHe looked down on you.",
        ];
        assert(tagut@.map_values(|s: &'static str| s@) =~= english_tagut());
        let tagut = owned_lines(tagut);
        let deccal = vec![
            "You called him Antichrist.\n'One eye is enough' he said.",
            "You called him Antichrist.\nHe pointed to his forehead.",
            "You called him Antichrist.\n'Not time yet' he said.",
        ];
        assert(deccal@.map_values(|s: &'static str| s@) =~= english_deccal());
        let deccal = owned_lines(deccal);
        let ebu_cehil = vec![
            "You called him Abu Jahl.\n'Ignorance is bliss' he said.",
            "You called him Abu Jahl.\nHe threw a watermelon.",
            "You called him Abu Jahl.\n'See you at Badr' he said.",
        ];
        assert(ebu_cehil@.map_values(|s: &'static str| s@) =~= english_ebu_cehil());
        let ebu_cehil = owned_lines(ebu_cehil);
        let yecuc = vec![
            "You called him Gog.\n'Where is Magog?' he asked.",
            "You called him Gog.\nHe started gnawing the wall.",
            "You called him Gog.\nHe attacked in a swarm.",
        ];
        assert(yecuc@.map_values(|s: &'static str| s@) =~= english_yecuc());
        let yecuc = owned_lines(yecuc);
        let gaster_dialogues = vec![
            "darker darker yet darker...",
            "photon readings negative...",
            "this next experiment...",
        ];
        assert(gaster_dialogues@.map_values(|s: &'static str| s@) =~= english_gaster());
        let gaster_dialogues = owned_lines(gaster_dialogues);
        let teblig_high = vec![
            "Your preaching was insufficient...",
            "You should have explained more.",
            "Your words did not reach hearts.",
            "Guidance is from God, but you didn't try enough.",
        ];
        assert(teblig_high@.map_values(|s: &'static str| s@) =~= english_teblig_high());
        let teblig_high = owned_lines(teblig_high);
        let tekfir_high = vec![
            "You excommunicated everyone, now you are alone.",
            "Extremism finished you.",
            "The sword of Takfir cut you too.",
            "Even Kharijites would fear you.",
        ];
        assert(tekfir_high@.map_values(|s: &'static str| s@) =~= english_tekfir_high());
        let tekfir_high = owned_lines(tekfir_high);
        let equal = vec![
            "Nice try, maybe next time.",
            "Did you just learn to use a keyboard?",
            "Neither here nor there...",
            "Stuck in the middle, burned in limbo.",
            "Skill issue.",
        ];
        assert(equal@.map_values(|s: &'static str| s@) =~= english_equal());
        let equal = owned_lines(equal);
        TextResources {
            combat_actions: CombatActionTexts { munafik, kafir, zindik, tagut, deccal, ebu_cehil, yecuc },
            gaster_dialogues,
            game_over_messages: GameOverMessages { teblig_high, tekfir_high, equal },
            ui: UiTexts {
                game_over_title: "GAME OVER".to_string(),
                return_menu: "Return to Menu".to_string(),
                quit_game: "Quit Game".to_string(),
                user_label: "User: ".to_string(),
            },
        }
    }
}

} // verus!

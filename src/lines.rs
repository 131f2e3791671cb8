//! The fixed dialogue lines of the encounter: the pools that do not come
//! from the text provider, and the single lines of its transitions.
use vstd::prelude::*;

verus! {

/// Replies to being called a polytheist.
pub open spec fn musrik_lines() -> Seq<&'static str> {
    seq![
        "Ona Müşrik dedin.\nSana güldü.",
        "Ona Müşrik dedin.\n'Sen de kimsin?' dedi.",
        "Ona Müşrik dedin.\nUmursamadı bile.",
    ]
}

pub fn musrik_lines_vec() -> (r: Vec<&'static str>)
    ensures
        r@ == musrik_lines(),
{
    let r = vec![
            "Ona Müşrik dedin.\nSana güldü.",
            "Ona Müşrik dedin.\n'Sen de kimsin?' dedi.",
            "Ona Müşrik dedin.\nUmursamadı bile.",
    ];
    assert(r@ =~= musrik_lines());
    r
}

/// Replies to being called a sinner.
pub open spec fn fasik_lines() -> Seq<&'static str> {
    seq![
        "Ona Fasık dedin.\nUmursamadı.",
        "Ona Fasık dedin.\nEsneyerek cevap verdi.",
        "Ona Fasık dedin.\nSana acıyarak baktı.",
    ]
}

pub fn fasik_lines_vec() -> (r: Vec<&'static str>)
    ensures
        r@ == fasik_lines(),
{
    let r = vec![
            "Ona Fasık dedin.\nUmursamadı.",
            "Ona Fasık dedin.\nEsneyerek cevap verdi.",
            "Ona Fasık dedin.\nSana acıyarak baktı.",
    ];
    assert(r@ =~= fasik_lines());
    r
}

/// Outcomes of preaching to the enemy.
pub open spec fn teblig_lines() -> Seq<&'static str> {
    seq![
        "Ona İslam'ı anlattın.\nSana güldü.",
        "Tövbe etmesini söyledin.\nUmursamadı.",
        "Cehennem ateşinden bahsettin.\nOmuz silkti.",
        "Ona hidayet diledin.\nHala sırıtıyor.",
        "Ona Kuran okudun.\nRahatsız oldu.",
        "Ona hadis anlattın.\nKulaklarını tıkadı.",
        "Ona ölümü hatırlattın.\nÜrperdi ama belli etmedi.",
        "Ona cenneti anlattın.\n'İlgilenmiyorum' dedi.",
        "Ona selam verdin.\nAlmadı.",
        "Ona dua ettin.\nGözlerini devirdi.",
        "Ona zemzem ikram ettin.\n'Kola yok mu?' dedi.",
        "Ona misvak uzattın.\n'Diş fırçam var' dedi.",
        "Ona takke takmaya çalıştın.\nKafasını çekti.",
        "Ona tesbih hediye ettin.\nBoncuk sandı.",
        "Ona Cuma mesajı attın.\nEngelledi.",
        "Ona ilahi dinlettin.\nKulaklığını taktı.",
        "Ona hurma verdin.\nÇekirdeğini sana attı.",
        "Ona gül suyu sıktın.\n'Alerjim var' dedi.",
        "Ona seccade serdin.\nÜstüne bastı.",
        "Ona ezan okudun.\n'Sesin kötü' dedi.",
    ]
}

pub fn teblig_lines_vec() -> (r: Vec<&'static str>)
    ensures
        r@ == teblig_lines(),
{
    let r = vec![
            "Ona İslam'ı anlattın.\nSana güldü.",
            "Tövbe etmesini söyledin.\nUmursamadı.",
            "Cehennem ateşinden bahsettin.\nOmuz silkti.",
            "Ona hidayet diledin.\nHala sırıtıyor.",
            "Ona Kuran okudun.\nRahatsız oldu.",
            "Ona hadis anlattın.\nKulaklarını tıkadı.",
            "Ona ölümü hatırlattın.\nÜrperdi ama belli etmedi.",
            "Ona cenneti anlattın.\n'İlgilenmiyorum' dedi.",
            "Ona selam verdin.\nAlmadı.",
            "Ona dua ettin.\nGözlerini devirdi.",
            "Ona zemzem ikram ettin.\n'Kola yok mu?' dedi.",
            "Ona misvak uzattın.\n'Diş fırçam var' dedi.",
            "Ona takke takmaya çalıştın.\nKafasını çekti.",
            "Ona tesbih hediye ettin.\nBoncuk sandı.",
            "Ona Cuma mesajı attın.\nEngelledi.",
            "Ona ilahi dinlettin.\nKulaklığını taktı.",
            "Ona hurma verdin.\nÇekirdeğini sana attı.",
            "Ona gül suyu sıktın.\n'Alerjim var' dedi.",
            "Ona seccade serdin.\nÜstüne bastı.",
            "Ona ezan okudun.\n'Sesin kötü' dedi.",
    ];
    assert(r@ =~= teblig_lines());
    r
}

/// What the enemy says before its turn.
pub open spec fn taunt_lines() -> Seq<&'static str> {
    seq![
        "heh heh heh...",
        "you're gonna have a bad time.",
        "it's a beautiful day outside.",
        "birds are singing, flowers are blooming...",
        "on days like these, kids like you...",
        "should be burning in hell.",
        "take it easy, kid.",
        "don't you have anything better to do?",
        "i'm rooting for ya, kid.",
        "geeeeeet dunked on!",
    ]
}

pub fn taunt_lines_vec() -> (r: Vec<&'static str>)
    ensures
        r@ == taunt_lines(),
{
    let r = vec![
            "heh heh heh...",
            "you're gonna have a bad time.",
            "it's a beautiful day outside.",
            "birds are singing, flowers are blooming...",
            "on days like these, kids like you...",
            "should be burning in hell.",
            "take it easy, kid.",
            "don't you have anything better to do?",
            "i'm rooting for ya, kid.",
            "geeeeeet dunked on!",
    ];
    assert(r@ =~= taunt_lines());
    r
}

/// The decimal digit for `d < 10`.
pub open spec fn digit(d: int) -> char {
    if d == 0 {
        '0'
    } else if d == 1 {
        '1'
    } else if d == 2 {
        '2'
    } else if d == 3 {
        '3'
    } else if d == 4 {
        '4'
    } else if d == 5 {
        '5'
    } else if d == 6 {
        '6'
    } else if d == 7 {
        '7'
    } else if d == 8 {
        '8'
    } else {
        '9'
    }
}

/// The decimal notation of `n`, without sign or leading zeros.
pub open spec fn decimal(n: nat) -> Seq<char>
    decreases n,
{
    if n < 10 {
        seq![digit(n as int)]
    } else {
        decimal(n / 10).push(digit((n % 10) as int))
    }
}

/// Relies on `ToString` for `u32` (through its `Display`), which writes the
/// value in decimal without sign, padding or leading zeros.
#[verifier::external_body]
pub(crate) fn decimal_text(n: u32) -> (r: String)
    ensures
        r@ == decimal(n as nat),
{
    n.to_string()
}

/// The line that reports a hit.
pub open spec fn hit_line(damage: nat) -> Seq<char> {
    "CİHAD! "@ + decimal(damage) + " HASAR"@
}

/// The line that reports a hit of `damage`.
pub fn hit_text(damage: u32) -> (r: String)
    ensures
        r@ == hit_line(damage as nat),
{
    let mut s = "CİHAD! ".to_string();
    let d = decimal_text(damage);
    s.append(d.as_str());
    s.append(" HASAR");
    s
}

/// The line `pool` holds at `roll`, taken modulo the pool's size.
pub open spec fn pick_line(pool: Seq<&'static str>, roll: int) -> Seq<char> {
    pool[roll % pool.len() as int]@
}

/// The line `pool` holds at `roll`, taken modulo the pool's size.
pub open spec fn pick_text(pool: Seq<String>, roll: int) -> Seq<char> {
    pool[roll % pool.len() as int]@
}

/// The line `pool` holds at `roll`, taken modulo the pool's size.
pub fn pick_static(pool: &Vec<&'static str>, roll: u32) -> (r: String)
    requires
        pool.len() > 0,
    ensures
        r@ == pick_line(pool@, roll as int),
{
    let k = (roll as usize) % pool.len();
    pool[k].to_string()
}

/// The line `pool` holds at `roll`, taken modulo the pool's size.
pub fn pick_owned(pool: &Vec<String>, roll: u32) -> (r: String)
    requires
        pool.len() > 0,
    ensures
        r@ == pick_text(pool@, roll as int),
{
    let k = (roll as usize) % pool.len();
    pool[k].clone()
}

} // verus!

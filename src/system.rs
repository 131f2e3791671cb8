//! User profiles: the lifetime counters that combat actions raise, the
//! stage reached, and the flat text record in which they are kept.
use crate::lines::{decimal, decimal_text};
use vstd::prelude::*;

verus! {

/// The language of the game's texts.
#[derive(Clone, Copy, Debug, PartialEq, Eq, Structural)]
pub enum Language {
    English,
    Turkish,
}

/// A user's profile and lifetime counters.
#[derive(Clone, Debug)]
pub struct User {
    pub username: String,
    /// Times the user preached to the enemy.
    pub teblig_count: u32,
    /// Times the user hit the enemy.
    pub cihad_count: u32,
    /// Times the user accused the enemy.
    pub tekfir_count: u32,
    /// The overworld stage the user has reached.
    pub current_stage: u32,
}

/// The known users and the one logged in.
pub struct SystemState {
    pub language: Language,
    pub users: Vec<User>,
    pub current_user: Option<User>,
}

/// Index of the first user of `users` named `name`, if any.
pub open spec fn first_named(users: Seq<User>, name: Seq<char>) -> Option<int>
    decreases users.len(),
{
    if users.len() == 0 {
        None
    } else {
        match first_named(users.drop_last(), name) {
            Some(i) => Some(i),
            None => if users.last().username@ == name {
                Some(users.len() - 1)
            } else {
                None
            },
        }
    }
}

/// `u` with the counters and stage of `from`.
pub open spec fn with_progress_of(u: User, from: User) -> User {
    User {
        username: u.username,
        teblig_count: from.teblig_count,
        cihad_count: from.cihad_count,
        tekfir_count: from.tekfir_count,
        current_stage: from.current_stage,
    }
}

/// The user list after the logged-in user's progress is copied into the
/// first entry of the same name; unchanged when none matches.
pub open spec fn synced(users: Seq<User>, current: Option<User>) -> Seq<User> {
    match current {
        None => users,
        Some(c) => match first_named(users, c.username@) {
            None => users,
            Some(i) => users.update(i, with_progress_of(users[i], c)),
        },
    }
}

proof fn lemma_first_named_step(users: Seq<User>, name: Seq<char>, i: int)
    requires
        0 <= i < users.len(),
        first_named(users.take(i), name) is None,
    ensures
        users[i].username@ == name ==> first_named(users.take(i + 1), name) == Some(i),
        users[i].username@ != name ==> first_named(users.take(i + 1), name) is None,
{
    assert(users.take(i + 1).drop_last() =~= users.take(i));
}

proof fn lemma_first_named_valid(users: Seq<User>, name: Seq<char>)
    ensures
        first_named(users, name) matches Some(i) ==> 0 <= i < users.len(),
    decreases users.len(),
{
    if users.len() > 0 {
        lemma_first_named_valid(users.drop_last(), name);
    }
}

proof fn lemma_first_named_prefix(users: Seq<User>, name: Seq<char>, k: int)
    requires
        0 <= k <= users.len(),
        first_named(users.take(k), name) is Some,
    ensures
        first_named(users, name) == first_named(users.take(k), name),
    decreases users.len(),
{
    if users.len() > k {
        assert(users.drop_last().take(k) =~= users.take(k));
        lemma_first_named_prefix(users.drop_last(), name, k);
    } else {
        assert(users.take(k) =~= users);
    }
}

/// Index of the first user of `users` named `name`.
pub(crate) fn position_of(users: &Vec<User>, name: &String) -> (r: Option<usize>)
    ensures
        r matches Some(i) ==> first_named(users@, name@) == Some(i as int),
        r is None ==> first_named(users@, name@) is None,
{
    let mut i: usize = 0;
    while i < users.len()
        invariant
            i <= users.len(),
            first_named(users@.take(i as int), name@) is None,
        decreases users.len() - i,
    {
        proof {
            lemma_first_named_step(users@, name@, i as int);
        }
        if users[i].username == *name {
            proof {
                lemma_first_named_prefix(users@, name@, i as int + 1);
            }
            return Some(i);
        }
        i = i + 1;
    }
    assert(users@.take(i as int) =~= users@);
    None
}

/// One user's line of the record: name and the four numbers, separated by
/// commas.
pub open spec fn user_line(u: User) -> Seq<char> {
    u.username@ + ","@ + decimal(u.teblig_count as nat) + ","@ + decimal(u.cihad_count as nat) + ","@
        + decimal(u.tekfir_count as nat) + ","@ + decimal(u.current_stage as nat) + "\n"@
}

/// The record of all users, one line each, in order.
pub open spec fn users_record(users: Seq<User>) -> Seq<char>
    decreases users.len(),
{
    if users.len() == 0 {
        Seq::empty()
    } else {
        users_record(users.drop_last()) + user_line(users.last())
    }
}

/// The record of `users`.
pub fn record_of(users: &Vec<User>) -> (r: String)
    ensures
        r@ == users_record(users@),
{
    let mut content = String::new();
    let mut i: usize = 0;
    while i < users.len()
        invariant
            i <= users.len(),
            content@ == users_record(users@.take(i as int)),
        decreases users.len() - i,
    {
        let u = &users[i];
        content.append(u.username.as_str());
        content.append(",");
        content.append(decimal_text(u.teblig_count).as_str());
        content.append(",");
        content.append(decimal_text(u.cihad_count).as_str());
        content.append(",");
        content.append(decimal_text(u.tekfir_count).as_str());
        content.append(",");
        content.append(decimal_text(u.current_stage).as_str());
        content.append("\n");
        proof {
            assert(users@.take(i as int + 1).drop_last() =~= users@.take(i as int));
        }
        assert(content@ =~= users_record(users@.take(i as int + 1)));
        i = i + 1;
    }
    assert(users@.take(i as int) =~= users@);
    content
}

/// The pieces of `s` between occurrences of `sep`, in order; an empty
/// text is one empty piece.
pub open spec fn split_on(s: Seq<char>, sep: char) -> Seq<Seq<char>>
    decreases s.len(),
{
    if s.len() == 0 {
        seq![Seq::empty()]
    } else {
        let rest = split_on(s.drop_last(), sep);
        if s.last() == sep {
            rest.push(Seq::empty())
        } else {
            rest.update(rest.len() - 1, rest.last().push(s.last()))
        }
    }
}

proof fn lemma_split_nonempty(s: Seq<char>, sep: char)
    ensures
        split_on(s, sep).len() >= 1,
    decreases s.len(),
{
    if s.len() > 0 {
        lemma_split_nonempty(s.drop_last(), sep);
    }
}

/// The pieces of `s` between occurrences of `sep`.
pub fn split_text(s: &str, sep: char) -> (r: Vec<String>)
    ensures
        r@.map_values(|p: String| p@) == split_on(s@, sep),
{
    let n = s.unicode_len();
    let mut done: Vec<String> = Vec::new();
    let mut start: usize = 0;
    let mut i: usize = 0;
    assert(s@.subrange(0, 0) =~= Seq::<char>::empty());
    assert(done@.map_values(|p: String| p@).push(s@.subrange(0, 0)) =~= seq![Seq::<char>::empty()]);
    assert(s@.take(0) =~= Seq::<char>::empty());
    while i < n
        invariant
            n == s@.len(),
            start <= i <= n,
            split_on(s@.take(i as int), sep) == done@.map_values(|p: String| p@).push(
                s@.subrange(start as int, i as int),
            ),
        decreases n - i,
    {
        let c = s.get_char(i);
        proof {
            let t = s@.take(i as int + 1);
            assert(t.drop_last() =~= s@.take(i as int));
            assert(t.last() == c);
        }
        if c == sep {
            let piece = s.substring_char(start, i).to_string();
            let ghost before = done@;
            done.push(piece);
            assert(done@.map_values(|p: String| p@) =~= before.map_values(|p: String| p@).push(
                s@.subrange(start as int, i as int),
            ));
            start = i + 1;
            assert(s@.subrange(start as int, i as int + 1) =~= Seq::<char>::empty());
        } else {
            assert(s@.subrange(start as int, i as int + 1) =~= s@.subrange(start as int, i as int).push(c));
        }
        i = i + 1;
    }
    let last = s.substring_char(start, n).to_string();
    let ghost before = done@;
    done.push(last);
    assert(s@.take(n as int) =~= s@);
    assert(done@.map_values(|p: String| p@) =~= before.map_values(|p: String| p@).push(
        s@.subrange(start as int, n as int),
    ));
    done
}

/// One more than the greatest `u32`.
const U32_LIMIT: u64 = 0x1_0000_0000;

pub open spec fn is_digit(c: char) -> bool {
    '0' <= c <= '9'
}

/// The value of decimal digits `s`.
pub open spec fn digits_value(s: Seq<char>) -> int
    decreases s.len(),
{
    if s.len() == 0 {
        0
    } else {
        digits_value(s.drop_last()) * 10 + (s.last() as int - '0' as int)
    }
}

/// `s` without one leading plus sign.
pub open spec fn unsigned_digits(s: Seq<char>) -> Seq<char> {
    if s.len() > 0 && s[0] == '+' {
        s.skip(1)
    } else {
        s
    }
}

/// What reading `s` as a `u32` gives: an optional plus sign, then at least
/// one decimal digit, of a value that fits.
pub open spec fn parsed_u32(s: Seq<char>) -> Option<u32> {
    let d = unsigned_digits(s);
    if d.len() > 0 && (forall|i: int| 0 <= i < d.len() ==> is_digit(#[trigger] d[i]))
        && digits_value(d) <= u32::MAX {
        Some(digits_value(d) as u32)
    } else {
        None
    }
}

/// Reads `s` as a `u32`.
pub fn parse_u32(s: &str) -> (r: Option<u32>)
    ensures
        r == parsed_u32(s@),
{
    let n = s.unicode_len();
    let mut i: usize = 0;
    if n > 0 && s.get_char(0) == '+' {
        i = 1;
    }
    let first = i;
    let ghost d = unsigned_digits(s@);
    assert(d =~= s@.subrange(first as int, n as int));
    let mut acc: u64 = 0;
    let mut digits_only = true;
    while i < n
        invariant
            n == s@.len(),
            first <= i <= n,
            d =~= s@.subrange(first as int, n as int),
            digits_only ==> (forall|j: int| 0 <= j < i - first ==> is_digit(#[trigger] d[j])),
            digits_only ==> acc == (if digits_value(d.take(i - first)) < U32_LIMIT {
                digits_value(d.take(i - first))
            } else {
                U32_LIMIT as int
            }),
            !digits_only ==> exists|j: int| 0 <= j < d.len() && !is_digit(#[trigger] d[j]),
            acc <= U32_LIMIT,
        decreases n - i,
    {
        let c = s.get_char(i);
        assert(d[i - first] == c);
        if digits_only {
            if '0' <= c && c <= '9' {
                let v = (c as u32 - '0' as u32) as u64;
                proof {
                    let t = d.take(i - first + 1);
                    assert(t.drop_last() =~= d.take(i - first));
                    assert(t.last() == c);
                    assert(digits_value(d.take(i - first)) >= 0) by {
                        lemma_digits_nonneg(d.take(i - first));
                    }
                }
                let next = acc * 10 + v;
                acc = if next < U32_LIMIT { next } else { U32_LIMIT };
            } else {
                digits_only = false;
            }
        }
        i = i + 1;
    }
    assert(d.take(n - first) =~= d);
    if digits_only && n > first && acc < U32_LIMIT {
        Some(acc as u32)
    } else {
        None
    }
}

proof fn lemma_digits_nonneg(s: Seq<char>)
    requires
        forall|i: int| 0 <= i < s.len() ==> is_digit(#[trigger] s[i]),
    ensures
        digits_value(s) >= 0,
    decreases s.len(),
{
    if s.len() > 0 {
        lemma_digits_nonneg(s.drop_last());
    }
}

/// A line without one trailing carriage return.
pub open spec fn without_cr(line: Seq<char>) -> Seq<char> {
    if line.len() > 0 && line.last() == '\r' {
        line.drop_last()
    } else {
        line
    }
}

/// The comma-separated fields of each line of a record.
pub open spec fn field_lists(content: Seq<char>) -> Seq<Seq<Seq<char>>> {
    split_on(content, '\n').map_values(|l: Seq<char>| split_on(without_cr(l), ','))
}

/// The field lists that describe a user: those with at least four fields.
pub open spec fn user_lists(lists: Seq<Seq<Seq<char>>>) -> Seq<Seq<Seq<char>>>
    decreases lists.len(),
{
    if lists.len() == 0 {
        lists
    } else {
        let rest = user_lists(lists.drop_last());
        if lists.last().len() >= 4 {
            rest.push(lists.last())
        } else {
            rest
        }
    }
}

/// A number field, or `default` when it does not read as a `u32`.
pub open spec fn number_or(s: Seq<char>, default: u32) -> u32 {
    match parsed_u32(s) {
        Some(v) => v,
        None => default,
    }
}

/// `u` is the user that fields `f` describe: name, the three counters
/// (none when unreadable), and the stage (the first when missing or
/// unreadable).
pub open spec fn describes(f: Seq<Seq<char>>, u: User) -> bool {
    &&& u.username@ == f[0]
    &&& u.teblig_count == number_or(f[1], 0)
    &&& u.cihad_count == number_or(f[2], 0)
    &&& u.tekfir_count == number_or(f[3], 0)
    &&& u.current_stage == if f.len() >= 5 { number_or(f[4], 1) } else { 1 }
}

fn without_cr_text(s: &str) -> (r: &str)
    ensures
        r@ == without_cr(s@),
{
    let n = s.unicode_len();
    if n > 0 && s.get_char(n - 1) == '\r' {
        let r = s.substring_char(0, n - 1);
        assert(r@ =~= without_cr(s@));
        r
    } else {
        s
    }
}

fn number_or_text(s: &str, default: u32) -> (r: u32)
    ensures
        r == number_or(s@, default),
{
    match parse_u32(s) {
        Some(v) => v,
        None => default,
    }
}

/// The users of a record, one for each line of at least four fields.
pub fn parse_users(content: &str) -> (r: Vec<User>)
    ensures
        r.len() == user_lists(field_lists(content@)).len(),
        forall|i: int| 0 <= i < r.len() ==> describes(user_lists(field_lists(content@))[i], #[trigger] r@[i]),
{
    let lines = split_text(content, '\n');
    let ghost lists = field_lists(content@);
    assert(lines@.len() == lists.len()) by {
        assert(lines@.map_values(|p: String| p@).len() == lines@.len());
    }
    let mut users: Vec<User> = Vec::new();
    let mut i: usize = 0;
    assert(lists.take(0) =~= Seq::<Seq<Seq<char>>>::empty());
    while i < lines.len()
        invariant
            i <= lines.len(),
            lines@.len() == lists.len(),
            lists == field_lists(content@),
            lines@.map_values(|p: String| p@) == split_on(content@, '\n'),
            users.len() == user_lists(lists.take(i as int)).len(),
            forall|j: int| 0 <= j < users.len() ==> describes(user_lists(lists.take(i as int))[j], #[trigger] users@[j]),
        decreases lines.len() - i,
    {
        let line = without_cr_text(lines[i].as_str());
        let fields = split_text(line, ',');
        proof {
            assert(lines@.map_values(|p: String| p@)[i as int] == lines@[i as int]@);
            assert(lists[i as int] == split_on(without_cr(lines@[i as int]@), ','));
            assert(fields@.map_values(|p: String| p@).len() == fields@.len());
            assert forall|k: int| 0 <= k < fields@.len() implies fields@[k]@ == lists[i as int][k] by {
                assert(fields@.map_values(|p: String| p@)[k] == fields@[k]@);
            }
            assert(lists.take(i as int + 1).drop_last() =~= lists.take(i as int));
            assert(lists.take(i as int + 1).last() == lists[i as int]);
        }
        if fields.len() >= 4 {
            let stage = if fields.len() >= 5 { number_or_text(fields[4].as_str(), 1) } else { 1 };
            let u = User {
                username: fields[0].clone(),
                teblig_count: number_or_text(fields[1].as_str(), 0),
                cihad_count: number_or_text(fields[2].as_str(), 0),
                tekfir_count: number_or_text(fields[3].as_str(), 0),
                current_stage: stage,
            };
            users.push(u);
        }
        i = i + 1;
    }
    assert(lists.take(lines@.len() as int) =~= lists);
    users
}

impl SystemState {
    /// The state that a user record describes, in English, with nobody
    /// logged in.
    pub fn new(record: &str) -> (r: SystemState)
        ensures
            r.language == Language::English,
            r.current_user is None,
            r.users.len() == user_lists(field_lists(record@)).len(),
            forall|i: int| 0 <= i < r.users.len() ==> describes(user_lists(field_lists(record@))[i], #[trigger] r.users@[i]),
    {
        SystemState { language: Language::English, users: parse_users(record), current_user: None }
    }

    /// Saving: the logged-in user's progress goes into the list, and the
    /// result is the record to write.
    pub fn save_users(&mut self) -> (content: String)
        ensures
            final(self).users@ == synced(old(self).users@, old(self).current_user),
            final(self).current_user == old(self).current_user,
            final(self).language == old(self).language,
            content@ == users_record(final(self).users@),
    {
        self.sync_current_user();
        record_of(&self.users)
    }

    /// Moves the user at `index` to the front of the list and saves, giving
    /// the record to write; an index past the list changes nothing.
    pub fn set_user_as_top(&mut self, index: usize) -> (content: Option<String>)
        ensures
            final(self).current_user == old(self).current_user,
            final(self).language == old(self).language,
            index < old(self).users.len() ==> {
                let moved = old(self).users@.remove(index as int).insert(0, old(self).users@[index as int]);
                &&& final(self).users@ == synced(moved, old(self).current_user)
                &&& content matches Some(c) && c@ == users_record(final(self).users@)
            },
            index >= old(self).users.len() ==> final(self).users@ == old(self).users@ && content is None,
    {
        if index < self.users.len() {
            let user = self.users.remove(index);
            self.users.insert(0, user);
            Some(self.save_users())
        } else {
            None
        }
    }

    /// Copies the logged-in user's progress into the user list, the part of
    /// saving that precedes writing the record.
    pub fn sync_current_user(&mut self)
        ensures
            final(self).users@ == synced(old(self).users@, old(self).current_user),
            final(self).current_user == old(self).current_user,
            final(self).language == old(self).language,
    {
        if let Some(curr) = &self.current_user {
            if let Some(i) = position_of(&self.users, &curr.username) {
                proof {
                    lemma_first_named_valid(self.users@, curr.username@);
                }
                let u = self.users.remove(i);
                let updated = User {
                    username: u.username,
                    teblig_count: curr.teblig_count,
                    cihad_count: curr.cihad_count,
                    tekfir_count: curr.tekfir_count,
                    current_stage: curr.current_stage,
                };
                self.users.insert(i, updated);
                assert(self.users@ =~= synced(old(self).users@, old(self).current_user));
            }
        }
    }
}

} // verus!

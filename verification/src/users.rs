//! The credential store: nicknames with their passwords, and the
//! `nickname:password` records in which the store is kept on disk.

use vstd::prelude::*;
use vstd::string::*;
use crate::text::{
    after, before, chars_of, has_char, lemma_split_joined, lemma_trimmed_ends, same_text, split_first,
    text_of, trailing_spaces, trim_bounds, trim_end, trim_start, trimmed,
};

verus! {

/// One nickname with its password.
#[derive(Debug, Clone, PartialEq, Eq)]
pub struct UserRecord {
    pub nickname: String,
    pub password: String,
}

/// One line of the store's file, interpreted. `T` is the type of its text:
/// `String` in running code, `Seq<char>` in contracts.
#[derive(Debug, Clone, PartialEq, Eq)]
pub enum RecordLine<T> {
    /// Nothing but white space.
    Blank,
    /// A nickname and a password around the one `:` of the line.
    Record { nickname: T, password: T },
    /// A line without a `:`, or with more than one.
    Malformed,
}

impl View for RecordLine<String> {
    type V = RecordLine<Seq<char>>;

    open spec fn view(&self) -> RecordLine<Seq<char>> {
        match self {
            RecordLine::Blank => RecordLine::Blank,
            RecordLine::Record { nickname, password } => RecordLine::Record {
                nickname: nickname@,
                password: password@,
            },
            RecordLine::Malformed => RecordLine::Malformed,
        }
    }
}

/// What a line of the store's file means. White space at either end does
/// not count; a record has exactly one `:`.
pub open spec fn parse_record(line: Seq<char>) -> RecordLine<Seq<char>> {
    let t = trimmed(line);
    if t.len() == 0 {
        RecordLine::Blank
    } else if has_char(t, ':') && !has_char(after(t, ':'), ':') {
        RecordLine::Record { nickname: before(t, ':'), password: after(t, ':') }
    } else {
        RecordLine::Malformed
    }
}

/// The line that records a nickname and its password.
pub open spec fn record_text(nickname: Seq<char>, password: Seq<char>) -> Seq<char> {
    nickname + ":"@ + password + "\n"@
}

/// The store that a sequence of records makes: a later record of a nickname
/// replaces an earlier one.
pub open spec fn store_of(records: Seq<UserRecord>) -> Map<Seq<char>, Seq<char>>
    decreases records.len(),
{
    if records.len() == 0 {
        Map::empty()
    } else {
        store_of(records.drop_last()).insert(records.last().nickname@, records.last().password@)
    }
}

/// The store that the lines of a file make: every record in order, the
/// other lines passed over.
pub open spec fn users_of(lines: Seq<String>) -> Map<Seq<char>, Seq<char>>
    decreases lines.len(),
{
    if lines.len() == 0 {
        Map::empty()
    } else {
        let front = users_of(lines.drop_last());
        match parse_record(lines.last()@) {
            RecordLine::Record { nickname, password } => front.insert(nickname, password),
            _ => front,
        }
    }
}

/// The malformed lines among `lines`, in order.
pub open spec fn malformed_among(lines: Seq<String>) -> Seq<Seq<char>>
    decreases lines.len(),
{
    if lines.len() == 0 {
        Seq::empty()
    } else if parse_record(lines.last()@) is Malformed {
        malformed_among(lines.drop_last()).push(lines.last()@)
    } else {
        malformed_among(lines.drop_last())
    }
}

/// The number of records among `lines`.
pub open spec fn records_among(lines: Seq<String>) -> nat
    decreases lines.len(),
{
    if lines.len() == 0 {
        0
    } else if parse_record(lines.last()@) is Record {
        records_among(lines.drop_last()) + 1
    } else {
        records_among(lines.drop_last())
    }
}

/// The texts of `lines`, in order.
pub open spec fn texts(lines: Seq<String>) -> Seq<Seq<char>> {
    Seq::new(lines.len(), |i: int| lines[i]@)
}

/// Interprets one line of the store's file.
pub fn read_record(line: &str) -> (r: RecordLine<String>)
    ensures
        r@ == parse_record(line@),
{
    let chars = chars_of(line);
    assert(chars@.subrange(0, chars@.len() as int) =~= chars@);
    let (from, to) = trim_bounds(&chars, 0, chars.len());
    if from == to {
        return RecordLine::Blank;
    }
    let (mid, next) = split_first(&chars, from, to, ':');
    if mid == to {
        return RecordLine::Malformed;
    }
    let (second, _) = split_first(&chars, next, to, ':');
    if second < to {
        return RecordLine::Malformed;
    }
    RecordLine::Record { nickname: text_of(&chars, from, mid), password: text_of(&chars, next, to) }
}

/// Writes the line that records a nickname and its password.
pub fn write_record(nickname: &str, password: &str) -> (r: String)
    ensures
        r@ == record_text(nickname@, password@),
{
    let mut out = nickname.to_owned();
    out.append(":");
    out.append(password);
    out.append("\n");
    out
}

/// The nicknames that may log in, each with its password.
pub struct UserStore {
    records: Vec<UserRecord>,
}

impl View for UserStore {
    type V = Map<Seq<char>, Seq<char>>;

    closed spec fn view(&self) -> Map<Seq<char>, Seq<char>> {
        store_of(self.records@)
    }
}

impl UserStore {
    /// An empty store.
    pub fn new() -> (r: UserStore)
        ensures
            r@ == Map::<Seq<char>, Seq<char>>::empty(),
    {
        UserStore { records: Vec::new() }
    }

    /// Records `password` for `nickname`, in place of an earlier password.
    pub fn insert(&mut self, nickname: String, password: String)
        ensures
            final(self)@ == old(self)@.insert(nickname@, password@),
    {
        let ghost before_push = self.records@;
        self.records.push(UserRecord { nickname, password });
        assert(self.records@.drop_last() =~= before_push);
    }

    /// The password of `nickname`, if the store holds one.
    pub fn get(&self, nickname: &str) -> (r: Option<String>)
        ensures
            r is Some <==> self@.contains_key(nickname@),
            r matches Some(p) ==> p@ == self@[nickname@],
    {
        let mut i: usize = self.records.len();
        assert(self.records@.take(i as int) =~= self.records@);
        while i > 0
            invariant
                i <= self.records.len(),
                store_of(self.records@).contains_key(nickname@) == store_of(
                    self.records@.take(i as int),
                ).contains_key(nickname@),
                store_of(self.records@).contains_key(nickname@) ==> store_of(self.records@)[nickname@]
                    == store_of(self.records@.take(i as int))[nickname@],
            decreases i,
        {
            proof {
                let upto = self.records@.take(i as int);
                assert(upto.drop_last() =~= self.records@.take(i - 1));
                assert(upto.last() == self.records@[i - 1]);
            }
            if same_text(self.records[i - 1].nickname.as_str(), nickname) {
                return Some(self.records[i - 1].password.clone());
            }
            i -= 1;
        }
        None
    }

    /// Whether the store holds a password for `nickname`.
    pub fn contains(&self, nickname: &str) -> (r: bool)
        ensures
            r == self@.contains_key(nickname@),
    {
        self.get(nickname).is_some()
    }
}

/// What reading the store's file gives.
pub struct LoadedUsers {
    pub users: UserStore,
    /// The number of records that were read.
    pub records: usize,
    /// The malformed lines that were passed over, in order.
    pub malformed: Vec<String>,
}

/// Builds the store from the lines of its file: each record in order, a
/// later one replacing an earlier one of the same nickname. Blank and
/// malformed lines are passed over, and the malformed ones handed back.
pub fn load_users(lines: &Vec<String>) -> (r: LoadedUsers)
    ensures
        r.users@ == users_of(lines@),
        r.records == records_among(lines@),
        texts(r.malformed@) == malformed_among(lines@),
{
    let mut users = UserStore::new();
    let mut records: usize = 0;
    let mut malformed: Vec<String> = Vec::new();
    let mut i: usize = 0;
    while i < lines.len()
        invariant
            i <= lines.len(),
            users@ == users_of(lines@.take(i as int)),
            records == records_among(lines@.take(i as int)),
            records <= i,
            texts(malformed@) == malformed_among(lines@.take(i as int)),
        decreases lines.len() - i,
    {
        proof {
            let next = lines@.take(i + 1);
            assert(next.drop_last() =~= lines@.take(i as int));
            assert(next.last() == lines@[i as int]);
        }
        match read_record(lines[i].as_str()) {
            RecordLine::Record { nickname, password } => {
                users.insert(nickname, password);
                records += 1;
            },
            RecordLine::Malformed => {
                let ghost before_push = malformed@;
                malformed.push(lines[i].clone());
                assert(texts(malformed@) =~= texts(before_push).push(lines@[i as int]@));
            },
            RecordLine::Blank => {},
        }
        i += 1;
    }
    assert(lines@.take(i as int) =~= lines@);
    LoadedUsers { users, records, malformed }
}

/// What is written is read back: the record of a trimmed nickname that is
/// not empty and of a trimmed password reads as that nickname and that
/// password, where neither holds a `:`. Where one does, the record has more
/// than one `:`, and reads as malformed.
pub proof fn lemma_record_reads_back(nickname_line: Seq<char>, password_line: Seq<char>)
    requires
        trimmed(nickname_line).len() > 0,
    ensures
        ({
            let nickname = trimmed(nickname_line);
            let password = trimmed(password_line);
            parse_record(record_text(nickname, password)) == if has_char(nickname, ':') || has_char(
                password,
                ':',
            ) {
                RecordLine::Malformed
            } else {
                RecordLine::Record { nickname, password }
            }
        }),
{
    reveal_strlit(":");
    reveal_strlit("\n");
    let nickname = trimmed(nickname_line);
    let password = trimmed(password_line);
    lemma_trimmed_ends(nickname_line);
    lemma_trimmed_ends(password_line);
    let record = record_text(nickname, password);
    let body = nickname + ":"@ + password;
    assert(":"@ =~= seq![':']);
    assert(record[0] == nickname[0]);
    assert(trim_start(record) =~= record);
    assert(record.last() == '\n');
    assert(record.drop_last() =~= body);
    assert(body.last() == if password.len() > 0 {
        password.last()
    } else {
        ':'
    });
    assert(trailing_spaces(body) == 0);
    assert(trailing_spaces(record) == 1);
    assert(trim_end(record) =~= body);
    assert(trimmed(record) == body);
    if has_char(nickname, ':') {
        let at = crate::text::position(nickname, ':') as int;
        crate::text::lemma_position(nickname, ':');
        let head = nickname.take(at);
        let tail = nickname.skip(at + 1) + ":"@ + password;
        assert(body =~= head + seq![':'] + tail);
        crate::text::lemma_position_is(head, ':', at);
        lemma_split_joined(head, ':', tail);
        assert(tail[nickname.len() - at - 1] == ':');
        crate::text::lemma_position(tail, ':');
    } else {
        lemma_split_joined(nickname, ':', password);
    }
}

} // verus!

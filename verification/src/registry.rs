//! The session registry: the table from the nickname of each live session to
//! that session's outbound delivery handle.

use vstd::prelude::*;
use vstd::string::*;
use tokio::sync::mpsc::UnboundedSender;
use crate::text::same_text;

verus! {

#[verifier::external_type_specification]
#[verifier::external_body]
#[verifier::reject_recursive_types(T)]
pub struct ExUnboundedSender<T>(UnboundedSender<T>);

/// `UnboundedSender::send`: hands the message to the channel without waiting.
/// Whether it was taken depends on the receiving half, which may be closed or
/// dropped at any moment: nothing is promised of the answer.
#[verifier::external_body]
fn enqueue(handle: &UnboundedSender<String>, message: String) -> (accepted: bool) {
    handle.send(message).is_ok()
}

/// One row of the registry.
pub struct Entry {
    pub nickname: String,
    pub handle: UnboundedSender<String>,
}

/// Why a registry operation was refused.
#[derive(Debug, Clone, Copy, PartialEq, Eq, Structural)]
pub enum RegistryError {
    /// A live session already holds the nickname.
    DuplicateNickname,
    /// No live session holds the nickname, or its delivery handle is closed.
    NotFound,
}

/// Whether some row of `entries` holds `nickname`.
pub open spec fn holds(entries: Seq<Entry>, nickname: Seq<char>) -> bool {
    exists|i: int| 0 <= i < entries.len() && (#[trigger] entries[i]).nickname@ == nickname
}

/// No nickname stands in two rows.
pub open spec fn distinct(entries: Seq<Entry>) -> bool {
    forall|i: int, j: int|
        0 <= i < j < entries.len() ==> (#[trigger] entries[i]).nickname@ != (
        #[trigger] entries[j]).nickname@
}

/// The rows of `entries` that do not hold `nickname`, in order.
pub open spec fn others(entries: Seq<Entry>, nickname: Seq<char>) -> Seq<Entry>
    decreases entries.len(),
{
    if entries.len() == 0 {
        entries
    } else if entries.last().nickname@ == nickname {
        others(entries.drop_last(), nickname)
    } else {
        others(entries.drop_last(), nickname).push(entries.last())
    }
}

/// The nicknames of `entries`, separated by a comma and a space.
pub open spec fn joined(entries: Seq<Entry>) -> Seq<char>
    decreases entries.len(),
{
    if entries.len() == 0 {
        Seq::empty()
    } else if entries.len() == 1 {
        entries[0].nickname@
    } else {
        joined(entries.drop_last()) + ", "@ + entries.last().nickname@
    }
}

/// The outcome of a lookup and send: the message reached a queue exactly when
/// a row was found and its handle took the message.
pub fn delivery(found: bool, accepted: bool) -> (r: Result<(), RegistryError>)
    ensures
        r == if found && accepted {
            Ok::<(), RegistryError>(())
        } else {
            Err::<(), RegistryError>(RegistryError::NotFound)
        },
{
    if found && accepted {
        Ok(())
    } else {
        Err(RegistryError::NotFound)
    }
}

/// The table of live sessions.
pub struct Registry {
    entries: Vec<Entry>,
}

impl View for Registry {
    type V = Seq<Entry>;

    closed spec fn view(&self) -> Seq<Entry> {
        self.entries@
    }
}

impl Registry {
    /// The invariant of the table, which every table keeps: at most one row
    /// for each nickname.
    #[verifier::type_invariant]
    spec fn one_row_each(self) -> bool {
        distinct(self.entries@)
    }

    /// At most one row for each nickname.
    pub open spec fn wf(&self) -> bool {
        distinct(self@)
    }

    /// Whether a live session holds `nickname`.
    pub open spec fn has(&self, nickname: Seq<char>) -> bool {
        holds(self@, nickname)
    }

    /// An empty table.
    pub fn new() -> (r: Registry)
        ensures
            r@.len() == 0,
            r.wf(),
    {
        Registry { entries: Vec::new() }
    }

    /// The number of live sessions. Every table is well formed.
    pub fn len(&self) -> (n: usize)
        ensures
            n == self@.len(),
            self.wf(),
    {
        proof {
            use_type_invariant(self);
        }
        self.entries.len()
    }

    /// The row that holds `nickname`, if any.
    fn find(&self, nickname: &str) -> (r: Option<usize>)
        ensures
            r matches Some(i) ==> i < self@.len() && self@[i as int].nickname@ == nickname@,
            r is Some <==> self.has(nickname@),
    {
        let mut i: usize = 0;
        while i < self.entries.len()
            invariant
                i <= self.entries.len(),
                forall|j: int| 0 <= j < i ==> (#[trigger] self.entries@[j]).nickname@ != nickname@,
            decreases self.entries.len() - i,
        {
            if same_text(self.entries[i].nickname.as_str(), nickname) {
                return Some(i);
            }
            i += 1;
        }
        None
    }

    /// Whether a live session holds `nickname`. Every table is well formed.
    pub fn contains(&self, nickname: &str) -> (r: bool)
        ensures
            r == self.has(nickname@),
            self.wf(),
    {
        proof {
            use_type_invariant(self);
        }
        self.find(nickname).is_some()
    }

    /// Adds the row `nickname -> handle`, unless a live session holds the
    /// nickname already: then the table stays as it was.
    pub fn register(&mut self, nickname: String, handle: UnboundedSender<String>) -> (r: Result<
        (),
        RegistryError,
    >)
        ensures
            final(self).wf(),
            old(self).has(nickname@) ==> r == Err::<(), RegistryError>(
                RegistryError::DuplicateNickname,
            ) && final(self)@ == old(self)@,
            !old(self).has(nickname@) ==> r is Ok && final(self)@ == old(self)@.push(
                Entry { nickname, handle },
            ),
    {
        proof {
            use_type_invariant(&*self);
        }
        if self.contains(nickname.as_str()) {
            return Err(RegistryError::DuplicateNickname);
        }
        proof {
            lemma_register_keeps_distinct(self@, Entry { nickname, handle });
        }
        let mut rows: Vec<Entry> = Vec::new();
        core::mem::swap(&mut self.entries, &mut rows);
        rows.push(Entry { nickname, handle });
        core::mem::swap(&mut self.entries, &mut rows);
        Ok(())
    }

    /// Removes the row of `nickname`, if there is one.
    pub fn unregister(&mut self, nickname: &str)
        ensures
            final(self).wf(),
            final(self)@ == others(old(self)@, nickname@),
            !final(self).has(nickname@),
            !old(self).has(nickname@) ==> final(self)@ == old(self)@,
    {
        proof {
            use_type_invariant(&*self);
            lemma_others(self@, nickname@);
            lemma_others_distinct(self@, nickname@);
        }
        match self.find(nickname) {
            Some(i) => {
                proof {
                    lemma_others_removes(self@, nickname@, i as int);
                }
                let mut rows: Vec<Entry> = Vec::new();
                core::mem::swap(&mut self.entries, &mut rows);
                rows.remove(i);
                core::mem::swap(&mut self.entries, &mut rows);
            },
            None => {},
        }
    }

    /// Looks up the handle of `nickname` and enqueues `message` on it. Fails
    /// where no row holds the nickname; a handle that no longer takes
    /// messages fails in the same way.
    pub fn send_to(&self, nickname: &str, message: String) -> (r: Result<(), RegistryError>)
        ensures
            r is Err ==> r == Err::<(), RegistryError>(RegistryError::NotFound),
            !self.has(nickname@) ==> r is Err,
    {
        match self.find(nickname) {
            Some(i) => {
                let accepted = enqueue(&self.entries[i].handle, message);
                delivery(true, accepted)
            },
            None => delivery(false, false),
        }
    }

    /// Enqueues `message` on the handle of every row but the sender's, and
    /// gives the number of rows it addressed. A handle that does not take the
    /// message is passed over.
    pub fn broadcast_except(&self, sender: &str, message: &str) -> (addressed: usize)
        ensures
            addressed == others(self@, sender@).len(),
    {
        let mut addressed: usize = 0;
        let mut i: usize = 0;
        while i < self.entries.len()
            invariant
                i <= self.entries.len(),
                addressed == others(self.entries@.take(i as int), sender@).len(),
                addressed <= i,
            decreases self.entries.len() - i,
        {
            proof {
                let next = self.entries@.take(i + 1);
                assert(next.drop_last() =~= self.entries@.take(i as int));
                assert(next.last() == self.entries@[i as int]);
            }
            if !same_text(self.entries[i].nickname.as_str(), sender) {
                let _ = enqueue(&self.entries[i].handle, message.to_owned());
                addressed += 1;
            }
            i += 1;
        }
        assert(self.entries@.take(i as int) =~= self.entries@);
        addressed
    }

    /// The nicknames of the live sessions other than `nickname`, in the order
    /// in which they registered.
    pub fn list_except(&self, nickname: &str) -> (r: Vec<String>)
        ensures
            r@.len() == others(self@, nickname@).len(),
            forall|k: int|
                0 <= k < r@.len() ==> (#[trigger] r@[k])@ == others(self@, nickname@)[k].nickname@,
    {
        let mut out: Vec<String> = Vec::new();
        let mut i: usize = 0;
        while i < self.entries.len()
            invariant
                i <= self.entries.len(),
                out@.len() == others(self.entries@.take(i as int), nickname@).len(),
                forall|k: int|
                    0 <= k < out@.len() ==> (#[trigger] out@[k])@ == others(
                        self.entries@.take(i as int),
                        nickname@,
                    )[k].nickname@,
            decreases self.entries.len() - i,
        {
            proof {
                let next = self.entries@.take(i + 1);
                assert(next.drop_last() =~= self.entries@.take(i as int));
                assert(next.last() == self.entries@[i as int]);
            }
            if !same_text(self.entries[i].nickname.as_str(), nickname) {
                out.push(self.entries[i].nickname.clone());
            }
            i += 1;
        }
        assert(self.entries@.take(i as int) =~= self.entries@);
        out
    }

    /// The number of live sessions other than that of `nickname`.
    pub fn count_except(&self, nickname: &str) -> (n: usize)
        ensures
            n == others(self@, nickname@).len(),
    {
        let mut n: usize = 0;
        let mut i: usize = 0;
        while i < self.entries.len()
            invariant
                i <= self.entries.len(),
                n == others(self.entries@.take(i as int), nickname@).len(),
                n <= i,
            decreases self.entries.len() - i,
        {
            proof {
                let next = self.entries@.take(i + 1);
                assert(next.drop_last() =~= self.entries@.take(i as int));
                assert(next.last() == self.entries@[i as int]);
            }
            if !same_text(self.entries[i].nickname.as_str(), nickname) {
                n += 1;
            }
            i += 1;
        }
        assert(self.entries@.take(i as int) =~= self.entries@);
        n
    }

    /// The nicknames of the live sessions other than `nickname`, separated by
    /// a comma and a space; empty where there is no other session.
    pub fn roster(&self, nickname: &str) -> (r: String)
        ensures
            r@ == joined(others(self@, nickname@)),
    {
        let names = self.list_except(nickname);
        let ghost rows = others(self@, nickname@);
        let mut out = String::new();
        let mut i: usize = 0;
        while i < names.len()
            invariant
                i <= names.len(),
                names@.len() == rows.len(),
                forall|k: int| 0 <= k < names@.len() ==> (#[trigger] names@[k])@ == rows[k].nickname@,
                out@ == joined(rows.take(i as int)),
            decreases names.len() - i,
        {
            proof {
                let next = rows.take(i + 1);
                assert(next.drop_last() =~= rows.take(i as int));
                assert(next.last() == rows[i as int]);
                assert(next[0] == rows[0]);
            }
            if i > 0 {
                out.append(", ");
            }
            out.append(names[i].as_str());
            i += 1;
        }
        assert(rows.take(i as int) =~= rows);
        out
    }
}

/// `others` leaves no row with the nickname, and the table as it is where
/// none held it.
pub proof fn lemma_others(entries: Seq<Entry>, nickname: Seq<char>)
    ensures
        others(entries, nickname).len() <= entries.len(),
        !holds(others(entries, nickname), nickname),
        !holds(entries, nickname) ==> others(entries, nickname) == entries,
    decreases entries.len(),
{
    let kept = others(entries, nickname);
    if entries.len() > 0 {
        let front = entries.drop_last();
        let last = entries.last();
        let kept_front = others(front, nickname);
        lemma_others(front, nickname);
        if !holds(entries, nickname) {
            assert(last == entries[entries.len() - 1]);
            assert forall|i: int| 0 <= i < front.len() implies (#[trigger] front[i]).nickname@
                != nickname by {
                assert(front[i] == entries[i]);
            }
            assert(kept =~= entries);
        }
        if holds(kept, nickname) {
            let k = choose|k: int| 0 <= k < kept.len() && (#[trigger] kept[k]).nickname@ == nickname;
            if last.nickname@ != nickname && k == kept.len() - 1 {
                assert(kept[k] == last);
            } else {
                assert(kept_front[k] == kept[k]);
                assert(holds(kept_front, nickname));
            }
        }
    }
}

/// Removing a nickname leaves every other nickname as it was: present if it
/// was present, absent if it was absent.
pub proof fn lemma_others_keeps(entries: Seq<Entry>, nickname: Seq<char>, other: Seq<char>)
    requires
        other != nickname,
    ensures
        holds(others(entries, nickname), other) <==> holds(entries, other),
    decreases entries.len(),
{
    let kept = others(entries, nickname);
    if entries.len() > 0 {
        let front = entries.drop_last();
        let last = entries.last();
        let kept_front = others(front, nickname);
        lemma_others_keeps(front, nickname, other);
        if holds(kept, other) {
            let k = choose|k: int| 0 <= k < kept.len() && (#[trigger] kept[k]).nickname@ == other;
            if last.nickname@ != nickname && k == kept.len() - 1 {
                assert(entries[entries.len() - 1].nickname@ == other);
            } else {
                assert(kept_front[k] == kept[k]);
                assert(holds(kept_front, other));
                let i = choose|i: int| 0 <= i < front.len() && (#[trigger] front[i]).nickname@ == other;
                assert(entries[i] == front[i]);
            }
        }
        if holds(entries, other) {
            let i = choose|i: int| 0 <= i < entries.len() && (#[trigger] entries[i]).nickname@ == other;
            if i < entries.len() - 1 {
                assert(front[i].nickname@ == other);
                assert(holds(front, other));
                let k = choose|k: int|
                    0 <= k < kept_front.len() && (#[trigger] kept_front[k]).nickname@ == other;
                assert(kept[k] == kept_front[k]);
            } else {
                assert(kept[kept.len() - 1].nickname@ == other);
            }
        }
    }
}

/// `others` of a table without duplicates has none.
pub proof fn lemma_others_distinct(entries: Seq<Entry>, nickname: Seq<char>)
    requires
        distinct(entries),
    ensures
        distinct(others(entries, nickname)),
    decreases entries.len(),
{
    let kept = others(entries, nickname);
    if entries.len() > 0 {
        let front = entries.drop_last();
        let last = entries.last();
        let kept_front = others(front, nickname);
        assert forall|i: int, j: int| 0 <= i < j < front.len() implies (#[trigger] front[i]).nickname@
            != (#[trigger] front[j]).nickname@ by {
            assert(front[i] == entries[i] && front[j] == entries[j]);
        }
        lemma_others_distinct(front, nickname);
        lemma_others_rows(front, nickname);
        if last.nickname@ != nickname {
            assert forall|i: int, j: int| 0 <= i < j < kept.len() implies (#[trigger] kept[i]).nickname@
                != (#[trigger] kept[j]).nickname@ by {
                if j == kept.len() - 1 {
                    assert(kept[i] == kept_front[i]);
                    let a = choose|a: int| 0 <= a < front.len() && front[a] == kept_front[i];
                    assert(entries[a] == front[a]);
                    assert(entries[entries.len() - 1] == last);
                } else {
                    assert(kept[i] == kept_front[i] && kept[j] == kept_front[j]);
                }
            }
        }
    }
}

/// Every row that `others` keeps is a row of the table.
proof fn lemma_others_rows(entries: Seq<Entry>, nickname: Seq<char>)
    ensures
        forall|k: int|
            0 <= k < others(entries, nickname).len() ==> exists|i: int|
                0 <= i < entries.len() && entries[i] == #[trigger] others(entries, nickname)[k],
    decreases entries.len(),
{
    let kept = others(entries, nickname);
    if entries.len() > 0 {
        let front = entries.drop_last();
        lemma_others_rows(front, nickname);
        assert forall|k: int| 0 <= k < kept.len() implies exists|i: int|
            0 <= i < entries.len() && entries[i] == #[trigger] kept[k] by {
            if entries.last().nickname@ != nickname && k == kept.len() - 1 {
                assert(entries[entries.len() - 1] == kept[k]);
            } else {
                let kept_front = others(front, nickname);
                assert(kept[k] == kept_front[k]);
                let i = choose|i: int| 0 <= i < front.len() && front[i] == kept_front[k];
                assert(entries[i] == kept[k]);
            }
        }
    }
}

/// In a table without duplicates, leaving out a nickname removes its one row.
proof fn lemma_others_removes(entries: Seq<Entry>, nickname: Seq<char>, at: int)
    requires
        distinct(entries),
        0 <= at < entries.len(),
        entries[at].nickname@ == nickname,
    ensures
        others(entries, nickname) == entries.remove(at),
    decreases entries.len(),
{
    let front = entries.drop_last();
    assert forall|i: int, j: int| 0 <= i < j < front.len() implies (#[trigger] front[i]).nickname@
        != (#[trigger] front[j]).nickname@ by {
        assert(front[i] == entries[i] && front[j] == entries[j]);
    }
    if at == entries.len() - 1 {
        assert forall|i: int| 0 <= i < front.len() implies (#[trigger] front[i]).nickname@
            != nickname by {
            assert(front[i] == entries[i]);
        }
        lemma_others(front, nickname);
        assert(front =~= entries.remove(at));
    } else {
        assert(entries[at].nickname@ != entries[entries.len() - 1].nickname@);
        assert(front[at] == entries[at]);
        lemma_others_removes(front, nickname, at);
        assert(front.remove(at).push(entries.last()) =~= entries.remove(at));
    }
}

/// In a table without duplicates a nickname has at most one row, and so at
/// most one handle.
pub proof fn lemma_one_row_for_each_nickname(entries: Seq<Entry>, i: int, j: int)
    requires
        distinct(entries),
        0 <= i < entries.len(),
        0 <= j < entries.len(),
        entries[i].nickname@ == entries[j].nickname@,
    ensures
        i == j,
        entries[i].handle == entries[j].handle,
{
    if i < j {
        assert(entries[i].nickname@ != entries[j].nickname@);
    }
    if j < i {
        assert(entries[j].nickname@ != entries[i].nickname@);
    }
}

/// Registering keeps the table without duplicates: a nickname that is
/// present is refused, and a new one adds one row.
pub proof fn lemma_register_keeps_distinct(entries: Seq<Entry>, row: Entry)
    requires
        distinct(entries),
        !holds(entries, row.nickname@),
    ensures
        distinct(entries.push(row)),
{
    let grown = entries.push(row);
    assert forall|i: int, j: int| 0 <= i < j < grown.len() implies (#[trigger] grown[i]).nickname@
        != (#[trigger] grown[j]).nickname@ by {
        if j == entries.len() {
            assert(grown[i] == entries[i]);
        } else {
            assert(grown[i] == entries[i] && grown[j] == entries[j]);
        }
    }
}

/// Removing a nickname twice leaves the table as removing it once does.
pub proof fn lemma_unregister_idempotent(entries: Seq<Entry>, nickname: Seq<char>)
    ensures
        others(others(entries, nickname), nickname) == others(entries, nickname),
{
    lemma_others(entries, nickname);
    lemma_others(others(entries, nickname), nickname);
}

} // verus!

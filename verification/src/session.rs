//! The session store: which token identifiers are honoured right now.
//!
//! The store itself is a service on the network. This module describes what
//! is asked of it (`StoreCommand`), what it may answer (`StoreReply`), and
//! what the answers must be (`Records` and the functions on it). It also
//! holds `SessionStore`, a store in memory that gives exactly those answers.

use vstd::prelude::*;
use vstd::string::StringExecFns;

verus! {

/// A request to the session store.
#[derive(Debug)]
pub enum StoreCommand {
    /// Record `value` under `key` for `seconds` seconds, replacing what was there.
    Put { key: String, value: String, seconds: u64 },
    /// Ask for the value recorded under `key`.
    Get { key: String },
    /// Remove whatever is recorded under `key`.
    Delete { key: String },
}

/// An answer of the session store.
#[derive(Debug)]
pub enum StoreReply {
    /// A `Put` was carried out.
    Stored,
    /// A `Get` found a live record with this value.
    Found(String),
    /// A `Get` found no live record.
    Missing,
    /// A `Delete` was carried out, whether or not a record was there.
    Deleted,
    /// The store could not be reached or refused; the text says why.
    Unavailable(String),
}

/// The mathematical content of a `StoreCommand`.
pub ghost enum Command {
    Put { key: Seq<char>, value: Seq<char>, seconds: nat },
    Get { key: Seq<char> },
    Delete { key: Seq<char> },
}

/// The mathematical content of a `StoreReply`, without the reason of a failure.
pub ghost enum Reply {
    Stored,
    Found(Seq<char>),
    Missing,
    Deleted,
    Unavailable,
}

impl View for StoreCommand {
    type V = Command;

    open spec fn view(&self) -> Command {
        match self {
            StoreCommand::Put { key, value, seconds } => Command::Put {
                key: key@,
                value: value@,
                seconds: *seconds as nat,
            },
            StoreCommand::Get { key } => Command::Get { key: key@ },
            StoreCommand::Delete { key } => Command::Delete { key: key@ },
        }
    }
}

impl View for StoreReply {
    type V = Reply;

    open spec fn view(&self) -> Reply {
        match self {
            StoreReply::Stored => Reply::Stored,
            StoreReply::Found(value) => Reply::Found(value@),
            StoreReply::Missing => Reply::Missing,
            StoreReply::Deleted => Reply::Deleted,
            StoreReply::Unavailable(_) => Reply::Unavailable,
        }
    }
}

/// One record of the store: a value and the second at which it lapses.
pub ghost struct Record {
    pub value: Seq<char>,
    pub expires_at: int,
}

/// The content of a store: at most one record under each key.
pub type Records = Map<Seq<char>, Record>;

/// Whether a record under `key` is live at the second `now`.
pub open spec fn is_live(records: Records, key: Seq<char>, now: int) -> bool {
    records.contains_key(key) && now < records[key].expires_at
}

/// The value that a `Get` finds at the second `now`.
pub open spec fn lookup(records: Records, key: Seq<char>, now: int) -> Option<Seq<char>> {
    if is_live(records, key, now) {
        Some(records[key].value)
    } else {
        None
    }
}

/// The content of a store after a command that reached it at the second `now`.
pub open spec fn records_after(records: Records, command: Command, now: int) -> Records {
    match command {
        Command::Put { key, value, seconds } => records.insert(
            key,
            Record { value, expires_at: now + seconds },
        ),
        Command::Get { key } => records,
        Command::Delete { key } => records.remove(key),
    }
}

/// The answer of a store to a command that reached it at the second `now`.
pub open spec fn reply_to(records: Records, command: Command, now: int) -> Reply {
    match command {
        Command::Put { key, value, seconds } => Reply::Stored,
        Command::Get { key } => match lookup(records, key, now) {
            Some(value) => Reply::Found(value),
            None => Reply::Missing,
        },
        Command::Delete { key } => Reply::Deleted,
    }
}

/// The key that a command is about.
pub open spec fn command_key(command: Command) -> Seq<char> {
    match command {
        Command::Put { key, value, seconds } => key,
        Command::Get { key } => key,
        Command::Delete { key } => key,
    }
}

/// The content of a store after a run of commands, each with the second at
/// which it reached the store, in order.
pub open spec fn records_after_all(records: Records, commands: Seq<(Command, int)>) -> Records
    decreases commands.len(),
{
    if commands.len() == 0 {
        records
    } else {
        records_after(
            records_after_all(records, commands.drop_last()),
            commands.last().0,
            commands.last().1,
        )
    }
}

/// One record as the store in memory keeps it.
#[derive(Debug)]
pub struct TokenRecord {
    pub key: String,
    pub value: String,
    pub expires_at: i128,
}

/// A session store in memory. It can be cut off, to stand for a store
/// that cannot be reached: it then keeps what it holds and answers every
/// command with `Unavailable`.
#[derive(Debug)]
pub struct SessionStore {
    records: Vec<TokenRecord>,
    reachable: bool,
}

/// What a store that cannot be reached gives as its reason.
pub open spec fn unreachable_text() -> Seq<char> {
    "session store is unreachable"@
}

/// The answer to a command sent at the second `now` to a store that may
/// be out of reach.
pub open spec fn reply_of(records: Records, reachable: bool, command: Command, now: int) -> Reply {
    if reachable {
        reply_to(records, command, now)
    } else {
        Reply::Unavailable
    }
}

/// The content of a store that may be out of reach, after a command sent
/// to it at the second `now`.
pub open spec fn records_left(
    records: Records,
    reachable: bool,
    command: Command,
    now: int,
) -> Records {
    if reachable {
        records_after(records, command, now)
    } else {
        records
    }
}

impl SessionStore {
    /// No two records share a key.
    pub closed spec fn wf(&self) -> bool {
        forall|i: int, j: int|
            0 <= i < j < self.records@.len() ==> self.records@[i].key@ != self.records@[j].key@
    }

    /// Whether some record has the key.
    pub closed spec fn holds(&self, key: Seq<char>) -> bool {
        exists|i: int| 0 <= i < self.records@.len() && self.records@[i].key@ == key
    }

    /// The place of a record with the key.
    pub closed spec fn place(&self, key: Seq<char>) -> int {
        choose|i: int| 0 <= i < self.records@.len() && self.records@[i].key@ == key
    }

    /// Whether commands reach the store.
    pub closed spec fn is_reachable(&self) -> bool {
        self.reachable
    }

    /// The content of the store.
    pub closed spec fn view(&self) -> Records {
        Map::new(
            |key: Seq<char>| self.holds(key),
            |key: Seq<char>|
                Record {
                    value: self.records@[self.place(key)].value@,
                    expires_at: self.records@[self.place(key)].expires_at as int,
                },
        )
    }

    proof fn lemma_record_at(&self, i: int)
        requires
            self.wf(),
            0 <= i < self.records@.len(),
        ensures
            self@.contains_key(self.records@[i].key@),
            self@[self.records@[i].key@] == (Record {
                value: self.records@[i].value@,
                expires_at: self.records@[i].expires_at as int,
            }),
    {
        let key = self.records@[i].key@;
        assert(self.holds(key));
        let j = self.place(key);
        assert(0 <= j < self.records@.len() && self.records@[j].key@ == key);
        assert(j == i);
    }

    proof fn lemma_absent(&self, key: Seq<char>)
        requires
            forall|i: int| 0 <= i < self.records@.len() ==> self.records@[i].key@ != key,
        ensures
            !self@.contains_key(key),
    {
    }

    proof fn lemma_present(&self, key: Seq<char>) -> (i: int)
        requires
            self@.contains_key(key),
        ensures
            0 <= i < self.records@.len(),
            self.records@[i].key@ == key,
    {
        assert(self.holds(key));
        self.place(key)
    }

    /// An empty store within reach.
    pub fn new() -> (store: SessionStore)
        ensures
            store.wf(),
            store@ == Map::<Seq<char>, Record>::empty(),
            store.is_reachable(),
    {
        let store = SessionStore { records: Vec::new(), reachable: true };
        assert(store@ =~= Map::<Seq<char>, Record>::empty());
        store
    }

    /// Cuts the store off, or brings it back within reach. What it holds
    /// stays.
    pub fn set_reachable(&mut self, reachable: bool)
        requires
            old(self).wf(),
        ensures
            final(self).wf(),
            final(self)@ == old(self)@,
            final(self).is_reachable() == reachable,
    {
        self.reachable = reachable;
        proof {
            assert(self.records@ == old(self).records@);
            assert(self.wf());
            assert forall|q: Seq<char>| self@.contains_key(q) <==> old(self)@.contains_key(q) by {
                if self@.contains_key(q) {
                    let j = self.lemma_present(q);
                    old(self).lemma_record_at(j);
                }
                if old(self)@.contains_key(q) {
                    let j = old(self).lemma_present(q);
                    self.lemma_record_at(j);
                }
            }
            assert forall|q: Seq<char>| self@.contains_key(q) implies self@[q] == old(self)@[q] by {
                let j = self.lemma_present(q);
                self.lemma_record_at(j);
                old(self).lemma_record_at(j);
            }
            assert(self@ =~= old(self)@);
        }
    }

    fn find(&self, key: &String) -> (r: Option<usize>)
        ensures
            match r {
                Some(i) => i < self.records@.len() && self.records@[i as int].key@ == key@,
                None => forall|i: int|
                    0 <= i < self.records@.len() ==> self.records@[i].key@ != key@,
            },
    {
        let mut i: usize = 0;
        while i < self.records.len()
            invariant
                i <= self.records@.len(),
                forall|k: int| 0 <= k < i ==> self.records@[k].key@ != key@,
            decreases self.records@.len() - i,
        {
            if self.records[i].key == *key {
                return Some(i);
            }
            i += 1;
        }
        None
    }

    /// A store that differs from another in one place holds what the
    /// other holds, with the record of that place put under its key. The
    /// place is either that of the record that had the key before, or a
    /// new last place if no record had it.
    proof fn lemma_put_content(before: SessionStore, after: SessionStore, p: int)
        requires
            before.wf(),
            0 <= p <= before.records@.len(),
            after.records@.len() == (if p < before.records@.len() {
                before.records@.len()
            } else {
                before.records@.len() + 1
            }),
            forall|a: int|
                0 <= a < before.records@.len() && a != p ==> after.records@[a]
                    == before.records@[a],
            forall|a: int|
                0 <= a < before.records@.len() && a != p ==> before.records@[a].key@
                    != after.records@[p].key@,
            p < before.records@.len() ==> before.records@[p].key@ == after.records@[p].key@,
        ensures
            after.wf(),
            after@ == before@.insert(
                after.records@[p].key@,
                Record {
                    value: after.records@[p].value@,
                    expires_at: after.records@[p].expires_at as int,
                },
            ),
    {
        let n = before.records@.len() as int;
        let k = after.records@[p].key@;
        let entry = Record {
            value: after.records@[p].value@,
            expires_at: after.records@[p].expires_at as int,
        };
        assert forall|a: int, b: int| 0 <= a < b < after.records@.len() implies after.records@[a].key@
            != after.records@[b].key@ by {
            if a != p && b != p {
                assert(after.records@[a] == before.records@[a]);
                assert(after.records@[b] == before.records@[b]);
            } else if a == p {
                assert(after.records@[b] == before.records@[b]);
            } else {
                assert(after.records@[a] == before.records@[a]);
            }
        }
        assert(after.wf());
        assert forall|q: Seq<char>| after@.contains_key(q) <==> before@.insert(
            k,
            entry,
        ).contains_key(q) by {
            if after@.contains_key(q) {
                let j = after.lemma_present(q);
                if j != p {
                    assert(before.records@[j].key@ == q);
                    before.lemma_record_at(j);
                }
            }
            if before@.insert(k, entry).contains_key(q) {
                if q == k {
                    after.lemma_record_at(p);
                } else {
                    let j = before.lemma_present(q);
                    assert(after.records@[j].key@ == q);
                    after.lemma_record_at(j);
                }
            }
        }
        assert forall|q: Seq<char>| after@.contains_key(q) implies after@[q] == before@.insert(
            k,
            entry,
        )[q] by {
            let j = after.lemma_present(q);
            after.lemma_record_at(j);
            if j != p {
                assert(before.records@[j] == after.records@[j]);
                before.lemma_record_at(j);
            }
        }
        assert(after@ =~= before@.insert(k, entry));
    }

    /// Records `value` under `key` until `seconds` seconds after `now`,
    /// in place of what was recorded under `key` before.
    pub fn put(&mut self, key: String, value: String, seconds: u64, now: i64)
        requires
            old(self).wf(),
        ensures
            final(self).wf(),
            final(self).is_reachable() == old(self).is_reachable(),
            final(self)@ == old(self)@.insert(
                key@,
                Record { value: value@, expires_at: now + seconds },
            ),
    {
        let expires_at: i128 = now as i128 + seconds as i128;
        let found = self.find(&key);
        let place = match found {
            Some(i) => {
                self.records.set(i, TokenRecord { key, value, expires_at });
                i
            },
            None => {
                self.records.push(TokenRecord { key, value, expires_at });
                self.records.len() - 1
            },
        };
        proof {
            Self::lemma_put_content(*old(self), *self, place as int);
        }
    }

    /// The value recorded under `key`, if that record is live at `now`.
    pub fn get(&self, key: &str, now: i64) -> (r: Option<String>)
        requires
            self.wf(),
        ensures
            match r {
                Some(value) => lookup(self@, key@, now as int) == Some(value@),
                None => lookup(self@, key@, now as int).is_none(),
            },
    {
        let wanted = String::from_str(key);
        match self.find(&wanted) {
            Some(i) => {
                proof {
                    self.lemma_record_at(i as int);
                }
                if (now as i128) < self.records[i].expires_at {
                    Some(self.records[i].value.clone())
                } else {
                    None
                }
            },
            None => {
                proof {
                    self.lemma_absent(key@);
                }
                None
            },
        }
    }

    /// Removes whatever is recorded under `key`.
    pub fn delete(&mut self, key: &str)
        requires
            old(self).wf(),
        ensures
            final(self).wf(),
            final(self).is_reachable() == old(self).is_reachable(),
            final(self)@ == old(self)@.remove(key@),
    {
        let wanted = String::from_str(key);
        let ghost k = key@;
        match self.find(&wanted) {
            Some(i) => {
                self.records.remove(i);
                proof {
                    assert forall|a: int| 0 <= a < self.records@.len() implies self.records@[a]
                        == old(self).records@[if a < i { a } else { a + 1 }] by {}
                    assert forall|a: int, b: int|
                        0 <= a < b < self.records@.len() implies self.records@[a].key@
                        != self.records@[b].key@ by {
                        let a0 = if a < i { a } else { a + 1 };
                        let b0 = if b < i { b } else { b + 1 };
                        assert(self.records@[a] == old(self).records@[a0]);
                        assert(self.records@[b] == old(self).records@[b0]);
                    }
                    assert(self.wf());
                    assert forall|q: Seq<char>| self@.contains_key(q) <==> old(self)@.remove(
                        k,
                    ).contains_key(q) by {
                        if self@.contains_key(q) {
                            let j = self.lemma_present(q);
                            let j0 = if j < i { j } else { j + 1 };
                            assert(old(self).records@[j0].key@ == q);
                            old(self).lemma_record_at(j0);
                        }
                        if old(self)@.remove(k).contains_key(q) {
                            let j0 = old(self).lemma_present(q);
                            let j = if j0 < i { j0 } else { j0 - 1 };
                            assert(self.records@[j].key@ == q);
                            self.lemma_record_at(j);
                        }
                    }
                    assert forall|q: Seq<char>| self@.contains_key(q) implies self@[q]
                        == old(self)@.remove(k)[q] by {
                        let j = self.lemma_present(q);
                        let j0 = if j < i { j } else { j + 1 };
                        self.lemma_record_at(j);
                        assert(self.records@[j] == old(self).records@[j0]);
                        old(self).lemma_record_at(j0);
                    }
                    assert(self@ =~= old(self)@.remove(k));
                }
            },
            None => {
                proof {
                    self.lemma_absent(k);
                    assert(self@ =~= old(self)@.remove(k));
                }
            },
        }
    }

    /// Answers a lookup sent at the second `now`: with what is recorded
    /// under `key` if the store is within reach, else with `Unavailable`.
    pub fn ask(&self, key: &str, now: i64) -> (reply: StoreReply)
        requires
            self.wf(),
        ensures
            reply@ == reply_of(self@, self.is_reachable(), Command::Get { key: key@ }, now as int),
            reply matches StoreReply::Unavailable(reason) ==> reason@ == unreachable_text(),
    {
        if !self.reachable {
            return StoreReply::Unavailable(String::from_str("session store is unreachable"));
        }
        match self.get(key, now) {
            Some(value) => StoreReply::Found(value),
            None => StoreReply::Missing,
        }
    }

    /// Answers a command sent at the second `now`: carries it out if the
    /// store is within reach, else keeps what it holds and answers
    /// `Unavailable`.
    pub fn execute(&mut self, command: StoreCommand, now: i64) -> (reply: StoreReply)
        requires
            old(self).wf(),
        ensures
            final(self).wf(),
            final(self).is_reachable() == old(self).is_reachable(),
            final(self)@ == records_left(
                old(self)@,
                old(self).is_reachable(),
                command@,
                now as int,
            ),
            reply@ == reply_of(old(self)@, old(self).is_reachable(), command@, now as int),
            reply matches StoreReply::Unavailable(reason) ==> reason@ == unreachable_text(),
    {
        if !self.reachable {
            return StoreReply::Unavailable(String::from_str("session store is unreachable"));
        }
        match command {
            StoreCommand::Put { key, value, seconds } => {
                self.put(key, value, seconds, now);
                StoreReply::Stored
            },
            StoreCommand::Get { key } => self.ask(key.as_str(), now),
            StoreCommand::Delete { key } => {
                self.delete(key.as_str());
                StoreReply::Deleted
            },
        }
    }
}

} // verus!

//! The table of live sessions: which identity each issued token stands for.

use vstd::prelude::*;

verus! {

/// One registered session: the token handed to the browser and the
/// identity it stands for.
struct Session {
    token: String,
    identity: String,
}

/// The mapping from session token to user identity.
///
/// Its view is a finite map from token text to identity text. Entries are
/// only ever added: nothing removes or expires a session.
pub struct SessionTable {
    entries: Vec<Session>,
}

/// No token occurs in two entries.
spec fn tokens_unique(entries: Seq<Session>) -> bool {
    forall|i: int, j: int|
        0 <= i < j < entries.len() ==> (#[trigger] entries[i]).token@ != (#[trigger] entries[j]).token@
}

/// Whether some entry carries `token`.
spec fn has_token(entries: Seq<Session>, token: Seq<char>) -> bool {
    exists|i: int| 0 <= i < entries.len() && (#[trigger] entries[i]).token@ == token
}

/// The position of an entry that carries `token`.
spec fn position_of(entries: Seq<Session>, token: Seq<char>) -> int {
    choose|i: int| 0 <= i < entries.len() && (#[trigger] entries[i]).token@ == token
}

/// The map that a list of entries with distinct tokens stands for.
spec fn table_of(entries: Seq<Session>) -> Map<Seq<char>, Seq<char>> {
    Map::new(
        |token: Seq<char>| has_token(entries, token),
        |token: Seq<char>| entries[position_of(entries, token)].identity@,
    )
}

/// In a list with distinct tokens, the entry at `i` decides what its token
/// maps to.
proof fn lemma_entry_decides(entries: Seq<Session>, i: int)
    requires
        tokens_unique(entries),
        0 <= i < entries.len(),
    ensures
        table_of(entries).contains_key(entries[i].token@),
        table_of(entries)[entries[i].token@] == entries[i].identity@,
{
    let token = entries[i].token@;
    assert(has_token(entries, token));
    let p = position_of(entries, token);
    assert(0 <= p < entries.len() && entries[p].token@ == token);
    if p < i {
        assert(entries[p].token@ != entries[i].token@);
    } else if i < p {
        assert(entries[i].token@ != entries[p].token@);
    }
}

impl View for SessionTable {
    type V = Map<Seq<char>, Seq<char>>;

    closed spec fn view(&self) -> Map<Seq<char>, Seq<char>> {
        table_of(self.entries@)
    }
}

impl SessionTable {
    #[verifier::type_invariant]
    spec fn well_formed(&self) -> bool {
        tokens_unique(self.entries@)
    }

    /// A table without sessions.
    pub fn new() -> (table: Self)
        ensures
            table@ == Map::<Seq<char>, Seq<char>>::empty(),
    {
        let table = SessionTable { entries: Vec::new() };
        assert(table@ =~= Map::<Seq<char>, Seq<char>>::empty());
        table
    }

    /// The number of sessions.
    pub fn len(&self) -> (n: usize)
        ensures
            self@.dom().finite(),
            n == self@.dom().len(),
    {
        proof {
            use_type_invariant(&*self);
            lemma_domain_size(self.entries@);
        }
        self.entries.len()
    }

    /// The identity that `token` stands for, if the token was registered.
    pub fn lookup(&self, token: &String) -> (found: Option<&String>)
        ensures
            match found {
                Some(identity) => self@.contains_key(token@) && identity@ == self@[token@],
                None => !self@.contains_key(token@),
            },
    {
        proof {
            use_type_invariant(&*self);
        }
        let mut i: usize = 0;
        while i < self.entries.len()
            invariant
                i <= self.entries@.len(),
                tokens_unique(self.entries@),
                forall|j: int| 0 <= j < i ==> (#[trigger] self.entries@[j]).token@ != token@,
            decreases self.entries@.len() - i,
        {
            if self.entries[i].token == *token {
                proof {
                    lemma_entry_decides(self.entries@, i as int);
                }
                return Some(&self.entries[i].identity);
            }
            i += 1;
        }
        None
    }

    /// Registers `identity` under `token`. A token that was already
    /// registered stands for `identity` from now on; every other token keeps
    /// its meaning.
    pub fn insert(&mut self, token: String, identity: String)
        ensures
            final(self)@ == old(self)@.insert(token@, identity@),
    {
        proof {
            use_type_invariant(&*self);
        }
        let mut entries: Vec<Session> = Vec::new();
        std::mem::swap(&mut entries, &mut self.entries);
        let ghost before = entries@;
        let mut i: usize = 0;
        let mut at: Option<usize> = None;
        while i < entries.len()
            invariant_except_break
                at is None,
                forall|j: int| 0 <= j < i ==> (#[trigger] entries@[j]).token@ != token@,
            invariant
                i <= entries@.len(),
            ensures
                match at {
                    Some(p) => p < entries@.len() && entries@[p as int].token@ == token@,
                    None => forall|j: int| 0 <= j < entries@.len() ==> (#[trigger] entries@[j]).token@ != token@,
                },
            decreases entries@.len() - i,
        {
            if entries[i].token == token {
                at = Some(i);
                break;
            }
            i += 1;
        }
        match at {
            Some(p) => {
                entries.set(p, Session { token, identity });
                proof {
                    lemma_replace(before, p as int, entries@[p as int]);
                }
            },
            None => {
                entries.push(Session { token, identity });
                proof {
                    lemma_append(before, entries@[before.len() as int]);
                }
            },
        }
        self.entries = entries;
    }
}

/// A list with distinct tokens has as many entries as its map has keys.
proof fn lemma_domain_size(entries: Seq<Session>)
    requires
        tokens_unique(entries),
    ensures
        table_of(entries).dom().finite(),
        table_of(entries).dom().len() == entries.len(),
    decreases entries.len(),
{
    if entries.len() == 0 {
        assert(table_of(entries).dom() =~= Set::<Seq<char>>::empty());
    } else {
        let front = entries.drop_last();
        let last = entries.last();
        assert forall|i: int, j: int| 0 <= i < j < front.len() implies (#[trigger] front[i]).token@
            != (#[trigger] front[j]).token@ by {
            assert(front[i] == entries[i] && front[j] == entries[j]);
        }
        lemma_domain_size(front);
        assert(!has_token(front, last.token@)) by {
            if has_token(front, last.token@) {
                let p = position_of(front, last.token@);
                assert(front[p] == entries[p]);
                assert(entries[p].token@ != entries[entries.len() - 1].token@);
            }
        }
        assert(table_of(entries).dom() =~= table_of(front).dom().insert(last.token@)) by {
            assert forall|t: Seq<char>| has_token(entries, t) <==> (has_token(front, t) || t
                == last.token@) by {
                if has_token(entries, t) {
                    let p = position_of(entries, t);
                    if p < front.len() {
                        assert(front[p] == entries[p]);
                    }
                }
                if has_token(front, t) {
                    let p = position_of(front, t);
                    assert(front[p] == entries[p]);
                }
                if t == last.token@ {
                    assert(entries[entries.len() - 1].token@ == t);
                }
            }
        }
    }
}

/// Appending an entry with a fresh token adds one key to the map.
proof fn lemma_append(before: Seq<Session>, entry: Session)
    requires
        tokens_unique(before),
        !has_token(before, entry.token@),
    ensures
        tokens_unique(before.push(entry)),
        table_of(before.push(entry)) == table_of(before).insert(entry.token@, entry.identity@),
{
    let after = before.push(entry);
    assert forall|i: int, j: int| 0 <= i < j < after.len() implies (#[trigger] after[i]).token@
        != (#[trigger] after[j]).token@ by {
        if j < before.len() {
            assert(after[i] == before[i] && after[j] == before[j]);
        } else {
            assert(after[i] == before[i]);
            assert(after[j] == entry);
        }
    }
    lemma_same_tokens_elsewhere(before, after, before.len() as int);
}

/// Replacing the entry at `p` by one with the same token changes what that
/// token maps to and nothing else.
proof fn lemma_replace(before: Seq<Session>, p: int, entry: Session)
    requires
        tokens_unique(before),
        0 <= p < before.len(),
        before[p].token@ == entry.token@,
    ensures
        tokens_unique(before.update(p, entry)),
        table_of(before.update(p, entry)) == table_of(before).insert(entry.token@, entry.identity@),
{
    let after = before.update(p, entry);
    assert forall|i: int, j: int| 0 <= i < j < after.len() implies (#[trigger] after[i]).token@
        != (#[trigger] after[j]).token@ by {
        assert(after[i].token@ == before[i].token@);
        assert(after[j].token@ == before[j].token@);
    }
    lemma_same_tokens_elsewhere(before, after, p);
}

/// Two lists that agree everywhere but at `p`, where `after` may have one
/// entry more, stand for maps that differ at that entry's token only.
proof fn lemma_same_tokens_elsewhere(before: Seq<Session>, after: Seq<Session>, p: int)
    requires
        tokens_unique(before),
        tokens_unique(after),
        0 <= p < after.len(),
        after.len() == before.len() || (after.len() == before.len() + 1 && p == before.len()),
        forall|i: int| 0 <= i < before.len() && i != p ==> before[i] == after[i],
        p < before.len() ==> before[p].token@ == after[p].token@,
    ensures
        table_of(after) == table_of(before).insert(after[p].token@, after[p].identity@),
{
    let token = after[p].token@;
    let expected = table_of(before).insert(token, after[p].identity@);
    assert forall|t: Seq<char>| table_of(after).contains_key(t) <==> expected.contains_key(
        t,
    ) by {
        if has_token(after, t) {
            let q = position_of(after, t);
            if q != p {
                assert(before[q] == after[q]);
            }
        }
        if has_token(before, t) {
            let q = position_of(before, t);
            if q != p {
                assert(before[q] == after[q]);
            } else {
                assert(after[p].token@ == t);
            }
        }
        if t == token {
            assert(after[p].token@ == t);
        }
    }
    assert forall|t: Seq<char>| table_of(after).contains_key(t) implies table_of(after)[t]
        == expected[t] by {
        let q = position_of(after, t);
        lemma_entry_decides(after, q);
        if q != p {
            assert(before[q] == after[q]);
            lemma_entry_decides(before, q);
        }
    }
    assert(table_of(after) =~= expected);
}

} // verus!

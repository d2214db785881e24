//! The scheduled-job table: identifiers the host will echo back, mapped to
//! the zero-argument jobs to run when it does.
//!
//! The table is an association list with pairwise-distinct keys. Registration
//! only ever adds or overwrites entries; nothing removes one. An identifier
//! the host replays either still names its job, or — after a module reload
//! emptied the table — names nothing, which delivery treats as a no-op.

use vstd::prelude::*;

verus! {

/// What an association list maps an identifier to: the job stored under the
/// first entry whose key matches, if any.
pub open spec fn assoc_lookup<J>(s: Seq<(String, J)>, id: Seq<char>) -> Option<J>
    decreases s.len(),
{
    if s.len() == 0 {
        None
    } else if s[0].0@ == id {
        Some(s[0].1)
    } else {
        assoc_lookup(s.subrange(1, s.len() as int), id)
    }
}

/// Looking up in the tail of a list drops its head entry.
proof fn lemma_assoc_lookup_step<J>(s: Seq<(String, J)>, i: int, id: Seq<char>)
    requires
        0 <= i < s.len(),
    ensures
        assoc_lookup(s.subrange(i, s.len() as int), id) == (if s[i].0@ == id {
            Some(s[i].1)
        } else {
            assoc_lookup(s.subrange(i + 1, s.len() as int), id)
        }),
{
    let sub = s.subrange(i, s.len() as int);
    assert(sub[0] == s[i]);
    assert(sub.subrange(1, sub.len() as int) =~= s.subrange(i + 1, s.len() as int));
}

/// An identifier maps to nothing exactly when no entry carries it.
proof fn lemma_assoc_none_iff_absent<J>(s: Seq<(String, J)>, id: Seq<char>)
    ensures
        assoc_lookup(s, id) is None <==> (forall|j: int| 0 <= j < s.len() ==> s[j].0@ != id),
    decreases s.len(),
{
    if s.len() > 0 {
        lemma_assoc_none_iff_absent(s.subrange(1, s.len() as int), id);
        assert forall|j: int| 1 <= j < s.len() implies s.subrange(1, s.len() as int)[j - 1]
            == s[j] by {}
    }
}

/// Appending an entry leaves every other identifier's lookup unchanged, and
/// resolves the appended identifier to the old lookup where there was one.
proof fn lemma_assoc_push<J>(s: Seq<(String, J)>, e: (String, J), id: Seq<char>)
    ensures
        assoc_lookup(s.push(e), id) == (if assoc_lookup(s, id) is Some {
            assoc_lookup(s, id)
        } else if e.0@ == id {
            Some(e.1)
        } else {
            None::<J>
        }),
    decreases s.len(),
{
    if s.len() == 0 {
        assert(s.push(e).len() == 1);
        assert(s.push(e)[0] == e);
        assert(s.push(e).subrange(1, 1) =~= Seq::<(String, J)>::empty());
        assert(assoc_lookup(Seq::<(String, J)>::empty(), id) is None);
        assert(assoc_lookup(s, id) is None);
    } else {
        let tail = s.subrange(1, s.len() as int);
        lemma_assoc_push(tail, e, id);
        assert(s.push(e).len() == s.len() + 1);
        assert(s.push(e)[0] == s[0]);
        assert(s.push(e).subrange(1, s.len() as int + 1) =~= tail.push(e));
        if s[0].0@ == id {
        } else {
            assert(assoc_lookup(s.push(e), id) == assoc_lookup(tail.push(e), id));
            assert(assoc_lookup(s, id) == assoc_lookup(tail, id));
        }
    }
}

/// Overwriting the entry that already carries a key rebinds that key alone.
proof fn lemma_assoc_update_same_key<J>(s: Seq<(String, J)>, i: int, e: (String, J), id: Seq<char>)
    requires
        0 <= i < s.len(),
        s[i].0@ == e.0@,
        forall|a: int, b: int| 0 <= a < b < s.len() ==> s[a].0@ != s[b].0@,
    ensures
        assoc_lookup(s.update(i, e), id) == (if e.0@ == id {
            Some(e.1)
        } else {
            assoc_lookup(s, id)
        }),
    decreases i,
{
    let s2 = s.update(i, e);
    if i == 0 {
        assert(s2[0] == e);
        assert(s2.subrange(1, s2.len() as int) =~= s.subrange(1, s.len() as int));
    } else {
        assert(s2[0] == s[0]);
        // The head key differs from the overwritten key.
        assert(s[0].0@ != s[i].0@);
        let tail = s.subrange(1, s.len() as int);
        assert forall|a: int, b: int| 0 <= a < b < tail.len() implies tail[a].0@
            != tail[b].0@ by {
            assert(tail[a] == s[a + 1]);
            assert(tail[b] == s[b + 1]);
        }
        assert(tail[i - 1] == s[i]);
        lemma_assoc_update_same_key(tail, i - 1, e, id);
        assert(s2.subrange(1, s2.len() as int) =~= tail.update(i - 1, e));
    }
}

/// The table of scheduled jobs, keyed by the opaque identifiers handed to the
/// host at registration time.
pub struct JobTable<J> {
    pub entries: Vec<(String, J)>,
}

impl<J> JobTable<J> {
    /// Keys are pairwise distinct, so each identifier names at most one job.
    pub open spec fn wf(self) -> bool {
        forall|i: int, j: int|
            0 <= i < j < self.entries@.len() ==> self.entries@[i].0@ != self.entries@[j].0@
    }

    /// What the table maps `id` to.
    pub open spec fn spec_lookup(self, id: Seq<char>) -> Option<J> {
        assoc_lookup(self.entries@, id)
    }

    pub fn new() -> (r: Self)
        ensures
            r.wf(),
            r.entries@.len() == 0,
            forall|id: Seq<char>| r.spec_lookup(id) is None,
    {
        JobTable { entries: Vec::new() }
    }

    /// Binds `id` to `job`: a fresh identifier gains an entry, an identifier
    /// already present has its job overwritten. Every other identifier keeps
    /// its binding.
    pub fn insert(&mut self, id: String, job: J)
        requires
            old(self).wf(),
        ensures
            final(self).wf(),
            final(self).spec_lookup(id@) == Some(job),
            forall|k: Seq<char>| k != id@ ==> final(self).spec_lookup(k) == old(self).spec_lookup(
                k,
            ),
    {
        let ghost s0 = self.entries@;
        let n = self.entries.len();
        let mut i: usize = 0;
        while i < n
            invariant
                n == self.entries@.len(),
                0 <= i <= n,
                self.entries@ == s0,
                s0 == old(self).entries@,
                forall|a: int, b: int| 0 <= a < b < s0.len() ==> s0[a].0@ != s0[b].0@,
                forall|j: int| 0 <= j < i ==> s0[j].0@ != id@,
            decreases n - i,
        {
            if self.entries[i].0 == id {
                self.entries[i] = (id, job);
                proof {
                    lemma_assoc_update_same_key(s0, i as int, (id, job), id@);
                    assert forall|k: Seq<char>| k != id@ implies final(self).spec_lookup(k)
                        == assoc_lookup(s0, k) by {
                        lemma_assoc_update_same_key(s0, i as int, (id, job), k);
                    }
                }
                return ;
            }
            i = i + 1;
        }
        proof {
            lemma_assoc_none_iff_absent(s0, id@);
        }
        self.entries.push((id, job));
        proof {
            lemma_assoc_push(s0, (id, job), id@);
            assert forall|k: Seq<char>| k != id@ implies final(self).spec_lookup(k)
                == assoc_lookup(s0, k) by {
                lemma_assoc_push(s0, (id, job), k);
            }
            assert forall|a: int, b: int|
                0 <= a < b < self.entries@.len() implies self.entries@[a].0@
                != self.entries@[b].0@ by {
                if b < s0.len() {
                } else {
                    assert(self.entries@[b] == (id, job));
                }
            }
        }
    }

}

impl<J: Copy> JobTable<J> {
    /// The job registered under `id`, if the table still holds one.
    pub fn get(&self, id: &String) -> (r: Option<J>)
        ensures
            r == self.spec_lookup(id@),
    {
        let n = self.entries.len();
        let mut i: usize = 0;
        proof {
            assert(self.entries@.subrange(0, n as int) =~= self.entries@);
        }
        while i < n
            invariant
                n == self.entries@.len(),
                0 <= i <= n,
                assoc_lookup(self.entries@, id@) == assoc_lookup(
                    self.entries@.subrange(i as int, n as int),
                    id@,
                ),
            decreases n - i,
        {
            proof {
                lemma_assoc_lookup_step(self.entries@, i as int, id@);
            }
            if self.entries[i].0 == *id {
                return Some(self.entries[i].1);
            }
            i = i + 1;
        }
        proof {
            assert(self.entries@.subrange(n as int, n as int) =~= Seq::<(String, J)>::empty());
        }
        None
    }
}

/// Law: registering a job under a fresh identifier adds exactly one binding.
/// The fresh identifier differs from the identifier of every prior
/// registration still in the table; afterwards it names exactly the job that
/// was registered, and every other identifier still names what it did before,
/// so each later replay of the identifier resolves to that job and to no
/// other.
pub proof fn lemma_fresh_registration<J>(t: JobTable<J>, id: String, job: J)
    requires
        t.wf(),
        t.spec_lookup(id@) is None,
    ensures
        forall|j: int| 0 <= j < t.entries@.len() ==> t.entries@[j].0@ != id@,
        assoc_lookup(t.entries@.push((id, job)), id@) == Some(job),
        forall|k: Seq<char>|
            k != id@ ==> assoc_lookup(t.entries@.push((id, job)), k) == t.spec_lookup(k),
{
    lemma_assoc_none_iff_absent(t.entries@, id@);
    lemma_assoc_push(t.entries@, (id, job), id@);
    assert forall|k: Seq<char>| k != id@ implies assoc_lookup(t.entries@.push((id, job)), k)
        == t.spec_lookup(k) by {
        lemma_assoc_push(t.entries@, (id, job), k);
    }
}

} // verus!

//! The context store: the mapping from context identifier to per-context
//! state. Contexts are created lazily on first use with the default field
//! values and live for the life of the store; no deletion path exists.

use vstd::prelude::*;
use crate::model::{Context, ViralMetrics, is_fresh_context};

verus! {

/// Why a lookup failed: the identifier was never ensured.
#[derive(Clone, Copy, PartialEq, Eq, Structural, Debug)]
pub enum StoreError {
    NotFound,
}

/// Some entry carries the key `id`.
pub open spec fn spec_has_key(entries: Seq<(String, Context)>, id: Seq<char>) -> bool {
    exists|i: int| 0 <= i < entries.len() && entries[i].0@ == id
}

/// The position of the entry carrying `id` (unambiguous when keys are
/// pairwise distinct).
pub open spec fn spec_key_index(entries: Seq<(String, Context)>, id: Seq<char>) -> int {
    choose|i: int| 0 <= i < entries.len() && entries[i].0@ == id
}

/// The context stored under `id`.
pub open spec fn spec_ctx(entries: Seq<(String, Context)>, id: Seq<char>) -> Context {
    entries[spec_key_index(entries, id)].1
}

/// Owns every context, keyed by its identifier.
pub struct ContextStore {
    pub entries: Vec<(String, Context)>,
}

/// `post` is `pre` with the context for `id` ensured: present afterwards,
/// untouched when it already existed, appended fresh when it did not.
pub open spec fn spec_ensured(pre: ContextStore, post: ContextStore, id: Seq<char>) -> bool {
    &&& post.has(id)
    &&& (pre.has(id) ==> post.entries@ == pre.entries@)
    &&& (!pre.has(id) ==> {
        &&& post.entries@.len() == pre.entries@.len() + 1
        &&& post.entries@.drop_last() == pre.entries@
        &&& is_fresh_context(post.entries@.last().1, id)
    })
}

impl ContextStore {
    /// Keys are pairwise distinct, so each lookup is unambiguous.
    pub open spec fn wf(self) -> bool {
        forall|i: int, j: int|
            0 <= i < j < self.entries@.len() ==> self.entries@[i].0@ != self.entries@[j].0@
    }

    pub open spec fn has(self, id: Seq<char>) -> bool {
        spec_has_key(self.entries@, id)
    }

    pub open spec fn ctx(self, id: Seq<char>) -> Context {
        spec_ctx(self.entries@, id)
    }

    pub fn new() -> (r: Self)
        ensures
            r.wf(),
            r.entries@.len() == 0,
    {
        ContextStore { entries: Vec::new() }
    }

    /// The position of the entry for `context_id`, if one exists.
    fn find_index(&self, context_id: &String) -> (r: Option<usize>)
        ensures
            match r {
                Some(i) => i < self.entries@.len() && self.entries@[i as int].0@ == context_id@,
                None => !self.has(context_id@),
            },
    {
        let n = self.entries.len();
        let mut i: usize = 0;
        while i < n
            invariant
                n == self.entries@.len(),
                i <= n,
                forall|j: int| 0 <= j < i ==> self.entries@[j].0@ != context_id@,
            decreases n - i,
        {
            if self.entries[i].0 == *context_id {
                return Some(i);
            }
            i += 1;
        }
        None
    }

    /// Whether a context exists for `context_id`.
    pub fn contains(&self, context_id: &String) -> (r: bool)
        ensures
            r == self.has(context_id@),
    {
        self.find_index(context_id).is_some()
    }

    /// Returns the existing context for `context_id`, or creates and stores a
    /// fresh one with the default field values first. An already stored
    /// context is never reset.
    pub fn ensure(&mut self, context_id: &String)
        requires
            old(self).wf(),
        ensures
            final(self).wf(),
            spec_ensured(*old(self), *final(self), context_id@),
            final(self).ctx(context_id@) == if old(self).has(context_id@) {
                old(self).ctx(context_id@)
            } else {
                final(self).entries@.last().1
            },
    {
        if self.find_index(context_id).is_none() {
            let fresh = Context {
                context_id: context_id.clone(),
                active_goals: Vec::new(),
                memory_vectors: Vec::new(),
                viral_metrics: ViralMetrics::default(),
                created_at: now_rfc3339(),
            };
            let ghost prev = self.entries@;
            self.entries.push((context_id.clone(), fresh));
            proof {
                assert(self.entries@.drop_last() =~= prev);
                assert(self.entries@[prev.len() as int].0@ == context_id@);
                lemma_unique_key_lookup(self.entries@, context_id@, prev.len() as int);
            }
        } else {
            proof {
                let i = spec_key_index(self.entries@, context_id@);
                lemma_unique_key_lookup(self.entries@, context_id@, i);
            }
        }
    }

    /// The context stored for `context_id`, or `NotFound` when `ensure` was
    /// never called for it.
    pub fn get(&self, context_id: &String) -> (r: Result<&Context, StoreError>)
        requires
            self.wf(),
        ensures
            match r {
                Ok(c) => self.has(context_id@) && *c == self.ctx(context_id@),
                Err(e) => !self.has(context_id@) && e == StoreError::NotFound,
            },
    {
        match self.find_index(context_id) {
            Some(i) => {
                proof {
                    lemma_unique_key_lookup(self.entries@, context_id@, i as int);
                }
                Ok(&self.entries[i].1)
            },
            None => Err(StoreError::NotFound),
        }
    }

    /// The metrics of the context stored for `context_id`, or `NotFound`.
    pub fn metrics(&self, context_id: &String) -> (r: Result<ViralMetrics, StoreError>)
        requires
            self.wf(),
        ensures
            match r {
                Ok(m) => self.has(context_id@) && m == self.ctx(context_id@).viral_metrics,
                Err(e) => !self.has(context_id@) && e == StoreError::NotFound,
            },
    {
        match self.get(context_id) {
            Ok(c) => Ok(c.viral_metrics),
            Err(e) => Err(e),
        }
    }
}

/// With pairwise distinct keys, the entry at any matching position is the
/// entry every lookup lands on.
pub proof fn lemma_unique_key_lookup(entries: Seq<(String, Context)>, id: Seq<char>, i: int)
    requires
        0 <= i < entries.len(),
        entries[i].0@ == id,
        forall|p: int, q: int| 0 <= p < q < entries.len() ==> entries[p].0@ != entries[q].0@,
    ensures
        spec_has_key(entries, id),
        spec_key_index(entries, id) == i,
        spec_ctx(entries, id) == entries[i].1,
{
    assert(spec_has_key(entries, id));
    let k = spec_key_index(entries, id);
    assert(0 <= k < entries.len() && entries[k].0@ == id);
    if k < i {
        assert(entries[k].0@ != entries[i].0@);
    } else if k > i {
        assert(entries[i].0@ != entries[k].0@);
    }
}

/// Relies on `chrono::Utc::now` for the moment of the call and on
/// `chrono::DateTime::to_rfc3339` to render it, as in
/// `1996-12-19T16:39:57+00:00`. The moment itself is the clock's business;
/// the rendering is never empty.
#[verifier::external_body]
fn now_rfc3339() -> (r: String)
    ensures
        r@.len() > 0,
{
    chrono::Utc::now().to_rfc3339()
}

} // verus!

//! Presence tracking for the periodic contactless-tag poll.
//!
//! Each poll cycle reports the identifier the reader found in the field, or
//! nothing.  The poller remembers the outcome of the previous cycle and
//! reports a *new* tag only when an identifier was found and differs from
//! the remembered one; an empty field is an expected outcome, not an error,
//! and clears the memory so that removing and re-presenting the same tag is
//! reported again.

use vstd::prelude::*;

verus! {

/// What one poll cycle reports, given the identifier remembered from the
/// previous cycle (`last`) and the identifier found this cycle (`found`).
pub open spec fn spec_new_tag(last: Option<Seq<u8>>, found: Option<Seq<u8>>) -> Option<Seq<u8>> {
    if found is Some && found != last {
        found
    } else {
        None
    }
}

/// The identifiers reported over a whole run of poll cycles whose outcomes
/// are `founds`, starting with `last` remembered; each element of the
/// result is one reported new tag, in order.  Each cycle updates the
/// memory to that cycle's outcome, as `check_for_new_tag` does.
pub open spec fn spec_poll_run(last: Option<Seq<u8>>, founds: Seq<Option<Seq<u8>>>) -> Seq<Seq<u8>>
    decreases founds.len(),
{
    if founds.len() == 0 {
        Seq::empty()
    } else {
        let rest = spec_poll_run(founds[0], founds.drop_first());
        match spec_new_tag(last, founds[0]) {
            Some(uid) => seq![uid] + rest,
            None => rest,
        }
    }
}

/// The view of an optional identifier.
pub open spec fn spec_uid(uid: Option<Vec<u8>>) -> Option<Seq<u8>> {
    match uid {
        Some(v) => Some(v@),
        None => None,
    }
}

/// The tag-presence poller's state: the identifier observed by the
/// previous poll cycle, if any.
pub struct TagPoller {
    pub last_tag: Option<Vec<u8>>,
}

impl TagPoller {
    /// The remembered identifier, as a value.
    pub open spec fn last_seen(self) -> Option<Seq<u8>> {
        spec_uid(self.last_tag)
    }

    /// A poller that has not seen any tag yet.
    pub fn new() -> (r: TagPoller)
        ensures
            r.last_seen() is None,
    {
        TagPoller { last_tag: None }
    }

    /// Record the outcome of one poll cycle and return the identifier to
    /// report as a new tag, if any: the found identifier exactly when one
    /// was found and it differs from the remembered one.  The memory is
    /// always updated to this cycle's outcome, including to "none".
    pub fn check_for_new_tag(&mut self, found: Option<Vec<u8>>) -> (r: Option<Vec<u8>>)
        ensures
            final(self).last_seen() == spec_uid(found),
            spec_uid(r) == spec_new_tag(old(self).last_seen(), spec_uid(found)),
    {
        let is_new = match (&found, &self.last_tag) {
            (Some(f), Some(l)) => !uid_eq(f, l),
            (Some(_), None) => true,
            (None, _) => false,
        };
        let r = if is_new {
            match &found {
                Some(f) => Some(copy_uid(f)),
                None => None,
            }
        } else {
            None
        };
        self.last_tag = found;
        r
    }
}

/// Whether two identifiers hold the same bytes.
fn uid_eq(a: &Vec<u8>, b: &Vec<u8>) -> (r: bool)
    ensures
        r == (a@ == b@),
{
    if a.len() != b.len() {
        return false;
    }
    let n = a.len();
    let mut k: usize = 0;
    while k < n
        invariant
            n == a@.len(),
            n == b@.len(),
            k <= n,
            forall|j: int| 0 <= j < k ==> a@[j] == b@[j],
        decreases n - k,
    {
        if a[k] != b[k] {
            return false;
        }
        k += 1;
    }
    proof {
        assert(a@ =~= b@);
    }
    true
}

/// A fresh vector holding the same bytes.
fn copy_uid(v: &Vec<u8>) -> (r: Vec<u8>)
    ensures
        r@ == v@,
{
    let n = v.len();
    let mut r: Vec<u8> = Vec::new();
    let mut k: usize = 0;
    while k < n
        invariant
            n == v@.len(),
            k <= n,
            r@ =~= v@.subrange(0, k as int),
        decreases n - k,
    {
        r.push(v[k]);
        k += 1;
    }
    proof {
        assert(r@ =~= v@);
    }
    r
}

/// Tag re-entry: presenting tag `a`, removing it for one empty cycle, and
/// re-presenting `a` reports the tag twice; presenting `a` on two
/// consecutive cycles without removal reports it exactly once.
pub proof fn lemma_tag_reentry(a: Seq<u8>)
    ensures
        spec_poll_run(None, seq![Some(a), None, Some(a)]) == seq![a, a],
        spec_poll_run(None, seq![Some(a), Some(a)]) == seq![a],
{
    reveal_with_fuel(spec_poll_run, 4);
    let reentry: Seq<Option<Seq<u8>>> = seq![Some(a), None, Some(a)];
    let twice: Seq<Option<Seq<u8>>> = seq![Some(a), Some(a)];
    assert(reentry.drop_first() =~= seq![Option::<Seq<u8>>::None, Some(a)]);
    assert(reentry.drop_first().drop_first() =~= seq![Option::<Seq<u8>>::Some(a)]);
    assert(reentry.drop_first().drop_first().drop_first() =~= Seq::<Option<Seq<u8>>>::empty());
    assert(twice.drop_first() =~= seq![Option::<Seq<u8>>::Some(a)]);
    assert(twice.drop_first().drop_first() =~= Seq::<Option<Seq<u8>>>::empty());
    assert(spec_poll_run(None, reentry) =~= seq![a, a]);
    assert(spec_poll_run(None, twice) =~= seq![a]);
}

} // verus!

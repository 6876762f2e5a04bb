use vstd::prelude::*;

use crate::errors::ErrorKind;
use crate::errors::TweakError;

verus! {

/// The timestamps of `ts` that are still inside a trailing window ending
/// at `now`: those with `t + window > now`, in their original order.
pub open spec fn retained_spec(ts: Seq<u64>, now: u64, window: u64) -> Seq<u64>
    decreases ts.len(),
{
    if ts.len() == 0 {
        Seq::empty()
    } else {
        let init = retained_spec(ts.drop_last(), now, window);
        if ts.last() + window > now {
            init.push(ts.last())
        } else {
            init
        }
    }
}

/// The timestamps of `ts` still inside the window, with older ones
/// evicted.
fn prune_window(ts: &Vec<u64>, now: u64, window: u64) -> (kept: Vec<u64>)
    ensures
        kept@ == retained_spec(ts@, now, window),
{
    let mut kept: Vec<u64> = Vec::new();
    let mut i: usize = 0;
    while i < ts.len()
        invariant
            i <= ts@.len(),
            kept@ == retained_spec(ts@.subrange(0, i as int), now, window),
        decreases ts@.len() - i,
    {
        let t = ts[i];
        let inside = now < window || t > now - window;
        proof {
            assert(inside == (ts@[i as int] + window > now));
            let pre = ts@.subrange(0, i as int + 1);
            assert(pre.drop_last() =~= ts@.subrange(0, i as int));
            assert(pre.last() == ts@[i as int]);
        }
        if inside {
            kept.push(t);
        }
        i = i + 1;
    }
    proof {
        assert(ts@.subrange(0, ts@.len() as int) =~= ts@);
    }
    kept
}

/// A keyed sliding-window rate limiter: for each key, the timestamps of
/// the requests it admitted. Enforcement is configurable; a disabled
/// limiter admits everything and records nothing.
pub struct RateLimiter {
    pub enabled: bool,
    pub windows: Vec<(String, Vec<u64>)>,
}

impl RateLimiter {
    /// Each key appears at most once in the table.
    pub open spec fn wf(self) -> bool {
        forall|i: int, j: int|
            0 <= i < j < self.windows@.len() ==> (#[trigger] self.windows@[i]).0@ != (
            #[trigger] self.windows@[j]).0@
    }

    /// Some entry of the table carries this key.
    pub open spec fn has_key(self, k: Seq<char>) -> bool {
        exists|i: int| 0 <= i < self.windows@.len() && (#[trigger] self.windows@[i]).0@ == k
    }

    /// The index of the entry carrying this key.
    pub open spec fn key_index(self, k: Seq<char>) -> int {
        choose|i: int| 0 <= i < self.windows@.len() && (#[trigger] self.windows@[i]).0@ == k
    }

    /// The recorded timestamps for this key; empty when the key is
    /// unknown.
    pub open spec fn entries_spec(self, k: Seq<char>) -> Seq<u64> {
        if self.has_key(k) {
            self.windows@[self.key_index(k)].1@
        } else {
            Seq::empty()
        }
    }

    proof fn lemma_key_at(self, k: Seq<char>, i: int)
        requires
            self.wf(),
            0 <= i < self.windows@.len(),
            self.windows@[i].0@ == k,
        ensures
            self.has_key(k),
            self.key_index(k) == i,
    {
        let j = self.key_index(k);
        assert(0 <= j < self.windows@.len() && self.windows@[j].0@ == k);
    }

    /// A fresh limiter with no recorded requests.
    pub fn new(enabled: bool) -> (rl: RateLimiter)
        ensures
            rl.wf(),
            rl.enabled == enabled,
            forall|k: Seq<char>| rl.entries_spec(k) == Seq::<u64>::empty(),
    {
        let rl = RateLimiter { enabled, windows: Vec::new() };
        proof {
            assert(forall|k: Seq<char>| !rl.has_key(k));
        }
        rl
    }

    fn find_index(&self, k: &String) -> (r: Option<usize>)
        ensures
            r matches Some(i) ==> i < self.windows@.len() && self.windows@[i as int].0@ == k@,
            r is None ==> forall|j: int|
                0 <= j < self.windows@.len() ==> (#[trigger] self.windows@[j]).0@ != k@,
    {
        let mut j: usize = 0;
        while j < self.windows.len()
            invariant
                j <= self.windows@.len(),
                forall|i: int| 0 <= i < j ==> (#[trigger] self.windows@[i]).0@ != k@,
            decreases self.windows@.len() - j,
        {
            if self.windows[j].0 == *k {
                return Some(j);
            }
            j = j + 1;
        }
        None
    }

    /// Admits or refuses one request for `key` at time `now` (seconds).
    ///
    /// A disabled limiter admits everything unchanged. An enabled one
    /// evicts the key's timestamps that fell out of the trailing window,
    /// refuses with `RateLimitExceeded` when the retained ones already
    /// reach `max_requests` (recording nothing), and otherwise records
    /// `now` for the key and admits the request; other keys are never
    /// touched.
    pub fn check_rate_limit(
        &mut self,
        key: &str,
        max_requests: u32,
        window_seconds: u64,
        now: u64,
    ) -> (r: Result<(), TweakError>)
        requires
            old(self).wf(),
        ensures
            final(self).wf(),
            final(self).enabled == old(self).enabled,
            !old(self).enabled ==> r is Ok && final(self).windows@ == old(self).windows@,
            old(self).enabled ==> ({
                let kept = retained_spec(old(self).entries_spec(key@), now, window_seconds);
                &&& (r is Ok <==> kept.len() < max_requests)
                &&& (r matches Err(e) ==> e.kind == ErrorKind::RateLimitExceeded
                    && final(self).windows@ == old(self).windows@)
                &&& (r is Ok ==> final(self).entries_spec(key@) == kept.push(now)
                    && final(self).entries_spec(key@).len() <= max_requests)
                &&& (r is Ok ==> forall|k2: Seq<char>|
                    k2 != key@ ==> final(self).entries_spec(k2) == old(self).entries_spec(k2))
            }),
    {
        if !self.enabled {
            return Ok(());
        }
        let k: String = key.to_owned();
        let found = self.find_index(&k);
        match found {
            Some(idx) => {
                proof {
                    self.lemma_key_at(key@, idx as int);
                }
                let kept = prune_window(&self.windows[idx].1, now, window_seconds);
                if kept.len() >= max_requests as usize {
                    return Err(TweakError::new(
                        ErrorKind::RateLimitExceeded,
                        String::from_str("Too many requests for this operation; try again later"),
                    ));
                }
                let ghost before = *self;
                let pair = self.windows.remove(idx);
                let mut entries = kept;
                entries.push(now);
                let ghost new_entries = entries@;
                self.windows.push((pair.0, entries));
                proof {
                    let ws_old = before.windows@;
                    let ws_new = self.windows@;
                    let last = ws_new.len() - 1;
                    assert(ws_new[last].0@ == key@);
                    assert(ws_new[last].1@ == new_entries);
                    assert forall|i: int, j: int| 0 <= i < j < ws_new.len() implies (
                    #[trigger] ws_new[i]).0@ != (#[trigger] ws_new[j]).0@ by {
                        let oi = if i < idx {
                            i
                        } else {
                            i + 1
                        };
                        if j < last {
                            let oj = if j < idx {
                                j
                            } else {
                                j + 1
                            };
                            assert(ws_new[i] == ws_old[oi]);
                            assert(ws_new[j] == ws_old[oj]);
                        } else {
                            assert(ws_new[i] == ws_old[oi]);
                            assert(ws_old[oi].0@ != ws_old[idx as int].0@);
                        }
                    }
                    self.lemma_key_at(key@, last);
                    assert(self.entries_spec(key@) == new_entries);
                    assert forall|k2: Seq<char>| k2 != key@ implies self.entries_spec(k2)
                        == before.entries_spec(k2) by {
                        if before.has_key(k2) {
                            let oj = before.key_index(k2);
                            assert(0 <= oj < ws_old.len() && ws_old[oj].0@ == k2);
                            assert(oj != idx);
                            let nj = if oj < idx {
                                oj
                            } else {
                                oj - 1
                            };
                            assert(ws_new[nj] == ws_old[oj]);
                            self.lemma_key_at(k2, nj);
                            before.lemma_key_at(k2, oj);
                        } else {
                            assert forall|j: int| 0 <= j < ws_new.len() implies (
                            #[trigger] ws_new[j]).0@ != k2 by {
                                if j < last {
                                    let oj = if j < idx {
                                        j
                                    } else {
                                        j + 1
                                    };
                                    assert(ws_new[j] == ws_old[oj]);
                                }
                            }
                            assert(!self.has_key(k2));
                        }
                    }
                }
                Ok(())
            },
            None => {
                proof {
                    assert(!old(self).has_key(key@));
                    assert(old(self).entries_spec(key@) == Seq::<u64>::empty());
                }
                if max_requests == 0 {
                    return Err(TweakError::new(
                        ErrorKind::RateLimitExceeded,
                        String::from_str("Too many requests for this operation; try again later"),
                    ));
                }
                let ghost before = *self;
                let mut entries: Vec<u64> = Vec::new();
                entries.push(now);
                let ghost new_entries = entries@;
                self.windows.push((k, entries));
                proof {
                    let ws_old = before.windows@;
                    let ws_new = self.windows@;
                    let last = ws_new.len() - 1;
                    assert(ws_new[last].0@ == key@);
                    assert forall|i: int, j: int| 0 <= i < j < ws_new.len() implies (
                    #[trigger] ws_new[i]).0@ != (#[trigger] ws_new[j]).0@ by {
                        if j < last {
                            assert(ws_new[i] == ws_old[i]);
                            assert(ws_new[j] == ws_old[j]);
                        } else {
                            assert(ws_new[i] == ws_old[i]);
                        }
                    }
                    self.lemma_key_at(key@, last);
                    assert(retained_spec(Seq::<u64>::empty(), now, window_seconds)
                        =~= Seq::<u64>::empty());
                    assert(self.entries_spec(key@) =~= retained_spec(
                        before.entries_spec(key@),
                        now,
                        window_seconds,
                    ).push(now));
                    assert forall|k2: Seq<char>| k2 != key@ implies self.entries_spec(k2)
                        == before.entries_spec(k2) by {
                        if before.has_key(k2) {
                            let oj = before.key_index(k2);
                            assert(0 <= oj < ws_old.len() && ws_old[oj].0@ == k2);
                            assert(ws_new[oj] == ws_old[oj]);
                            self.lemma_key_at(k2, oj);
                            before.lemma_key_at(k2, oj);
                        } else {
                            assert forall|j: int| 0 <= j < ws_new.len() implies (
                            #[trigger] ws_new[j]).0@ != k2 by {
                                if j < last {
                                    assert(ws_new[j] == ws_old[j]);
                                }
                            }
                            assert(!self.has_key(k2));
                        }
                    }
                }
                Ok(())
            },
        }
    }
}

} // verus!

//! The session store: a map from session key to session state with
//! TTL-based eviction.  At most one session exists per key — the store's
//! central invariant — and an existing, still-fresh session is always
//! returned rather than replaced.

use crate::bytes::str_eq;
use crate::detector::{classify_and_update, Classification};
use crate::session::{session_wf, spec_bounded_push, spec_touch, Session, MAX_HISTORY, MAX_VISITED, TRIM_VISITED};
use vstd::prelude::*;
use vstd::string::StringExecFns;

verus! {

/// Sessions idle at least this long are swept away.
pub const DEFAULT_TTL_SECS: u64 = 3600;

/// One key/session pair.
pub struct SessionEntry {
    pub key: String,
    pub session: Session,
}

/// An entry is stale at `now` when it has been idle for `ttl` seconds.
pub open spec fn spec_stale(e: SessionEntry, now: u64, ttl: u64) -> bool {
    now >= e.session.last_activity + ttl
}

/// The entries that a sweep at `now` keeps, in their original order.
pub open spec fn spec_evict(s: Seq<SessionEntry>, now: u64, ttl: u64) -> Seq<SessionEntry> {
    s.filter(|e: SessionEntry| !spec_stale(e, now, ttl))
}

/// Keys are pairwise distinct and every session is well-formed.
pub open spec fn entries_wf(s: Seq<SessionEntry>) -> bool {
    &&& forall|i: int, j: int| 0 <= i < j < s.len() ==> s[i].key@ != s[j].key@
    &&& forall|i: int| 0 <= i < s.len() ==> session_wf(#[trigger] s[i].session)
}

/// Some entry in `s` has key `key`.
pub open spec fn spec_has_key(s: Seq<SessionEntry>, key: Seq<char>) -> bool {
    exists|i: int| 0 <= i < s.len() && s[i].key@ == key
}

/// The concurrent map from session key to session state.  Handlers hold
/// it behind one lock; per-session field updates go through the indexed
/// accessors below.
pub struct SessionStore {
    pub entries: Vec<SessionEntry>,
    pub ttl_secs: u64,
}

pub open spec fn store_wf(st: SessionStore) -> bool {
    entries_wf(st.entries@)
}

impl SessionStore {
    /// An empty store with the given idle TTL.
    pub fn new(ttl_secs: u64) -> (st: SessionStore)
        ensures
            store_wf(st),
            st.entries@.len() == 0,
            st.ttl_secs == ttl_secs,
    {
        SessionStore { entries: Vec::new(), ttl_secs }
    }

    /// Sweep away entries idle beyond the TTL, keeping the rest in order.
    pub fn evict_idle(&mut self, now: u64)
        requires
            store_wf(*old(self)),
        ensures
            store_wf(*final(self)),
            final(self).ttl_secs == old(self).ttl_secs,
            final(self).entries@ == spec_evict(old(self).entries@, now, old(self).ttl_secs),
    {
        let ttl = self.ttl_secs;
        let ghost orig = self.entries@;
        let ghost pred = |e: SessionEntry| !spec_stale(e, now, ttl);
        let mut kept: Vec<SessionEntry> = Vec::new();
        let ghost done: int = 0;
        proof {
            assert(orig.subrange(0, 0).filter(pred) =~= kept@) by {
                reveal(Seq::filter);
            }
        }
        while self.entries.len() > 0
            invariant
                self.ttl_secs == ttl,
                pred == (|e: SessionEntry| !spec_stale(e, now, ttl)),
                0 <= done <= orig.len(),
                self.entries@ == orig.skip(done),
                kept@ == orig.subrange(0, done).filter(pred),
            decreases self.entries@.len(),
        {
            let e = self.entries.remove(0);
            proof {
                assert(orig.skip(done).remove(0) =~= orig.skip(done + 1));
                assert(e == orig[done]);
            }
            let fresh = !(now >= e.session.last_activity && now - e.session.last_activity >= ttl);
            proof {
                assert(fresh == pred(e));
                let pre = orig.subrange(0, done);
                assert(pre.push(e) =~= orig.subrange(0, done + 1));
                Seq::filter_distributes_over_add(pre, seq![e], pred);
                assert(pre + seq![e] =~= orig.subrange(0, done + 1));
                assert(seq![e].filter(pred) =~= if pred(e) {
                    seq![e]
                } else {
                    Seq::<SessionEntry>::empty()
                }) by {
                    reveal_with_fuel(Seq::filter, 3);
                    assert(seq![e].drop_last() =~= Seq::<SessionEntry>::empty());
                    assert(Seq::<SessionEntry>::empty().filter(pred) =~= Seq::<
                        SessionEntry,
                    >::empty());
                }
            }
            if fresh {
                kept.push(e);
                proof {
                    assert(kept@ =~= orig.subrange(0, done).filter(pred) + seq![e]);
                }
            } else {
                proof {
                    assert(kept@ =~= orig.subrange(0, done).filter(pred) + seq![
                        e,
                    ].filter(pred));
                }
            }
            proof {
                done = done + 1;
            }
        }
        proof {
            assert(orig.subrange(0, orig.len() as int) =~= orig);
        }
        self.entries = kept;
        proof {
            lemma_evict_wf(orig, now, ttl);
        }
    }

    /// Return the index of the session for `key`, sweeping stale entries
    /// first, and creating a fresh session if none is left for that key.
    /// At most one entry per key exists before and after.
    pub fn get_or_create(&mut self, key: &str, now: u64) -> (idx: usize)
        requires
            store_wf(*old(self)),
        ensures
            store_wf(*final(self)),
            final(self).ttl_secs == old(self).ttl_secs,
            idx < final(self).entries@.len(),
            final(self).entries@[idx as int].key@ == key@,
            ({
                let ev = spec_evict(old(self).entries@, now, old(self).ttl_secs);
                let fin = final(self).entries@;
                if spec_has_key(ev, key@) {
                    fin == ev
                } else {
                    fin.len() == ev.len() + 1 && fin.subrange(0, ev.len() as int) == ev && idx
                        == ev.len() && fin[idx as int].session.session_id@ == key@
                        && fin[idx as int].session.request_count == 0
                        && fin[idx as int].session.last_activity == now
                }
            }),
    {
        self.evict_idle(now);
        let ghost ev = self.entries@;
        let n = self.entries.len();
        let mut i: usize = 0;
        while i < n
            invariant
                store_wf(*self),
                self.ttl_secs == old(self).ttl_secs,
                self.entries@ == ev,
                ev == spec_evict(old(self).entries@, now, old(self).ttl_secs),
                n == self.entries@.len(),
                i <= n,
                forall|j: int| 0 <= j < i ==> self.entries@[j].key@ != key@,
            decreases n - i,
        {
            if str_eq(self.entries[i].key.as_str(), key) {
                assert(self.entries@[i as int].key@ == key@);
                assert(spec_has_key(ev, key@));
                return i;
            }
            i += 1;
        }
        assert(!spec_has_key(ev, key@));
        let session = Session::new(key.to_owned(), now);
        let entry = SessionEntry { key: key.to_owned(), session };
        self.entries.push(entry);
        proof {
            assert(self.entries@ =~= ev.push(entry));
            assert(self.entries@.subrange(0, ev.len() as int) =~= ev);
            assert forall|a: int, b: int|
                0 <= a < b < self.entries@.len() implies self.entries@[a].key@
                != self.entries@[b].key@ by {
                if b == self.entries@.len() - 1 {
                    assert(self.entries@[a].key@ != key@);
                }
            }
        }
        n
    }

    /// How many sessions are held.
    pub fn len(&self) -> (n: usize)
        ensures
            n == self.entries@.len(),
    {
        self.entries.len()
    }

    /// Read access to the session at `idx`.
    pub fn session(&self, idx: usize) -> (s: &Session)
        requires
            idx < self.entries@.len(),
        ensures
            *s == self.entries@[idx as int].session,
    {
        &self.entries[idx].session
    }

    /// Note a request on the session at `idx`.
    pub fn touch(&mut self, idx: usize, now: u64)
        requires
            store_wf(*old(self)),
            idx < old(self).entries@.len(),
        ensures
            store_wf(*final(self)),
            final(self).ttl_secs == old(self).ttl_secs,
            final(self).entries@.len() == old(self).entries@.len(),
            forall|i: int|
                0 <= i < old(self).entries@.len() && i != idx ==> final(self).entries@[i] == old(
                    self,
                ).entries@[i],
            final(self).entries@[idx as int].key == old(self).entries@[idx as int].key,
            final(self).entries@[idx as int].session == spec_touch(
                old(self).entries@[idx as int].session,
                now,
            ),
    {
        let mut e = self.entries.remove(idx);
        e.session.update_activity(now);
        self.entries.insert(idx, e);
        proof {
            assert(self.entries@ =~= old(self).entries@.update(
                idx as int,
                self.entries@[idx as int],
            ));
        }
    }

    /// Record a visit to `url` on the session at `idx`.
    pub fn record_visit(&mut self, idx: usize, url: Vec<u8>)
        requires
            store_wf(*old(self)),
            idx < old(self).entries@.len(),
        ensures
            store_wf(*final(self)),
            final(self).ttl_secs == old(self).ttl_secs,
            final(self).entries@.len() == old(self).entries@.len(),
            forall|i: int|
                0 <= i < old(self).entries@.len() && i != idx ==> final(self).entries@[i] == old(
                    self,
                ).entries@[i],
            final(self).entries@[idx as int].key == old(self).entries@[idx as int].key,
            ({
                let s0 = old(self).entries@[idx as int].session;
                let s1 = final(self).entries@[idx as int].session;
                s1.visited_urls@ == spec_bounded_push(
                    s0.visited_urls@,
                    url,
                    MAX_VISITED as int,
                    TRIM_VISITED as int,
                ) && s1.interaction_history@.len() <= MAX_HISTORY && s1.session_id
                    == s0.session_id && s1.fingerprint == s0.fingerprint && s1.session_start
                    == s0.session_start && s1.last_activity == s0.last_activity && s1.request_count
                    == s0.request_count && s1.success_count == s0.success_count
                    && s1.captcha_attempts == s0.captcha_attempts && s1.tokens == s0.tokens
            }),
    {
        let mut e = self.entries.remove(idx);
        e.session.record_visit(url);
        self.entries.insert(idx, e);
        proof {
            assert(self.entries@ =~= old(self).entries@.update(
                idx as int,
                self.entries@[idx as int],
            ));
        }
    }

    /// Classify a response body against the session at `idx` and let its
    /// counters follow the verdict.
    pub fn classify_body(&mut self, idx: usize, body: &[u8]) -> (r: Classification)
        requires
            store_wf(*old(self)),
            idx < old(self).entries@.len(),
        ensures
            store_wf(*final(self)),
            final(self).ttl_secs == old(self).ttl_secs,
            final(self).entries@.len() == old(self).entries@.len(),
            forall|i: int|
                0 <= i < old(self).entries@.len() && i != idx ==> final(self).entries@[i] == old(
                    self,
                ).entries@[i],
            final(self).entries@[idx as int].key == old(self).entries@[idx as int].key,
            r == crate::detector::spec_classify(body@),
            final(self).entries@[idx as int].session == if crate::detector::has_captcha_marker(
                body@,
            ) {
                crate::session::spec_bump_captcha(old(self).entries@[idx as int].session)
            } else if crate::detector::spec_classify(body@) == Classification::Success {
                crate::session::spec_bump_success(old(self).entries@[idx as int].session)
            } else {
                old(self).entries@[idx as int].session
            },
    {
        let mut e = self.entries.remove(idx);
        let r = classify_and_update(&mut e.session, body);
        self.entries.insert(idx, e);
        proof {
            assert(self.entries@ =~= old(self).entries@.update(
                idx as int,
                self.entries@[idx as int],
            ));
        }
        r
    }

    /// Note a successful response on the session at `idx`.
    pub fn record_success(&mut self, idx: usize)
        requires
            store_wf(*old(self)),
            idx < old(self).entries@.len(),
        ensures
            store_wf(*final(self)),
            final(self).ttl_secs == old(self).ttl_secs,
            final(self).entries@.len() == old(self).entries@.len(),
            forall|i: int|
                0 <= i < old(self).entries@.len() && i != idx ==> final(self).entries@[i] == old(
                    self,
                ).entries@[i],
            final(self).entries@[idx as int].key == old(self).entries@[idx as int].key,
            final(self).entries@[idx as int].session == crate::session::spec_bump_success(
                old(self).entries@[idx as int].session,
            ),
    {
        let mut e = self.entries.remove(idx);
        e.session.add_success();
        self.entries.insert(idx, e);
        proof {
            assert(self.entries@ =~= old(self).entries@.update(
                idx as int,
                self.entries@[idx as int],
            ));
        }
    }

    /// Keep a captured upstream token on the session at `idx`.
    pub fn add_token(&mut self, idx: usize, token: Vec<u8>)
        requires
            store_wf(*old(self)),
            idx < old(self).entries@.len(),
        ensures
            store_wf(*final(self)),
            final(self).ttl_secs == old(self).ttl_secs,
            final(self).entries@.len() == old(self).entries@.len(),
            forall|i: int|
                0 <= i < old(self).entries@.len() && i != idx ==> final(self).entries@[i] == old(
                    self,
                ).entries@[i],
            final(self).entries@[idx as int].key == old(self).entries@[idx as int].key,
            final(self).entries@[idx as int].session.tokens@ == old(
                self,
            ).entries@[idx as int].session.tokens@.push(token),
    {
        let mut e = self.entries.remove(idx);
        e.session.add_token(token);
        self.entries.insert(idx, e);
        proof {
            assert(self.entries@ =~= old(self).entries@.update(
                idx as int,
                self.entries@[idx as int],
            ));
        }
    }
}

/// The origin of the `i`-th element that a filter keeps: its position in
/// the unfiltered sequence.  The returned position is the exact one at
/// which the `i`-th kept element arises, which makes the mapping
/// injective.
proof fn lemma_filter_origin(s: Seq<SessionEntry>, pred: spec_fn(SessionEntry) -> bool, i: int) -> (
    j: int)
    requires
        0 <= i < s.filter(pred).len(),
    ensures
        0 <= j < s.len(),
        s[j] == s.filter(pred)[i],
        pred(s[j]),
        s.subrange(0, j).filter(pred).len() == i,
    decreases s.len(),
{
    reveal(Seq::filter);
    broadcast use Seq::lemma_filter_len;

    let sub = s.drop_last().filter(pred);
    if i < sub.len() {
        let j = lemma_filter_origin(s.drop_last(), pred, i);
        assert(s.drop_last().subrange(0, j) =~= s.subrange(0, j));
        assert(s[j] == s.drop_last()[j]);
        j
    } else {
        assert(s.subrange(0, s.len() - 1) =~= s.drop_last());
        s.len() - 1
    }
}

/// Eviction keeps well-formedness: it only removes entries, so keys stay
/// pairwise distinct and every kept session stays well-formed.
proof fn lemma_evict_wf(s: Seq<SessionEntry>, now: u64, ttl: u64)
    requires
        entries_wf(s),
    ensures
        entries_wf(spec_evict(s, now, ttl)),
{
    let pred = |e: SessionEntry| !spec_stale(e, now, ttl);
    let fs = spec_evict(s, now, ttl);
    assert forall|i: int| 0 <= i < fs.len() implies session_wf(#[trigger] fs[i].session) by {
        let o = lemma_filter_origin(s, pred, i);
    }
    assert forall|i: int, j: int| 0 <= i < j < fs.len() implies fs[i].key@ != fs[j].key@ by {
        let oi = lemma_filter_origin(s, pred, i);
        let oj = lemma_filter_origin(s, pred, j);
        if oi < oj {
            assert(s[oi].key@ != s[oj].key@);
        } else if oj < oi {
            assert(s[oj].key@ != s[oi].key@);
        }
    }
}

/// Law: resolving the same key twice yields the same session identity
/// exactly once.  `s` is the store after a first `get_or_create` for
/// `key` returned `idx`: the entry at `idx` holds the key and, having
/// just been found or created, is not yet stale.  A second resolution at
/// the same instant first sweeps — which keeps that entry — and then,
/// because keys are pairwise distinct, can only return that very entry:
/// no second session for the key ever comes into being.
pub proof fn lemma_same_key_same_session(
    s: Seq<SessionEntry>,
    key: Seq<char>,
    idx: int,
    now: u64,
    ttl: u64,
)
    requires
        entries_wf(s),
        0 <= idx < s.len(),
        s[idx].key@ == key,
        !spec_stale(s[idx], now, ttl),
    ensures
        spec_has_key(spec_evict(s, now, ttl), key),
        forall|j: int|
            0 <= j < spec_evict(s, now, ttl).len() && spec_evict(s, now, ttl)[j].key@ == key
                ==> spec_evict(s, now, ttl)[j] == s[idx],
{
    let pred = |e: SessionEntry| !spec_stale(e, now, ttl);
    let ev = spec_evict(s, now, ttl);
    Seq::lemma_filter_contains(s, pred, idx);
    let w = choose|w: int| 0 <= w < ev.len() && ev[w] == s[idx];
    assert(ev[w].key@ == key);
    assert(spec_has_key(ev, key));
    assert forall|j: int| 0 <= j < ev.len() && ev[j].key@ == key implies ev[j] == s[idx] by {
        let o = lemma_filter_origin(s, pred, j);
        if o != idx {
            if o < idx {
                assert(s[o].key@ != s[idx].key@);
            } else {
                assert(s[idx].key@ != s[o].key@);
            }
        }
    }
}

/// The digit character for one decimal digit.
pub open spec fn spec_digit_char(d: nat) -> char {
    if d == 0 {
        '0'
    } else if d == 1 {
        '1'
    } else if d == 2 {
        '2'
    } else if d == 3 {
        '3'
    } else if d == 4 {
        '4'
    } else if d == 5 {
        '5'
    } else if d == 6 {
        '6'
    } else if d == 7 {
        '7'
    } else if d == 8 {
        '8'
    } else {
        '9'
    }
}

/// The decimal text of `n`, most significant digit first.
pub open spec fn spec_dec_chars(n: nat) -> Seq<char>
    decreases n,
{
    if n < 10 {
        seq![spec_digit_char(n)]
    } else {
        spec_dec_chars(n / 10).push(spec_digit_char(n % 10))
    }
}

/// The one-character string for a decimal digit.
fn digit_str(d: u64) -> (r: &'static str)
    requires
        d < 10,
    ensures
        r@.len() == 1,
        r@[0] == spec_digit_char(d as nat),
{
    proof {
        reveal_strlit("0");
        reveal_strlit("1");
        reveal_strlit("2");
        reveal_strlit("3");
        reveal_strlit("4");
        reveal_strlit("5");
        reveal_strlit("6");
        reveal_strlit("7");
        reveal_strlit("8");
        reveal_strlit("9");
    }
    if d == 0 {
        "0"
    } else if d == 1 {
        "1"
    } else if d == 2 {
        "2"
    } else if d == 3 {
        "3"
    } else if d == 4 {
        "4"
    } else if d == 5 {
        "5"
    } else if d == 6 {
        "6"
    } else if d == 7 {
        "7"
    } else if d == 8 {
        "8"
    } else {
        "9"
    }
}

/// Append the decimal text of `n` to a string.
fn append_dec(s: &mut String, n: u64)
    ensures
        final(s)@ == old(s)@ + spec_dec_chars(n as nat),
    decreases n,
{
    if n < 10 {
        s.append(digit_str(n));
        assert(s@ =~= old(s)@ + spec_dec_chars(n as nat));
    } else {
        append_dec(s, n / 10);
        s.append(digit_str(n % 10));
        assert(s@ =~= old(s)@ + spec_dec_chars(n as nat));
    }
}

/// The session key for a client address: a fixed prefix and the base64
/// of the address text.
pub fn session_key_for_ip(ip: &[u8]) -> (r: String)
    requires
        ip@.len() <= 0x1000_0000_0000_0000,
    ensures
        r@ == "session_"@ + crate::b64::b64_of(ip@),
{
    let mut s = String::from_str("session_");
    let encoded = crate::b64::b64_encode(ip);
    s.append(encoded.as_str());
    s
}

/// A fresh handshake identifier: a fixed prefix and a random decimal.
pub fn generate_session_id() -> (r: String)
    ensures
        exists|n: u64| #![auto] r@ == "pqc_session_"@ + spec_dec_chars(n as nat),
{
    let n = crate::rng::random_u64();
    let mut s = String::from_str("pqc_session_");
    append_dec(&mut s, n);
    proof {
        assert(s@ == "pqc_session_"@ + spec_dec_chars(n as nat));
    }
    s
}

} // verus!

use vstd::prelude::*;

use sha2::Digest;

use crate::calendar::{utc_now, UtcTimestamp};
use crate::error::AppError;
use crate::ids::{new_uuid, uuid_text, uuid_to_string};
use crate::text::{
    chars_of, find_char, find_in_range, range_equals, split_parts, string_of_range, trim,
    trim_bounds,
};

verus! {

/// How long a session lasts, in seconds.
pub const SESSION_SECONDS: i64 = 3600i64;

/// When a session stops being valid: Unix seconds and nanoseconds.
#[derive(Clone, Copy, Debug, PartialEq, Eq, Structural)]
pub struct Expiry {
    pub secs: i64,
    pub nanos: u32,
}

/// The expiry of a session opened at `now`: one hour later.
pub open spec fn expiry_after(now: UtcTimestamp) -> Expiry {
    Expiry { secs: (now.unix_secs() + SESSION_SECONDS) as i64, nanos: now.subsec_nanos() as u32 }
}

/// Whether the instant `now` is no later than the expiry `e`.
pub open spec fn not_after(now: UtcTimestamp, e: Expiry) -> bool {
    now.unix_secs() < e.secs || (now.unix_secs() == e.secs && now.subsec_nanos() <= e.nanos)
}

/// What sha2's SHA-256 gives for the UTF-8 bytes of `token`.
pub uninterp spec fn token_digest(token: Seq<char>) -> Seq<u8>;

/// Whether the sessions `m` hold an unexpired session for `token` at instant `now`.
pub open spec fn session_valid(m: Map<Seq<u8>, Expiry>, token: Seq<char>, now: UtcTimestamp) -> bool {
    m.contains_key(token_digest(token)) && not_after(now, m[token_digest(token)])
}

/// The `Set-Cookie` value that hands out a session token.
pub open spec fn session_cookie(token: Seq<char>) -> Seq<char> {
    "admin_token="@ + token + "; HttpOnly; Secure; SameSite=Strict; Max-Age=3600; Path=/"@
}

/// The session token that one `;`-separated cookie piece carries, if the piece reads
/// `admin_token=<token>` once surrounding whitespace is dropped.
pub open spec fn admin_token_of_part(part: Seq<char>) -> Option<Seq<char>> {
    let t = trim(part);
    match find_char(t, '=') {
        Some(i) => if t.take(i) == "admin_token"@ {
            Some(t.skip(i + 1))
        } else {
            None
        },
        None => None,
    }
}

/// The token of the first piece that carries one.
pub open spec fn first_admin_token(parts: Seq<Seq<char>>) -> Option<Seq<char>>
    decreases parts.len(),
{
    if parts.len() == 0 {
        None
    } else {
        match admin_token_of_part(parts[0]) {
            Some(v) => Some(v),
            None => first_admin_token(parts.drop_first()),
        }
    }
}

/// The session token that a `Cookie` header carries.
pub open spec fn cookie_token(header: Seq<char>) -> Option<Seq<char>> {
    first_admin_token(split_parts(header, ';'))
}

/// The header text a possibly missing `Cookie` header stands for.
pub open spec fn header_text(header: Option<&str>) -> Seq<char> {
    match header {
        Some(h) => h@,
        None => Seq::empty(),
    }
}

/// Whether a request with the `Cookie` header text `header` is admitted at instant `now`
/// by the sessions `m`.
pub open spec fn admits(m: Map<Seq<u8>, Expiry>, header: Seq<char>, now: UtcTimestamp) -> bool {
    cookie_token(header) matches Some(t) && session_valid(m, t, now)
}

/// Calls sha2's `Sha256::digest` on the UTF-8 bytes of `token`. The digest is named by
/// `token_digest`; that it has 32 bytes is what SHA-256's output size gives.
#[verifier::external_body]
fn hash_token(token: &str) -> (r: Vec<u8>)
    ensures
        r@ == token_digest(token@),
        r@.len() == 32,
{
    sha2::Sha256::digest(token.as_bytes()).to_vec()
}

/// One open session: the digest of its token and its expiry.
struct Session {
    digest: Vec<u8>,
    expires: Expiry,
}

spec fn has_digest(s: Seq<Session>, d: Seq<u8>) -> bool {
    exists|i: int| 0 <= i < s.len() && (#[trigger] s[i]).digest@ == d
}

spec fn unique_digests(s: Seq<Session>) -> bool {
    forall|i: int, j: int|
        0 <= i < s.len() && 0 <= j < s.len() && i != j ==> (#[trigger] s[i]).digest@ != (
        #[trigger] s[j]).digest@
}

spec fn session_map(s: Seq<Session>) -> Map<Seq<u8>, Expiry> {
    Map::new(
        |d: Seq<u8>| has_digest(s, d),
        |d: Seq<u8>| s[choose|i: int| 0 <= i < s.len() && (#[trigger] s[i]).digest@ == d].expires,
    )
}

proof fn lemma_session_at(s: Seq<Session>, i: int)
    requires
        unique_digests(s),
        0 <= i < s.len(),
    ensures
        session_map(s).contains_key(s[i].digest@),
        session_map(s)[s[i].digest@] == s[i].expires,
{
    let d = s[i].digest@;
    assert(has_digest(s, d));
    let j = choose|j: int| 0 <= j < s.len() && (#[trigger] s[j]).digest@ == d;
    if j != i {
        assert(s[j].digest@ != s[i].digest@);
    }
}

fn bytes_equal(a: &Vec<u8>, b: &Vec<u8>) -> (r: bool)
    ensures
        r == (a@ == b@),
{
    if a.len() != b.len() {
        return false;
    }
    let mut i: usize = 0;
    while i < a.len()
        invariant
            a.len() == b.len(),
            i <= a.len(),
            forall|k: int| 0 <= k < i ==> a@[k] == b@[k],
        decreases a.len() - i,
    {
        if a[i] != b[i] {
            return false;
        }
        i = i + 1;
    }
    assert(a@ =~= b@);
    true
}

fn find_session(v: &Vec<Session>, d: &Vec<u8>) -> (r: Option<usize>)
    ensures
        match r {
            Some(i) => i < v.len() && v@[i as int].digest@ == d@,
            None => !has_digest(v@, d@),
        },
{
    let mut i: usize = 0;
    while i < v.len()
        invariant
            i <= v.len(),
            forall|k: int| 0 <= k < i ==> (#[trigger] v@[k]).digest@ != d@,
        decreases v.len() - i,
    {
        if bytes_equal(&v[i].digest, d) {
            return Some(i);
        }
        i = i + 1;
    }
    None
}

/// The open admin sessions, by digest of their tokens.
pub struct AdminToken {
    sessions: Vec<Session>,
}

impl View for AdminToken {
    type V = Map<Seq<u8>, Expiry>;

    closed spec fn view(&self) -> Map<Seq<u8>, Expiry> {
        session_map(self.sessions@)
    }
}

impl AdminToken {
    #[verifier::type_invariant]
    spec fn inv(self) -> bool {
        unique_digests(self.sessions@)
    }

    /// No open sessions.
    pub fn new() -> (r: AdminToken)
        ensures
            r@ == Map::<Seq<u8>, Expiry>::empty(),
    {
        let r = AdminToken { sessions: Vec::new() };
        assert(r@ =~= Map::<Seq<u8>, Expiry>::empty());
        r
    }

    fn take_sessions(&mut self) -> (v: Vec<Session>)
        ensures
            v@ == old(self).sessions@,
            unique_digests(v@),
    {
        proof {
            use_type_invariant(&*self);
        }
        let mut v: Vec<Session> = Vec::new();
        std::mem::swap(&mut v, &mut self.sessions);
        v
    }

    /// Opens or renews the session with digest `digest`.
    fn put(&mut self, digest: Vec<u8>, expires: Expiry)
        ensures
            final(self)@ == old(self)@.insert(digest@, expires),
    {
        let mut v = self.take_sessions();
        let ghost s0 = v@;
        let ghost d = digest@;
        match find_session(&v, &digest) {
            Some(i) => {
                let ghost k = i as int;
                v.set(i, Session { digest, expires });
                proof {
                    let s1 = v@;
                    assert forall|a: int, b: int|
                        0 <= a < s1.len() && 0 <= b < s1.len() && a != b implies (
                        #[trigger] s1[a]).digest@ != (#[trigger] s1[b]).digest@ by {
                        if a != k && b != k {
                            assert(s1[a] == s0[a] && s1[b] == s0[b]);
                        } else if a == k {
                            assert(s1[b] == s0[b]);
                        } else {
                            assert(s1[a] == s0[a]);
                        }
                    }
                    let m = session_map(s0).insert(d, expires);
                    assert forall|e: Seq<u8>| #[trigger] session_map(s1).contains_key(e)
                        <==> m.contains_key(e) by {
                        if has_digest(s0, e) {
                            let j = choose|j: int| 0 <= j < s0.len() && (#[trigger] s0[j]).digest@
                                == e;
                            if j != k {
                                assert(s1[j] == s0[j]);
                            }
                        }
                        if has_digest(s1, e) {
                            let j = choose|j: int| 0 <= j < s1.len() && (#[trigger] s1[j]).digest@
                                == e;
                            if j != k {
                                assert(s1[j] == s0[j]);
                            }
                        }
                        if e == d {
                            assert(s1[k].digest@ == d);
                        }
                    }
                    assert forall|e: Seq<u8>| #[trigger] session_map(s1).contains_key(e)
                        implies session_map(s1)[e] == m[e] by {
                        let j = choose|j: int| 0 <= j < s1.len() && (#[trigger] s1[j]).digest@
                            == e;
                        lemma_session_at(s1, j);
                        if j != k {
                            assert(s1[j] == s0[j]);
                            lemma_session_at(s0, j);
                        }
                    }
                    assert(session_map(s1) =~= m);
                }
            },
            None => {
                v.push(Session { digest, expires });
                proof {
                    let s1 = v@;
                    let n = s0.len() as int;
                    assert forall|a: int, b: int|
                        0 <= a < s1.len() && 0 <= b < s1.len() && a != b implies (
                        #[trigger] s1[a]).digest@ != (#[trigger] s1[b]).digest@ by {
                        if a < n && b < n {
                            assert(s1[a] == s0[a] && s1[b] == s0[b]);
                        } else if a < n {
                            assert(s1[a] == s0[a]);
                        } else {
                            assert(s1[b] == s0[b]);
                        }
                    }
                    let m = session_map(s0).insert(d, expires);
                    assert forall|e: Seq<u8>| #[trigger] session_map(s1).contains_key(e)
                        <==> m.contains_key(e) by {
                        if has_digest(s0, e) {
                            let j = choose|j: int| 0 <= j < s0.len() && (#[trigger] s0[j]).digest@
                                == e;
                            assert(s1[j] == s0[j]);
                        }
                        if has_digest(s1, e) {
                            let j = choose|j: int| 0 <= j < s1.len() && (#[trigger] s1[j]).digest@
                                == e;
                            if j < n {
                                assert(s1[j] == s0[j]);
                            }
                        }
                        if e == d {
                            assert(s1[n].digest@ == d);
                        }
                    }
                    assert forall|e: Seq<u8>| #[trigger] session_map(s1).contains_key(e)
                        implies session_map(s1)[e] == m[e] by {
                        let j = choose|j: int| 0 <= j < s1.len() && (#[trigger] s1[j]).digest@
                            == e;
                        lemma_session_at(s1, j);
                        if j < n {
                            assert(s1[j] == s0[j]);
                            lemma_session_at(s0, j);
                        }
                    }
                    assert(session_map(s1) =~= m);
                }
            },
        }
        self.sessions = v;
    }

    /// Closes the session with digest `digest`, if open.
    fn drop_digest(&mut self, digest: &Vec<u8>) -> (found: bool)
        ensures
            found == old(self)@.contains_key(digest@),
            final(self)@ == old(self)@.remove(digest@),
    {
        let mut v = self.take_sessions();
        let ghost s0 = v@;
        let ghost d = digest@;
        match find_session(&v, digest) {
            Some(i) => {
                let ghost k = i as int;
                v.remove(i);
                proof {
                    let s1 = v@;
                    assert forall|a: int, b: int|
                        0 <= a < s1.len() && 0 <= b < s1.len() && a != b implies (
                        #[trigger] s1[a]).digest@ != (#[trigger] s1[b]).digest@ by {
                        let sa = if a < k { a } else { a + 1 };
                        let sb = if b < k { b } else { b + 1 };
                        assert(s1[a] == s0[sa] && s1[b] == s0[sb]);
                    }
                    let m = session_map(s0).remove(d);
                    assert forall|e: Seq<u8>| #[trigger] session_map(s1).contains_key(e)
                        <==> m.contains_key(e) by {
                        if has_digest(s1, e) {
                            let j = choose|j: int| 0 <= j < s1.len() && (#[trigger] s1[j]).digest@
                                == e;
                            if j < k {
                                assert(s1[j] == s0[j]);
                            } else {
                                assert(s1[j] == s0[j + 1]);
                            }
                        }
                        if has_digest(s0, e) && e != d {
                            let j = choose|j: int| 0 <= j < s0.len() && (#[trigger] s0[j]).digest@
                                == e;
                            if j < k {
                                assert(s1[j] == s0[j]);
                            } else {
                                assert(s1[j - 1] == s0[j]);
                            }
                        }
                    }
                    assert forall|e: Seq<u8>| #[trigger] session_map(s1).contains_key(e)
                        implies session_map(s1)[e] == m[e] by {
                        let j = choose|j: int| 0 <= j < s1.len() && (#[trigger] s1[j]).digest@
                            == e;
                        lemma_session_at(s1, j);
                        if j < k {
                            assert(s1[j] == s0[j]);
                            lemma_session_at(s0, j);
                        } else {
                            assert(s1[j] == s0[j + 1]);
                            lemma_session_at(s0, j + 1);
                        }
                    }
                    assert(session_map(s1) =~= m);
                    lemma_session_at(s0, k);
                }
                self.sessions = v;
                true
            },
            None => {
                assert(session_map(s0).remove(d) =~= session_map(s0));
                self.sessions = v;
                false
            },
        }
    }

    /// The expiry of the session with digest `digest`, if open.
    fn lookup(&self, digest: &Vec<u8>) -> (r: Option<Expiry>)
        ensures
            r == (if self@.contains_key(digest@) {
                Some(self@[digest@])
            } else {
                None
            }),
    {
        proof {
            use_type_invariant(self);
        }
        match find_session(&self.sessions, digest) {
            Some(i) => {
                proof {
                    lemma_session_at(self.sessions@, i as int);
                }
                Some(self.sessions[i].expires)
            },
            None => None,
        }
    }
}

impl Default for AdminToken {
    /// No open sessions.
    fn default() -> (r: Self)
        ensures
            r@ == Map::<Seq<u8>, Expiry>::empty(),
    {
        AdminToken::new()
    }
}

/// Whether a session with expiry `e` is still open after instant `now`: the periodic
/// clean-up keeps exactly these.
pub open spec fn outlives(e: Expiry, now: UtcTimestamp) -> bool {
    now.unix_secs() < e.secs || (now.unix_secs() == e.secs && now.subsec_nanos() < e.nanos)
}

proof fn lemma_session_len(s: Seq<Session>)
    requires
        unique_digests(s),
    ensures
        session_map(s).dom().finite(),
        session_map(s).dom().len() == s.len(),
{
    let ds = s.map_values(|x: Session| x.digest@);
    assert(ds.no_duplicates()) by {
        assert forall|i: int, j: int|
            0 <= i < ds.len() && 0 <= j < ds.len() && i != j implies ds[i] != ds[j] by {
            assert(ds[i] == s[i].digest@ && ds[j] == s[j].digest@);
        }
    }
    ds.unique_seq_to_set();
    assert forall|d: Seq<u8>| #[trigger] session_map(s).dom().contains(d) <==> ds.to_set().contains(
        d,
    ) by {
        if has_digest(s, d) {
            let i = choose|i: int| 0 <= i < s.len() && (#[trigger] s[i]).digest@ == d;
            assert(ds[i] == d);
        }
        if ds.to_set().contains(d) {
            let i = choose|i: int| 0 <= i < ds.len() && ds[i] == d;
            assert(s[i].digest@ == d);
        }
    }
    assert(session_map(s).dom() =~= ds.to_set());
}

fn part_token(v: &Vec<char>, lo: usize, hi: usize, key: &Vec<char>) -> (r: Option<String>)
    requires
        lo <= hi <= v.len(),
        key@ == "admin_token"@,
    ensures
        match r {
            Some(t) => admin_token_of_part(v@.subrange(lo as int, hi as int)) == Some(t@),
            None => admin_token_of_part(v@.subrange(lo as int, hi as int)) is None,
        },
{
    let (a, b) = trim_bounds(v, lo, hi);
    let ghost t = v@.subrange(a as int, b as int);
    match find_in_range(v, a, b, '=') {
        Some(e) => {
            assert(t.take(e - a) =~= v@.subrange(a as int, e as int));
            assert(t.skip(e - a + 1) =~= v@.subrange(e + 1, b as int));
            if range_equals(v, a, e, key) {
                Some(string_of_range(v, e + 1, b))
            } else {
                None
            }
        },
        None => None,
    }
}

/// The session token that a `Cookie` header carries: the value of the first
/// `;`-separated piece that reads `admin_token=<value>` once trimmed.
pub fn cookie_token_of(header: &str) -> (r: Option<String>)
    ensures
        match r {
            Some(t) => cookie_token(header@) == Some(t@),
            None => cookie_token(header@) is None,
        },
{
    let v = chars_of(header);
    let key = chars_of("admin_token");
    let mut start: usize = 0;
    assert(v@.skip(0) =~= v@);
    loop
        invariant
            start <= v.len(),
            v@ == header@,
            key@ == "admin_token"@,
            cookie_token(v@) == first_admin_token(split_parts(v@.skip(start as int), ';')),
        decreases v.len() - start,
    {
        let ghost suffix = v@.skip(start as int);
        assert(suffix =~= v@.subrange(start as int, v.len() as int));
        match find_in_range(&v, start, v.len(), ';') {
            Some(e) => {
                let ghost i = e - start;
                assert(suffix.take(i) =~= v@.subrange(start as int, e as int));
                assert(suffix.skip(i + 1) =~= v@.skip(e + 1));
                let ghost parts = split_parts(suffix, ';');
                assert(parts == seq![suffix.take(i)] + split_parts(suffix.skip(i + 1), ';'));
                assert(parts[0] == v@.subrange(start as int, e as int));
                assert(parts.drop_first() =~= split_parts(v@.skip(e + 1), ';'));
                match part_token(&v, start, e, &key) {
                    Some(t) => {
                        return Some(t);
                    },
                    None => {},
                }
                start = e + 1;
            },
            None => {
                let ghost parts = split_parts(suffix, ';');
                assert(parts == seq![suffix]);
                assert(parts[0] == v@.subrange(start as int, v.len() as int));
                assert(parts.drop_first().len() == 0);
                assert(first_admin_token(parts.drop_first()) is None);
                return part_token(&v, start, v.len(), &key);
            },
        }
    }
}

impl AdminToken {
    /// Opens a session for `token` at instant `now`, valid for one hour, and returns the
    /// cookie that hands the token to the client.
    pub fn create_session_with(&mut self, token: &str, now: UtcTimestamp) -> (cookie: String)
        ensures
            final(self)@ == old(self)@.insert(token_digest(token@), expiry_after(now)),
            cookie@ == session_cookie(token@),
            crate::calendar::valid_unix(now.unix_secs(), now.subsec_nanos()),
    {
        let secs = now.timestamp();
        let digest = hash_token(token);
        let expires = Expiry {
            secs: secs + SESSION_SECONDS,
            nanos: now.timestamp_subsec_nanos(),
        };
        self.put(digest, expires);
        let mut cookie = String::from_str("admin_token=");
        cookie.append(token);
        cookie.append("; HttpOnly; Secure; SameSite=Strict; Max-Age=3600; Path=/");
        cookie
    }

    /// Opens a session under a fresh random token (a UUID in its hyphenated form), valid
    /// for one hour from the current instant, and returns the cookie that hands it out.
    pub fn create_session(&mut self) -> (cookie: String)
        ensures
            exists|id: u128, now: UtcTimestamp|
                #![trigger uuid_text(id as int), expiry_after(now)]
                final(self)@ == old(self)@.insert(
                    token_digest(uuid_text(id as int)),
                    expiry_after(now),
                ) && cookie@ == session_cookie(uuid_text(id as int))
                    && crate::calendar::valid_unix(now.unix_secs(), now.subsec_nanos()),
    {
        let id = new_uuid();
        let token = uuid_to_string(id);
        let now = utc_now();
        self.create_session_with(token.as_str(), now)
    }

    /// Whether `token` opens a session that is unexpired at instant `now`.
    pub fn verify_at(&self, token: &str, now: UtcTimestamp) -> (r: bool)
        ensures
            r == session_valid(self@, token@, now),
    {
        let digest = hash_token(token);
        match self.lookup(&digest) {
            Some(e) => now.timestamp() < e.secs || (now.timestamp() == e.secs
                && now.timestamp_subsec_nanos() <= e.nanos),
            None => false,
        }
    }

    /// Whether `token` opens a session that is unexpired now (read from the clock).
    pub fn verify(&self, token: &str) -> (r: bool)
        ensures
            exists|now: UtcTimestamp| r == #[trigger] session_valid(self@, token@, now),
            r ==> self@.contains_key(token_digest(token@)),
    {
        let now = utc_now();
        self.verify_at(token, now)
    }

    /// Admits a request whose `Cookie` header carries a token of a session that is
    /// unexpired at instant `now`; refuses any other as unauthorized.
    pub fn check_auth_at(&self, cookie_header: Option<&str>, now: UtcTimestamp) -> (r: Result<
        (),
        AppError,
    >)
        ensures
            r is Ok <==> admits(self@, header_text(cookie_header), now),
            r is Err ==> r == Err::<(), AppError>(AppError::Unauthorized),
    {
        let header = match cookie_header {
            Some(h) => h,
            None => "",
        };
        proof {
            if cookie_header is None {
                reveal_strlit("");
                assert(header@ =~= header_text(cookie_header));
            }
        }
        match cookie_token_of(header) {
            Some(token) => {
                if self.verify_at(token.as_str(), now) {
                    Ok(())
                } else {
                    Err(AppError::Unauthorized)
                }
            },
            None => Err(AppError::Unauthorized),
        }
    }

    /// Admits a request whose `Cookie` header carries a token of a session that is
    /// unexpired now (read from the clock); refuses any other as unauthorized.
    pub fn check_auth(&self, cookie_header: Option<&str>) -> (r: Result<(), AppError>)
        ensures
            exists|now: UtcTimestamp|
                (r is Ok <==> #[trigger] admits(self@, header_text(cookie_header), now)),
            r is Err ==> r == Err::<(), AppError>(AppError::Unauthorized),
            cookie_token(header_text(cookie_header)) is None ==> r is Err,
    {
        let now = utc_now();
        self.check_auth_at(cookie_header, now)
    }

    /// Closes the session of `token`, if one is open.
    pub fn logout(&mut self, token: &str)
        ensures
            final(self)@ == old(self)@.remove(token_digest(token@)),
    {
        let digest = hash_token(token);
        self.drop_digest(&digest);
    }

    /// Closes every session that has expired at instant `now` and returns how many it closed.
    pub fn remove_expired(&mut self, now: UtcTimestamp) -> (removed: usize)
        ensures
            forall|d: Seq<u8>| #[trigger]
                final(self)@.contains_key(d) <==> (old(self)@.contains_key(d) && outlives(
                    old(self)@[d],
                    now,
                )),
            forall|d: Seq<u8>| #[trigger] final(self)@.contains_key(d) ==> final(self)@[d] == old(
                self,
            )@[d],
            old(self)@.dom().finite(),
            final(self)@.dom().finite(),
            removed == old(self)@.dom().len() - final(self)@.dom().len(),
    {
        let v = self.take_sessions();
        let ghost s0 = v@;
        let mut kept: Vec<Session> = Vec::new();
        let ghost mut idx: Seq<int> = Seq::empty();
        let mut i: usize = 0;
        while i < v.len()
            invariant
                s0 == v@,
                unique_digests(s0),
                i <= v.len(),
                idx.len() == kept@.len(),
                forall|k: int| 0 <= k < idx.len() ==> 0 <= #[trigger] idx[k] < i,
                forall|k: int, l: int| 0 <= k < l < idx.len() ==> #[trigger] idx[k] < #[trigger] idx[l],
                kept@.len() <= i,
                forall|k: int|
                    0 <= k < idx.len() ==> kept@[k].digest@ == s0[#[trigger] idx[k]].digest@
                        && kept@[k].expires == s0[idx[k]].expires,
                forall|k: int| 0 <= k < idx.len() ==> outlives(s0[#[trigger] idx[k]].expires, now),
                forall|j: int|
                    0 <= j < i && outlives(#[trigger] s0[j].expires, now) ==> exists|k: int|
                        0 <= k < idx.len() && idx[k] == j,
            decreases v.len() - i,
        {
            let e = v[i].expires;
            if now.timestamp() < e.secs || (now.timestamp() == e.secs
                && now.timestamp_subsec_nanos() < e.nanos) {
                let copy = Session { digest: v[i].digest.clone(), expires: e };
                kept.push(copy);
                proof {
                    let old_idx = idx;
                    idx = idx.push(i as int);
                    assert forall|j: int|
                        0 <= j < i + 1 && outlives(#[trigger] s0[j].expires, now) implies exists|k: int|
                        0 <= k < idx.len() && idx[k] == j by {
                        if j < i {
                            let k = choose|k: int| 0 <= k < old_idx.len() && old_idx[k] == j;
                            assert(idx[k] == j);
                        } else {
                            assert(idx[idx.len() - 1] == j);
                        }
                    }
                }
            }
            i = i + 1;
        }
        let ghost s1 = kept@;
        proof {
            assert forall|a: int, b: int|
                0 <= a < s1.len() && 0 <= b < s1.len() && a != b implies (
                #[trigger] s1[a]).digest@ != (#[trigger] s1[b]).digest@ by {
                if idx[a] < idx[b] {
                    assert(idx[a] != idx[b]);
                } else if idx[b] < idx[a] {
                    assert(idx[a] != idx[b]);
                } else {
                    if a < b {
                        assert(idx[a] < idx[b]);
                    } else {
                        assert(idx[b] < idx[a]);
                    }
                }
            }
            assert forall|d: Seq<u8>| #[trigger]
                session_map(s1).contains_key(d) <==> (session_map(s0).contains_key(d) && outlives(
                    session_map(s0)[d],
                    now,
                )) by {
                if has_digest(s1, d) {
                    let k = choose|k: int| 0 <= k < s1.len() && (#[trigger] s1[k]).digest@ == d;
                    lemma_session_at(s0, idx[k]);
                }
                if has_digest(s0, d) && outlives(session_map(s0)[d], now) {
                    let j = choose|j: int| 0 <= j < s0.len() && (#[trigger] s0[j]).digest@ == d;
                    lemma_session_at(s0, j);
                    let k = choose|k: int| 0 <= k < idx.len() && idx[k] == j;
                    assert(s1[k].digest@ == d);
                }
            }
            assert forall|d: Seq<u8>| #[trigger] session_map(s1).contains_key(d) implies session_map(
                s1,
            )[d] == session_map(s0)[d] by {
                let k = choose|k: int| 0 <= k < s1.len() && (#[trigger] s1[k]).digest@ == d;
                lemma_session_at(s1, k);
                lemma_session_at(s0, idx[k]);
            }
            lemma_session_len(s0);
            lemma_session_len(s1);
        }
        let removed = v.len() - kept.len();
        self.sessions = kept;
        removed
    }
}

/// A session opened at `now` stays valid for its token until its expiry, one hour later.
pub proof fn law_session_open_until_expiry(
    m: Map<Seq<u8>, Expiry>,
    token: Seq<char>,
    now: UtcTimestamp,
    later: UtcTimestamp,
)
    requires
        crate::calendar::valid_unix(now.unix_secs(), now.subsec_nanos()),
        not_after(later, expiry_after(now)),
    ensures
        session_valid(m.insert(token_digest(token), expiry_after(now)), token, later),
        not_after(now, expiry_after(now)),
{
}

/// After logging out with a token, that token no longer opens a session.
pub proof fn law_logout_closes_session(m: Map<Seq<u8>, Expiry>, token: Seq<char>, now: UtcTimestamp)
    ensures
        !session_valid(m.remove(token_digest(token)), token, now),
{
}

/// Logging out with one token leaves every other session as it was: afterwards a token
/// opens a session exactly where it did before and its digest differs from the one
/// logged out.
pub proof fn law_logout_spares_other_sessions(
    m: Map<Seq<u8>, Expiry>,
    t1: Seq<char>,
    t2: Seq<char>,
    now: UtcTimestamp,
)
    ensures
        session_valid(m.remove(token_digest(t1)), t2, now) == (token_digest(t1) != token_digest(t2)
            && session_valid(m, t2, now)),
{
}

/// Logging out with a token that opens no session changes nothing, and logging out twice
/// with the same token is the same as once.
pub proof fn law_logout_unknown_and_repeated(m: Map<Seq<u8>, Expiry>, t: Seq<char>)
    ensures
        !m.contains_key(token_digest(t)) ==> m.remove(token_digest(t)) == m,
        m.remove(token_digest(t)).remove(token_digest(t)) == m.remove(token_digest(t)),
{
    assert(m.remove(token_digest(t)).remove(token_digest(t)) =~= m.remove(token_digest(t)));
    if !m.contains_key(token_digest(t)) {
        assert(m.remove(token_digest(t)) =~= m);
    }
}

/// The sessions after a history of logins and logouts, starting from none: `(t, Some(now))`
/// opens (or renews) the session of token `t` at `now`, as `create_session_with` does, and
/// `(t, None)` logs `t` out, as `logout` does.
pub open spec fn replay_sessions(h: Seq<(Seq<char>, Option<UtcTimestamp>)>) -> Map<
    Seq<u8>,
    Expiry,
>
    decreases h.len(),
{
    if h.len() == 0 {
        Map::empty()
    } else {
        let m = replay_sessions(h.drop_last());
        match h.last().1 {
            Some(now) => m.insert(token_digest(h.last().0), expiry_after(now)),
            None => m.remove(token_digest(h.last().0)),
        }
    }
}

/// The position of the last login or logout in `h` whose token has the digest `d`.
pub open spec fn last_change(h: Seq<(Seq<char>, Option<UtcTimestamp>)>, d: Seq<u8>) -> Option<int>
    decreases h.len(),
{
    if h.len() == 0 {
        None
    } else if token_digest(h.last().0) == d {
        Some(h.len() - 1)
    } else {
        last_change(h.drop_last(), d)
    }
}

proof fn lemma_replay_sessions(h: Seq<(Seq<char>, Option<UtcTimestamp>)>, d: Seq<u8>)
    ensures
        last_change(h, d) matches Some(i) ==> 0 <= i < h.len() && token_digest(h[i].0) == d,
        replay_sessions(h).contains_key(d) <==> (last_change(h, d) matches Some(i) && h[i].1 is Some),
        replay_sessions(h).contains_key(d) ==> replay_sessions(h)[d] == expiry_after(
            h[last_change(h, d)->0].1->0,
        ),
    decreases h.len(),
{
    if h.len() > 0 {
        let p = h.drop_last();
        lemma_replay_sessions(p, d);
        if token_digest(h.last().0) != d {
            if let Some(i) = last_change(p, d) {
                assert(h[i] == p[i]);
            }
        }
    }
}

/// Sessions over a history: after any sequence of logins and logouts, a token opens a
/// session at `now` exactly where the last login or logout for its digest was a login, made
/// at an instant whose hour has not run out by `now`.
pub proof fn law_session_history(
    h: Seq<(Seq<char>, Option<UtcTimestamp>)>,
    t: Seq<char>,
    now: UtcTimestamp,
)
    ensures
        session_valid(replay_sessions(h), t, now) <==> (last_change(h, token_digest(t)) matches Some(
            i,
        ) && h[i].1 matches Some(t0) && not_after(now, expiry_after(t0))),
{
    lemma_replay_sessions(h, token_digest(t));
}

/// The cookie handed out for a session carries its token back: reading the session token
/// from a `Cookie` header that holds the session cookie gives the token, provided the token
/// holds no `;` and no whitespace.
pub proof fn law_session_cookie_carries_token(token: Seq<char>)
    requires
        forall|k: int| 0 <= k < token.len() ==> #[trigger] token[k] != ';' && !crate::text::is_ws(
            token[k],
        ),
    ensures
        cookie_token(session_cookie(token)) == Some(token),
{
    reveal_strlit("admin_token=");
    reveal_strlit("; HttpOnly; Secure; SameSite=Strict; Max-Age=3600; Path=/");
    reveal_strlit("admin_token");
    let p = "admin_token="@;
    let q = "; HttpOnly; Secure; SameSite=Strict; Max-Age=3600; Path=/"@;
    let c = session_cookie(token);
    let n: int = token.len() as int;
    let part = p + token;
    assert(c == part + q);
    crate::text::lemma_find_char(c, ';');
    assert(c[12 + n] == ';');
    assert forall|j: int| 0 <= j < 12 + n implies c[j] != ';' by {
        if j < 12 {
            assert(c[j] == p[j]);
        } else {
            assert(c[j] == token[j - 12]);
        }
    }
    assert(crate::text::find_char(c, ';') == Some(12 + n));
    assert(c.take(12 + n) =~= part);
    let parts = split_parts(c, ';');
    assert(parts[0] == part);
    assert(crate::text::trim_start(part) == part);
    let last = part[part.len() - 1];
    if n > 0 {
        assert(last == token[n - 1]);
    } else {
        assert(last == '=');
    }
    assert(crate::text::trim_end(part) == part);
    assert(trim(part) == part);
    crate::text::lemma_find_char(part, '=');
    assert(part[11] == '=');
    assert forall|j: int| 0 <= j < 11 implies part[j] != '=' by {
        assert(part[j] == p[j]);
    }
    assert(crate::text::find_char(part, '=') == Some(11int));
    assert(part.take(11) =~= "admin_token"@);
    assert(part.skip(12) =~= token);
    assert(admin_token_of_part(part) == Some(token));
}

/// Every character of a UUID token is a hexadecimal digit or a hyphen, so none is `;` or
/// whitespace.
pub proof fn law_uuid_tokens_fit_cookies(x: u128)
    ensures
        forall|k: int| 0 <= k < uuid_text(x as int).len() ==> #[trigger] uuid_text(x as int)[k]
            != ';' && !crate::text::is_ws(uuid_text(x as int)[k]),
{
    assert forall|k: int| 0 <= k < uuid_text(x as int).len() implies #[trigger] uuid_text(
        x as int,
    )[k] != ';' && !crate::text::is_ws(uuid_text(x as int)[k]) by {
        crate::ids::lemma_uuid_text_chars(x as int, k);
    }
}

/// A login cookie is admitted until its session expires: the cookie that `create_session`
/// hands out for the token of UUID `id`, opened at `now`, passes `check_auth` at any
/// instant `later` up to the expiry.
pub proof fn law_login_cookie_admitted(
    m: Map<Seq<u8>, Expiry>,
    id: u128,
    now: UtcTimestamp,
    later: UtcTimestamp,
)
    requires
        crate::calendar::valid_unix(now.unix_secs(), now.subsec_nanos()),
        not_after(later, expiry_after(now)),
    ensures
        admits(
            m.insert(token_digest(uuid_text(id as int)), expiry_after(now)),
            session_cookie(uuid_text(id as int)),
            later,
        ),
{
    law_uuid_tokens_fit_cookies(id);
    law_session_cookie_carries_token(uuid_text(id as int));
}

} // verus!

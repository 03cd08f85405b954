//! Decisions of the administrative API: login throttling, sessions, CSRF
//! checks, password policy and the hardened session cookie.  The HTTP
//! plumbing that carries these decisions lives outside the library.
use vstd::prelude::*;
use vstd::hash_map::StringHashMap;
use crate::config::{PlatformConfig, PowerDnsMode};
use crate::auth::{argon2_phc_verifies, hash_password, is_alphanumeric_text, random_alphanumeric, verify_password};
use crate::text::{
    is_ascii_alphanumeric, is_white_space, lemma_trim_end_at, lemma_trim_start_at,
    chars_of, concat, copy_range, decimal_text, find_char, first_field, push_decimal, push_str,
    starts_with, string_from_chars, to_lowercase, trim, trim_chars, lowercase_text,
    char_is_alphanumeric, char_is_lowercase, char_is_uppercase, is_ascii_digit,
    unicode_is_alphanumeric, unicode_is_lowercase, unicode_is_uppercase, contains_at, contains_seq,
    ascii_lower, is_ascii_text, lemma_trim_keeps_ascii,
};

verus! {

/// Name of the session cookie.
pub const SESSION_COOKIE: &'static str = "baia_session";

/// Lifetime of a session.
pub const SESSION_TTL_SECONDS: u64 = 28800;

/// Failed logins after which a client is locked out.
pub const MAX_LOGIN_FAILURES: u32 = 5;

/// How long a lockout lasts.
pub const LOGIN_LOCK_SECONDS: u64 = 900;

/// Length of session identifiers and CSRF tokens.
pub const TOKEN_LEN: usize = 48;

// ----- Cookies -----

/// `base` with the hardening attributes: path `/`, `HttpOnly`, `SameSite`
/// strict, `Secure` when asked, and a `Max-Age` when one is given.
pub open spec fn hardened_cookie_text(base: Seq<char>, secure: bool, max_age: Option<u64>) -> Seq<char> {
    base + "; Path=/; HttpOnly; SameSite=Strict"@ + (if secure {
        "; Secure"@
    } else {
        Seq::<char>::empty()
    }) + match max_age {
        Some(v) => "; Max-Age="@ + decimal_text(v as nat),
        None => Seq::<char>::empty(),
    }
}

pub open spec fn session_cookie_text(session_id: Seq<char>, secure: bool) -> Seq<char> {
    hardened_cookie_text(
        SESSION_COOKIE@ + "="@ + session_id,
        secure,
        Some(SESSION_TTL_SECONDS),
    )
}

pub open spec fn expired_session_cookie_text(secure: bool) -> Seq<char> {
    hardened_cookie_text(SESSION_COOKIE@ + "="@, secure, Some(0))
}

pub fn hardened_cookie(base: &str, secure: bool, max_age: Option<u64>) -> (r: String)
    ensures
        r@ == hardened_cookie_text(base@, secure, max_age),
{
    let mut out: Vec<char> = Vec::new();
    push_str(&mut out, base);
    push_str(&mut out, "; Path=/; HttpOnly; SameSite=Strict");
    if secure {
        push_str(&mut out, "; Secure");
    }
    if let Some(value) = max_age {
        push_str(&mut out, "; Max-Age=");
        push_decimal(&mut out, value);
    }
    assert(out@ =~= hardened_cookie_text(base@, secure, max_age));
    string_from_chars(&out)
}

/// The cookie that carries a new session.
pub fn session_cookie(session_id: &str, secure: bool) -> (r: String)
    ensures
        r@ == session_cookie_text(session_id@, secure),
{
    let base = concat(concat(SESSION_COOKIE, "=").as_str(), session_id);
    hardened_cookie(base.as_str(), secure, Some(SESSION_TTL_SECONDS))
}

/// The cookie that clears the session on logout.
pub fn expired_session_cookie(secure: bool) -> (r: String)
    ensures
        r@ == expired_session_cookie_text(secure),
{
    let base = concat(SESSION_COOKIE, "=");
    hardened_cookie(base.as_str(), secure, Some(0))
}

/// The session cookie is hardened: it sets `baia_session` to the session
/// identifier, is confined to path `/`, is `HttpOnly` and `SameSite=Strict`,
/// is `Secure` when asked, and expires after the session lifetime (28800
/// seconds).  The cookie sent at logout clears the value and expires at
/// once.
pub proof fn lemma_session_cookie_is_hardened(id: Seq<char>, secure: bool)
    ensures
        ({
            let c = session_cookie_text(id, secure);
            &&& starts_with(c, "baia_session="@ + id + "; "@)
            &&& contains_seq(c, "; Path=/;"@)
            &&& contains_seq(c, "; HttpOnly;"@)
            &&& contains_seq(c, "; SameSite=Strict"@)
            &&& (secure ==> contains_seq(c, "; Secure"@))
            &&& c.len() >= 15 && c.skip(c.len() - 15) == "; Max-Age=28800"@
        }),
        ({
            let e = expired_session_cookie_text(secure);
            &&& starts_with(e, "baia_session=; "@)
            &&& contains_seq(e, "; HttpOnly;"@)
            &&& e.len() >= 11 && e.skip(e.len() - 11) == "; Max-Age=0"@
        }),
{
    reveal_strlit("baia_session");
    reveal_strlit("=");
    reveal_strlit("; Path=/; HttpOnly; SameSite=Strict");
    reveal_strlit("; Secure");
    reveal_strlit("; Max-Age=");
    reveal_strlit("baia_session=");
    reveal_strlit("; ");
    reveal_strlit("; Path=/;");
    reveal_strlit("; HttpOnly;");
    reveal_strlit("; SameSite=Strict");
    reveal_strlit("; Max-Age=28800");
    reveal_strlit("; Max-Age=0");
    reveal_strlit("baia_session=; ");
    reveal_with_fuel(decimal_text, 6);
    assert(decimal_text(28800) =~= seq!['2', '8', '8', '0', '0']);
    assert(decimal_text(0) =~= seq!['0']);
    let attrs = "; Path=/; HttpOnly; SameSite=Strict"@;
    let sec = if secure { "; Secure"@ } else { Seq::<char>::empty() };
    let base = SESSION_COOKIE@ + "="@ + id;
    let c = session_cookie_text(id, secure);
    let tail = "; Max-Age="@ + decimal_text(28800);
    assert(c == base + attrs + sec + tail);
    let b = base.len() as int;
    assert(c.subrange(0, b + 2) =~= "baia_session="@ + id + "; "@);
    assert(c.subrange(b, b + 9) =~= "; Path=/;"@);
    assert(contains_at(c, "; Path=/;"@, b));
    assert(c.subrange(b + 8, b + 8 + 11) =~= "; HttpOnly;"@);
    assert(contains_at(c, "; HttpOnly;"@, b + 8));
    assert(c.subrange(b + 18, b + 18 + 17) =~= "; SameSite=Strict"@);
    assert(contains_at(c, "; SameSite=Strict"@, b + 18));
    if secure {
        assert(c.subrange(b + 35, b + 35 + 8) =~= "; Secure"@);
        assert(contains_at(c, "; Secure"@, b + 35));
    }
    assert(c.skip(c.len() - 15) =~= "; Max-Age=28800"@);
    let e = expired_session_cookie_text(secure);
    let eb = SESSION_COOKIE@ + "="@;
    assert(e == eb + attrs + sec + ("; Max-Age="@ + decimal_text(0)));
    assert(e.subrange(0, 15) =~= "baia_session=; "@);
    assert(e.subrange(21int, 32int) =~= "; HttpOnly;"@);
    assert(contains_at(e, "; HttpOnly;"@, 21));
    assert(e.skip(e.len() - 11) =~= "; Max-Age=0"@);
}

/// The session identifier in a `Cookie` header: the first `;`-separated
/// part that, trimmed, starts with `baia_session=`, without that prefix.
pub open spec fn session_cookie_value_of(raw: Seq<char>) -> Option<Seq<char>>
    decreases raw.len(),
{
    let k = find_char(raw, ';');
    let part = trim(raw.take(k as int));
    let prefix = SESSION_COOKIE@ + "="@;
    if starts_with(part, prefix) {
        Some(part.skip(prefix.len() as int))
    } else if k >= raw.len() {
        None
    } else {
        session_cookie_value_of(raw.skip(k as int + 1))
    }
}

pub proof fn lemma_find_char_at(s: Seq<char>, c: char, j: int)
    requires
        0 <= j <= s.len(),
        forall|i: int| 0 <= i < j ==> s[i] != c,
        j == s.len() || s[j] == c,
    ensures
        find_char(s, c) == j,
    decreases j,
{
    if j > 0 {
        let t = s.drop_first();
        assert forall|i: int| 0 <= i < j - 1 implies t[i] != c by {
            assert(t[i] == s[i + 1]);
        }
        if j < s.len() {
            assert(t[j - 1] == s[j]);
        }
        lemma_find_char_at(t, c, j - 1);
    }
}

/// Whether `s` starts with `prefix`.
fn starts_with_chars(s: &Vec<char>, prefix: &Vec<char>) -> (r: bool)
    ensures
        r == starts_with(s@, prefix@),
{
    if prefix.len() > s.len() {
        return false;
    }
    let mut i: usize = 0;
    while i < prefix.len()
        invariant
            i <= prefix.len() <= s.len(),
            forall|k: int| 0 <= k < i ==> s@[k] == prefix@[k],
        decreases prefix.len() - i,
    {
        if s[i] != prefix[i] {
            assert(s@.subrange(0, prefix.len() as int)[i as int] != prefix@[i as int]);
            return false;
        }
        i = i + 1;
    }
    assert(s@.subrange(0, prefix.len() as int) =~= prefix@);
    true
}

/// The session identifier carried by a `Cookie` header, if any.
pub fn session_cookie_value(raw: &str) -> (r: Option<String>)
    ensures
        match session_cookie_value_of(raw@) {
            Some(v) => r matches Some(s) && s@ == v,
            None => r is None,
        },
{
    let cs = chars_of(raw);
    let prefix = chars_of(concat(SESSION_COOKIE, "=").as_str());
    let n = cs.len();
    let mut pos: usize = 0;
    assert(raw@.skip(0) =~= raw@);
    while pos <= n
        invariant
            pos <= n == cs@.len(),
            cs@ == raw@,
            prefix@ == SESSION_COOKIE@ + "="@,
            session_cookie_value_of(raw@) == session_cookie_value_of(raw@.skip(pos as int)),
        decreases n + 1 - pos,
    {
        let ghost rest = raw@.skip(pos as int);
        let mut k = pos;
        while k < n && cs[k] != ';'
            invariant
                pos <= k <= n == cs@.len(),
                forall|i: int| pos <= i < k ==> cs@[i] != ';',
            decreases n - k,
        {
            k = k + 1;
        }
        proof {
            assert forall|i: int| 0 <= i < k - pos implies rest[i] != ';' by {
                assert(rest[i] == cs@[pos + i]);
            }
            if k < n {
                assert(rest[k - pos] == cs@[k as int]);
            }
            lemma_find_char_at(rest, ';', k - pos);
        }
        let piece = copy_range(&cs, pos, k);
        assert(piece@ =~= rest.take(k - pos));
        let part = trim_chars(&piece);
        if starts_with_chars(&part, &prefix) {
            let value = copy_range(&part, prefix.len(), part.len());
            assert(value@ =~= part@.skip(prefix.len() as int));
            return Some(string_from_chars(&value));
        }
        if k >= n {
            return None;
        }
        assert(rest.skip(k - pos + 1) =~= raw@.skip(k + 1));
        pos = k + 1;
    }
    None
}

// ----- Throttling key -----

/// The client address a login attempt is counted against: the first
/// `X-Forwarded-For` entry, trimmed, or `unknown`.
pub open spec fn client_address(forwarded_for: Option<Seq<char>>) -> Seq<char> {
    match forwarded_for {
        Some(v) => if trim(first_field(v, ',')).len() > 0 {
            trim(first_field(v, ','))
        } else {
            "unknown"@
        },
        None => "unknown"@,
    }
}

/// The key failed logins are counted under: client address and username,
/// the username trimmed and lowercased.
pub open spec fn throttle_key_text(forwarded_for: Option<Seq<char>>, username: Seq<char>) -> Seq<char> {
    client_address(forwarded_for) + ":"@ + lowercase_text(trim(username))
}

pub open spec fn opt_view(v: Option<&str>) -> Option<Seq<char>> {
    match v {
        Some(s) => Some(s@),
        None => None,
    }
}

/// Failed logins are counted per client and account, whatever capitals and
/// outer white space the ASCII account name is typed with: two such
/// spellings from one client count against one key.
pub proof fn lemma_throttle_key_ignores_case_and_spaces(
    forwarded_for: Option<Seq<char>>,
    a: Seq<char>,
    b: Seq<char>,
)
    requires
        is_ascii_text(a),
        is_ascii_text(b),
        trim(a).map_values(|c: char| ascii_lower(c)) == trim(b).map_values(|c: char| ascii_lower(c)),
    ensures
        throttle_key_text(forwarded_for, a) == throttle_key_text(forwarded_for, b),
{
    lemma_trim_keeps_ascii(a);
    lemma_trim_keeps_ascii(b);
}

/// The key under which failed logins of `username` from the client named
/// by the `X-Forwarded-For` header are counted.
pub fn throttle_key(forwarded_for: Option<&str>, username: &str) -> (r: String)
    ensures
        r@ == throttle_key_text(opt_view(forwarded_for), username@),
{
    let mut out: Vec<char> = Vec::new();
    match forwarded_for {
        Some(value) => {
            let cs = chars_of(value);
            let mut k: usize = 0;
            while k < cs.len() && cs[k] != ','
                invariant
                    k <= cs.len(),
                    forall|i: int| 0 <= i < k ==> cs@[i] != ',',
                decreases cs.len() - k,
            {
                k = k + 1;
            }
            proof {
                lemma_find_char_at(cs@, ',', k as int);
            }
            let first = copy_range(&cs, 0, k);
            let ip = trim_chars(&first);
            if ip.len() > 0 {
                let ip_text = string_from_chars(&ip);
                push_str(&mut out, ip_text.as_str());
            } else {
                push_str(&mut out, "unknown");
            }
        },
        None => {
            push_str(&mut out, "unknown");
        },
    }
    push_str(&mut out, ":");
    let name_chars = chars_of(username);
    let trimmed = string_from_chars(&trim_chars(&name_chars));
    let lower = to_lowercase(trimmed.as_str());
    push_str(&mut out, lower.as_str());
    assert(out@ =~= throttle_key_text(opt_view(forwarded_for), username@));
    string_from_chars(&out)
}

// ----- Constant-time comparison -----

/// Compares two byte strings in time that depends only on their lengths.
pub fn constant_time_eq(left: &[u8], right: &[u8]) -> (r: bool)
    ensures
        r == (left@ == right@),
{
    if left.len() != right.len() {
        return false;
    }
    let mut acc: u8 = 0;
    let mut i: usize = 0;
    while i < left.len()
        invariant
            i <= left.len() == right.len(),
            acc == 0 <==> forall|j: int| 0 <= j < i ==> left@[j] == right@[j],
        decreases left.len() - i,
    {
        let a = left[i];
        let b = right[i];
        let next = acc | (a ^ b);
        assert(next == 0 <==> (acc == 0 && a == b)) by (bit_vector)
            requires
                next == acc | (a ^ b),
        ;
        acc = next;
        i = i + 1;
    }
    if acc == 0 {
        assert(left@ =~= right@);
    }
    acc == 0
}


// ----- Password policy -----

/// At least 16 bytes long (in UTF-8), with a lowercase letter, an uppercase letter,
/// an ASCII digit and a character that is neither a letter nor a number.
pub open spec fn satisfies_password_policy(password: &str) -> bool {
    let p = password@;
    &&& password.len() >= 16
    &&& exists|i: int| 0 <= i < p.len() && unicode_is_lowercase(#[trigger] p[i])
    &&& exists|i: int| 0 <= i < p.len() && unicode_is_uppercase(#[trigger] p[i])
    &&& exists|i: int| 0 <= i < p.len() && is_ascii_digit(#[trigger] p[i])
    &&& exists|i: int| 0 <= i < p.len() && !unicode_is_alphanumeric(#[trigger] p[i])
}

/// The policy judges a password by its length and by which characters occur
/// in it, wherever they stand: two passwords of the same length made of the
/// same characters (in any order and number) get the same verdict, so moving
/// a character elsewhere never changes it; and a password shorter than 16
/// bytes is always refused.
pub proof fn lemma_password_policy_ignores_positions(p: &str, q: &str)
    requires
        p.len() == q.len(),
        forall|i: int| 0 <= i < p@.len() ==> q@.contains(#[trigger] p@[i]),
        forall|i: int| 0 <= i < q@.len() ==> p@.contains(#[trigger] q@[i]),
    ensures
        satisfies_password_policy(p) == satisfies_password_policy(q),
        p.len() < 16 ==> !satisfies_password_policy(p),
{
    lemma_policy_carries_over(p, q);
    lemma_policy_carries_over(q, p);
}

proof fn lemma_policy_carries_over(p: &str, q: &str)
    requires
        p.len() == q.len(),
        forall|i: int| 0 <= i < p@.len() ==> q@.contains(#[trigger] p@[i]),
    ensures
        satisfies_password_policy(p) ==> satisfies_password_policy(q),
{
    if satisfies_password_policy(p) {
        let a = choose|i: int| 0 <= i < p@.len() && unicode_is_lowercase(#[trigger] p@[i]);
        let b = choose|i: int| 0 <= i < p@.len() && unicode_is_uppercase(#[trigger] p@[i]);
        let c = choose|i: int| 0 <= i < p@.len() && is_ascii_digit(#[trigger] p@[i]);
        let d = choose|i: int| 0 <= i < p@.len() && !unicode_is_alphanumeric(#[trigger] p@[i]);
        assert(q@.contains(p@[a]));
        assert(q@.contains(p@[b]));
        assert(q@.contains(p@[c]));
        assert(q@.contains(p@[d]));
    }
}

/// Whether a new password satisfies the password policy.
pub fn valid_password_policy(password: &str) -> (r: bool)
    ensures
        r == satisfies_password_policy(password),
{
    if password.len() < 16 {
        return false;
    }
    let cs = chars_of(password);
    let mut lower = false;
    let mut upper = false;
    let mut digit = false;
    let mut other = false;
    let mut i: usize = 0;
    while i < cs.len()
        invariant
            i <= cs.len(),
            cs@ == password@,
            lower == exists|k: int| 0 <= k < i && unicode_is_lowercase(#[trigger] cs@[k]),
            upper == exists|k: int| 0 <= k < i && unicode_is_uppercase(#[trigger] cs@[k]),
            digit == exists|k: int| 0 <= k < i && is_ascii_digit(#[trigger] cs@[k]),
            other == exists|k: int| 0 <= k < i && !unicode_is_alphanumeric(#[trigger] cs@[k]),
        decreases cs.len() - i,
    {
        let c = cs[i];
        if char_is_lowercase(c) {
            lower = true;
        }
        if char_is_uppercase(c) {
            upper = true;
        }
        if '0' <= c && c <= '9' {
            digit = true;
        }
        if !char_is_alphanumeric(c) {
            other = true;
        }
        i = i + 1;
    }
    lower && upper && digit && other
}


// ----- Accounts, sessions and throttles -----

/// An administrative account.
#[derive(Debug)]
pub struct UserAccount {
    pub username: String,
    pub password_hash: String,
    pub password_change_required: bool,
    pub disabled: bool,
}

pub struct UserView {
    pub username: Seq<char>,
    pub password_hash: Seq<char>,
    pub password_change_required: bool,
    pub disabled: bool,
}

impl View for UserAccount {
    type V = UserView;

    open spec fn view(&self) -> UserView {
        UserView {
            username: self.username@,
            password_hash: self.password_hash@,
            password_change_required: self.password_change_required,
            disabled: self.disabled,
        }
    }
}

/// A logged-in session: whose it is, the CSRF token its mutations must
/// carry, and when it expires (in seconds on the server's clock).
#[derive(Debug)]
pub struct Session {
    pub username: String,
    pub csrf_token: String,
    pub expires_at: u64,
}

pub struct SessionView {
    pub username: Seq<char>,
    pub csrf_token: Seq<char>,
    pub expires_at: u64,
}

impl View for Session {
    type V = SessionView;

    open spec fn view(&self) -> SessionView {
        SessionView {
            username: self.username@,
            csrf_token: self.csrf_token@,
            expires_at: self.expires_at,
        }
    }
}

impl UserAccount {
    pub fn duplicate(&self) -> (r: UserAccount)
        ensures
            r@ == self@,
    {
        UserAccount {
            username: self.username.clone(),
            password_hash: self.password_hash.clone(),
            password_change_required: self.password_change_required,
            disabled: self.disabled,
        }
    }
}

impl Session {
    pub fn duplicate(&self) -> (r: Session)
        ensures
            r@ == self@,
    {
        Session {
            username: self.username.clone(),
            csrf_token: self.csrf_token.clone(),
            expires_at: self.expires_at,
        }
    }
}

/// Failed logins counted under a key, and until when the key is locked.
#[derive(Debug, Clone, Copy, PartialEq, Eq, Structural)]
pub struct LoginThrottle {
    pub failures: u32,
    pub locked_until: Option<u64>,
}

/// The accounts, sessions and login throttles of the administrative API.
pub struct AuthState {
    users: StringHashMap<UserAccount>,
    sessions: StringHashMap<Session>,
    throttles: StringHashMap<LoginThrottle>,
}

pub struct AuthView {
    pub users: Map<Seq<char>, UserView>,
    pub sessions: Map<Seq<char>, SessionView>,
    pub throttles: Map<Seq<char>, LoginThrottle>,
}

impl View for AuthState {
    type V = AuthView;

    closed spec fn view(&self) -> AuthView {
        AuthView {
            users: self.users@.map_values(|u: UserAccount| u@),
            sessions: self.sessions@.map_values(|s: Session| s@),
            throttles: self.throttles@,
        }
    }
}

/// The failed logins counted under `key`.
pub open spec fn failures_of(t: Map<Seq<char>, LoginThrottle>, key: Seq<char>) -> u32 {
    if t.contains_key(key) {
        t[key].failures
    } else {
        0
    }
}

/// `key` is locked at time `now`.
pub open spec fn is_locked_at(t: Map<Seq<char>, LoginThrottle>, key: Seq<char>, now: u64) -> bool {
    t.contains_key(key) && (t[key].locked_until matches Some(until) && until > now)
}

/// The throttles after a failed login under `key` at `now`: one more failure,
/// and from the fifth failure on, a lock until `now` plus the lock time.
pub open spec fn after_failure(t: Map<Seq<char>, LoginThrottle>, key: Seq<char>, now: u64) -> Map<
    Seq<char>,
    LoginThrottle,
> {
    let prev = if t.contains_key(key) {
        t[key]
    } else {
        LoginThrottle { failures: 0, locked_until: None }
    };
    let failures = (prev.failures + 1) as u32;
    t.insert(
        key,
        LoginThrottle {
            failures,
            locked_until: if failures >= MAX_LOGIN_FAILURES {
                Some((now + LOGIN_LOCK_SECONDS) as u64)
            } else {
                prev.locked_until
            },
        },
    )
}

/// The enabled account named `name`.
pub open spec fn active_user(users: Map<Seq<char>, UserView>, name: Seq<char>) -> Option<UserView> {
    if users.contains_key(name) && !users[name].disabled {
        Some(users[name])
    } else {
        None
    }
}

/// The unexpired session with identifier `id` at time `now`.
pub open spec fn live_session(sessions: Map<Seq<char>, SessionView>, id: Seq<char>, now: u64) -> Option<
    SessionView,
> {
    if sessions.contains_key(id) && sessions[id].expires_at > now {
        Some(sessions[id])
    } else {
        None
    }
}

/// The sessions after looking `id` up at `now`: an expired session is dropped.
pub open spec fn after_lookup(sessions: Map<Seq<char>, SessionView>, id: Seq<char>, now: u64) -> Map<
    Seq<char>,
    SessionView,
> {
    if sessions.contains_key(id) && sessions[id].expires_at <= now {
        sessions.remove(id)
    } else {
        sessions
    }
}

/// The session identifier a request carries in its `Cookie` header.
pub open spec fn cookie_session_id(cookie_header: Option<Seq<char>>) -> Option<Seq<char>> {
    match cookie_header {
        Some(raw) => session_cookie_value_of(raw),
        None => None,
    }
}

/// The request's `X-CSRF-Token` header matches the session's token.
pub open spec fn csrf_matches(csrf_header: Option<Seq<char>>, session: SessionView) -> bool {
    csrf_header == Some(session.csrf_token)
}

/// The outcome of a login attempt.
#[derive(Debug)]
pub enum LoginOutcome {
    /// Too many failed attempts: refused whatever the password.
    Locked,
    /// Unknown or disabled account, or wrong password.
    InvalidCredentials,
    /// A new session was opened.
    Authenticated {
        session_id: String,
        csrf_token: String,
        username: String,
        password_change_required: bool,
    },
}

/// The outcome of a request that changes state.
#[derive(Debug, Clone, Copy, PartialEq, Eq, Structural)]
pub enum MutationOutcome {
    Unauthenticated,
    CsrfRejected,
    Allowed,
}

/// The outcome of a password change.
#[derive(Debug, Clone, Copy, PartialEq, Eq, Structural)]
pub enum ChangePasswordOutcome {
    Unauthenticated,
    CsrfRejected,
    PolicyRejected,
    InvalidCredentials,
    Changed,
}

/// What the session endpoint reports about the caller.
#[derive(Debug)]
pub struct SessionInfo {
    pub username: String,
    pub password_change_required: bool,
    pub csrf_token: String,
}

/// The session's CSRF token matches the `X-CSRF-Token` header, compared in
/// constant time.
pub fn valid_csrf(csrf_header: Option<&str>, session: &Session) -> (r: bool)
    ensures
        r == csrf_matches(opt_view(csrf_header), session@),
{
    match csrf_header {
        Some(value) => {
            let r = constant_time_eq(value.as_bytes(), session.csrf_token.as_str().as_bytes());
            proof {
                vstd::utf8::encode_utf8_decode_utf8(value@);
                vstd::utf8::encode_utf8_decode_utf8(session.csrf_token@);
            }
            r
        },
        None => false,
    }
}

impl AuthState {
    /// A state with the single account `admin`, whose password is
    /// `initial_admin_password` and must be changed at first login.
    pub fn with_initial_admin(initial_admin_password: &str) -> (r: AuthState)
        requires
            initial_admin_password.len() <= 0xffff_ffff,
        ensures
            r@.users.dom() == set!["admin"@],
            r@.users["admin"@].username == "admin"@,
            argon2_phc_verifies(initial_admin_password@, r@.users["admin"@].password_hash),
            r@.users["admin"@].password_change_required,
            !r@.users["admin"@].disabled,
            r@.sessions == Map::<Seq<char>, SessionView>::empty(),
            r@.throttles == Map::<Seq<char>, LoginThrottle>::empty(),
    {
        let mut users = StringHashMap::new();
        let admin = UserAccount {
            username: "admin".to_string(),
            password_hash: hash_password(initial_admin_password),
            password_change_required: true,
            disabled: false,
        };
        users.insert("admin".to_string(), admin);
        let r = AuthState { users, sessions: StringHashMap::new(), throttles: StringHashMap::new() };
        assert(r@.users.dom() =~= set!["admin"@]);
        assert(r@.sessions =~= Map::<Seq<char>, SessionView>::empty());
        r
    }

    /// Failed logins counted under `key`.
    pub fn failure_count(&self, key: &str) -> (r: u32)
        ensures
            r == failures_of(self@.throttles, key@),
    {
        match self.throttles.get(key) {
            Some(t) => t.failures,
            None => 0,
        }
    }

    /// Whether `key` is locked out at time `now`.
    pub fn is_locked(&self, key: &str, now: u64) -> (r: bool)
        ensures
            r == is_locked_at(self@.throttles, key@, now),
    {
        match self.throttles.get(key) {
            Some(t) => match t.locked_until {
                Some(until) => until > now,
                None => false,
            },
            None => false,
        }
    }

    /// Counts a failed login under `key` at `now`.
    pub fn record_failure(&mut self, key: &str, now: u64)
        requires
            failures_of(old(self)@.throttles, key@) < u32::MAX,
            now <= u64::MAX - LOGIN_LOCK_SECONDS,
        ensures
            final(self)@.throttles == after_failure(old(self)@.throttles, key@, now),
            final(self)@.users == old(self)@.users,
            final(self)@.sessions == old(self)@.sessions,
    {
        let prev = match self.throttles.get(key) {
            Some(t) => *t,
            None => LoginThrottle { failures: 0, locked_until: None },
        };
        let failures = prev.failures + 1;
        let locked_until = if failures >= MAX_LOGIN_FAILURES {
            Some(now + LOGIN_LOCK_SECONDS)
        } else {
            prev.locked_until
        };
        self.throttles.insert(key.to_string(), LoginThrottle { failures, locked_until });
    }

    /// Forgets the failed logins counted under `key`.
    pub fn clear_failure(&mut self, key: &str)
        ensures
            final(self)@.throttles == old(self)@.throttles.remove(key@),
            final(self)@.users == old(self)@.users,
            final(self)@.sessions == old(self)@.sessions,
    {
        self.throttles.remove(key);
    }

    /// The unexpired session `session_id` at `now`; an expired one is dropped.
    pub fn require_session_id(&mut self, session_id: &str, now: u64) -> (r: Option<Session>)
        ensures
            match live_session(old(self)@.sessions, session_id@, now) {
                Some(s) => r matches Some(x) && x@ == s,
                None => r is None,
            },
            final(self)@.sessions == after_lookup(old(self)@.sessions, session_id@, now),
            final(self)@.users == old(self)@.users,
            final(self)@.throttles == old(self)@.throttles,
    {
        let found = match self.sessions.get(session_id) {
            Some(s) => Some(s.duplicate()),
            None => None,
        };
        match found {
            Some(session) => {
                if session.expires_at <= now {
                    self.sessions.remove(session_id);
                    assert(self@.sessions =~= after_lookup(old(self)@.sessions, session_id@, now));
                    None
                } else {
                    Some(session)
                }
            },
            None => None,
        }
    }

    /// The unexpired session named by the request's `Cookie` header.
    pub fn require_session(&mut self, cookie_header: Option<&str>, now: u64) -> (r: Option<Session>)
        ensures
            match cookie_session_id(opt_view(cookie_header)) {
                Some(id) => {
                    &&& match live_session(old(self)@.sessions, id, now) {
                        Some(s) => r matches Some(x) && x@ == s,
                        None => r is None,
                    }
                    &&& final(self)@.sessions == after_lookup(old(self)@.sessions, id, now)
                },
                None => r is None && final(self)@.sessions == old(self)@.sessions,
            },
            final(self)@.users == old(self)@.users,
            final(self)@.throttles == old(self)@.throttles,
    {
        match cookie_header {
            Some(raw) => match session_cookie_value(raw) {
                Some(id) => self.require_session_id(id.as_str(), now),
                None => None,
            },
            None => None,
        }
    }

    /// The enabled account `username`.
    pub fn current_user(&self, username: &str) -> (r: Option<UserAccount>)
        ensures
            match active_user(self@.users, username@) {
                Some(u) => r matches Some(x) && x@ == u,
                None => r is None,
            },
    {
        match self.users.get(username) {
            Some(user) => {
                if user.disabled {
                    None
                } else {
                    Some(user.duplicate())
                }
            },
            None => None,
        }
    }
}


/// The account `username` exists, is enabled, and `password` verifies
/// against its hash.
pub open spec fn login_accepted(users: Map<Seq<char>, UserView>, username: Seq<char>, password: Seq<char>) -> bool {
    active_user(users, username) matches Some(u) && argon2_phc_verifies(password, u.password_hash)
}

impl AuthState {
    /// A login attempt at `now`.  A locked client is refused without a look
    /// at the password; a wrong password or unknown or disabled account counts
    /// as a failure; a correct one clears the failures and opens a session
    /// with fresh random identifier and CSRF token, valid for the session
    /// lifetime.
    pub fn login(&mut self, forwarded_for: Option<&str>, username: &str, password: &str, now: u64) -> (r:
        LoginOutcome)
        requires
            now <= u64::MAX - SESSION_TTL_SECONDS,
            failures_of(
                old(self)@.throttles,
                throttle_key_text(opt_view(forwarded_for), username@),
            ) < u32::MAX,
        ensures
            ({
                let key = throttle_key_text(opt_view(forwarded_for), username@);
                let before = old(self)@;
                let after = final(self)@;
                if is_locked_at(before.throttles, key, now) {
                    &&& r is Locked
                    &&& after.users == before.users
                    &&& after.sessions == before.sessions
                    &&& after.throttles == before.throttles
                } else if !login_accepted(before.users, username@, password@) {
                    &&& r is InvalidCredentials
                    &&& after.users == before.users
                    &&& after.sessions == before.sessions
                    &&& after.throttles == after_failure(before.throttles, key, now)
                } else {
                    let user = active_user(before.users, username@)->Some_0;
                    &&& r matches LoginOutcome::Authenticated {
                        session_id,
                        csrf_token,
                        username: name,
                        password_change_required,
                    }
                    &&& is_alphanumeric_text(session_id@, TOKEN_LEN as nat)
                    &&& is_alphanumeric_text(csrf_token@, TOKEN_LEN as nat)
                    &&& name@ == user.username
                    &&& password_change_required == user.password_change_required
                    &&& after.users == before.users
                    &&& after.sessions == before.sessions.insert(
                        session_id@,
                        SessionView {
                            username: user.username,
                            csrf_token: csrf_token@,
                            expires_at: (now + SESSION_TTL_SECONDS) as u64,
                        },
                    )
                    &&& after.throttles == before.throttles.remove(key)
                }
            }),
    {
        let key = throttle_key(forwarded_for, username);
        if self.is_locked(key.as_str(), now) {
            return LoginOutcome::Locked;
        }
        let authenticated = match self.users.get(username) {
            Some(user) => {
                if !user.disabled && verify_password(password, user.password_hash.as_str()) {
                    Some(user.duplicate())
                } else {
                    None
                }
            },
            None => None,
        };
        match authenticated {
            None => {
                self.record_failure(key.as_str(), now);
                LoginOutcome::InvalidCredentials
            },
            Some(user) => {
                self.clear_failure(key.as_str());
                let session_id = random_alphanumeric(TOKEN_LEN);
                let csrf_token = random_alphanumeric(TOKEN_LEN);
                let session = Session {
                    username: user.username.clone(),
                    csrf_token: csrf_token.clone(),
                    expires_at: now + SESSION_TTL_SECONDS,
                };
                let ghost before_sessions = self@.sessions;
                self.sessions.insert(session_id.clone(), session);
                assert(self@.sessions =~= before_sessions.insert(
                    session_id@,
                    SessionView {
                        username: user.username@,
                        csrf_token: csrf_token@,
                        expires_at: (now + SESSION_TTL_SECONDS) as u64,
                    },
                ));
                LoginOutcome::Authenticated {
                    session_id,
                    csrf_token,
                    username: user.username,
                    password_change_required: user.password_change_required,
                }
            },
        }
    }

    /// The caller of the session endpoint: the account of the request's live
    /// session, when that account is still enabled.
    pub fn session_info(&mut self, cookie_header: Option<&str>, now: u64) -> (r: Option<SessionInfo>)
        ensures
            match cookie_session_id(opt_view(cookie_header)) {
                Some(id) => {
                    &&& final(self)@.sessions == after_lookup(old(self)@.sessions, id, now)
                    &&& match live_session(old(self)@.sessions, id, now) {
                        Some(s) => match active_user(old(self)@.users, s.username) {
                            Some(u) => r matches Some(info) && info.username@ == u.username
                                && info.password_change_required == u.password_change_required
                                && info.csrf_token@ == s.csrf_token,
                            None => r is None,
                        },
                        None => r is None,
                    }
                },
                None => r is None && final(self)@.sessions == old(self)@.sessions,
            },
            final(self)@.users == old(self)@.users,
            final(self)@.throttles == old(self)@.throttles,
    {
        let session = match self.require_session(cookie_header, now) {
            Some(s) => s,
            None => return None,
        };
        match self.current_user(session.username.as_str()) {
            Some(user) => Some(
                SessionInfo {
                    username: user.username,
                    password_change_required: user.password_change_required,
                    csrf_token: session.csrf_token,
                },
            ),
            None => None,
        }
    }

    /// Whether the request carries a live session: the guard of reads.
    pub fn authorize_read(&mut self, cookie_header: Option<&str>, now: u64) -> (r: bool)
        ensures
            r == (cookie_session_id(opt_view(cookie_header)) matches Some(id) && live_session(
                old(self)@.sessions,
                id,
                now,
            ) is Some),
            match cookie_session_id(opt_view(cookie_header)) {
                Some(id) => final(self)@.sessions == after_lookup(old(self)@.sessions, id, now),
                None => final(self)@.sessions == old(self)@.sessions,
            },
            final(self)@.users == old(self)@.users,
            final(self)@.throttles == old(self)@.throttles,
    {
        self.require_session(cookie_header, now).is_some()
    }

    /// The guard of requests that change state: a live session and a CSRF
    /// token that matches it.
    pub fn authorize_mutation(&mut self, cookie_header: Option<&str>, csrf_header: Option<&str>, now: u64) -> (r:
        MutationOutcome)
        ensures
            match cookie_session_id(opt_view(cookie_header)) {
                Some(id) => {
                    &&& final(self)@.sessions == after_lookup(old(self)@.sessions, id, now)
                    &&& r == match live_session(old(self)@.sessions, id, now) {
                        Some(s) => if csrf_matches(opt_view(csrf_header), s) {
                            MutationOutcome::Allowed
                        } else {
                            MutationOutcome::CsrfRejected
                        },
                        None => MutationOutcome::Unauthenticated,
                    }
                },
                None => r == MutationOutcome::Unauthenticated && final(self)@.sessions == old(
                    self,
                )@.sessions,
            },
            final(self)@.users == old(self)@.users,
            final(self)@.throttles == old(self)@.throttles,
    {
        let session = match self.require_session(cookie_header, now) {
            Some(s) => s,
            None => return MutationOutcome::Unauthenticated,
        };
        if !valid_csrf(csrf_header, &session) {
            return MutationOutcome::CsrfRejected;
        }
        MutationOutcome::Allowed
    }

    /// Logout: with a live session and a matching CSRF token the session is
    /// closed.
    pub fn logout(&mut self, cookie_header: Option<&str>, csrf_header: Option<&str>, now: u64) -> (r:
        MutationOutcome)
        ensures
            match cookie_session_id(opt_view(cookie_header)) {
                Some(id) => match live_session(old(self)@.sessions, id, now) {
                    Some(s) => if csrf_matches(opt_view(csrf_header), s) {
                        r == MutationOutcome::Allowed && final(self)@.sessions == old(
                            self,
                        )@.sessions.remove(id)
                    } else {
                        r == MutationOutcome::CsrfRejected && final(self)@.sessions == old(
                            self,
                        )@.sessions
                    },
                    None => r == MutationOutcome::Unauthenticated && final(self)@.sessions
                        == after_lookup(old(self)@.sessions, id, now),
                },
                None => r == MutationOutcome::Unauthenticated && final(self)@.sessions == old(
                    self,
                )@.sessions,
            },
            final(self)@.users == old(self)@.users,
            final(self)@.throttles == old(self)@.throttles,
    {
        let session_id = match cookie_header {
            Some(raw) => match session_cookie_value(raw) {
                Some(id) => id,
                None => return MutationOutcome::Unauthenticated,
            },
            None => return MutationOutcome::Unauthenticated,
        };
        let session = match self.require_session_id(session_id.as_str(), now) {
            Some(s) => s,
            None => return MutationOutcome::Unauthenticated,
        };
        if !valid_csrf(csrf_header, &session) {
            return MutationOutcome::CsrfRejected;
        }
        let ghost before = self@.sessions;
        self.sessions.remove(session_id.as_str());
        assert(self@.sessions =~= before.remove(session_id@));
        MutationOutcome::Allowed
    }

    /// A password change by the session's account: it needs a live session, a
    /// matching CSRF token, a new password that satisfies the policy and the
    /// current password; the new password is stored as a fresh hash and no
    /// longer has to be changed.
    pub fn change_password(
        &mut self,
        cookie_header: Option<&str>,
        csrf_header: Option<&str>,
        current_password: &str,
        new_password: &str,
        now: u64,
    ) -> (r: ChangePasswordOutcome)
        requires
            new_password.len() <= 0xffff_ffff,
        ensures
            match cookie_session_id(opt_view(cookie_header)) {
                Some(id) => {
                    &&& final(self)@.sessions == after_lookup(old(self)@.sessions, id, now)
                    &&& match live_session(old(self)@.sessions, id, now) {
                        Some(s) => if !csrf_matches(opt_view(csrf_header), s) {
                            r == ChangePasswordOutcome::CsrfRejected && final(self)@.users == old(
                                self,
                            )@.users
                        } else if !satisfies_password_policy(new_password) {
                            r == ChangePasswordOutcome::PolicyRejected && final(self)@.users == old(
                                self,
                            )@.users
                        } else if !old(self)@.users.contains_key(s.username) {
                            r == ChangePasswordOutcome::Unauthenticated && final(self)@.users == old(
                                self,
                            )@.users
                        } else if !argon2_phc_verifies(
                            current_password@,
                            old(self)@.users[s.username].password_hash,
                        ) {
                            r == ChangePasswordOutcome::InvalidCredentials && final(self)@.users
                                == old(self)@.users
                        } else {
                            let u = old(self)@.users[s.username];
                            &&& r == ChangePasswordOutcome::Changed
                            &&& final(self)@.users.dom() == old(self)@.users.dom()
                            &&& forall|k: Seq<char>|
                                k != s.username && #[trigger] old(self)@.users.contains_key(k)
                                    ==> final(self)@.users[k] == old(self)@.users[k]
                            &&& final(self)@.users[s.username].username == u.username
                            &&& final(self)@.users[s.username].disabled == u.disabled
                            &&& !final(self)@.users[s.username].password_change_required
                            &&& argon2_phc_verifies(
                                new_password@,
                                final(self)@.users[s.username].password_hash,
                            )
                        },
                        None => r == ChangePasswordOutcome::Unauthenticated && final(self)@.users
                            == old(self)@.users,
                    }
                },
                None => r == ChangePasswordOutcome::Unauthenticated && final(self)@.sessions
                    == old(self)@.sessions && final(self)@.users == old(self)@.users,
            },
            final(self)@.throttles == old(self)@.throttles,
    {
        let session = match self.require_session(cookie_header, now) {
            Some(s) => s,
            None => return ChangePasswordOutcome::Unauthenticated,
        };
        if !valid_csrf(csrf_header, &session) {
            return ChangePasswordOutcome::CsrfRejected;
        }
        if !valid_password_policy(new_password) {
            return ChangePasswordOutcome::PolicyRejected;
        }
        let user = match self.users.get(session.username.as_str()) {
            Some(u) => u.duplicate(),
            None => return ChangePasswordOutcome::Unauthenticated,
        };
        if !verify_password(current_password, user.password_hash.as_str()) {
            return ChangePasswordOutcome::InvalidCredentials;
        }
        let updated = UserAccount {
            username: user.username,
            password_hash: hash_password(new_password),
            password_change_required: false,
            disabled: user.disabled,
        };
        let ghost before = self@.users;
        let ghost new_view = updated@;
        self.users.insert(session.username.clone(), updated);
        assert(self@.users =~= before.insert(session.username@, new_view));
        ChangePasswordOutcome::Changed
    }
}


// ----- Public view of the configuration -----

/// The configuration as the panel sees it: which modules are on and which
/// integrations are set up, without the URLs and secret names themselves.
#[derive(Debug, Clone, Copy, PartialEq, Eq)]
pub struct PublicConfigurationResponse {
    pub modules: PublicModuleSection,
    pub integrations: PublicIntegrationSection,
}

#[derive(Debug, Clone, Copy, PartialEq, Eq, Structural)]
pub struct PublicModuleSection {
    pub crowdsec: PublicModuleToggle,
    pub powerdns: PublicModuleToggle,
}

#[derive(Debug, Clone, Copy, PartialEq, Eq, Structural)]
pub struct PublicModuleToggle {
    pub enabled: bool,
}

#[derive(Debug, Clone, Copy, PartialEq, Eq)]
pub struct PublicIntegrationSection {
    pub powerdns: PublicPowerDnsIntegration,
    pub crowdsec: PublicCrowdSecIntegration,
}

#[derive(Debug, Clone, Copy, PartialEq, Eq)]
pub struct PublicPowerDnsIntegration {
    pub mode: &'static str,
    pub api_url_configured: bool,
    pub api_key_configured: bool,
}

#[derive(Debug, Clone, Copy, PartialEq, Eq, Structural)]
pub struct PublicCrowdSecIntegration {
    pub local_api_configured: bool,
    pub api_key_configured: bool,
}

pub open spec fn powerdns_mode_name(mode: PowerDnsMode) -> Seq<char> {
    match mode {
        PowerDnsMode::Integrated => "integrated"@,
        PowerDnsMode::External => "external"@,
    }
}

/// The name of a PowerDNS mode in the configuration file.
pub fn powerdns_mode(mode: &PowerDnsMode) -> (r: &'static str)
    ensures
        r@ == powerdns_mode_name(*mode),
{
    match mode {
        PowerDnsMode::Integrated => "integrated",
        PowerDnsMode::External => "external",
    }
}

/// What the panel is shown of the configuration.
pub fn public_configuration(config: &PlatformConfig) -> (r: PublicConfigurationResponse)
    ensures
        r.modules.crowdsec.enabled == config.modules.crowdsec.enabled,
        r.modules.powerdns.enabled == config.modules.powerdns.enabled,
        r.integrations.powerdns.mode@ == powerdns_mode_name(config.integrations.powerdns.mode),
        r.integrations.powerdns.api_url_configured == config.integrations.powerdns.api_url is Some,
        r.integrations.powerdns.api_key_configured == config.integrations.powerdns.api_key_env is Some,
        r.integrations.crowdsec.local_api_configured == config.integrations.crowdsec.local_api_url is Some,
        r.integrations.crowdsec.api_key_configured == config.integrations.crowdsec.api_key_env is Some,
{
    PublicConfigurationResponse {
        modules: PublicModuleSection {
            crowdsec: PublicModuleToggle { enabled: config.modules.crowdsec.enabled },
            powerdns: PublicModuleToggle { enabled: config.modules.powerdns.enabled },
        },
        integrations: PublicIntegrationSection {
            powerdns: PublicPowerDnsIntegration {
                mode: powerdns_mode(&config.integrations.powerdns.mode),
                api_url_configured: config.integrations.powerdns.api_url.is_some(),
                api_key_configured: config.integrations.powerdns.api_key_env.is_some(),
            },
            crowdsec: PublicCrowdSecIntegration {
                local_api_configured: config.integrations.crowdsec.local_api_url.is_some(),
                api_key_configured: config.integrations.crowdsec.api_key_env.is_some(),
            },
        },
    }
}

// ----- Laws -----

/// Five failed logins in a row under a fresh key lock it: from the fifth
/// failure on, every attempt before the lock time has passed is refused;
/// four failures do not lock it.
pub proof fn lemma_five_failures_lock(
    t: Map<Seq<char>, LoginThrottle>,
    key: Seq<char>,
    t1: u64,
    t2: u64,
    t3: u64,
    t4: u64,
    t5: u64,
    now: u64,
)
    requires
        !t.contains_key(key),
        t5 <= u64::MAX - LOGIN_LOCK_SECONDS,
    ensures
        ({
            let four = after_failure(
                after_failure(after_failure(after_failure(t, key, t1), key, t2), key, t3),
                key,
                t4,
            );
            let five = after_failure(four, key, t5);
            &&& !is_locked_at(four, key, now)
            &&& failures_of(five, key) == MAX_LOGIN_FAILURES
            &&& (now < t5 + LOGIN_LOCK_SECONDS ==> is_locked_at(five, key, now))
            &&& (now >= t5 + LOGIN_LOCK_SECONDS ==> !is_locked_at(five, key, now))
            &&& failures_of(five, key) == 5
            &&& (now < t5 + 15 * 60 ==> is_locked_at(five, key, now))
            &&& (now >= t5 + 15 * 60 ==> !is_locked_at(five, key, now))
        }),
{
}

/// Once a key has failed at least four times, the next failure at `now`
/// locks it until `now` plus the lock time.
pub proof fn lemma_failure_after_four_locks(t: Map<Seq<char>, LoginThrottle>, key: Seq<char>, now: u64, later: u64)
    requires
        failures_of(t, key) >= MAX_LOGIN_FAILURES - 1,
        failures_of(t, key) < u32::MAX,
        now <= u64::MAX - LOGIN_LOCK_SECONDS,
        later < now + LOGIN_LOCK_SECONDS,
    ensures
        is_locked_at(after_failure(t, key, now), key, later),
{
}

/// A successful login clears the key: no failures are counted and it is
/// not locked.
pub proof fn lemma_success_clears_throttle(t: Map<Seq<char>, LoginThrottle>, key: Seq<char>, now: u64)
    ensures
        failures_of(t.remove(key), key) == 0,
        !is_locked_at(t.remove(key), key, now),
{
}

/// A session opened at `now` is live at every moment before `now` plus the
/// session lifetime, and not from then on.
pub proof fn lemma_session_lifetime(
    sessions: Map<Seq<char>, SessionView>,
    id: Seq<char>,
    session: SessionView,
    now: u64,
    at: u64,
)
    requires
        now <= u64::MAX - SESSION_TTL_SECONDS,
        session.expires_at == now + SESSION_TTL_SECONDS,
    ensures
        at < now + SESSION_TTL_SECONDS ==> live_session(sessions.insert(id, session), id, at) == Some(
            session,
        ),
        at >= now + SESSION_TTL_SECONDS ==> live_session(sessions.insert(id, session), id, at) is None,
        at >= now + SESSION_TTL_SECONDS ==> !after_lookup(sessions.insert(id, session), id, at).contains_key(id),
        at < now + 8 * 60 * 60 ==> live_session(sessions.insert(id, session), id, at) == Some(session),
        at >= now + 8 * 60 * 60 ==> live_session(sessions.insert(id, session), id, at) is None,
{
}

/// A request passes the CSRF check only when it carries the `X-CSRF-Token`
/// header and that header is exactly the session's token.
pub proof fn lemma_csrf_needs_the_session_token(header: Option<Seq<char>>, session: SessionView)
    ensures
        header is None ==> !csrf_matches(header, session),
        header matches Some(t) ==> (csrf_matches(header, session) <==> t == session.csrf_token),
{
}

/// Failed logins are counted against the first address of the
/// `X-Forwarded-For` header, trimmed, followed by `:` and the account name;
/// without the header, or with a blank first entry, against `unknown`.
pub proof fn lemma_throttle_key_uses_first_forwarded_address(
    first: Seq<char>,
    rest: Seq<char>,
    username: Seq<char>,
)
    requires
        !first.contains(','),
    ensures
        trim(first).len() > 0 ==> throttle_key_text(Some(first + ","@ + rest), username) == trim(first)
            + ":"@ + lowercase_text(trim(username)),
        trim(first).len() == 0 ==> throttle_key_text(Some(first + ","@ + rest), username) == "unknown"@
            + ":"@ + lowercase_text(trim(username)),
        throttle_key_text(None, username) == "unknown"@ + ":"@ + lowercase_text(trim(username)),
{
    reveal_strlit(",");
    let v = first + ","@ + rest;
    assert forall|i: int| 0 <= i < first.len() implies v[i] != ',' by {
        assert(v[i] == first[i]);
        if first[i] == ',' {
            assert(first.contains(','));
        }
    }
    assert(v[first.len() as int] == ',');
    lemma_find_char_at(v, ',', first.len() as int);
    assert(first_field(v, ',') =~= first);
}

/// After logout the session is gone: any later request with it is
/// unauthenticated.
pub proof fn lemma_logout_ends_session(sessions: Map<Seq<char>, SessionView>, id: Seq<char>, at: u64)
    ensures
        live_session(sessions.remove(id), id, at) is None,
{
}

/// A request that presents the session cookie issued for an identifier
/// made of ASCII letters and digits is recognised as carrying that session.
pub proof fn lemma_issued_session_id_is_recognized(id: Seq<char>)
    requires
        forall|i: int| 0 <= i < id.len() ==> is_ascii_alphanumeric(#[trigger] id[i]),
    ensures
        session_cookie_value_of(SESSION_COOKIE@ + "="@ + id) == Some(id),
{
    reveal_strlit("baia_session");
    reveal_strlit("=");
    let prefix = SESSION_COOKIE@ + "="@;
    let raw = prefix + id;
    assert(prefix.len() == 13);
    assert forall|i: int| 0 <= i < raw.len() implies raw[i] != ';' by {
        if i >= 13 {
            assert(raw[i] == id[i - 13]);
            assert(is_ascii_alphanumeric(id[i - 13]));
        }
    }
    lemma_find_char_at(raw, ';', raw.len() as int);
    assert(raw.take(raw.len() as int) =~= raw);
    assert(!is_white_space(raw[0]));
    lemma_trim_start_at(raw, 0);
    assert(raw.subrange(0, raw.len() as int) =~= raw);
    let last = raw[raw.len() - 1];
    if id.len() > 0 {
        assert(last == id[id.len() - 1]);
        assert(is_ascii_alphanumeric(id[id.len() - 1]));
    } else {
        assert(last == '=');
    }
    lemma_trim_end_at(raw, raw.len() as int);
    assert(trim(raw) == raw);
    assert(raw.subrange(0, 13) =~= prefix);
    assert(raw.skip(13) =~= id);
}

} // verus!

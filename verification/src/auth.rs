//! Administrator bootstrap, password hashing and random tokens.
use vstd::prelude::*;
use argon2::password_hash::{PasswordHash, SaltString};
use argon2::{Argon2, PasswordHasher, PasswordVerifier};
use rand::distr::{Alphanumeric, SampleString};
use crate::text::is_ascii_alphanumeric;

verus! {

/// Whether an administrator account already exists.
#[derive(Debug, Clone, Copy, PartialEq, Eq, Structural)]
pub enum BootstrapState {
    NoAdmin,
    AdminExists,
}

/// The first administrator account, created with a temporary password.
#[derive(Debug)]
pub struct BootstrapAdmin {
    pub username: String,
    pub password_hash: String,
    pub temporary_password: TemporaryPassword,
    pub password_change_required: bool,
    pub email_required: bool,
}

/// Two bootstrap records are the same administrator when the username and
/// the first-login requirements agree; secrets are not compared.
impl PartialEq for BootstrapAdmin {
    fn eq(&self, other: &Self) -> (r: bool) {
        self.username == other.username && self.password_change_required
            == other.password_change_required && self.email_required == other.email_required
    }
}

impl vstd::std_specs::cmp::PartialEqSpecImpl for BootstrapAdmin {
    open spec fn obeys_eq_spec() -> bool {
        true
    }

    open spec fn eq_spec(&self, other: &Self) -> bool {
        self.username@ == other.username@ && self.password_change_required
            == other.password_change_required && self.email_required == other.email_required
    }
}

/// A generated password that can be read once, for the initial log.
#[derive(Debug)]
pub struct TemporaryPassword {
    value: Option<String>,
}

impl View for TemporaryPassword {
    type V = Option<Seq<char>>;

    closed spec fn view(&self) -> Option<Seq<char>> {
        match self.value {
            Some(p) => Some(p@),
            None => None,
        }
    }
}

/// `s` is made of `len` ASCII letters and digits.
pub open spec fn is_alphanumeric_text(s: Seq<char>, len: nat) -> bool {
    s.len() == len && forall|i: int| 0 <= i < s.len() ==> is_ascii_alphanumeric(#[trigger] s[i])
}

/// Length of the generated temporary password and of the salt.
pub const GENERATED_SECRET_LEN: usize = 32;

/// Calls `Alphanumeric.sample_string` with the thread-local generator of
/// `rand`.  Claimed: the result has `len` characters, each an ASCII letter or
/// digit (the crate's `Alphanumeric` charset).  Which characters come out is
/// left open: it rests on chance.
#[verifier::external_body]
pub(crate) fn random_alphanumeric(len: usize) -> (r: String)
    ensures
        is_alphanumeric_text(r@, len as nat),
{
    Alphanumeric.sample_string(&mut rand::rng(), len)
}

/// The PHC string that Argon2id with the crate's default parameters gives
/// for a password and a B64 salt.
pub uninterp spec fn argon2_phc(password: Seq<char>, salt: Seq<char>) -> Seq<char>;

/// Whether Argon2 verification accepts `password` against the PHC string
/// `phc`.
pub uninterp spec fn argon2_phc_verifies(password: Seq<char>, phc: Seq<char>) -> bool;

/// Calls `SaltString::from_b64` and `Argon2::default().hash_password` and
/// renders the PHC string.  Claimed: the result is the named Argon2id hash of
/// the password under that salt, and verifying the same password against it
/// succeeds.  The `requires` keeps to inputs the source accepts: a salt of 32
/// B64 characters (4 to 64 allowed, decoding to 24 bytes, at least 8 needed)
/// and a password of at most `u32::MAX` bytes; on them no error arm is taken.
#[verifier::external_body]
fn argon2_hash(password: &str, salt: &str) -> (r: String)
    requires
        is_alphanumeric_text(salt@, GENERATED_SECRET_LEN as nat),
        password.len() <= 0xffff_ffff,
    ensures
        r@ == argon2_phc(password@, salt@),
        argon2_phc_verifies(password@, r@),
{
    match SaltString::from_b64(salt) {
        Ok(salt) => match Argon2::default().hash_password(password.as_bytes(), &salt) {
            Ok(hash) => hash.to_string(),
            Err(_) => String::new(),
        },
        Err(_) => String::new(),
    }
}

/// Calls `PasswordHash::new` and `Argon2::default().verify_password`.
/// Claimed: the answer is the named verification result of the password
/// against the PHC string; a string that does not parse is refused.
#[verifier::external_body]
fn argon2_verify(password: &str, phc: &str) -> (r: bool)
    ensures
        r == argon2_phc_verifies(password@, phc@),
{
    match PasswordHash::new(phc) {
        Ok(parsed) => match Argon2::default().verify_password(password.as_bytes(), &parsed) {
            Ok(()) => true,
            Err(_) => false,
        },
        Err(_) => false,
    }
}

/// An Argon2id PHC hash of `password` under a fresh random salt.
pub fn hash_password(password: &str) -> (r: String)
    requires
        password.len() <= 0xffff_ffff,
    ensures
        argon2_phc_verifies(password@, r@),
        exists|salt: Seq<char>|
            is_alphanumeric_text(salt, GENERATED_SECRET_LEN as nat) && r@ == argon2_phc(
                password@,
                salt,
            ),
{
    let salt = random_alphanumeric(GENERATED_SECRET_LEN);
    argon2_hash(password, salt.as_str())
}

/// Whether `password` matches the stored PHC hash.
pub fn verify_password(password: &str, password_hash: &str) -> (r: bool)
    ensures
        r == argon2_phc_verifies(password@, password_hash@),
{
    argon2_verify(password, password_hash)
}

/// ASCII letters and digits take one byte each in UTF-8.
pub proof fn lemma_alphanumeric_is_ascii(s: Seq<char>, len: nat)
    requires
        is_alphanumeric_text(s, len),
    ensures
        crate::text::is_ascii_text(s),
        vstd::utf8::encode_utf8(s).len() == s.len(),
{
    assert forall|i: int| 0 <= i < s.len() implies (#[trigger] s[i] as u32) < 128 by {
        assert(is_ascii_alphanumeric(s[i]));
    }
    vstd::utf8::is_ascii_chars_encode_utf8(s);
    assert(vstd::utf8::is_ascii_chars(s));
}

impl BootstrapAdmin {
    /// A new administrator `username` with a random 32-character temporary
    /// password, stored as an Argon2id hash; the password must be changed and
    /// an e-mail address given at first login.
    pub fn new(username: &str) -> (r: BootstrapAdmin)
        ensures
            r.username@ == username@,
            r.password_change_required,
            r.email_required,
            r.temporary_password@ matches Some(p) && is_alphanumeric_text(
                p,
                GENERATED_SECRET_LEN as nat,
            ) && argon2_phc_verifies(p, r.password_hash@) && exists|salt: Seq<char>|
                is_alphanumeric_text(salt, GENERATED_SECRET_LEN as nat) && r.password_hash@
                    == argon2_phc(p, salt),
    {
        let password = random_alphanumeric(GENERATED_SECRET_LEN);
        proof {
            lemma_alphanumeric_is_ascii(password@, GENERATED_SECRET_LEN as nat);
        }
        let password_hash = hash_password(password.as_str());
        BootstrapAdmin {
            username: username.to_string(),
            password_hash,
            temporary_password: TemporaryPassword { value: Some(password) },
            password_change_required: true,
            email_required: true,
        }
    }
}

impl TemporaryPassword {
    /// The password, the first time; an empty string afterwards.
    pub fn expose_for_initial_log_once(&mut self) -> (r: String)
        ensures
            r@ == exposed_text(old(self)@),
            final(self)@ is None,
    {
        match self.value.take() {
            Some(p) => p,
            None => String::new(),
        }
    }
}

/// Creates the first administrator `admin` when none exists.
pub fn bootstrap_initial_admin(state: BootstrapState) -> (r: Option<BootstrapAdmin>)
    ensures
        state == BootstrapState::AdminExists <==> r is None,
        r matches Some(a) ==> {
            &&& a.username@ == "admin"@
            &&& a.password_change_required
            &&& a.email_required
            &&& a.temporary_password@ matches Some(p) && is_alphanumeric_text(
                p,
                GENERATED_SECRET_LEN as nat,
            ) && argon2_phc_verifies(p, a.password_hash@)
        },
{
    match state {
        BootstrapState::NoAdmin => Some(BootstrapAdmin::new("admin")),
        BootstrapState::AdminExists => None,
    }
}

/// What a read of the temporary password returns.
pub open spec fn exposed_text(v: Option<Seq<char>>) -> Seq<char> {
    match v {
        Some(p) => p,
        None => Seq::<char>::empty(),
    }
}

/// What `n` reads in a row of a slot holding `v` return: the first read
/// empties the slot, so every later read sees nothing.
pub open spec fn successive_reads(v: Option<Seq<char>>, n: nat) -> Seq<Seq<char>>
    decreases n,
{
    if n == 0 {
        seq![]
    } else {
        seq![exposed_text(v)] + successive_reads(None, (n - 1) as nat)
    }
}

/// The temporary password is shown once: of any number of reads in a row,
/// the first returns the password and every later one the empty string.
pub proof fn lemma_temporary_password_shown_once(v: Option<Seq<char>>, n: nat)
    ensures
        successive_reads(v, n).len() == n,
        n > 0 && v is Some ==> successive_reads(v, n)[0] == v->Some_0,
        forall|k: int| 1 <= k < n ==> #[trigger] successive_reads(v, n)[k] == Seq::<char>::empty(),
    decreases n,
{
    if n > 0 {
        lemma_temporary_password_shown_once(None, (n - 1) as nat);
        let rest = successive_reads(None, (n - 1) as nat);
        assert forall|k: int| 1 <= k < n implies #[trigger] successive_reads(v, n)[k] == Seq::<char>::empty() by {
            assert(successive_reads(v, n)[k] == rest[k - 1]);
            if k - 1 >= 1 {
                assert(rest[k - 1] == Seq::<char>::empty());
            } else {
                assert(rest[0] == exposed_text(None));
            }
        }
    }
}

} // verus!

//! The registry of local accounts: who is registered, under which secret,
//! and what registering, logging in and deleting do to it.

use vstd::prelude::*;
use vstd::string::*;
use vstd::utf8::encode_utf8;
use crate::json::{
    get_list,
    get_text,
    is_text_member,
    list_member,
    member_from,
    parse_json,
    parsed_json,
    render_json,
    rendered_json,
    text_entry,
    text_member,
    writable,
    Json,
    Member,
};
use crate::text::{joined, same_text};

verus! {

/// Why an account operation was refused.
#[derive(Debug)]
pub enum AuthError {
    /// The registry could not be read or written.
    Io(String),
    /// The registry file is no registry document.
    Serde(String),
    /// No account has that name.
    NotFound,
    /// An account with that name is registered already.
    AlreadyExists,
    /// The secret is wrong, or could not be hashed or checked.
    InvalidPin,
    /// There is no directory to keep the registry in.
    NoConfigDir,
}

/// The wording of an account failure.
pub open spec fn auth_error_text(e: AuthError) -> Seq<char> {
    match e {
        AuthError::Io(m) => "I/O error: "@ + m@,
        AuthError::Serde(m) => "Serialization error: "@ + m@,
        AuthError::NotFound => "User not found"@,
        AuthError::AlreadyExists => "User already exists"@,
        AuthError::InvalidPin => "Invalid PIN"@,
        AuthError::NoConfigDir => "No config dir"@,
    }
}

impl AuthError {
    /// The failure in words.
    pub fn message(&self) -> (r: String)
        ensures
            r@ == auth_error_text(*self),
    {
        match self {
            AuthError::Io(m) => joined("I/O error: ", m.as_str()),
            AuthError::Serde(m) => joined("Serialization error: ", m.as_str()),
            AuthError::NotFound => "User not found".to_owned(),
            AuthError::AlreadyExists => "User already exists".to_owned(),
            AuthError::InvalidPin => "Invalid PIN".to_owned(),
            AuthError::NoConfigDir => "No config dir".to_owned(),
        }
    }
}

/// One registered account.
#[derive(Clone, Debug)]
pub struct UserRecord {
    pub username: String,
    /// The secret's hash in PHC form, salt and parameters included.
    pub pin_phc: String,
    /// When the account was registered, as an RFC 3339 date and time.
    pub created_at: String,
}

/// One registered account as a mathematical value.
pub struct UserRecordView {
    pub username: Seq<char>,
    pub pin_phc: Seq<char>,
    pub created_at: Seq<char>,
}

impl View for UserRecord {
    type V = UserRecordView;

    open spec fn view(&self) -> UserRecordView {
        UserRecordView {
            username: self.username@,
            pin_phc: self.pin_phc@,
            created_at: self.created_at@,
        }
    }
}

impl UserRecord {
    /// A second record with the same texts.
    pub fn duplicate(&self) -> (r: UserRecord)
        ensures
            r@ == self@,
    {
        UserRecord {
            username: self.username.clone(),
            pin_phc: self.pin_phc.clone(),
            created_at: self.created_at.clone(),
        }
    }
}

/// The registry of local accounts, in the order of registration.
#[derive(Debug)]
pub struct LocalAuth {
    pub users: Vec<UserRecord>,
}

impl View for LocalAuth {
    type V = Seq<UserRecordView>;

    open spec fn view(&self) -> Seq<UserRecordView> {
        Seq::new(self.users@.len(), |i: int| self.users@[i]@)
    }
}

/// Whether an account with that name is registered.
pub open spec fn has_user(users: Seq<UserRecordView>, name: Seq<char>) -> bool {
    exists|i: int| 0 <= i < users.len() && (#[trigger] users[i]).username == name
}

/// The first account with that name, looking from `from` on.
pub open spec fn first_named(users: Seq<UserRecordView>, name: Seq<char>, from: int) -> Option<
    UserRecordView,
>
    decreases users.len() - from,
{
    if from < 0 || from >= users.len() {
        None
    } else if users[from].username == name {
        Some(users[from])
    } else {
        first_named(users, name, from + 1)
    }
}

/// The registry without the accounts of that name; the others keep their
/// order.
pub open spec fn without(users: Seq<UserRecordView>, name: Seq<char>) -> Seq<UserRecordView>
    decreases users.len(),
{
    if users.len() == 0 {
        Seq::empty()
    } else {
        let rest = without(users.drop_last(), name);
        if users.last().username == name {
            rest
        } else {
            rest.push(users.last())
        }
    }
}

/// Whether a secret is the one that a PHC hash was made from.
pub uninterp spec fn phc_accepts(phc: Seq<char>, pin: Seq<char>) -> bool;

/// Parses the hash with `argon2::password_hash::PasswordHash::new` and
/// checks the secret against it with `Argon2::default()` and
/// `PasswordVerifier::verify_password`. A hash that does not parse accepts
/// no secret. The answer depends on the two texts alone.
#[verifier::external_body]
fn pin_matches(phc: &str, pin: &str) -> (ok: bool)
    ensures
        ok == phc_accepts(phc@, pin@),
{
    match argon2::password_hash::PasswordHash::new(phc) {
        Ok(parsed) => argon2::password_hash::PasswordVerifier::verify_password(
            &argon2::Argon2::default(),
            pin.as_bytes(),
            &parsed,
        ).is_ok(),
        Err(_) => false,
    }
}

/// The longest secret, in bytes of its UTF-8 form, that can be hashed.
pub const MAX_PIN_BYTES: usize = 0xFFFF_FFFF;

/// Draws a salt with `SaltString::generate` from `rand::rngs::OsRng` and
/// hashes the secret with `Argon2::default()` and
/// `PasswordHasher::hash_password`. The hash comes back in PHC form. The
/// salt is random, so the hash itself is not told; but with a drawn salt and
/// the default parameters hashing fails for no secret of at most
/// `MAX_PIN_BYTES` bytes, and the hash that comes back accepts the secret it
/// was made from.
#[verifier::external_body]
fn hash_pin(pin: &str) -> (r: Option<String>)
    ensures
        encode_utf8(pin@).len() <= MAX_PIN_BYTES ==> r is Some,
        r matches Some(h) ==> phc_accepts(h@, pin@),
{
    let salt = argon2::password_hash::SaltString::generate(&mut rand::rngs::OsRng);
    argon2::password_hash::PasswordHasher::hash_password(
        &argon2::Argon2::default(),
        pin.as_bytes(),
        &salt,
    ).ok().map(|hash| hash.to_string())
}

/// Calls `chrono::Utc::now` and `DateTime::to_rfc3339`: the present moment
/// as an RFC 3339 date and time. It depends on the clock, so nothing is
/// promised of it.
#[verifier::external_body]
fn now_rfc3339() -> String {
    chrono::Utc::now().to_rfc3339()
}

/// What a login attempt comes to, given the registry: no account of that
/// name is `NotFound`; a secret that the first such account's hash does not
/// accept is `InvalidPin`.
pub open spec fn login_outcome(users: Seq<UserRecordView>, name: Seq<char>, pin: Seq<char>)
    -> Result<(), AuthError> {
    match first_named(users, name, 0) {
        None => Err(AuthError::NotFound),
        Some(record) => if phc_accepts(record.pin_phc, pin) {
            Ok(())
        } else {
            Err(AuthError::InvalidPin)
        },
    }
}

impl LocalAuth {
    /// A registry without accounts.
    pub fn new() -> (auth: LocalAuth)
        ensures
            auth@ == Seq::<UserRecordView>::empty(),
    {
        let auth = LocalAuth { users: Vec::new() };
        assert(auth@ =~= Seq::<UserRecordView>::empty());
        auth
    }

    /// Whether any account is registered.
    pub fn has_any_user(&self) -> (any: bool)
        ensures
            any == (self@.len() > 0),
    {
        self.users.len() > 0
    }

    /// Whether an account with that name is registered.
    pub fn is_registered(&self, username: &str) -> (found: bool)
        ensures
            found == has_user(self@, username@),
    {
        let mut i: usize = 0;
        while i < self.users.len()
            invariant
                i <= self.users.len(),
                forall|k: int| 0 <= k < i ==> (#[trigger] self@[k]).username != username@,
            decreases self.users.len() - i,
        {
            if same_text(self.users[i].username.as_str(), username) {
                assert(self@[i as int].username == username@);
                return true;
            }
            i += 1;
        }
        false
    }

    /// The names of the accounts, in the order of registration.
    pub fn list_users(&self) -> (names: Vec<String>)
        ensures
            names@.len() == self@.len(),
            forall|i: int| 0 <= i < names@.len() ==> (#[trigger] names@[i])@ == self@[i].username,
    {
        let mut names: Vec<String> = Vec::new();
        let mut i: usize = 0;
        while i < self.users.len()
            invariant
                i <= self.users.len(),
                names@.len() == i,
                forall|k: int| 0 <= k < i ==> (#[trigger] names@[k])@ == self@[k].username,
            decreases self.users.len() - i,
        {
            names.push(self.users[i].username.clone());
            i += 1;
        }
        names
    }

    /// Registers an account under a hash that was made elsewhere. A name
    /// that is taken is refused and the registry stays as it is; else the
    /// account is added at the end.
    pub fn register_hashed(&mut self, username: &str, pin_phc: String, created_at: String) -> (r:
        Result<(), AuthError>)
        ensures
            match r {
                Ok(()) => !has_user(old(self)@, username@) && final(self)@ == old(self)@.push(
                    UserRecordView {
                        username: username@,
                        pin_phc: pin_phc@,
                        created_at: created_at@,
                    },
                ),
                Err(e) => e is AlreadyExists && has_user(old(self)@, username@) && final(self)@
                    == old(self)@,
            },
    {
        if self.is_registered(username) {
            return Err(AuthError::AlreadyExists);
        }
        self.users.push(UserRecord { username: username.to_owned(), pin_phc, created_at });
        assert(final(self)@ =~= old(self)@.push(
            UserRecordView { username: username@, pin_phc: pin_phc@, created_at: created_at@ },
        ));
        Ok(())
    }

    /// Registers an account under a secret. A name that is taken is refused
    /// with `AlreadyExists`; a secret that cannot be hashed with
    /// `InvalidPin`; in both cases the registry stays as it is. Else the
    /// account is added at the end, with the present moment and a salted
    /// hash that accepts the secret, so that the account can log in with it.
    /// A free name with a secret of at most `MAX_PIN_BYTES` bytes is always
    /// registered.
    pub fn register_user(&mut self, username: &str, pin: &str) -> (r: Result<(), AuthError>)
        ensures
            has_user(old(self)@, username@) ==> r matches Err(AuthError::AlreadyExists),
            !has_user(old(self)@, username@) && encode_utf8(pin@).len() <= MAX_PIN_BYTES ==> r
                is Ok,
            match r {
                Ok(()) => !has_user(old(self)@, username@) && final(self)@.len() == old(self)@.len()
                    + 1 && final(self)@.drop_last() == old(self)@ && final(self)@.last().username
                    == username@ && phc_accepts(final(self)@.last().pin_phc, pin@)
                    && login_outcome(final(self)@, username@, pin@) is Ok,
                Err(e) => final(self)@ == old(self)@ && (e is AlreadyExists || e is InvalidPin)
                    && (e is AlreadyExists <==> has_user(old(self)@, username@)),
            },
    {
        if self.is_registered(username) {
            return Err(AuthError::AlreadyExists);
        }
        let pin_phc = match hash_pin(pin) {
            Some(phc) => phc,
            None => {
                return Err(AuthError::InvalidPin);
            },
        };
        let created_at = now_rfc3339();
        let ghost added = UserRecordView {
            username: username@,
            pin_phc: pin_phc@,
            created_at: created_at@,
        };
        let r = self.register_hashed(username, pin_phc, created_at);
        proof {
            assert(final(self)@.drop_last() =~= old(self)@);
            lemma_first_named_after_push(old(self)@, added, 0);
        }
        r
    }

    /// The hash under which the first account of that name is registered.
    pub fn hash_of(&self, username: &str) -> (r: Option<String>)
        ensures
            crate::text::opt_text(r) == match first_named(self@, username@, 0) {
                Some(record) => Some(record.pin_phc),
                None => None,
            },
    {
        let mut i: usize = 0;
        while i < self.users.len()
            invariant
                i <= self.users.len(),
                first_named(self@, username@, 0) == first_named(self@, username@, i as int),
            decreases self.users.len() - i,
        {
            let record = &self.users[i];
            assert(self@[i as int] == record@);
            if same_text(record.username.as_str(), username) {
                return Some(record.pin_phc.clone());
            }
            i += 1;
        }
        None
    }

    /// What a login attempt comes to, given whether the account's hash
    /// accepted the secret; nothing stands for an account that is not
    /// registered.
    pub fn login_verdict(accepted: Option<bool>) -> (r: Result<(), AuthError>)
        ensures
            r == match accepted {
                None => Err::<(), AuthError>(AuthError::NotFound),
                Some(true) => Ok::<(), AuthError>(()),
                Some(false) => Err::<(), AuthError>(AuthError::InvalidPin),
            },
    {
        match accepted {
            None => Err(AuthError::NotFound),
            Some(true) => Ok(()),
            Some(false) => Err(AuthError::InvalidPin),
        }
    }

    /// Checks a secret against the first account of that name.
    pub fn verify_login(&self, username: &str, pin: &str) -> (r: Result<(), AuthError>)
        ensures
            r == login_outcome(self@, username@, pin@),
    {
        let accepted = match self.hash_of(username) {
            Some(phc) => Some(pin_matches(phc.as_str(), pin)),
            None => None,
        };
        LocalAuth::login_verdict(accepted)
    }

    /// Deletes the accounts of that name. Where there is none the registry
    /// stays as it is and `NotFound` comes back.
    pub fn delete_user(&mut self, username: &str) -> (r: Result<(), AuthError>)
        ensures
            match r {
                Ok(()) => has_user(old(self)@, username@) && final(self)@ == without(
                    old(self)@,
                    username@,
                ),
                Err(e) => e is NotFound && !has_user(old(self)@, username@) && final(self)@
                    == old(self)@,
            },
    {
        let mut kept: Vec<UserRecord> = Vec::new();
        let mut found = false;
        let mut i: usize = 0;
        while i < self.users.len()
            invariant
                i <= self.users.len(),
                self@ == old(self)@,
                Seq::new(kept@.len(), |k: int| kept@[k]@) == without(
                    self@.take(i as int),
                    username@,
                ),
                found == has_user(self@.take(i as int), username@),
            decreases self.users.len() - i,
        {
            let record = &self.users[i];
            let ghost before = self@.take(i as int);
            let ghost after = self@.take(i + 1);
            assert(after.drop_last() =~= before);
            assert(after.last() == record@);
            if same_text(record.username.as_str(), username) {
                found = true;
                assert(after[i as int].username == username@);
            } else {
                kept.push(record.duplicate());
                assert(Seq::new(kept@.len(), |k: int| kept@[k]@) =~= without(before, username@).push(
                    record@,
                ));
                proof {
                    if has_user(after, username@) {
                        let w = choose|w: int|
                            0 <= w < after.len() && (#[trigger] after[w]).username == username@;
                        assert(before[w].username == username@);
                    }
                }
            }
            proof {
                if has_user(before, username@) {
                    let w = choose|w: int|
                        0 <= w < before.len() && (#[trigger] before[w]).username == username@;
                    assert(after[w].username == username@);
                }
            }
            i += 1;
        }
        assert(self@.take(self@.len() as int) =~= self@);
        if !found {
            return Err(AuthError::NotFound);
        }
        self.users = kept;
        assert(final(self)@ =~= without(old(self)@, username@));
        Ok(())
    }
}

/// An account that is added under a name that no account from `from` on
/// goes by is the first of that name from there.
proof fn lemma_first_named_after_push(users: Seq<UserRecordView>, added: UserRecordView, from: int)
    requires
        0 <= from <= users.len(),
        forall|i: int| from <= i < users.len() ==> (#[trigger] users[i]).username != added.username,
    ensures
        first_named(users.push(added), added.username, from) == Some(added),
    decreases users.len() - from,
{
    let after = users.push(added);
    if from < users.len() {
        assert(after[from] == users[from]);
        lemma_first_named_after_push(users, added, from + 1);
    } else {
        assert(after[from] == added);
    }
}

/// After the accounts of a name are deleted, none of that name is left,
/// and an account of any other name is there exactly if it was before.
pub proof fn lemma_without(users: Seq<UserRecordView>, name: Seq<char>, other: Seq<char>)
    ensures
        !has_user(without(users, name), name),
        other != name ==> has_user(without(users, name), other) == has_user(users, other),
        without(users, name).len() <= users.len(),
    decreases users.len(),
{
    if users.len() > 0 {
        let head = users.drop_last();
        let last = users.last();
        lemma_without(head, name, other);
        let w = without(users, name);
        let wh = without(head, name);
        if has_user(w, name) {
            let i = choose|i: int| 0 <= i < w.len() && (#[trigger] w[i]).username == name;
            if last.username != name && i == wh.len() {
            } else {
                assert(wh[i].username == name);
            }
        }
        if other != name {
            if has_user(w, other) {
                let i = choose|i: int| 0 <= i < w.len() && (#[trigger] w[i]).username == other;
                if last.username != name && i == wh.len() {
                    assert(users[users.len() - 1].username == other);
                } else {
                    assert(wh[i].username == other);
                    let j = choose|j: int|
                        0 <= j < head.len() && (#[trigger] head[j]).username == other;
                    assert(users[j].username == other);
                }
            }
            if has_user(users, other) {
                let j = choose|j: int|
                    0 <= j < users.len() && (#[trigger] users[j]).username == other;
                if j == users.len() - 1 {
                    assert(w[w.len() - 1].username == other);
                } else {
                    assert(head[j].username == other);
                    let i = choose|i: int|
                        0 <= i < wh.len() && (#[trigger] wh[i]).username == other;
                    assert(w[i].username == other);
                }
            }
        }
    }
}

/// The account that a document is, if it is one: an object with the texts
/// `username`, `pin_phc` and `created_at`.
pub open spec fn decoded_user(j: Json) -> Option<UserRecordView> {
    match j {
        Json::Object(ms) => match (
            text_member(ms@, "username"@),
            text_member(ms@, "pin_phc"@),
            text_member(ms@, "created_at"@),
        ) {
            (Some(username), Some(pin_phc), Some(created_at)) => Some(
                UserRecordView { username, pin_phc, created_at },
            ),
            _ => None,
        },
        _ => None,
    }
}

/// The registry that a document is, if it is one: an object with the list
/// `users` of accounts.
pub open spec fn decoded_registry(j: Json) -> Option<Seq<UserRecordView>> {
    match j {
        Json::Object(ms) => match list_member(ms@, "users"@) {
            Some(items) => decoded_users(items),
            None => None,
        },
        _ => None,
    }
}

/// The accounts that a list of documents is, if each is one.
pub open spec fn decoded_users(items: Seq<Json>) -> Option<Seq<UserRecordView>> {
    if forall|i: int| 0 <= i < items.len() ==> (#[trigger] decoded_user(items[i])) is Some {
        Some(Seq::new(items.len(), |i: int| decoded_user(items[i])->Some_0))
    } else {
        None
    }
}

/// Whether a document is the one written for an account.
pub open spec fn is_user_document(j: Json, u: UserRecordView) -> bool {
    j matches Json::Object(ms) && ms@.len() == 3 && is_text_member(
        ms@[0],
        "username"@,
        u.username,
    ) && is_text_member(ms@[1], "pin_phc"@, u.pin_phc) && is_text_member(
        ms@[2],
        "created_at"@,
        u.created_at,
    )
}

/// Whether a document is the one written for a registry: an object whose
/// one member `users` lists the accounts in order.
pub open spec fn is_registry_document(j: Json, users: Seq<UserRecordView>) -> bool {
    j matches Json::Object(ms) && ms@.len() == 1 && ms@[0].key@ == "users"@ && (ms@[0].value
        matches Json::List(items) && items@.len() == users.len() && forall|i: int|
        0 <= i < items@.len() ==> is_user_document(#[trigger] items@[i], users[i]))
}

/// What the content of the registry file reads as: an empty registry when
/// there is no file, the registry of the document that the content is, and
/// a failure when the content is no registry document.
pub open spec fn registry_read(content: Option<Seq<char>>) -> Option<Seq<UserRecordView>> {
    match content {
        None => Some(Seq::empty()),
        Some(text) => match parsed_json(text) {
            Some(doc) => decoded_registry(doc),
            None => None,
        },
    }
}

/// A written registry reads back as the registry it was written for.
pub proof fn lemma_registry_round_trip(j: Json, users: Seq<UserRecordView>)
    requires
        is_registry_document(j, users),
    ensures
        decoded_registry(j) == Some(users),
{
    reveal_strlit("username");
    reveal_strlit("pin_phc");
    reveal_strlit("created_at");
    assert("username"@.len() == 8 && "pin_phc"@.len() == 7 && "created_at"@.len() == 10);
    reveal_with_fuel(member_from, 4);
    let ms = j->Object_0;
    let items = ms@[0].value->List_0;
    assert forall|i: int| 0 <= i < items@.len() implies (#[trigger] decoded_user(items@[i]))
        == Some(users[i]) by {
        assert(is_user_document(items@[i], users[i]));
    }
    assert(decoded_users(items@)->Some_0 =~= users);
}

/// The account that a document is, if it is one.
pub fn decode_user(j: &Json) -> (r: Option<UserRecord>)
    ensures
        match r {
            Some(u) => decoded_user(*j) == Some(u@),
            None => decoded_user(*j) is None,
        },
{
    match j {
        Json::Object(ms) => {
            let username = get_text(ms, "username");
            let pin_phc = get_text(ms, "pin_phc");
            let created_at = get_text(ms, "created_at");
            match (username, pin_phc, created_at) {
                (Some(username), Some(pin_phc), Some(created_at)) => Some(
                    UserRecord { username, pin_phc, created_at },
                ),
                _ => None,
            }
        },
        _ => None,
    }
}

/// The accounts that a list of documents is, if each is one.
fn decode_users(items: &Vec<Json>) -> (r: Option<LocalAuth>)
    ensures
        match r {
            Some(auth) => decoded_users(items@) == Some(auth@),
            None => decoded_users(items@) is None,
        },
{
    let mut users: Vec<UserRecord> = Vec::new();
    let mut i: usize = 0;
    while i < items.len()
        invariant
            i <= items.len(),
            users@.len() == i,
            forall|k: int| 0 <= k < i ==> (#[trigger] decoded_user(items@[k])) == Some(users@[k]@),
        decreases items.len() - i,
    {
        match decode_user(&items[i]) {
            Some(u) => {
                users.push(u);
            },
            None => {
                return None;
            },
        }
        i += 1;
    }
    let auth = LocalAuth { users };
    assert(decoded_users(items@)->Some_0 =~= auth@);
    Some(auth)
}

/// The registry that a document is, if it is one.
pub fn decode_registry(j: &Json) -> (r: Option<LocalAuth>)
    ensures
        match r {
            Some(auth) => decoded_registry(*j) == Some(auth@),
            None => decoded_registry(*j) is None,
        },
{
    match j {
        Json::Object(ms) => match get_list(ms, "users") {
            Some(items) => decode_users(items),
            None => None,
        },
        _ => None,
    }
}

/// The document written for a registry.
pub fn encode_registry(auth: &LocalAuth) -> (j: Json)
    ensures
        is_registry_document(j, auth@),
        writable(j),
{
    proof {
        reveal_with_fuel(writable, 3);
    }
    let mut items: Vec<Json> = Vec::new();
    let mut i: usize = 0;
    while i < auth.users.len()
        invariant
            i <= auth.users.len(),
            items@.len() == i,
            forall|k: int| 0 <= k < i ==> is_user_document(#[trigger] items@[k], auth.users@[k]@),
            forall|k: int| 0 <= k < i ==> writable(#[trigger] items@[k]),
        decreases auth.users.len() - i,
    {
        let u = &auth.users[i];
        let mut ms: Vec<Member> = Vec::new();
        ms.push(text_entry("username", u.username.as_str()));
        ms.push(text_entry("pin_phc", u.pin_phc.as_str()));
        ms.push(text_entry("created_at", u.created_at.as_str()));
        let entry = Json::Object(ms);
        assert(writable(entry)) by {
            reveal_with_fuel(writable, 3);
        }
        items.push(entry);
        i += 1;
    }
    let mut ms: Vec<Member> = Vec::new();
    ms.push(Member { key: "users".to_owned(), value: Json::List(items) });
    Json::Object(ms)
}

impl LocalAuth {
    /// Reads the registry from the content of its file, `None` standing for
    /// a file that does not exist: that is an empty registry. Content that
    /// is no registry document is refused.
    pub fn load(content: Option<&str>) -> (r: Result<LocalAuth, AuthError>)
        ensures
            match r {
                Ok(auth) => registry_read(
                    match content {
                        Some(text) => Some(text@),
                        None => None,
                    },
                ) == Some(auth@),
                Err(e) => e is Serde && registry_read(
                    match content {
                        Some(text) => Some(text@),
                        None => None,
                    },
                ) is None,
            },
    {
        match content {
            None => Ok(LocalAuth::new()),
            Some(text) => match parse_json(text) {
                Some(doc) => match decode_registry(&doc) {
                    Some(auth) => Ok(auth),
                    None => Err(AuthError::Serde("not a registry of accounts".to_owned())),
                },
                None => Err(AuthError::Serde("not a JSON document".to_owned())),
            },
        }
    }

    /// The content of the file that keeps the registry: the text of the
    /// document written for it.
    pub fn save(&self) -> (text: String)
        ensures
            exists|doc: Json|
                is_registry_document(doc, self@) && text@ == #[trigger] rendered_json(doc),
    {
        let doc = encode_registry(self);
        render_json(&doc)
    }
}

} // verus!

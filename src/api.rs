use vstd::prelude::*;
use vstd::utf8::encode_utf8;

use crate::store::{doc_key, user_key, StoreError, DB};
use crate::validate::{field_ok, is_valid_field, is_valid_key_field, key_field_ok};

verus! {

/// The errors that the service reports to its clients.
#[derive(Clone, Copy, Debug, PartialEq, Eq, Structural)]
pub enum ApiError {
    Internal,
    Unauthorized,
    UserExists,
    InvalidRequest,
    DocumentFieldMissing,
}

/// The numeric code of each error.
pub open spec fn error_code(e: ApiError) -> u16 {
    match e {
        ApiError::Internal => 2000,
        ApiError::Unauthorized => 2001,
        ApiError::UserExists => 2002,
        ApiError::InvalidRequest => 2003,
        ApiError::DocumentFieldMissing => 2004,
    }
}

/// The HTTP status of each error.
pub open spec fn error_status(e: ApiError) -> u16 {
    match e {
        ApiError::Internal => 500,
        ApiError::Unauthorized => 401,
        ApiError::UserExists => 402,
        ApiError::InvalidRequest => 403,
        ApiError::DocumentFieldMissing => 403,
    }
}

/// The message carried in the body of each error.
pub open spec fn error_message(e: ApiError) -> Seq<char> {
    match e {
        ApiError::Internal => "Unknown server error."@,
        ApiError::Unauthorized => "Unauthorized"@,
        ApiError::UserExists => "Username is already registered."@,
        ApiError::InvalidRequest => "Invalid request"@,
        ApiError::DocumentFieldMissing => "Field 'document' not provided."@,
    }
}

impl ApiError {
    /// The numeric code carried in the error body.
    pub fn code(&self) -> (r: u16)
        ensures
            r == error_code(*self),
    {
        match self {
            ApiError::Internal => 2000,
            ApiError::Unauthorized => 2001,
            ApiError::UserExists => 2002,
            ApiError::InvalidRequest => 2003,
            ApiError::DocumentFieldMissing => 2004,
        }
    }

    /// The HTTP status that the error is answered with.
    pub fn status(&self) -> (r: u16)
        ensures
            r == error_status(*self),
    {
        match self {
            ApiError::Internal => 500,
            ApiError::Unauthorized => 401,
            ApiError::UserExists => 402,
            ApiError::InvalidRequest => 403,
            ApiError::DocumentFieldMissing => 403,
        }
    }

    /// The human-readable message carried in the error body.
    pub fn message(&self) -> (r: &'static str)
        ensures
            r@ == error_message(*self),
    {
        match self {
            ApiError::Internal => "Unknown server error.",
            ApiError::Unauthorized => "Unauthorized",
            ApiError::UserExists => "Username is already registered.",
            ApiError::InvalidRequest => "Invalid request",
            ApiError::DocumentFieldMissing => "Field 'document' not provided.",
        }
    }
}

/// The identity that the authentication gate established for a request.
#[derive(Clone, Debug)]
pub struct Authed(pub String);

/// A registration request.
#[derive(Clone, Debug)]
pub struct CreateUser {
    pub username: String,
    pub password: String,
}

/// The answer to a successful push.
#[derive(Clone, Debug)]
pub struct Pushed {
    pub document: String,
    pub timestamp: u64,
}

/// The answer to a pull: the stored record, or only the document's name where
/// nothing was ever pushed for it.
#[derive(Clone, Debug)]
pub enum Pulled {
    Found(Vec<u8>),
    Missing(String),
}

/// The mathematical content of a [`Pulled`].
pub enum PulledView {
    Found(Seq<u8>),
    Missing(Seq<char>),
}

impl View for Pulled {
    type V = PulledView;

    open spec fn view(&self) -> PulledView {
        match self {
            Pulled::Found(s) => PulledView::Found(s@),
            Pulled::Missing(d) => PulledView::Missing(d@),
        }
    }
}

/// The characters of an optional text.
pub open spec fn opt_chars(o: Option<&str>) -> Option<Seq<char>> {
    match o {
        Some(s) => Some(s@),
        None => None,
    }
}

/// Both credentials are present and well formed. The user name goes into a
/// storage key, so it must be a key field.
pub open spec fn credentials_ok(user: Option<Seq<char>>, key: Option<Seq<char>>) -> bool {
    &&& user matches Some(u) && key_field_ok(u)
    &&& key matches Some(k) && field_ok(k)
}

/// The store holds `key` as the secret of `user`.
pub open spec fn secret_matches(m: Map<Seq<u8>, Seq<u8>>, user: Seq<char>, key: Seq<char>) -> bool {
    m.contains_key(user_key(user)) && m[user_key(user)] == encode_utf8(key)
}

/// What authentication yields on a store that answers every lookup.
pub open spec fn auth_outcome(
    m: Map<Seq<u8>, Seq<u8>>,
    user: Option<Seq<char>>,
    key: Option<Seq<char>>,
) -> Result<Seq<char>, ApiError> {
    if credentials_ok(user, key) && secret_matches(m, user.unwrap(), key.unwrap()) {
        Ok(user.unwrap())
    } else {
        Err(ApiError::Unauthorized)
    }
}

/// What registration yields on a store that answers every lookup.
pub open spec fn register_outcome(m: Map<Seq<u8>, Seq<u8>>, user: Seq<char>, secret: Seq<char>) -> Result<
    Seq<char>,
    ApiError,
> {
    if !key_field_ok(user) || !field_ok(secret) {
        Err(ApiError::InvalidRequest)
    } else if m.contains_key(user_key(user)) {
        Err(ApiError::UserExists)
    } else {
        Ok(user)
    }
}

/// The store after a successful registration.
pub open spec fn registered(m: Map<Seq<u8>, Seq<u8>>, user: Seq<char>, secret: Seq<char>) -> Map<
    Seq<u8>,
    Seq<u8>,
> {
    m.insert(user_key(user), encode_utf8(secret))
}

/// What a pull yields on a store that answers every lookup.
pub open spec fn pull_outcome(m: Map<Seq<u8>, Seq<u8>>, user: Seq<char>, doc: Seq<char>) -> Result<
    PulledView,
    ApiError,
> {
    if !key_field_ok(doc) {
        Err(ApiError::DocumentFieldMissing)
    } else if !m.contains_key(doc_key(user, doc)) {
        Ok(PulledView::Missing(doc))
    } else {
        Ok(PulledView::Found(m[doc_key(user, doc)]))
    }
}

/// The store after a push of `record` for `doc`.
pub open spec fn pushed(m: Map<Seq<u8>, Seq<u8>>, user: Seq<char>, doc: Seq<char>, record: Seq<u8>) -> Map<
    Seq<u8>,
    Seq<u8>,
> {
    if key_field_ok(doc) {
        m.insert(doc_key(user, doc), record)
    } else {
        m
    }
}

/// Byte-wise equality of two slices.
fn bytes_equal(a: &[u8], b: &[u8]) -> (r: bool)
    ensures
        r == (a@ == b@),
{
    if a.len() != b.len() {
        return false;
    }
    let mut i: usize = 0;
    while i < a.len()
        invariant
            i <= a@.len(),
            a@.len() == b@.len(),
            a@.take(i as int) == b@.take(i as int),
        decreases a@.len() - i,
    {
        if a[i] != b[i] {
            return false;
        }
        assert(a@.take(i as int + 1) =~= b@.take(i as int + 1));
        i = i + 1;
    }
    assert(a@ =~= a@.take(i as int));
    assert(b@ =~= b@.take(i as int));
    true
}

/// The authentication gate: checks the two credentials of a request against
/// the store. A missing or malformed credential (a user name holding the key
/// delimiter among them), an unknown user and a wrong
/// secret all give the same `Unauthorized`; a failed lookup gives `Internal`.
pub fn auth(db: &DB, user: Option<&str>, key: Option<&str>) -> (r: Result<Authed, ApiError>)
    ensures
        r matches Ok(a) ==> auth_outcome(db.entries(), opt_chars(user), opt_chars(key)) == Ok::<
            Seq<char>,
            ApiError,
        >(a.0@),
        r == Err::<Authed, ApiError>(ApiError::Unauthorized) ==> auth_outcome(
            db.entries(),
            opt_chars(user),
            opt_chars(key),
        ) == Err::<Seq<char>, ApiError>(ApiError::Unauthorized),
        r == Err::<Authed, ApiError>(ApiError::Internal) ==> credentials_ok(
            opt_chars(user),
            opt_chars(key),
        ),
        r matches Err(e) ==> e == ApiError::Unauthorized || e == ApiError::Internal,
        !credentials_ok(opt_chars(user), opt_chars(key)) ==> r == Err::<Authed, ApiError>(
            ApiError::Unauthorized,
        ),
{
    let (u, k) = match (user, key) {
        (Some(u), Some(k)) => (u, k),
        _ => return Err(ApiError::Unauthorized),
    };
    if !is_valid_key_field(u) || !is_valid_field(k) {
        return Err(ApiError::Unauthorized);
    }
    let found = db.get_user(u);
    auth_decide(u, k, found)
}

/// The authentication decision for each answer of the lookup of `user`'s
/// stored secret: a failed lookup gives `Internal`, an unknown user or a
/// secret other than `key` gives `Unauthorized`, a matching one the identity.
pub fn auth_decide(user: &str, key: &str, found: Result<Option<Vec<u8>>, StoreError>) -> (r: Result<
    Authed,
    ApiError,
>)
    ensures
        found is Err ==> r == Err::<Authed, ApiError>(ApiError::Internal),
        found matches Ok(None) ==> r == Err::<Authed, ApiError>(ApiError::Unauthorized),
        found matches Ok(Some(s)) ==> if s@ == encode_utf8(key@) {
            (r matches Ok(a) && a.0@ == user@)
        } else {
            r == Err::<Authed, ApiError>(ApiError::Unauthorized)
        },
{
    match found {
        Ok(Some(stored)) => {
            if bytes_equal(stored.as_slice(), key.as_bytes()) {
                Ok(Authed(user.to_owned()))
            } else {
                Err(ApiError::Unauthorized)
            }
        },
        Ok(None) => Err(ApiError::Unauthorized),
        Err(_) => Err(ApiError::Internal),
    }
}

/// Acknowledges a request that passed the authentication gate.
pub fn auth_user(authed: &Authed) -> (r: u16)
    ensures
        r == 200,
{
    200
}

/// Registers a new user. Fields are checked before the store is touched; an
/// existing user is never overwritten, whatever secret is offered.
pub fn create_user(db: &mut DB, data: &CreateUser) -> (r: Result<String, ApiError>)
    ensures
        ({
            let m = old(db).entries();
            let u = data.username@;
            let p = data.password@;
            &&& r matches Ok(name) ==> name@ == u && register_outcome(m, u, p) == Ok::<
                Seq<char>,
                ApiError,
            >(u) && final(db).entries() == registered(m, u, p)
            &&& r is Err && r->Err_0 != ApiError::Internal ==> register_outcome(m, u, p) == Err::<
                Seq<char>,
                ApiError,
            >(r->Err_0) && final(db).entries() == m
            &&& r == Err::<String, ApiError>(ApiError::Internal) ==> key_field_ok(u) && field_ok(p)
            &&& m.contains_key(user_key(u)) ==> final(db).entries() == m
            &&& register_outcome(m, u, p) == Err::<Seq<char>, ApiError>(ApiError::InvalidRequest)
                ==> r == Err::<String, ApiError>(ApiError::InvalidRequest)
            &&& register_outcome(m, u, p) == Err::<Seq<char>, ApiError>(ApiError::UserExists) ==> (
            r == Err::<String, ApiError>(ApiError::UserExists) || r == Err::<String, ApiError>(
                ApiError::Internal,
            ))
        }),
{
    if !is_valid_key_field(data.username.as_str()) || !is_valid_field(data.password.as_str()) {
        return Err(ApiError::InvalidRequest);
    }
    let found = db.get_user(data.username.as_str());
    match registration_lookup(&found) {
        Some(e) => return Err(e),
        None => {},
    }
    let put = db.put_user(data.username.as_str(), data.password.as_str());
    registration_answer(data.username.as_str(), &put)
}

/// What the lookup of a name to be registered decides: an existing user
/// stops registration with `UserExists`, a failed lookup with `Internal`, and
/// an unknown name lets it go on (`None`).
pub fn registration_lookup(found: &Result<Option<Vec<u8>>, StoreError>) -> (r: Option<ApiError>)
    ensures
        found matches Ok(Some(_)) ==> r == Some(ApiError::UserExists),
        found matches Ok(None) ==> r is None,
        found is Err ==> r == Some(ApiError::Internal),
{
    match found {
        Ok(Some(_)) => Some(ApiError::UserExists),
        Ok(None) => None,
        Err(_) => Some(ApiError::Internal),
    }
}

/// What the write of a new user's secret answers: the registered name once
/// the write succeeded, `Internal` where it failed.
pub fn registration_answer(name: &str, put: &Result<Option<Vec<u8>>, StoreError>) -> (r: Result<
    String,
    ApiError,
>)
    ensures
        put is Ok ==> (r matches Ok(n) && n@ == name@),
        put is Err ==> r == Err::<String, ApiError>(ApiError::Internal),
{
    match put {
        Ok(_) => Ok(name.to_owned()),
        Err(_) => Err(ApiError::Internal),
    }
}

/// Pulls the progress of the authenticated user in `doc`. A document that was
/// never pushed gives only its name, and no error.
pub fn get_progress(db: &DB, doc: &str, authed: &Authed) -> (r: Result<Pulled, ApiError>)
    ensures
        ({
            let o = pull_outcome(db.entries(), authed.0@, doc@);
            &&& r matches Ok(p) ==> o == Ok::<PulledView, ApiError>(p@)
            &&& r is Err && r->Err_0 != ApiError::Internal ==> o == Err::<PulledView, ApiError>(r->Err_0)
            &&& r == Err::<Pulled, ApiError>(ApiError::Internal) ==> key_field_ok(doc@)
            &&& !key_field_ok(doc@) ==> r == Err::<Pulled, ApiError>(
                ApiError::DocumentFieldMissing,
            )
        }),
{
    if !is_valid_key_field(doc) {
        return Err(ApiError::DocumentFieldMissing);
    }
    let found = db.get_doc(authed.0.as_str(), doc);
    pull_answer(doc, found)
}

/// What a pull answers for each answer of the store: the stored record, the
/// document's name alone where nothing is stored, `Internal` where the read
/// failed.
pub fn pull_answer(doc: &str, found: Result<Option<Vec<u8>>, StoreError>) -> (r: Result<
    Pulled,
    ApiError,
>)
    ensures
        found matches Ok(Some(b)) ==> (r matches Ok(p) && p@ == PulledView::Found(b@)),
        found matches Ok(None) ==> (r matches Ok(p) && p@ == PulledView::Missing(doc@)),
        found is Err ==> r == Err::<Pulled, ApiError>(ApiError::Internal),
{
    match found {
        Ok(Some(b)) => Ok(Pulled::Found(b)),
        Ok(None) => Ok(Pulled::Missing(doc.to_owned())),
        Err(_) => Err(ApiError::Internal),
    }
}

/// Stores `record`, the stored form of a state stamped with `timestamp`, as
/// the authenticated user's progress in `document`, replacing the earlier
/// record whole. A document that is not a key field is refused before the
/// store is touched.
pub fn update_progress(
    db: &mut DB,
    authed: &Authed,
    document: &str,
    timestamp: u64,
    record: &[u8],
) -> (r: Result<Pushed, ApiError>)
    ensures
        ({
            let m = old(db).entries();
            &&& r matches Ok(p) ==> p.document@ == document@ && p.timestamp == timestamp
                && final(db).entries() == pushed(m, authed.0@, document@, record@)
            &&& !key_field_ok(document@) ==> r == Err::<Pushed, ApiError>(
                ApiError::DocumentFieldMissing,
            ) && final(db).entries() == m
            &&& key_field_ok(document@) && r is Err ==> r == Err::<Pushed, ApiError>(
                ApiError::Internal,
            )
        }),
{
    if !is_valid_key_field(document) {
        return Err(ApiError::DocumentFieldMissing);
    }
    let put = db.put_doc(authed.0.as_str(), document, record);
    push_answer(document, timestamp, &put)
}

/// What a push answers for each answer of the store's write: the document
/// and its stamp once the write succeeded, `Internal` where it failed.
pub fn push_answer(document: &str, timestamp: u64, put: &Result<Option<Vec<u8>>, StoreError>) -> (r: Result<
    Pushed,
    ApiError,
>)
    ensures
        put is Ok ==> (r matches Ok(p) && p.document@ == document@ && p.timestamp == timestamp),
        put is Err ==> r == Err::<Pushed, ApiError>(ApiError::Internal),
{
    match put {
        Ok(_) => Ok(Pushed { document: document.to_owned(), timestamp }),
        Err(_) => Err(ApiError::Internal),
    }
}

/// Acknowledges a liveness probe from an authenticated client.
pub fn healthcheck(authed: &Authed) -> (r: u16)
    ensures
        r == 200,
{
    200
}

/// The crawler policy served to robots: nothing may be indexed.
pub fn robots() -> (r: &'static str)
    ensures
        r@ == "User-agent: *\nDisallow: /\n"@,
{
    "User-agent: *\nDisallow: /\n"
}

} // verus!

use vstd::prelude::*;

use crate::api::{
    auth_outcome, credentials_ok, pull_outcome, pushed, register_outcome, registered,
    secret_matches, ApiError, PulledView,
};
use crate::keyspace::law_keys_are_distinct;
use crate::store::doc_key;
use crate::validate::{field_ok, key_field_ok, KEY_DELIMITER};

verus! {

/// A valid registration of a new user succeeds, and every later registration
/// of the same user with a valid secret, whichever, fails with `UserExists`.
pub proof fn law_registration_is_once(
    m: Map<Seq<u8>, Seq<u8>>,
    user: Seq<char>,
    first: Seq<char>,
    again: Seq<char>,
)
    requires
        key_field_ok(user),
        field_ok(first),
        field_ok(again),
        register_outcome(m, user, first) is Ok,
    ensures
        register_outcome(m, user, first) == Ok::<Seq<char>, ApiError>(user),
        register_outcome(registered(m, user, first), user, again) == Err::<Seq<char>, ApiError>(
            ApiError::UserExists,
        ),
{
}

/// Authentication fails only with `Unauthorized`, and does so exactly when a
/// credential is missing or malformed or the secret is not the stored one:
/// an unknown user and a wrong secret cannot be told apart.
pub proof fn law_auth_failure_is_uniform(
    m: Map<Seq<u8>, Seq<u8>>,
    user: Option<Seq<char>>,
    key: Option<Seq<char>>,
)
    ensures
        auth_outcome(m, user, key) is Err ==> auth_outcome(m, user, key) == Err::<
            Seq<char>,
            ApiError,
        >(ApiError::Unauthorized),
        auth_outcome(m, user, key) is Err <==> !credentials_ok(user, key) || !secret_matches(
            m,
            user.unwrap(),
            key.unwrap(),
        ),
{
}

/// A document name holding the key delimiter is refused by pull with
/// `DocumentFieldMissing`, and a push to such a document leaves the store as it was.
pub proof fn law_delimited_document_refused(
    m: Map<Seq<u8>, Seq<u8>>,
    user: Seq<char>,
    doc: Seq<char>,
    record: Seq<u8>,
)
    requires
        doc.contains(KEY_DELIMITER),
    ensures
        pull_outcome(m, user, doc) == Err::<PulledView, ApiError>(ApiError::DocumentFieldMissing),
        pushed(m, user, doc, record) == m,
{
}

/// Pulling right after a push gives back the pushed record whole.
pub proof fn law_push_then_pull(
    m: Map<Seq<u8>, Seq<u8>>,
    user: Seq<char>,
    doc: Seq<char>,
    record: Seq<u8>,
)
    requires
        key_field_ok(doc),
    ensures
        pull_outcome(pushed(m, user, doc, record), user, doc) == Ok::<PulledView, ApiError>(
            PulledView::Found(record),
        ),
{
}

/// Pulling a document that holds no record gives its name alone, without error.
pub proof fn law_pull_never_pushed(m: Map<Seq<u8>, Seq<u8>>, user: Seq<char>, doc: Seq<char>)
    requires
        key_field_ok(doc),
        !m.contains_key(doc_key(user, doc)),
    ensures
        pull_outcome(m, user, doc) == Ok::<PulledView, ApiError>(PulledView::Missing(doc)),
{
}

/// Of two pushes to the same document, only the second can be pulled, whole:
/// nothing of the first is merged into it.
pub proof fn law_last_push_wins(
    m: Map<Seq<u8>, Seq<u8>>,
    user: Seq<char>,
    doc: Seq<char>,
    first: Seq<u8>,
    second: Seq<u8>,
)
    requires
        key_field_ok(doc),
    ensures
        pull_outcome(pushed(pushed(m, user, doc, first), user, doc, second), user, doc) == Ok::<
            PulledView,
            ApiError,
        >(PulledView::Found(second)),
{
}

/// A push by one user to one document changes what no other user, and no
/// other document, pulls.
pub proof fn law_push_touches_one_record(
    m: Map<Seq<u8>, Seq<u8>>,
    user: Seq<char>,
    doc: Seq<char>,
    record: Seq<u8>,
    other_user: Seq<char>,
    other_doc: Seq<char>,
)
    requires
        key_field_ok(user),
        key_field_ok(other_user),
        user != other_user || doc != other_doc,
    ensures
        pull_outcome(pushed(m, user, doc, record), other_user, other_doc) == pull_outcome(
            m,
            other_user,
            other_doc,
        ),
{
    law_keys_are_distinct(user, doc, other_user, other_doc);
    if key_field_ok(doc) {
        assert(pushed(m, user, doc, record) == m.insert(doc_key(user, doc), record));
    }
}

} // verus!

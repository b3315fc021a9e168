//! The general properties of the engine, stated and proved over the same
//! spec-level model that the operations' own contracts use. Each law here
//! speaks about the effect of one or more operations on the stored
//! sequences of records; the operations' `ensures` clauses tie the running
//! code to exactly these models.

use vstd::prelude::*;

use crate::auth::{jwt_decoded, spec_verify};
use crate::store::{
    any_link_id, find_from, find_link_by_id, find_live_link, find_live_user,
    lemma_find_from_all_fail, lemma_find_from_congruent, lemma_find_from_push_none,
    lemma_find_from_push_some, lemma_find_from_some, lemma_find_from_witness, live_coded,
    live_named, Url, User,
};
use crate::urls::{normalized_url, short_code_of};

verus! {

/// Resolving right after shortening returns the stored target. `shorten_url`
/// appends a live record `l` whose `url` is the parser's normalization of
/// the input and whose `short_url` is its content-derived code; resolution
/// returns the first live link holding the code. So as long as every live
/// link already holding that code targets the same URL — codes are
/// content-addressed, so two different targets can collide — the code of
/// the fresh link resolves to the URL that was shortened.
pub proof fn lemma_shorten_then_resolve(links: Seq<Url>, l: Url)
    requires
        !l.deleted,
        forall|i: int|
            0 <= i < links.len() && !(#[trigger] links[i]).deleted && links[i].short_url@
                == l.short_url@ ==> links[i].url@ == l.url@,
    ensures
        find_live_link(links.push(l), l.short_url@) is Some,
        links.push(l)[find_live_link(links.push(l), l.short_url@)->0].url@ == l.url@,
{
    let pred = live_coded(l.short_url@);
    match find_from(links, pred, 0) {
        Some(k) => {
            lemma_find_from_some(links, pred, 0);
            lemma_find_from_push_some(links, pred, l, 0);
            assert(links.push(l)[k] == links[k]);
        },
        None => {
            lemma_find_from_push_none(links, pred, l, 0);
            assert(pred(l));
            assert(links.push(l)[links.len() as int] == l);
        },
    }
}

/// Short codes are content-addressed and deterministic: two inputs with the
/// same normalized URL receive the same code, whoever shortens them and in
/// whatever store the records land. This is a known collision property of
/// the scheme, documented rather than hidden.
pub proof fn lemma_short_code_deterministic(u1: Seq<char>, u2: Seq<char>)
    ensures
        normalized_url(u1) == normalized_url(u2) && normalized_url(u1) is Some
            ==> short_code_of(normalized_url(u1)->0) == short_code_of(normalized_url(u2)->0),
{
}

/// A username held by a non-deleted user is found by the lookup on which
/// `register` decides, so by the store's contract a second registration
/// under that username reports `StorageConflict` and leaves the store
/// unchanged. The store is the authority: no pre-check query is made. At
/// the service level a hashing fault can pre-empt the store's decision,
/// because the password is hashed with a random salt before the store is
/// asked, so the service contract leaves that one fault open beside the
/// conflict.
pub proof fn lemma_register_conflict(users: Seq<User>, k: int)
    requires
        0 <= k < users.len(),
        !users[k].deleted,
    ensures
        find_live_user(users, users[k].username@) is Some,
{
    lemma_find_from_witness(users, live_named(users[k].username@), 0, k);
}

/// A token that decodes to claims expiring at `exp` verifies successfully
/// exactly while the clock reads strictly before `exp`, and is rejected
/// once the clock passes it. `generate_jwt_token` ensures of every issued
/// token that it decodes back to the issued claims under the same secret,
/// which discharges the hypothesis here.
pub proof fn lemma_issue_then_verify(
    token: Seq<char>,
    key: Seq<u8>,
    user_id: Seq<char>,
    exp: u64,
    iat: u64,
    now: u64,
)
    ensures
        jwt_decoded(token, key) == Some((user_id, exp, iat)) && now < exp ==> spec_verify(
            token,
            key,
            now,
        ) == Some((user_id, exp, iat)),
        jwt_decoded(token, key) == Some((user_id, exp, iat)) && now >= exp ==> spec_verify(
            token,
            key,
            now,
        ) is None,
{
}

/// Setting a link's favourite flag twice leaves exactly one update in the
/// store, and setting it back to the value the link held restores the
/// store to what it was: the flag returns to its original value and
/// nothing else changes.
pub proof fn lemma_favourite_round_trip(links: Seq<Url>, id: Seq<char>, a: bool, b: bool)
    requires
        find_link_by_id(links, id) is Some,
    ensures
        ({
            let k = find_link_by_id(links, id)->0;
            let once = links.update(k, (Url { favourite: a, ..links[k] }));
            &&& find_link_by_id(once, id) == Some(k)
            &&& links[k].favourite == b ==> once.update(k, (Url { favourite: b, ..once[k] }))
                == links
        }),
{
    let k = find_link_by_id(links, id)->0;
    lemma_find_from_some(links, any_link_id(id), 0);
    let once = links.update(k, (Url { favourite: a, ..links[k] }));
    lemma_find_from_congruent(links, once, any_link_id(id), 0);
    if links[k].favourite == b {
        assert(once.update(k, (Url { favourite: b, ..once[k] })) =~= links);
    }
}

/// After a delete, the deleted link's code no longer resolves — provided no
/// other live link shares the code (codes are content-derived, so another
/// live link may hold the same one). Together with `delete`'s contract,
/// which succeeds unconditionally on the current deleted state, this also
/// documents that repeating a delete stays successful.
pub proof fn lemma_delete_then_resolve(links: Seq<Url>, id: Seq<char>)
    requires
        find_link_by_id(links, id) is Some,
        forall|i: int|
            0 <= i < links.len() && i != find_link_by_id(links, id)->0 && !(
            #[trigger] links[i]).deleted ==> links[i].short_url@ != links[find_link_by_id(
                links,
                id,
            )->0].short_url@,
    ensures
        ({
            let k = find_link_by_id(links, id)->0;
            find_live_link(
                links.update(k, (Url { deleted: true, ..links[k] })),
                links[k].short_url@,
            ) is None
        }),
{
    let k = find_link_by_id(links, id)->0;
    lemma_find_from_some(links, any_link_id(id), 0);
    let gone = links.update(k, (Url { deleted: true, ..links[k] }));
    let pred = live_coded(links[k].short_url@);
    assert forall|i: int| 0 <= i < gone.len() implies !pred(#[trigger] gone[i]) by {
        if i != k {
            assert(gone[i] == links[i]);
        }
    }
    lemma_find_from_all_fail(gone, pred, 0);
}

} // verus!

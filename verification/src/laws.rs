//! Laws that relate several store operations.
//!
//! The contracts of [`crate::images`] pin each single operation; the
//! proof functions here state what several calls amount to together:
//! batch registration is idempotent, a link is registered exactly when
//! some registration batch carried it, and a deleted alias is gone.

use vstd::prelude::*;
use crate::error::DbError;
use crate::records::{LocalImageModel, RemoteImageModel};
use crate::store::{
    contains_alias, contains_link, local_delete_outcome, remote_insert_batch, remote_insert_step,
    StoreModel,
};

verus! {

/// Membership in the remote image table survives one insert-or-ignore
/// step.
proof fn lemma_step_keeps_links(
    rows: Seq<RemoteImageModel>,
    next_id: int,
    link: Seq<char>,
    l: Seq<char>,
)
    requires
        contains_link(rows, l),
    ensures
        contains_link(remote_insert_step(rows, next_id, link).0, l),
{
    let i = choose|i: int| 0 <= i < rows.len() && rows[i].link == l;
    assert(remote_insert_step(rows, next_id, link).0[i].link == l);
}

/// After a batch, every link the batch carried is registered.
proof fn lemma_batch_registers(
    rows: Seq<RemoteImageModel>,
    next_id: int,
    links: Seq<Seq<char>>,
    j: int,
)
    requires
        0 <= j < links.len(),
    ensures
        contains_link(remote_insert_batch(rows, next_id, links).0, links[j]),
    decreases links.len(),
{
    let prev = remote_insert_batch(rows, next_id, links.drop_last());
    let after = remote_insert_step(prev.0, prev.1, links.last());
    if j == links.len() - 1 {
        if !contains_link(prev.0, links.last()) {
            assert(after.0[after.0.len() - 1].link == links[j]);
        }
    } else {
        lemma_batch_registers(rows, next_id, links.drop_last(), j);
        assert(links.drop_last()[j] == links[j]);
        lemma_step_keeps_links(prev.0, prev.1, links.last(), links[j]);
    }
}

/// A batch whose links are all registered already changes nothing: no
/// row is inserted and the identifier counter does not move.
proof fn lemma_batch_noop(rows: Seq<RemoteImageModel>, next_id: int, links: Seq<Seq<char>>)
    requires
        forall|j: int| 0 <= j < links.len() ==> contains_link(rows, #[trigger] links[j]),
    ensures
        remote_insert_batch(rows, next_id, links) == (rows, next_id),
    decreases links.len(),
{
    if links.len() > 0 {
        assert(forall|j: int|
            0 <= j < links.drop_last().len() ==> contains_link(
                rows,
                #[trigger] links.drop_last()[j],
            ));
        lemma_batch_noop(rows, next_id, links.drop_last());
        assert(contains_link(rows, links[links.len() - 1]));
    }
}

/// Registering the same link batch twice persists exactly the rows of
/// registering it once: the second call inserts no row, moves no
/// identifier, and so reports an affected-row count of zero.
pub proof fn lemma_remote_create_idempotent(
    rows: Seq<RemoteImageModel>,
    next_id: int,
    links: Seq<Seq<char>>,
)
    ensures
        ({
            let once = remote_insert_batch(rows, next_id, links);
            remote_insert_batch(once.0, once.1, links) == once
        }),
{
    let once = remote_insert_batch(rows, next_id, links);
    assert forall|j: int| 0 <= j < links.len() implies contains_link(
        once.0,
        #[trigger] links[j],
    ) by {
        lemma_batch_registers(rows, next_id, links, j);
    }
    lemma_batch_noop(once.0, once.1, links);
}

/// Membership in a pushed table is membership before or the pushed link.
proof fn lemma_contains_link_push(rows: Seq<RemoteImageModel>, row: RemoteImageModel, l: Seq<char>)
    ensures
        contains_link(rows.push(row), l) <==> (contains_link(rows, l) || row.link == l),
{
    if contains_link(rows.push(row), l) {
        let i = choose|i: int| 0 <= i < rows.push(row).len() && rows.push(row)[i].link == l;
        if i < rows.len() {
            assert(rows[i].link == l);
        }
    }
    if contains_link(rows, l) {
        let i = choose|i: int| 0 <= i < rows.len() && rows[i].link == l;
        assert(rows.push(row)[i].link == l);
    }
    if row.link == l {
        assert(rows.push(row)[rows.len() as int].link == l);
    }
}

/// A sequence contains an element exactly when all but its last element
/// contain it or the last element is it.
proof fn lemma_seq_contains_snoc(links: Seq<Seq<char>>, l: Seq<char>)
    requires
        links.len() > 0,
    ensures
        links.contains(l) <==> (links.drop_last().contains(l) || links.last() == l),
{
    if links.contains(l) {
        let i = choose|i: int| 0 <= i < links.len() && links[i] == l;
        if i < links.len() - 1 {
            assert(links.drop_last()[i] == l);
            assert(links.drop_last().contains(l));
        }
    }
    if links.drop_last().contains(l) {
        let i = choose|i: int| 0 <= i < links.drop_last().len() && links.drop_last()[i] == l;
        assert(links[i] == l);
        assert(links.contains(l));
    }
    if links.last() == l {
        assert(links[links.len() - 1] == l);
        assert(links.contains(l));
    }
}

/// A link is registered after a batch exactly when it was registered
/// before or the batch carried it. Together with the contract of
/// `RemoteImage::validate` — success exactly on registered links — this
/// says: validation succeeds iff some prior create call included the
/// link, possibly among many.
pub proof fn lemma_validate_after_create(
    rows: Seq<RemoteImageModel>,
    next_id: int,
    links: Seq<Seq<char>>,
    l: Seq<char>,
)
    ensures
        contains_link(remote_insert_batch(rows, next_id, links).0, l) <==> (contains_link(rows, l)
            || links.contains(l)),
    decreases links.len(),
{
    if links.len() == 0 {
        assert(!links.contains(l));
    } else {
        lemma_validate_after_create(rows, next_id, links.drop_last(), l);
        lemma_seq_contains_snoc(links, l);
        let prev = remote_insert_batch(rows, next_id, links.drop_last());
        if contains_link(prev.0, links.last()) {
            lemma_validate_after_create(rows, next_id, links.drop_last(), links.last());
        } else {
            lemma_contains_link_push(
                prev.0,
                RemoteImageModel { id: prev.1, link: links.last() },
                l,
            );
        }
    }
}

/// A successful delete really removes the alias: aliases are unique in a
/// well-formed store, so once the matched row is gone no row carries the
/// alias, and a second delete of it must fail with `NotFound`.
pub proof fn lemma_delete_removes_alias(
    pre: StoreModel,
    alias: Seq<char>,
    r: Result<LocalImageModel, DbError>,
    post: StoreModel,
)
    requires
        pre.wf(),
        local_delete_outcome(pre, alias, r, post),
        r is Ok,
    ensures
        !contains_alias(post.local_images, alias),
{
    let i = choose|i: int|
        0 <= i < pre.local_images.len() && pre.local_images[i].pictrs_alias == alias && r == Ok::<
            LocalImageModel,
            DbError,
        >(pre.local_images[i]) && post == (StoreModel {
            local_images: pre.local_images.remove(i),
            ..pre
        });
    pre.local_images.remove_ensures(i);
    if contains_alias(post.local_images, alias) {
        let j = choose|j: int|
            0 <= j < post.local_images.len() && post.local_images[j].pictrs_alias == alias;
        if j < i {
            assert(pre.local_images[j].pictrs_alias == alias);
        } else {
            assert(pre.local_images[j + 1].pictrs_alias == alias);
        }
        assert(false);
    }
}

} // verus!

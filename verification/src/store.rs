//! The relational store that holds all three record kinds.
//!
//! [`ImageStore`] plays the role of the relational database: three tables,
//! one generated-identifier counter per table, and a clock from which
//! creation timestamps are stamped. Its ghost model [`StoreModel`] is what
//! every operation contract speaks about, and the spec functions here —
//! membership predicates, the insert-or-ignore transitions, the delete
//! outcome predicates — are the shared vocabulary of those contracts.

use vstd::prelude::*;
use crate::error::DbError;
use crate::records::{
    ImageDetails, ImageDetailsModel, LocalImage, LocalImageModel, RemoteImage, RemoteImageModel,
};

verus! {

/// Ghost model of the whole store.
#[verifier::ext_equal]
pub struct StoreModel {
    pub local_images: Seq<LocalImageModel>,
    pub remote_images: Seq<RemoteImageModel>,
    pub image_details: Seq<ImageDetailsModel>,
    pub next_local_image_id: int,
    pub next_remote_image_id: int,
    pub next_image_details_id: int,
    pub clock: int,
}

/// Some local image row carries `alias`.
pub open spec fn contains_alias(rows: Seq<LocalImageModel>, alias: Seq<char>) -> bool {
    exists|i: int| 0 <= i < rows.len() && rows[i].pictrs_alias == alias
}

/// Some local image row carries `alias` and is owned by `user`.
pub open spec fn contains_alias_and_user(
    rows: Seq<LocalImageModel>,
    alias: Seq<char>,
    user: int,
) -> bool {
    exists|i: int|
        0 <= i < rows.len() && rows[i].pictrs_alias == alias && rows[i].local_user_id == user
}

/// Some remote image row carries `link`.
pub open spec fn contains_link(rows: Seq<RemoteImageModel>, link: Seq<char>) -> bool {
    exists|i: int| 0 <= i < rows.len() && rows[i].link == link
}

/// Some image details row carries the natural key `link`.
pub open spec fn contains_details_key(rows: Seq<ImageDetailsModel>, link: Seq<char>) -> bool {
    exists|i: int| 0 <= i < rows.len() && rows[i].link == link
}

/// One insert-or-ignore step on the remote image table: a link already
/// present leaves the table untouched, a new link is appended under the
/// next generated identifier.
pub open spec fn remote_insert_step(
    rows: Seq<RemoteImageModel>,
    next_id: int,
    link: Seq<char>,
) -> (Seq<RemoteImageModel>, int) {
    if contains_link(rows, link) {
        (rows, next_id)
    } else {
        (rows.push(RemoteImageModel { id: next_id, link }), next_id + 1)
    }
}

/// A whole batch of insert-or-ignore steps, in batch order. The second
/// component is the identifier counter after the batch, so the number of
/// rows the batch actually inserted is its difference from `next_id`.
pub open spec fn remote_insert_batch(
    rows: Seq<RemoteImageModel>,
    next_id: int,
    links: Seq<Seq<char>>,
) -> (Seq<RemoteImageModel>, int)
    decreases links.len(),
{
    if links.len() == 0 {
        (rows, next_id)
    } else {
        let prev = remote_insert_batch(rows, next_id, links.drop_last());
        remote_insert_step(prev.0, prev.1, links.last())
    }
}

/// The link text of each URL in a batch, in batch order.
pub open spec fn link_views(links: Seq<crate::records::DbUrl>) -> Seq<Seq<char>> {
    links.map_values(|u: crate::records::DbUrl| u@)
}

/// What deleting the (unique) local image row with `alias` means: when a
/// row with the alias exists, exactly that row is returned and removed and
/// nothing else changes; otherwise the operation fails with `NotFound` and
/// the store is untouched.
pub open spec fn local_delete_outcome(
    pre: StoreModel,
    alias: Seq<char>,
    r: Result<LocalImageModel, DbError>,
    post: StoreModel,
) -> bool {
    if contains_alias(pre.local_images, alias) {
        exists|i: int|
            0 <= i < pre.local_images.len() && pre.local_images[i].pictrs_alias == alias && r
                == Ok::<LocalImageModel, DbError>(pre.local_images[i]) && post == (StoreModel {
                local_images: pre.local_images.remove(i),
                ..pre
            })
    } else {
        r == Err::<LocalImageModel, DbError>(DbError::NotFound) && post == pre
    }
}

/// As [`local_delete_outcome`], but the row must also belong to `user`:
/// an alias owned by a different user is treated exactly like a missing
/// alias.
pub open spec fn local_delete_scoped_outcome(
    pre: StoreModel,
    alias: Seq<char>,
    user: int,
    r: Result<LocalImageModel, DbError>,
    post: StoreModel,
) -> bool {
    if contains_alias_and_user(pre.local_images, alias, user) {
        exists|i: int|
            0 <= i < pre.local_images.len() && pre.local_images[i].pictrs_alias == alias
                && pre.local_images[i].local_user_id == user && r == Ok::<
                LocalImageModel,
                DbError,
            >(pre.local_images[i]) && post == (StoreModel {
                local_images: pre.local_images.remove(i),
                ..pre
            })
    } else {
        r == Err::<LocalImageModel, DbError>(DbError::NotFound) && post == pre
    }
}

/// The ghost image of an executable delete result.
pub open spec fn local_result_model(r: Result<LocalImage, DbError>) -> Result<
    LocalImageModel,
    DbError,
> {
    match r {
        Ok(row) => Ok(row@),
        Err(e) => Err(e),
    }
}

impl StoreModel {
    /// Well-formedness: aliases, remote links and details keys are each
    /// unique in their table, and every generated identifier lies below
    /// its counter, which starts at one.
    pub open spec fn wf(self) -> bool {
        &&& forall|i: int, j: int|
            0 <= i < j < self.local_images.len() ==> #[trigger] self.local_images[i].pictrs_alias
                != #[trigger] self.local_images[j].pictrs_alias
        &&& forall|i: int|
            0 <= i < self.local_images.len() ==> 1 <= #[trigger] self.local_images[i].id
                < self.next_local_image_id
        &&& forall|i: int, j: int|
            0 <= i < j < self.remote_images.len() ==> #[trigger] self.remote_images[i].link
                != #[trigger] self.remote_images[j].link
        &&& forall|i: int|
            0 <= i < self.remote_images.len() ==> 1 <= #[trigger] self.remote_images[i].id
                < self.next_remote_image_id
        &&& forall|i: int, j: int|
            0 <= i < j < self.image_details.len() ==> #[trigger] self.image_details[i].link
                != #[trigger] self.image_details[j].link
        &&& forall|i: int|
            0 <= i < self.image_details.len() ==> 1 <= #[trigger] self.image_details[i].id
                < self.next_image_details_id
        &&& 1 <= self.next_local_image_id
        &&& 1 <= self.next_remote_image_id
        &&& 1 <= self.next_image_details_id
    }

    /// The model of a store with no rows at all.
    pub open spec fn empty() -> StoreModel {
        StoreModel {
            local_images: Seq::empty(),
            remote_images: Seq::empty(),
            image_details: Seq::empty(),
            next_local_image_id: 1,
            next_remote_image_id: 1,
            next_image_details_id: 1,
            clock: 0,
        }
    }
}

/// The relational store itself: the single shared mutable resource of the
/// persistence core. All cross-operation consistency lives in its
/// well-formedness invariant, which every operation preserves.
pub struct ImageStore {
    pub local_images: Vec<LocalImage>,
    pub remote_images: Vec<RemoteImage>,
    pub image_details: Vec<ImageDetails>,
    pub next_local_image_id: i64,
    pub next_remote_image_id: i64,
    pub next_image_details_id: i64,
    pub clock: i64,
}

impl View for ImageStore {
    type V = StoreModel;

    open spec fn view(&self) -> StoreModel {
        StoreModel {
            local_images: self.local_images@.map_values(|r: LocalImage| r@),
            remote_images: self.remote_images@.map_values(|r: RemoteImage| r@),
            image_details: self.image_details@.map_values(|r: ImageDetails| r@),
            next_local_image_id: self.next_local_image_id as int,
            next_remote_image_id: self.next_remote_image_id as int,
            next_image_details_id: self.next_image_details_id as int,
            clock: self.clock as int,
        }
    }
}

impl ImageStore {
    /// Well-formedness of the store, stated on its model.
    pub open spec fn wf(self) -> bool {
        self@.wf()
    }

    /// An empty store: no rows, all identifier counters at one.
    pub fn new() -> (s: ImageStore)
        ensures
            s@ == StoreModel::empty(),
            s.wf(),
    {
        let s = ImageStore {
            local_images: Vec::new(),
            remote_images: Vec::new(),
            image_details: Vec::new(),
            next_local_image_id: 1,
            next_remote_image_id: 1,
            next_image_details_id: 1,
            clock: 0,
        };
        proof {
            assert(s@ =~= StoreModel::empty());
        }
        s
    }

    /// Sets the clock from which creation timestamps are stamped.
    pub fn set_clock(&mut self, now: i64)
        ensures
            final(self)@ == (StoreModel { clock: now as int, ..old(self)@ }),
            old(self).wf() ==> final(self).wf(),
    {
        self.clock = now;
        proof {
            assert(self@ =~= (StoreModel { clock: now as int, ..old(self)@ }));
        }
    }
}

} // verus!

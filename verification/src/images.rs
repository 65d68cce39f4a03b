//! The three record managers: local images, remote images, image details.
//!
//! Each operation takes the [`ImageStore`] it works against, mirrors one
//! database statement (or, for local image creation, one transaction),
//! and carries a contract that pins the returned value and the whole
//! store transition.

use vstd::prelude::*;
use crate::alias::{extract_alias, last_segment, str_eq};
use crate::error::DbError;
use crate::records::{
    DbUrl, ImageDetails, ImageDetailsInsertForm, LocalImage, LocalImageForm, LocalImageModel,
    LocalUserId, RemoteImage, RemoteImageModel,
};
use crate::store::{
    contains_alias, contains_alias_and_user, contains_details_key, contains_link, link_views,
    local_delete_outcome, local_delete_scoped_outcome, local_result_model, remote_insert_batch,
    ImageStore, StoreModel,
};

verus! {

/// Index of the first (hence, in a well-formed store, the only) local
/// image row carrying `alias`.
fn find_local_by_alias(store: &ImageStore, alias: &str) -> (r: Option<usize>)
    ensures
        match r {
            Some(i) => i < store@.local_images.len() && store@.local_images[i as int].pictrs_alias
                == alias@,
            None => !contains_alias(store@.local_images, alias@),
        },
{
    let n = store.local_images.len();
    let mut i: usize = 0;
    while i < n
        invariant
            n == store.local_images.len(),
            0 <= i <= n,
            forall|j: int| 0 <= j < i ==> store@.local_images[j].pictrs_alias != alias@,
        decreases n - i,
    {
        if str_eq(store.local_images[i].pictrs_alias.as_str(), alias) {
            return Some(i);
        }
        i += 1;
    }
    None
}

/// Index of the first local image row carrying `alias` and owned by
/// `local_user_id`.
fn find_local_by_alias_and_user(store: &ImageStore, alias: &str, local_user_id: LocalUserId) -> (r:
    Option<usize>)
    ensures
        match r {
            Some(i) => i < store@.local_images.len() && store@.local_images[i as int].pictrs_alias
                == alias@ && store@.local_images[i as int].local_user_id == local_user_id.0 as int,
            None => !contains_alias_and_user(
                store@.local_images,
                alias@,
                local_user_id.0 as int,
            ),
        },
{
    let n = store.local_images.len();
    let mut i: usize = 0;
    while i < n
        invariant
            n == store.local_images.len(),
            0 <= i <= n,
            forall|j: int|
                0 <= j < i ==> !(store@.local_images[j].pictrs_alias == alias@
                    && store@.local_images[j].local_user_id == local_user_id.0 as int),
        decreases n - i,
    {
        if store.local_images[i].local_user_id.0 == local_user_id.0 && str_eq(
            store.local_images[i].pictrs_alias.as_str(),
            alias,
        ) {
            return Some(i);
        }
        i += 1;
    }
    None
}

/// Whether some remote image row carries `link`.
fn find_remote_link(store: &ImageStore, link: &str) -> (r: bool)
    ensures
        r == contains_link(store@.remote_images, link@),
{
    let n = store.remote_images.len();
    let mut i: usize = 0;
    while i < n
        invariant
            n == store.remote_images.len(),
            0 <= i <= n,
            forall|j: int| 0 <= j < i ==> store@.remote_images[j].link != link@,
        decreases n - i,
    {
        if str_eq(store.remote_images[i].link.as_str(), link) {
            proof {
                assert(store@.remote_images[i as int].link == link@);
            }
            return true;
        }
        i += 1;
    }
    false
}

/// Whether some image details row carries the natural key `link`.
fn find_details_key(store: &ImageStore, link: &str) -> (r: bool)
    ensures
        r == contains_details_key(store@.image_details, link@),
{
    let n = store.image_details.len();
    let mut i: usize = 0;
    while i < n
        invariant
            n == store.image_details.len(),
            0 <= i <= n,
            forall|j: int| 0 <= j < i ==> store@.image_details[j].link != link@,
        decreases n - i,
    {
        if str_eq(store.image_details[i].link.as_str(), link) {
            proof {
                assert(store@.image_details[i as int].link == link@);
            }
            return true;
        }
        i += 1;
    }
    false
}

impl ImageDetails {
    /// A single insert-or-ignore statement: a duplicate natural key is
    /// silently absorbed as a no-op. Returns the number of rows the
    /// statement actually inserted (one or zero).
    pub fn create(store: &mut ImageStore, form: &ImageDetailsInsertForm) -> (r: Result<
        usize,
        DbError,
    >)
        requires
            old(store).wf(),
            old(store)@.next_image_details_id < i64::MAX,
        ensures
            r is Ok,
            contains_details_key(old(store)@.image_details, form.link@) ==> r == Ok::<
                usize,
                DbError,
            >(0) && final(store)@ == old(store)@,
            !contains_details_key(old(store)@.image_details, form.link@) ==> r == Ok::<
                usize,
                DbError,
            >(1) && final(store)@ == (StoreModel {
                image_details: old(store)@.image_details.push(
                    form.row_model(old(store)@.next_image_details_id),
                ),
                next_image_details_id: old(store)@.next_image_details_id + 1,
                ..old(store)@
            }),
            contains_details_key(final(store)@.image_details, form.link@),
            final(store).wf(),
    {
        let ghost pre = store@;
        if find_details_key(store, form.link.as_str()) {
            return Ok(0);
        }
        let id = store.next_image_details_id;
        let row = ImageDetails {
            id,
            link: DbUrl(form.link.0.clone()),
            width: form.width,
            height: form.height,
            content_type: form.content_type.clone(),
        };
        store.image_details.push(row);
        store.next_image_details_id = id + 1;
        proof {
            assert(store@.image_details =~= pre.image_details.push(
                form.row_model(pre.next_image_details_id),
            ));
            assert(store@ =~= (StoreModel {
                image_details: pre.image_details.push(form.row_model(pre.next_image_details_id)),
                next_image_details_id: pre.next_image_details_id + 1,
                ..pre
            }));
            let post = store@.image_details;
            assert(post[pre.image_details.len() as int].link == form.link@);
            assert forall|p: int, q: int| 0 <= p < q < post.len() implies post[p].link
                != post[q].link by {
                if q == post.len() - 1 && post[p].link == post[q].link {
                    assert(contains_details_key(pre.image_details, form.link@));
                }
            }
        }
        Ok(1)
    }
}

impl RemoteImage {
    /// Batch-registers remote image links with duplicate suppression: one
    /// insert-or-ignore step per link, in batch order. Returns how many
    /// rows the statement inserted, i.e. how many links were newly seen.
    pub fn create(store: &mut ImageStore, links: Vec<DbUrl>) -> (r: Result<usize, DbError>)
        requires
            old(store).wf(),
            old(store)@.next_remote_image_id + links@.len() <= i64::MAX,
        ensures
            ({
                let after = remote_insert_batch(
                    old(store)@.remote_images,
                    old(store)@.next_remote_image_id,
                    link_views(links@),
                );
                &&& r == Ok::<usize, DbError>(
                    (after.1 - old(store)@.next_remote_image_id) as usize,
                )
                &&& final(store)@ == (StoreModel {
                    remote_images: after.0,
                    next_remote_image_id: after.1,
                    ..old(store)@
                })
            }),
            final(store).wf(),
    {
        let ghost pre = store@;
        let n = links.len();
        let mut inserted: usize = 0;
        let mut k: usize = 0;
        while k < n
            invariant
                n == links@.len(),
                0 <= k <= n,
                store.wf(),
                pre.wf(),
                pre.next_remote_image_id + n <= i64::MAX,
                ({
                    let after = remote_insert_batch(
                        pre.remote_images,
                        pre.next_remote_image_id,
                        link_views(links@).take(k as int),
                    );
                    &&& store@.remote_images == after.0
                    &&& store@.next_remote_image_id == after.1
                }),
                store@.next_remote_image_id <= pre.next_remote_image_id + k,
                inserted == store@.next_remote_image_id - pre.next_remote_image_id,
                store@ == (StoreModel {
                    remote_images: store@.remote_images,
                    next_remote_image_id: store@.next_remote_image_id,
                    ..pre
                }),
            decreases n - k,
        {
            let ghost taken = link_views(links@).take(k as int);
            let ghost stepped = link_views(links@).take(k as int + 1);
            proof {
                assert(stepped.drop_last() =~= taken);
                assert(stepped.last() == links@[k as int]@);
            }
            let link_ref = &links[k];
            if !find_remote_link(store, link_ref.as_str()) {
                let id = store.next_remote_image_id;
                let row = RemoteImage { id, link: DbUrl(link_ref.0.clone()) };
                store.remote_images.push(row);
                store.next_remote_image_id = id + 1;
                inserted = inserted + 1;
                proof {
                    let ghost prev_rows = pre.remote_images;
                    let post = store@.remote_images;
                    assert(post =~= remote_insert_batch(
                        prev_rows,
                        pre.next_remote_image_id,
                        taken,
                    ).0.push(RemoteImageModel { id: id as int, link: links@[k as int]@ }));
                    assert(post[post.len() - 1].link == links@[k as int]@);
                    assert forall|p: int, q: int| 0 <= p < q < post.len() implies post[p].link
                        != post[q].link by {
                        if q == post.len() - 1 && post[p].link == post[q].link {
                            assert(contains_link(post.take(q), links@[k as int]@));
                        }
                    }
                    assert(store@ == (StoreModel {
                        remote_images: store@.remote_images,
                        next_remote_image_id: store@.next_remote_image_id,
                        ..pre
                    }));
                }
            }
            k += 1;
        }
        proof {
            assert(link_views(links@).take(n as int) =~= link_views(links@));
            let after = remote_insert_batch(
                pre.remote_images,
                pre.next_remote_image_id,
                link_views(links@),
            );
            assert(store@ =~= (StoreModel {
                remote_images: after.0,
                next_remote_image_id: after.1,
                ..pre
            }));
        }
        Ok(inserted)
    }

    /// Pure existence check: succeeds exactly when a remote image row for
    /// `link_` is registered, and fails with `NotFound` otherwise. The
    /// store is not touched.
    pub fn validate(store: &ImageStore, link_: DbUrl) -> (r: Result<(), DbError>)
        ensures
            r is Ok <==> contains_link(store@.remote_images, link_@),
            !contains_link(store@.remote_images, link_@) ==> r == Err::<(), DbError>(
                DbError::NotFound,
            ),
    {
        if find_remote_link(store, link_.as_str()) {
            Ok(())
        } else {
            Err(DbError::NotFound)
        }
    }
}

impl LocalImage {
    /// Creates a local image row together with its details row in one
    /// transaction: either both inserts take effect, or — when the alias
    /// is already taken and the image insert raises a constraint
    /// violation — the transaction rolls back and the store is exactly as
    /// before. The returned record is the inserted local image row; the
    /// details insert is only observed for failure propagation.
    pub fn create(
        store: &mut ImageStore,
        form: &LocalImageForm,
        image_details_form: &ImageDetailsInsertForm,
    ) -> (r: Result<LocalImage, DbError>)
        requires
            old(store).wf(),
            old(store)@.next_local_image_id < i64::MAX,
            old(store)@.next_image_details_id < i64::MAX,
        ensures
            r is Ok <==> !contains_alias(old(store)@.local_images, form.pictrs_alias@),
            r is Err ==> r == Err::<LocalImage, DbError>(DbError::ConstraintViolation)
                && final(store)@ == old(store)@,
            r is Ok ==> (r->Ok_0)@ == (LocalImageModel {
                id: old(store)@.next_local_image_id,
                local_user_id: form.local_user_id.0 as int,
                pictrs_alias: form.pictrs_alias@,
                published: old(store)@.clock,
            }),
            r is Ok ==> ({
                let after_image = StoreModel {
                    local_images: old(store)@.local_images.push((r->Ok_0)@),
                    next_local_image_id: old(store)@.next_local_image_id + 1,
                    ..old(store)@
                };
                final(store)@ == (if contains_details_key(
                    old(store)@.image_details,
                    image_details_form.link@,
                ) {
                    after_image
                } else {
                    StoreModel {
                        image_details: after_image.image_details.push(
                            image_details_form.row_model(after_image.next_image_details_id),
                        ),
                        next_image_details_id: after_image.next_image_details_id + 1,
                        ..after_image
                    }
                })
            }),
            r is Ok ==> contains_alias(final(store)@.local_images, form.pictrs_alias@)
                && contains_details_key(final(store)@.image_details, image_details_form.link@),
            final(store).wf(),
    {
        let ghost pre = store@;
        if find_local_by_alias(store, form.pictrs_alias.as_str()).is_some() {
            return Err(DbError::ConstraintViolation);
        }
        let id = store.next_local_image_id;
        let row = LocalImage {
            id,
            local_user_id: form.local_user_id,
            pictrs_alias: form.pictrs_alias.clone(),
            published: store.clock,
        };
        // Built a second time from the same parts rather than cloned: the
        // derived clone carries no specification, while `String::clone`
        // does, so this row is provably equal to the stored one.
        let returned = LocalImage {
            id,
            local_user_id: form.local_user_id,
            pictrs_alias: form.pictrs_alias.clone(),
            published: store.clock,
        };
        store.local_images.push(row);
        store.next_local_image_id = id + 1;
        proof {
            assert(store@.local_images =~= pre.local_images.push(returned@));
            assert(store@ =~= (StoreModel {
                local_images: pre.local_images.push(returned@),
                next_local_image_id: pre.next_local_image_id + 1,
                ..pre
            }));
            let post = store@.local_images;
            assert(post[post.len() - 1].pictrs_alias == form.pictrs_alias@);
            assert forall|p: int, q: int| 0 <= p < q < post.len() implies post[p].pictrs_alias
                != post[q].pictrs_alias by {
                if q == post.len() - 1 && post[p].pictrs_alias == post[q].pictrs_alias {
                    assert(contains_alias(pre.local_images, form.pictrs_alias@));
                }
            }
        }
        match ImageDetails::create(store, image_details_form) {
            Ok(_) => {
                proof {
                    assert(contains_alias(store@.local_images, form.pictrs_alias@)) by {
                        assert(store@.local_images[pre.local_images.len() as int].pictrs_alias
                            == form.pictrs_alias@);
                    }
                }
                Ok(returned)
            },
            Err(e) => Err(e),
        }
    }

    /// Deletes the unique row whose alias matches and returns it; fails
    /// with `NotFound` when no row carries the alias. No ownership check
    /// is made: callers must have authorized the action already.
    pub fn delete_by_alias(store: &mut ImageStore, alias: &str) -> (r: Result<LocalImage, DbError>)
        requires
            old(store).wf(),
        ensures
            local_delete_outcome(old(store)@, alias@, local_result_model(r), final(store)@),
            r is Ok <==> contains_alias(old(store)@.local_images, alias@),
            final(store).wf(),
    {
        let ghost pre = store@;
        match find_local_by_alias(store, alias) {
            Some(i) => {
                let row = store.local_images.remove(i);
                proof {
                    assert(store@.local_images =~= pre.local_images.remove(i as int));
                    assert(store@ =~= (StoreModel {
                        local_images: pre.local_images.remove(i as int),
                        ..pre
                    }));
                    pre.local_images.remove_ensures(i as int);
                    assert(contains_alias(pre.local_images, alias@));
                    assert(local_delete_outcome(
                        pre,
                        alias@,
                        local_result_model(Ok(row)),
                        store@,
                    )) by {
                        assert(0 <= i < pre.local_images.len()
                            && pre.local_images[i as int].pictrs_alias == alias@
                            && local_result_model(Ok(row)) == Ok::<LocalImageModel, DbError>(
                            pre.local_images[i as int],
                        ) && store@ == (StoreModel {
                            local_images: pre.local_images.remove(i as int),
                            ..pre
                        }));
                    }
                }
                Ok(row)
            },
            None => Err(DbError::NotFound),
        }
    }

    /// Deletes the row only when both alias and owner match, enforcing
    /// ownership at the data layer: a wrong owner is answered with
    /// `NotFound` exactly like a missing alias, which is how cross-tenant
    /// deletion attempts are rejected.
    pub fn delete_by_alias_and_user(
        store: &mut ImageStore,
        alias: &str,
        local_user_id: LocalUserId,
    ) -> (r: Result<LocalImage, DbError>)
        requires
            old(store).wf(),
        ensures
            local_delete_scoped_outcome(
                old(store)@,
                alias@,
                local_user_id.0 as int,
                local_result_model(r),
                final(store)@,
            ),
            r is Ok <==> contains_alias_and_user(
                old(store)@.local_images,
                alias@,
                local_user_id.0 as int,
            ),
            final(store).wf(),
    {
        let ghost pre = store@;
        match find_local_by_alias_and_user(store, alias, local_user_id) {
            Some(i) => {
                let row = store.local_images.remove(i);
                proof {
                    assert(store@.local_images =~= pre.local_images.remove(i as int));
                    assert(store@ =~= (StoreModel {
                        local_images: pre.local_images.remove(i as int),
                        ..pre
                    }));
                    pre.local_images.remove_ensures(i as int);
                    assert(contains_alias_and_user(
                        pre.local_images,
                        alias@,
                        local_user_id.0 as int,
                    ));
                    assert(local_delete_scoped_outcome(
                        pre,
                        alias@,
                        local_user_id.0 as int,
                        local_result_model(Ok(row)),
                        store@,
                    )) by {
                        assert(0 <= i < pre.local_images.len()
                            && pre.local_images[i as int].pictrs_alias == alias@
                            && pre.local_images[i as int].local_user_id == local_user_id.0 as int
                            && local_result_model(Ok(row)) == Ok::<LocalImageModel, DbError>(
                            pre.local_images[i as int],
                        ) && store@ == (StoreModel {
                            local_images: pre.local_images.remove(i as int),
                            ..pre
                        }));
                    }
                }
                Ok(row)
            },
            None => Err(DbError::NotFound),
        }
    }

    /// Derives the alias as the final path segment of the URL — the text
    /// after the last `/`, with no further validation — and delegates to
    /// [`LocalImage::delete_by_alias`]. Deleting by URL therefore behaves
    /// identically to deleting by that alias.
    pub fn delete_by_url(store: &mut ImageStore, url: &DbUrl) -> (r: Result<LocalImage, DbError>)
        requires
            old(store).wf(),
        ensures
            local_delete_outcome(
                old(store)@,
                last_segment(url@),
                local_result_model(r),
                final(store)@,
            ),
            r is Ok <==> contains_alias(old(store)@.local_images, last_segment(url@)),
            final(store).wf(),
    {
        let segment = extract_alias(url.as_str());
        Self::delete_by_alias(store, segment.as_str())
    }
}

} // verus!

use image_store::error::DbError;
use image_store::records::{
    DbUrl, ImageDetails, ImageDetailsInsertForm, LocalImage, LocalImageForm, LocalUserId,
    RemoteImage,
};
use image_store::store::ImageStore;

fn local_form(user: i32, alias: &str) -> LocalImageForm {
    LocalImageForm { local_user_id: LocalUserId(user), pictrs_alias: alias.to_string() }
}

fn details_form(link: &str, width: i32, height: i32) -> ImageDetailsInsertForm {
    ImageDetailsInsertForm {
        link: DbUrl(link.to_string()),
        width,
        height,
        content_type: "image/png".to_string(),
    }
}

fn url(link: &str) -> DbUrl {
    DbUrl(link.to_string())
}

#[test]
fn create_returns_row_with_generated_id_and_scoped_delete_works() {
    let mut store = ImageStore::new();
    let img = LocalImage::create(
        &mut store,
        &local_form(7, "xyz"),
        &details_form("https://host/media/xyz", 100, 200),
    )
    .unwrap();
    assert_eq!(img.id, 1);
    assert_eq!(img.local_user_id, LocalUserId(7));
    assert_eq!(img.pictrs_alias, "xyz");

    let deleted = LocalImage::delete_by_alias_and_user(&mut store, "xyz", LocalUserId(7)).unwrap();
    assert_eq!(deleted, img);

    let again = LocalImage::delete_by_alias_and_user(&mut store, "xyz", LocalUserId(8));
    assert_eq!(again, Err(DbError::NotFound));
}

#[test]
fn create_inserts_image_and_details_together() {
    let mut store = ImageStore::new();
    let img = LocalImage::create(
        &mut store,
        &local_form(3, "alias-a"),
        &details_form("https://host/media/alias-a", 640, 480),
    )
    .unwrap();
    assert_eq!(store.local_images.len(), 1);
    assert_eq!(store.image_details.len(), 1);
    assert_eq!(store.local_images[0], img);
    assert_eq!(store.image_details[0].link, url("https://host/media/alias-a"));
    assert_eq!(store.image_details[0].width, 640);
    assert_eq!(store.image_details[0].height, 480);
}

#[test]
fn create_with_taken_alias_fails_and_leaves_no_partial_write() {
    let mut store = ImageStore::new();
    LocalImage::create(
        &mut store,
        &local_form(3, "alias-a"),
        &details_form("https://host/media/alias-a", 640, 480),
    )
    .unwrap();

    let r = LocalImage::create(
        &mut store,
        &local_form(4, "alias-a"),
        &details_form("https://host/media/other", 10, 10),
    );
    assert_eq!(r, Err(DbError::ConstraintViolation));
    // The whole transaction rolled back: neither a second local image row
    // nor the new details row persists.
    assert_eq!(store.local_images.len(), 1);
    assert_eq!(store.image_details.len(), 1);
}

#[test]
fn create_stamps_published_from_the_store_clock() {
    let mut store = ImageStore::new();
    store.set_clock(42);
    let img = LocalImage::create(
        &mut store,
        &local_form(1, "stamped"),
        &details_form("https://host/media/stamped", 1, 1),
    )
    .unwrap();
    assert_eq!(img.published, 42);
}

#[test]
fn remote_create_deduplicates_within_one_batch() {
    let mut store = ImageStore::new();
    let links = vec![url("https://a/1"), url("https://a/2"), url("https://a/1")];
    let count = RemoteImage::create(&mut store, links).unwrap();
    assert_eq!(count, 2);
    assert_eq!(store.remote_images.len(), 2);
    assert_eq!(store.remote_images[0].link, url("https://a/1"));
    assert_eq!(store.remote_images[1].link, url("https://a/2"));
}

#[test]
fn remote_create_twice_with_same_batch_is_idempotent() {
    let mut store = ImageStore::new();
    let links = vec![url("https://a/1"), url("https://a/2")];
    let first = RemoteImage::create(&mut store, links.clone()).unwrap();
    assert_eq!(first, 2);
    let rows_after_once = store.remote_images.clone();

    let second = RemoteImage::create(&mut store, links).unwrap();
    assert_eq!(second, 0);
    assert_eq!(store.remote_images, rows_after_once);
}

#[test]
fn remote_create_counts_only_newly_seen_links() {
    let mut store = ImageStore::new();
    RemoteImage::create(&mut store, vec![url("https://a/1")]).unwrap();
    let count =
        RemoteImage::create(&mut store, vec![url("https://a/1"), url("https://a/2")]).unwrap();
    assert_eq!(count, 1);
    assert_eq!(store.remote_images.len(), 2);
}

#[test]
fn remote_create_with_empty_batch_inserts_nothing() {
    let mut store = ImageStore::new();
    let count = RemoteImage::create(&mut store, Vec::new()).unwrap();
    assert_eq!(count, 0);
    assert!(store.remote_images.is_empty());
}

#[test]
fn validate_succeeds_exactly_for_registered_links() {
    let mut store = ImageStore::new();
    assert_eq!(
        RemoteImage::validate(&store, url("https://a/1")),
        Err(DbError::NotFound)
    );
    RemoteImage::create(&mut store, vec![url("https://a/1"), url("https://a/2")]).unwrap();
    assert_eq!(RemoteImage::validate(&store, url("https://a/1")), Ok(()));
    assert_eq!(RemoteImage::validate(&store, url("https://a/2")), Ok(()));
    assert_eq!(
        RemoteImage::validate(&store, url("https://a/3")),
        Err(DbError::NotFound)
    );
}

#[test]
fn delete_by_alias_returns_the_deleted_row() {
    let mut store = ImageStore::new();
    let img = LocalImage::create(
        &mut store,
        &local_form(5, "to-delete"),
        &details_form("https://host/media/to-delete", 2, 2),
    )
    .unwrap();
    let deleted = LocalImage::delete_by_alias(&mut store, "to-delete").unwrap();
    assert_eq!(deleted, img);
    assert!(store.local_images.is_empty());
}

#[test]
fn delete_by_alias_of_missing_alias_is_not_found() {
    let mut store = ImageStore::new();
    assert_eq!(
        LocalImage::delete_by_alias(&mut store, "missing"),
        Err(DbError::NotFound)
    );
}

#[test]
fn delete_by_alias_and_user_rejects_the_wrong_owner() {
    let mut store = ImageStore::new();
    let img = LocalImage::create(
        &mut store,
        &local_form(7, "owned"),
        &details_form("https://host/media/owned", 3, 3),
    )
    .unwrap();

    let wrong_owner = LocalImage::delete_by_alias_and_user(&mut store, "owned", LocalUserId(8));
    assert_eq!(wrong_owner, Err(DbError::NotFound));
    assert_eq!(store.local_images.len(), 1);

    let right_owner =
        LocalImage::delete_by_alias_and_user(&mut store, "owned", LocalUserId(7)).unwrap();
    assert_eq!(right_owner, img);
    assert!(store.local_images.is_empty());
}

#[test]
fn delete_by_url_behaves_like_delete_by_alias() {
    let mut by_url = ImageStore::new();
    let mut by_alias = ImageStore::new();
    for store in [&mut by_url, &mut by_alias] {
        LocalImage::create(
            store,
            &local_form(9, "abc123"),
            &details_form("https://host/media/abc123", 8, 8),
        )
        .unwrap();
    }

    let from_url =
        LocalImage::delete_by_url(&mut by_url, &url("https://host/media/abc123")).unwrap();
    let from_alias = LocalImage::delete_by_alias(&mut by_alias, "abc123").unwrap();
    assert_eq!(from_url, from_alias);
    assert_eq!(by_url.local_images, by_alias.local_images);
    assert!(by_url.local_images.is_empty());
}

#[test]
fn delete_by_url_takes_the_text_after_the_last_slash() {
    let mut store = ImageStore::new();
    LocalImage::create(
        &mut store,
        &local_form(2, "abc"),
        &details_form("https://host/media/abc", 4, 4),
    )
    .unwrap();

    // A trailing slash yields the empty alias, which matches no row.
    assert_eq!(
        LocalImage::delete_by_url(&mut store, &url("https://host/media/abc/")),
        Err(DbError::NotFound)
    );
    // A URL without any slash is taken whole.
    let deleted = LocalImage::delete_by_url(&mut store, &url("abc")).unwrap();
    assert_eq!(deleted.pictrs_alias, "abc");
}

#[test]
fn image_details_create_absorbs_duplicate_natural_keys() {
    let mut store = ImageStore::new();
    let form = details_form("https://host/media/x", 10, 20);
    assert_eq!(ImageDetails::create(&mut store, &form), Ok(1));
    assert_eq!(ImageDetails::create(&mut store, &form), Ok(0));
    assert_eq!(store.image_details.len(), 1);

    let other = details_form("https://host/media/y", 10, 20);
    assert_eq!(ImageDetails::create(&mut store, &other), Ok(1));
    assert_eq!(store.image_details.len(), 2);
}

#[test]
fn extract_alias_takes_the_final_path_segment() {
    assert_eq!(image_store::alias::extract_alias("https://host/media/abc123"), "abc123");
    assert_eq!(image_store::alias::extract_alias("no-slash"), "no-slash");
    assert_eq!(image_store::alias::extract_alias("trailing/"), "");
    assert_eq!(image_store::alias::extract_alias(""), "");
    assert_eq!(image_store::alias::extract_alias("/leading"), "leading");
}

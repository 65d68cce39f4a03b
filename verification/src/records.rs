//! The three record kinds, their insertion forms, and their ghost models.
//!
//! Contracts never speak about the executable structs directly: each
//! record type has a mathematical model (`...Model`) reached through its
//! view, with `int` identifiers and `Seq<char>` text.

use vstd::prelude::*;

verus! {

/// Identifier of the local user who owns an uploaded image.
#[derive(Clone, Copy, Debug, PartialEq, Eq, Hash, Structural)]
pub struct LocalUserId(pub i32);

/// A normalized URL as stored by the database layer.
///
/// The surrounding application parses and normalizes real URLs; this core
/// only stores the resulting text and compares it for equality.
#[derive(Clone, Debug, PartialEq, Eq)]
pub struct DbUrl(pub String);

impl View for DbUrl {
    type V = Seq<char>;

    open spec fn view(&self) -> Seq<char> {
        self.0@
    }
}

impl DbUrl {
    /// The stored URL text.
    pub fn as_str(&self) -> (s: &str)
        ensures
            s@ == self@,
    {
        self.0.as_str()
    }
}

/// Metadata row for media physically stored by this system.
#[derive(Clone, Debug, PartialEq)]
pub struct LocalImage {
    /// Generated primary identifier.
    pub id: i64,
    /// The owning local user.
    pub local_user_id: LocalUserId,
    /// Unique opaque storage alias, embedded in the image's public URL.
    pub pictrs_alias: String,
    /// Creation timestamp, stamped from the store clock.
    pub published: i64,
}

/// Ghost model of a [`LocalImage`] row.
#[verifier::ext_equal]
pub struct LocalImageModel {
    pub id: int,
    pub local_user_id: int,
    pub pictrs_alias: Seq<char>,
    pub published: int,
}

impl View for LocalImage {
    type V = LocalImageModel;

    open spec fn view(&self) -> LocalImageModel {
        LocalImageModel {
            id: self.id as int,
            local_user_id: self.local_user_id.0 as int,
            pictrs_alias: self.pictrs_alias@,
            published: self.published as int,
        }
    }
}

/// Insertion form for a local image row.
#[derive(Clone, Debug)]
pub struct LocalImageForm {
    pub local_user_id: LocalUserId,
    pub pictrs_alias: String,
}

/// A registered external image link, not stored locally.
#[derive(Clone, Debug, PartialEq)]
pub struct RemoteImage {
    /// Generated identifier.
    pub id: i64,
    /// The deduplicated link column.
    pub link: DbUrl,
}

/// Ghost model of a [`RemoteImage`] row.
#[verifier::ext_equal]
pub struct RemoteImageModel {
    pub id: int,
    pub link: Seq<char>,
}

impl View for RemoteImage {
    type V = RemoteImageModel;

    open spec fn view(&self) -> RemoteImageModel {
        RemoteImageModel { id: self.id as int, link: self.link@ }
    }
}

/// Size and format metadata paired with a stored image.
///
/// The natural key is the link; size fields are opaque payload to this
/// core.
#[derive(Clone, Debug, PartialEq)]
pub struct ImageDetails {
    /// Generated identifier.
    pub id: i64,
    /// Natural key: the image's link.
    pub link: DbUrl,
    pub width: i32,
    pub height: i32,
    pub content_type: String,
}

/// Ghost model of an [`ImageDetails`] row.
#[verifier::ext_equal]
pub struct ImageDetailsModel {
    pub id: int,
    pub link: Seq<char>,
    pub width: int,
    pub height: int,
    pub content_type: Seq<char>,
}

impl View for ImageDetails {
    type V = ImageDetailsModel;

    open spec fn view(&self) -> ImageDetailsModel {
        ImageDetailsModel {
            id: self.id as int,
            link: self.link@,
            width: self.width as int,
            height: self.height as int,
            content_type: self.content_type@,
        }
    }
}

/// Insertion form for an image details row.
#[derive(Clone, Debug)]
pub struct ImageDetailsInsertForm {
    /// Natural key: the image's link.
    pub link: DbUrl,
    pub width: i32,
    pub height: i32,
    pub content_type: String,
}

impl ImageDetailsInsertForm {
    /// The row this form produces when inserted under identifier `id`.
    pub open spec fn row_model(self, id: int) -> ImageDetailsModel {
        ImageDetailsModel {
            id: id,
            link: self.link@,
            width: self.width as int,
            height: self.height as int,
            content_type: self.content_type@,
        }
    }
}

} // verus!

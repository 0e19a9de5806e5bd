//! Bindings for the thumbnails endpoints, with the size and format
//! vocabularies their query parameters use.

pub mod badges;
pub mod developer_products;
pub mod game_passes;
pub mod games;

use vstd::prelude::*;

verus! {

/// The pixel sizes a thumbnail can be requested in.
#[derive(Debug, Clone, Copy, PartialEq, Eq, Structural)]
pub enum ThumbnailSize {
    Size30x30,
    Size42x42,
    Size50x50,
    Size60x62,
    Size75x75,
    Size110x110,
    Size140x140,
    Size150x150,
    Size420x420,
}

impl ThumbnailSize {
    /// The query-parameter spelling of each size.
    pub open spec fn size_chars(self) -> Seq<char> {
        match self {
            ThumbnailSize::Size30x30 => "30x30"@,
            ThumbnailSize::Size42x42 => "42x42"@,
            ThumbnailSize::Size50x50 => "50x50"@,
            ThumbnailSize::Size60x62 => "60x62"@,
            ThumbnailSize::Size75x75 => "75x75"@,
            ThumbnailSize::Size110x110 => "110x110"@,
            ThumbnailSize::Size140x140 => "140x140"@,
            ThumbnailSize::Size150x150 => "150x150"@,
            ThumbnailSize::Size420x420 => "420x420"@,
        }
    }

    /// The size as it is spelled in the query string.
    pub fn string(&self) -> (r: String)
        ensures
            r@ == self.size_chars(),
    {
        match self {
            ThumbnailSize::Size30x30 => "30x30".to_owned(),
            ThumbnailSize::Size42x42 => "42x42".to_owned(),
            ThumbnailSize::Size50x50 => "50x50".to_owned(),
            ThumbnailSize::Size60x62 => "60x62".to_owned(),
            ThumbnailSize::Size75x75 => "75x75".to_owned(),
            ThumbnailSize::Size110x110 => "110x110".to_owned(),
            ThumbnailSize::Size140x140 => "140x140".to_owned(),
            ThumbnailSize::Size150x150 => "150x150".to_owned(),
            ThumbnailSize::Size420x420 => "420x420".to_owned(),
        }
    }
}

/// The image formats a thumbnail can be requested in.
#[derive(Debug, Clone, Copy, PartialEq, Eq, Structural)]
pub enum ThumbnailFormat {
    Png,
    Jpeg,
}

impl ThumbnailFormat {
    /// The query-parameter spelling of each format.
    pub open spec fn format_chars(self) -> Seq<char> {
        match self {
            ThumbnailFormat::Png => "Png"@,
            ThumbnailFormat::Jpeg => "Jpeg"@,
        }
    }

    /// The format as it is spelled in the query string.
    pub fn string(&self) -> (r: String)
        ensures
            r@ == self.format_chars(),
    {
        match self {
            ThumbnailFormat::Png => "Png".to_owned(),
            ThumbnailFormat::Jpeg => "Jpeg".to_owned(),
        }
    }
}

/// The requested size, or the smallest one when none is given.
pub open spec fn size_chars_or_default(size: Option<ThumbnailSize>) -> Seq<char> {
    match size {
        Some(s) => s.size_chars(),
        None => "30x30"@,
    }
}

/// Renders an optional size, defaulting to the smallest one.
pub fn size_string_or_default(size: Option<ThumbnailSize>) -> (r: String)
    ensures
        r@ == size_chars_or_default(size),
{
    match size {
        Some(s) => s.string(),
        None => ThumbnailSize::Size30x30.string(),
    }
}

/// The requested format, or PNG when none is given.
pub open spec fn format_chars_or_default(format: Option<ThumbnailFormat>) -> Seq<char> {
    match format {
        Some(f) => f.format_chars(),
        None => "Png"@,
    }
}

/// Renders an optional format, defaulting to PNG.
pub fn format_string_or_default(format: Option<ThumbnailFormat>) -> (r: String)
    ensures
        r@ == format_chars_or_default(format),
{
    match format {
        Some(f) => f.string(),
        None => ThumbnailFormat::Png.string(),
    }
}

/// One resolved thumbnail.
#[derive(Debug, Clone, PartialEq)]
pub struct Thumbnail {
    pub target_id: i64,
    pub state: String,
    pub image_url: Option<String>,
}

/// The payload of a thumbnail request: one record per requested target.
pub type ThumbnailResponse = Vec<Thumbnail>;

} // verus!

//! The records of the message log and of the image cache.
use vstd::prelude::*;

use crate::grok::opt_view;

verus! {

/// One logged message.
pub struct DbEntry {
    pub chat_id: i64,
    pub message_id: i32,
    pub user_id: i64,
    pub username: String,
    pub text: String,
    pub media_type: Option<String>,
    pub media_ref: Option<String>,
    pub summary: String,
}

/// A cached image: its MIME type, its data URL, and a description once one is made.
pub struct CachedImage {
    pub mime_type: String,
    pub data_url: String,
    pub description: Option<String>,
}

/// The cached image that a row of the cache holds.
pub fn cached_image_from_row(row: (String, String, Option<String>)) -> (r: CachedImage)
    ensures
        r.mime_type@ == row.0@,
        r.data_url@ == row.1@,
        opt_view(r.description) == opt_view(row.2),
{
    let (mime_type, data_url, description) = row;
    CachedImage { mime_type, data_url, description }
}

/// Whether the image cache table must be dropped and made anew: it exists
/// in the older layout, without a `file_id` column.
pub fn image_cache_needs_rebuild(table_exists: bool, has_file_id: bool) -> (r: bool)
    ensures
        r == (table_exists && !has_file_id),
{
    table_exists && !has_file_id
}

} // verus!

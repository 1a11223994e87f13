//! The entries of a backup's manifest.

use vstd::prelude::*;
use crate::text::{chars_of, followed_by, decimal, join_by, joined_by, owned, push_decimal, views_of};

verus! {

/// One row of the manifest: a stored file and the path it had on the device.
///
/// The identifier names the file in the backup's store; the relative path
/// uses `/` between its components. Within one manifest the relative paths
/// are expected to differ from each other; nothing here checks that.
#[derive(Debug, PartialEq, Eq)]
pub struct ManifestEntry {
    pub file_id: String,
    pub relative_path: String,
}

/// A `ManifestEntry` as two sequences of characters.
pub struct ManifestEntryView {
    pub file_id: Seq<char>,
    pub relative_path: Seq<char>,
}

impl View for ManifestEntry {
    type V = ManifestEntryView;

    open spec fn view(&self) -> ManifestEntryView {
        ManifestEntryView { file_id: self.file_id@, relative_path: self.relative_path@ }
    }
}

impl Clone for ManifestEntry {
    fn clone(&self) -> (r: Self)
        ensures
            r == *self,
    {
        ManifestEntry {
            file_id: self.file_id.clone(),
            relative_path: self.relative_path.clone(),
        }
    }
}

/// `text` as it stands inside a quoted text of a query: each `'` twice.
pub open spec fn quoted(text: Seq<char>) -> Seq<char>
    decreases text.len(),
{
    if text.len() == 0 {
        Seq::empty()
    } else {
        quoted(text.drop_last()) + if text.last() == '\'' {
            seq!['\'', '\'']
        } else {
            seq![text.last()]
        }
    }
}

/// The condition that a row's path ends in `.` and `extension`, whatever
/// the case of its letters. `extension` is given in lower case.
pub open spec fn ends_in(extension: Seq<char>) -> Seq<char> {
    "lower(relativePath) LIKE '%."@ + quoted(extension) + "'"@
}

/// The condition that a row's path holds `part` somewhere.
pub open spec fn holds(part: Seq<char>) -> Seq<char> {
    "relativePath LIKE '%"@ + quoted(part) + "%'"@
}

/// Which rows of the manifest qualify for extraction.
#[derive(Debug, PartialEq, Eq)]
pub enum ManifestFilter {
    /// Rows whose path ends in one of these extensions. The extensions are
    /// given in lower case and match whatever the case of the path.
    Extensions(Vec<String>),
    /// Rows whose path holds one of these texts.
    PathParts(Vec<String>),
}

/// A `ManifestFilter` by view.
pub enum ManifestFilterView {
    Extensions(Seq<Seq<char>>),
    PathParts(Seq<Seq<char>>),
}

impl View for ManifestFilter {
    type V = ManifestFilterView;

    open spec fn view(&self) -> ManifestFilterView {
        match *self {
            ManifestFilter::Extensions(extensions) => ManifestFilterView::Extensions(
                views_of(extensions@),
            ),
            ManifestFilter::PathParts(parts) => ManifestFilterView::PathParts(views_of(parts@)),
        }
    }
}

/// The conditions of `filter`, one for each of its texts.
pub open spec fn conditions_of(filter: ManifestFilterView) -> Seq<Seq<char>> {
    match filter {
        ManifestFilterView::Extensions(extensions) => extensions.map_values(
            |extension: Seq<char>| ends_in(extension),
        ),
        ManifestFilterView::PathParts(parts) => parts.map_values(|part: Seq<char>| holds(part)),
    }
}

/// What stands between two conditions of `filter`.
pub open spec fn separator_of(filter: ManifestFilterView) -> Seq<char> {
    match filter {
        ManifestFilterView::Extensions(_) => "\n       OR "@,
        ManifestFilterView::PathParts(_) => " OR "@,
    }
}

/// The `WHERE` clause that keeps the rows that meet one condition of
/// `filter`. A filter without texts keeps no row.
pub open spec fn where_clause_of(filter: ManifestFilterView) -> Seq<char> {
    if conditions_of(filter).len() == 0 {
        "WHERE 0"@
    } else {
        "WHERE "@ + joined_by(conditions_of(filter), separator_of(filter))
    }
}

/// The extensions of the media files that an extraction takes by default.
pub open spec fn media_extension_list() -> Seq<Seq<char>> {
    seq![
        "hevc"@,
        "h264"@,
        "mp4"@,
        "m4v"@,
        "mov"@,
        "avi"@,
        "aac"@,
        "mp3"@,
        "m4a"@,
        "alac"@,
        "aiff"@,
        "wav"@,
        "flac"@,
        "ac3"@,
        "eac3"@,
        "heic"@,
        "jpg"@,
        "jpeg"@,
        "png"@,
        "gif"@,
        "tiff"@,
        "bmp"@,
        "ico"@,
    ]
}

/// The texts that the paths of a device's photo library hold.
pub open spec fn photo_path_parts() -> Seq<Seq<char>> {
    seq!["DCIM/"@, "PhotoData/"@]
}

fn quote(text: &str) -> (r: String)
    ensures
        r@ == quoted(text@),
{
    let chars = chars_of(text);
    let mut r = String::new();
    let mut i: usize = 0;
    while i < chars.len()
        invariant
            i <= chars.len(),
            chars@ == text@,
            r@ == quoted(text@.take(i as int)),
        decreases chars.len() - i,
    {
        proof {
            assert(text@.take(i + 1).drop_last() =~= text@.take(i as int));
            reveal_strlit("''");
        }
        if chars[i] == '\'' {
            r.append("''");
        } else {
            r.append(text.substring_char(i, i + 1));
        }
        i += 1;
    }
    assert(text@.take(i as int) =~= text@);
    r
}

fn ends_in_condition(extension: &str) -> (r: String)
    ensures
        r@ == ends_in(extension@),
{
    let mut r = owned("lower(relativePath) LIKE '%.");
    r.append(quote(extension).as_str());
    r.append("'");
    r
}

fn holds_condition(part: &str) -> (r: String)
    ensures
        r@ == holds(part@),
{
    let mut r = owned("relativePath LIKE '%");
    r.append(quote(part).as_str());
    r.append("%'");
    r
}

impl ManifestFilter {
    /// The filter that keeps the media files.
    pub fn media() -> (r: ManifestFilter)
        ensures
            r@ == ManifestFilterView::Extensions(media_extension_list()),
    {
        ManifestFilter::Extensions(media_extensions())
    }

    /// The filter that keeps what lies in the photo library.
    pub fn photo_library() -> (r: ManifestFilter)
        ensures
            r@ == ManifestFilterView::PathParts(photo_path_parts()),
    {
        let mut parts: Vec<String> = Vec::new();
        parts.push(owned("DCIM/"));
        parts.push(owned("PhotoData/"));
        assert(views_of(parts@) =~= photo_path_parts());
        ManifestFilter::PathParts(parts)
    }

    /// The `WHERE` clause of this filter.
    pub fn where_clause(&self) -> (r: String)
        ensures
            r@ == where_clause_of(self@),
    {
        let mut conditions: Vec<String> = Vec::new();
        match self {
            ManifestFilter::Extensions(extensions) => {
                let mut i: usize = 0;
                while i < extensions.len()
                    invariant
                        i <= extensions.len(),
                        conditions@.len() == i,
                        forall|j: int|
                            0 <= j < i ==> (#[trigger] conditions@[j])@ == ends_in(
                                extensions@[j]@,
                            ),
                    decreases extensions.len() - i,
                {
                    conditions.push(ends_in_condition(extensions[i].as_str()));
                    i += 1;
                }
                assert(views_of(conditions@) =~= conditions_of(self@));
            },
            ManifestFilter::PathParts(parts) => {
                let mut i: usize = 0;
                while i < parts.len()
                    invariant
                        i <= parts.len(),
                        conditions@.len() == i,
                        forall|j: int|
                            0 <= j < i ==> (#[trigger] conditions@[j])@ == holds(parts@[j]@),
                    decreases parts.len() - i,
                {
                    conditions.push(holds_condition(parts[i].as_str()));
                    i += 1;
                }
                assert(views_of(conditions@) =~= conditions_of(self@));
            },
        }
        if conditions.len() == 0 {
            return owned("WHERE 0");
        }
        let separator = match self {
            ManifestFilter::Extensions(_) => "\n       OR ",
            ManifestFilter::PathParts(_) => " OR ",
        };
        proof {
            let all = views_of(conditions@);
            assert(all.take(all.len() as int) =~= all);
        }
        let all = join_by(&conditions, conditions.len(), separator);
        followed_by("WHERE ", all.as_str())
    }
}

/// The extensions of the media files that an extraction takes by default.
pub fn media_extensions() -> (r: Vec<String>)
    ensures
        views_of(r@) == media_extension_list(),
{
    let mut r: Vec<String> = Vec::new();
    r.push(owned("hevc"));
    r.push(owned("h264"));
    r.push(owned("mp4"));
    r.push(owned("m4v"));
    r.push(owned("mov"));
    r.push(owned("avi"));
    r.push(owned("aac"));
    r.push(owned("mp3"));
    r.push(owned("m4a"));
    r.push(owned("alac"));
    r.push(owned("aiff"));
    r.push(owned("wav"));
    r.push(owned("flac"));
    r.push(owned("ac3"));
    r.push(owned("eac3"));
    r.push(owned("heic"));
    r.push(owned("jpg"));
    r.push(owned("jpeg"));
    r.push(owned("png"));
    r.push(owned("gif"));
    r.push(owned("tiff"));
    r.push(owned("bmp"));
    r.push(owned("ico"));
    r
}

/// The `WHERE` clause that keeps the media files, closed with `;`.
pub fn media_filter() -> (r: String)
    ensures
        r@ == where_clause_of(ManifestFilterView::Extensions(media_extension_list())) + ";"@,
{
    let mut r = ManifestFilter::media().where_clause();
    r.append(";");
    r
}

/// The query that counts the rows that `filter` keeps.
pub fn count_query(filter: &ManifestFilter) -> (r: String)
    ensures
        r@ == "SELECT COUNT(*) FROM Files "@ + where_clause_of(filter@) + ";"@,
{
    let mut r = owned("SELECT COUNT(*) FROM Files ");
    r.append(filter.where_clause().as_str());
    r.append(";");
    r
}

/// The query that reads identifier and path of the rows that `filter` keeps.
pub fn entries_query(filter: &ManifestFilter) -> (r: String)
    ensures
        r@ == "SELECT fileID, relativePath FROM Files "@ + where_clause_of(filter@) + ";"@,
{
    let mut r = owned("SELECT fileID, relativePath FROM Files ");
    r.append(filter.where_clause().as_str());
    r.append(";");
    r
}

/// What a limit of rows adds to a query.
pub open spec fn limit_clause(limit: Option<usize>) -> Seq<char> {
    match limit {
        Some(rows) => " LIMIT "@ + decimal(rows as nat),
        None => Seq::empty(),
    }
}

/// The query that reads every column of the rows that `filter` keeps, of
/// the first `limit` of them where a limit is given.
pub fn table_query(filter: &ManifestFilter, limit: Option<usize>) -> (r: String)
    ensures
        r@ == "SELECT * FROM Files "@ + where_clause_of(filter@) + limit_clause(limit) + ";"@,
{
    let mut r = owned("SELECT * FROM Files ");
    r.append(filter.where_clause().as_str());
    match limit {
        Some(rows) => {
            r.append(" LIMIT ");
            push_decimal(&mut r, rows as u128);
        },
        None => {},
    }
    r.append(";");
    r
}

/// The query that lists the columns of the manifest's table.
pub fn columns_query() -> (r: String)
    ensures
        r@ == "PRAGMA table_info(Files)"@,
{
    owned("PRAGMA table_info(Files)")
}

} // verus!

use ios::manifest::{
    columns_query, count_query, entries_query, media_extensions, media_filter, table_query,
    ManifestEntry, ManifestFilter,
};

#[test]
fn media_filter_lists_every_extension() {
    let expected = "WHERE lower(relativePath) LIKE '%.hevc'
       OR lower(relativePath) LIKE '%.h264'
       OR lower(relativePath) LIKE '%.mp4'
       OR lower(relativePath) LIKE '%.m4v'
       OR lower(relativePath) LIKE '%.mov'
       OR lower(relativePath) LIKE '%.avi'
       OR lower(relativePath) LIKE '%.aac'
       OR lower(relativePath) LIKE '%.mp3'
       OR lower(relativePath) LIKE '%.m4a'
       OR lower(relativePath) LIKE '%.alac'
       OR lower(relativePath) LIKE '%.aiff'
       OR lower(relativePath) LIKE '%.wav'
       OR lower(relativePath) LIKE '%.flac'
       OR lower(relativePath) LIKE '%.ac3'
       OR lower(relativePath) LIKE '%.eac3'
       OR lower(relativePath) LIKE '%.heic'
       OR lower(relativePath) LIKE '%.jpg'
       OR lower(relativePath) LIKE '%.jpeg'
       OR lower(relativePath) LIKE '%.png'
       OR lower(relativePath) LIKE '%.gif'
       OR lower(relativePath) LIKE '%.tiff'
       OR lower(relativePath) LIKE '%.bmp'
       OR lower(relativePath) LIKE '%.ico';";
    assert_eq!(media_filter(), expected);
}

#[test]
fn media_extensions_are_twenty_three() {
    let extensions = media_extensions();
    assert_eq!(extensions.len(), 23);
    assert_eq!(extensions[0], "hevc");
    assert_eq!(extensions[22], "ico");
    assert_eq!(ManifestFilter::media(), ManifestFilter::Extensions(extensions));
}

#[test]
fn photo_library_filter_matches_path_parts() {
    assert_eq!(
        ManifestFilter::photo_library().where_clause(),
        "WHERE relativePath LIKE '%DCIM/%' OR relativePath LIKE '%PhotoData/%'"
    );
}

#[test]
fn an_empty_filter_keeps_nothing() {
    assert_eq!(ManifestFilter::Extensions(vec![]).where_clause(), "WHERE 0");
    assert_eq!(ManifestFilter::PathParts(vec![]).where_clause(), "WHERE 0");
}

#[test]
fn a_single_extension_needs_no_separator() {
    let filter = ManifestFilter::Extensions(vec!["jpg".to_string()]);
    assert_eq!(filter.where_clause(), "WHERE lower(relativePath) LIKE '%.jpg'");
}

#[test]
fn quotes_in_a_filter_are_doubled() {
    let filter = ManifestFilter::Extensions(vec!["j'pg".to_string(), "'".to_string()]);
    assert_eq!(
        filter.where_clause(),
        "WHERE lower(relativePath) LIKE '%.j''pg'\n       OR lower(relativePath) LIKE '%.'''"
    );
    let filter = ManifestFilter::PathParts(vec!["it's/".to_string()]);
    assert_eq!(filter.where_clause(), "WHERE relativePath LIKE '%it''s/%'");
}

#[test]
fn queries_wrap_the_clause() {
    let filter = ManifestFilter::Extensions(vec!["png".to_string()]);
    assert_eq!(
        count_query(&filter),
        "SELECT COUNT(*) FROM Files WHERE lower(relativePath) LIKE '%.png';"
    );
    assert_eq!(
        entries_query(&filter),
        "SELECT fileID, relativePath FROM Files WHERE lower(relativePath) LIKE '%.png';"
    );
    assert_eq!(
        table_query(&filter, None),
        "SELECT * FROM Files WHERE lower(relativePath) LIKE '%.png';"
    );
    assert_eq!(
        table_query(&filter, Some(25)),
        "SELECT * FROM Files WHERE lower(relativePath) LIKE '%.png' LIMIT 25;"
    );
    assert_eq!(
        table_query(&filter, Some(0)),
        "SELECT * FROM Files WHERE lower(relativePath) LIKE '%.png' LIMIT 0;"
    );
    assert_eq!(columns_query(), "PRAGMA table_info(Files)");
}

#[test]
fn count_query_of_media_matches_the_filter() {
    assert_eq!(
        count_query(&ManifestFilter::media()),
        format!("SELECT COUNT(*) FROM Files {}", media_filter())
    );
}

#[test]
fn an_entry_clones_to_an_equal_entry() {
    let entry = ManifestEntry {
        file_id: "ab12".to_string(),
        relative_path: "Media/DCIM/IMG_0001.JPG".to_string(),
    };
    assert_eq!(entry.clone(), entry);
}

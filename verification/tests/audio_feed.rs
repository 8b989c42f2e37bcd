use waystone::audio_feed::{
    feed_updated, generate_feed, keep_unmanaged_entries, load_preserved_atom_entries,
    load_valid_feed_entries, render_atom_feed, render_feed_xml_entry, FeedEntryFile,
    FeedXmlEntry, GenerateFeedOptions,
};
use waystone::audio_metadata::{
    AudioMetadata, AudioMetadataError, EnclosureSection, FeedEntryContext, FeedEntryMetadata,
    FeedEntrySection, LinkedRecording, PublicationFiles, PublicationSection, RecordingSection,
};
use waystone::feed_xml::{atom_feed_entries, extract_xml_text, xml_unescape, PreservedAtomEntry};
use waystone::text::xml_escape;

fn xml_entry(id: &str, updated: &str) -> FeedXmlEntry {
    FeedXmlEntry {
        id: id.to_string(),
        title: format!("Title {id}"),
        updated: updated.to_string(),
        summary: "Summary & more".to_string(),
        feed: "feeds/feed.xml".to_string(),
        enclosure_path: format!("audio/published/{id}.opus"),
        enclosure_mime_type: "audio/ogg; codecs=opus".to_string(),
    }
}

fn options() -> GenerateFeedOptions {
    GenerateFeedOptions {
        project_root: "/p/feed.wayproject".to_string(),
        feed_path: "feeds/feed.xml".to_string(),
        title: "Metadata Feed".to_string(),
    }
}

#[test]
fn generate_feed_rejects_malformed_existing_feed_xml() {
    let error = generate_feed(&options(), Ok(()), Ok(None), Ok(Some("not atom xml".to_string())))
        .expect_err("malformed existing feed XML should fail");

    assert!(matches!(error, AudioMetadataError::InvalidFeedXml { .. }));
}

#[test]
fn placeholder_feed_is_replaced() {
    let out = generate_feed(
        &options(),
        Ok(()),
        Ok(None),
        Ok(Some("WaystoneOS feed placeholder\n".to_string())),
    )
    .expect("placeholder should be replaced");
    assert_eq!(out.feed.entries, 0);
    assert_eq!(out.feed.updated, "1970-01-01T00:00:00Z");
    assert_eq!(out.feed.feed_path, "/p/feed.wayproject/feeds/feed.xml");
    assert_eq!(
        out.xml,
        "<?xml version=\"1.0\" encoding=\"utf-8\"?>\n<feed xmlns=\"http://www.w3.org/2005/Atom\">\n  <title>Metadata Feed</title>\n  <id>waystone:feed:feeds/feed.xml</id>\n  <updated>1970-01-01T00:00:00Z</updated>\n</feed>\n"
    );
}

#[test]
fn generate_feed_refuses_escaping_feed_path() {
    let mut o = options();
    o.feed_path = "../feed.xml".to_string();
    assert!(matches!(
        generate_feed(&o, Ok(()), Ok(None), Ok(None)),
        Err(AudioMetadataError::InvalidAudioPath { field, .. }) if field == "feed.path"
    ));
    assert!(matches!(
        generate_feed(&options(), Err(AudioMetadataError::ProjectNotFound("/p".to_string())), Ok(None), Ok(None)),
        Err(AudioMetadataError::ProjectNotFound(_))
    ));
}

#[test]
fn feed_entry_xml_is_escaped() {
    assert_eq!(
        render_feed_xml_entry(&xml_entry("a", "2026-01-01T00:00:00Z")),
        "  <entry>\n    <id>a</id>\n    <title>Title a</title>\n    <updated>2026-01-01T00:00:00Z</updated>\n    <summary>Summary &amp; more</summary>\n    <link rel=\"enclosure\" href=\"audio/published/a.opus\" type=\"audio/ogg; codecs=opus\" />\n  </entry>\n"
    );
}

#[test]
fn unescaping_undoes_escaping() {
    for text in ["a & b", "<tag attr=\"v\">", "&amp;", "plain", "&lt;&gt;"] {
        assert_eq!(xml_unescape(&xml_escape(text)), text);
    }
    assert_eq!(xml_unescape("&amp;lt;"), "&lt;");
}

#[test]
fn atom_entries_are_read_in_order() {
    let feed = "<feed>\n  <entry>\n    <id>one</id>\n    <updated>2026-01-02T00:00:00Z</updated>\n  </entry>\n  <entry><id>t&amp;wo</id></entry>\n</feed>\n";
    let entries = atom_feed_entries(feed).expect("entries");
    assert_eq!(entries.len(), 2);
    assert_eq!(entries[0].id.as_deref(), Some("one"));
    assert_eq!(entries[0].updated.as_deref(), Some("2026-01-02T00:00:00Z"));
    assert!(entries[0].xml.starts_with("<entry>") && entries[0].xml.ends_with("</entry>"));
    assert_eq!(entries[1].id.as_deref(), Some("t&wo"));
    assert_eq!(entries[1].updated, None);
}

#[test]
fn broken_atom_entries_are_refused() {
    assert_eq!(
        atom_feed_entries("<feed><entry").err().as_deref(),
        Some("entry start tag is incomplete")
    );
    assert_eq!(
        atom_feed_entries("<feed><entry><id>x</id></feed>").err().as_deref(),
        Some("entry end tag is missing")
    );
}

#[test]
fn xml_text_is_trimmed() {
    assert_eq!(extract_xml_text("<a> <id> x </id></a>", "id").as_deref(), Some("x"));
    assert_eq!(extract_xml_text("<a></a>", "id"), None);
}

#[test]
fn managed_entries_replace_kept_ones() {
    let feed = "<feed><entry><id>a</id></entry><entry><id>b</id><updated>2030-01-01T00:00:00Z</updated></entry><entry><title>no id</title></entry></feed>";
    let managed = vec![xml_entry("a", "2026-01-01T00:00:00Z")];
    let kept = load_preserved_atom_entries("/p/feeds/feed.xml", Ok(Some(feed.to_string())), &managed)
        .expect("feed reads");
    assert_eq!(kept.len(), 2);
    assert_eq!(kept[0].id.as_deref(), Some("b"));
    assert_eq!(kept[1].id, None);
    assert_eq!(feed_updated(&managed, &kept), "2030-01-01T00:00:00Z");
}

#[test]
fn keeping_filters_by_managed_id() {
    let entries = vec![
        PreservedAtomEntry { id: Some("x".to_string()), updated: None, xml: "<entry/>".to_string() },
        PreservedAtomEntry { id: Some("y".to_string()), updated: None, xml: "<entry/>".to_string() },
    ];
    let kept = keep_unmanaged_entries(entries, &vec![xml_entry("y", "u")]);
    assert_eq!(kept.len(), 1);
    assert_eq!(kept[0].id.as_deref(), Some("x"));
}

#[test]
fn feed_update_time_is_the_latest() {
    let managed = vec![xml_entry("a", "2026-01-01T00:00:00Z"), xml_entry("b", "2026-03-01T00:00:00Z")];
    assert_eq!(feed_updated(&managed, &vec![]), "2026-03-01T00:00:00Z");
    assert_eq!(feed_updated(&vec![], &vec![]), "1970-01-01T00:00:00Z");
}

#[test]
fn rendered_feed_puts_kept_entries_last() {
    let kept = vec![PreservedAtomEntry {
        id: Some("old".to_string()),
        updated: None,
        xml: "<entry><id>old</id></entry>".to_string(),
    }];
    let xml = render_atom_feed("T", "feeds/feed.xml", "u", &vec![xml_entry("a", "u")], &kept);
    assert!(xml.ends_with("  </entry>\n<entry><id>old</id></entry>\n</feed>\n"));
}

fn recording(id: &str) -> AudioMetadata {
    AudioMetadata {
        recording: RecordingSection {
            id: id.to_string(),
            title: format!("Title {id}"),
            master: format!("audio/masters/{id}.flac"),
            published: Some(format!("audio/published/{id}.opus")),
            duration_seconds: None,
            channels: None,
            sample_rate: None,
        },
        publication: Some(PublicationSection {
            feed: Some("feeds/feed.xml".to_string()),
            entry_id: Some(id.to_string()),
            mime_type: Some("audio/ogg; codecs=opus".to_string()),
        }),
    }
}

fn entry_file(id: &str, updated: &str) -> FeedEntryFile {
    FeedEntryFile {
        path: format!("/p/feeds/entries/{id}.toml"),
        entry: Ok(FeedEntryMetadata {
            entry: Some(FeedEntrySection {
                id: Some(id.to_string()),
                title: Some(format!("Title {id}")),
                updated: Some(updated.to_string()),
                summary: Some("Summary & more".to_string()),
                feed: Some("feeds/feed.xml".to_string()),
                recording: Some(id.to_string()),
                recording_metadata: Some(format!("audio/metadata/{id}.toml")),
            }),
            enclosure: Some(EnclosureSection {
                path: Some(format!("audio/published/{id}.opus")),
                mime_type: Some("audio/ogg; codecs=opus".to_string()),
            }),
        }),
        context: FeedEntryContext {
            relative_path: Some(format!("feeds/entries/{id}.toml")),
            enclosure_is_file: true,
            recording: Some(Ok(LinkedRecording {
                metadata: recording(id),
                relative_path: Some(format!("audio/metadata/{id}.toml")),
                files: PublicationFiles { master_is_file: true, published_is_file: true },
            })),
            other_entries: Ok(vec![]),
        },
    }
}

#[test]
fn valid_entries_come_newest_first_then_by_id() {
    let entries = load_valid_feed_entries(
        "feeds/feed.xml",
        Ok(Some(vec![
            entry_file("b", "2026-01-01T00:00:00Z"),
            entry_file("c", "2026-02-01T00:00:00Z"),
            entry_file("a", "2026-01-01T00:00:00Z"),
        ])),
    )
    .expect("entries load");
    let ids: Vec<&str> = entries.iter().map(|e| e.id.as_str()).collect();
    assert_eq!(ids, vec!["c", "a", "b"]);
}

#[test]
fn an_entry_of_another_feed_is_refused() {
    let error = load_valid_feed_entries("feeds/other.xml", Ok(Some(vec![entry_file("a", "u")])))
        .expect_err("feed mismatch");
    match error {
        AudioMetadataError::InvalidFeedEntry { path, issues } => {
            assert_eq!(path, "/p/feeds/entries/a.toml");
            assert_eq!(
                issues,
                vec!["entry.feed does not match configured feed path: feeds/feed.xml != feeds/other.xml"]
            );
        }
        other => panic!("unexpected error: {other:?}"),
    }
}

#[test]
fn an_invalid_entry_lists_its_issues() {
    let mut file = entry_file("a", "u");
    file.context.enclosure_is_file = false;
    let error = load_valid_feed_entries("feeds/feed.xml", Ok(Some(vec![file]))).expect_err("invalid");
    match error {
        AudioMetadataError::InvalidFeedEntry { issues, .. } => {
            assert_eq!(issues.len(), 1);
            assert!(issues[0].starts_with("missing_enclosure_audio: "));
        }
        other => panic!("unexpected error: {other:?}"),
    }
}

#[test]
fn generated_feed_counts_generated_and_kept_entries() {
    let existing = "<feed><entry><id>kept</id><updated>2025-01-01T00:00:00Z</updated></entry></feed>";
    let out = generate_feed(
        &options(),
        Ok(()),
        Ok(Some(vec![entry_file("a", "2026-01-01T00:00:00Z")])),
        Ok(Some(existing.to_string())),
    )
    .expect("feed generates");
    assert_eq!(out.feed.entries, 2);
    assert_eq!(out.feed.updated, "2026-01-01T00:00:00Z");
    assert!(out.xml.contains("<summary>Summary &amp; more</summary>"));
    assert!(out.xml.contains("<entry><id>kept</id>"));
}

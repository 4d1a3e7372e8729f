use cococa_clip::history::{
    capture_from_pasteboard, ensure_restorable, file_name_from_url, history_database_path,
    history_directory, is_file_url_type, is_image_type, is_text_type, normalize_preview,
    summarize_capture, truncate_preview, paste_entry, poll_clipboard_change, ClipboardCapture,
    PasteAction, PasteEvent, PollAction, PollEvent,
    ClipboardItem, ClipboardRepresentation, ClipboardWatcher,
    HistoryEntry, PasteboardTypeRead, RepresentationKind,
};

fn read(type_identifier: &str, text: Option<&str>, data: Option<&[u8]>) -> PasteboardTypeRead {
    PasteboardTypeRead {
        type_identifier: type_identifier.to_string(),
        text: text.map(|t| t.to_string()),
        data: data.map(|d| d.to_vec()),
        property_list: Ok(None),
    }
}

#[test]
fn normalize_preview_takes_trimmed_first_line() {
    assert_eq!(normalize_preview("  hello world  \nsecond line"), "hello world");
    assert_eq!(normalize_preview(""), "");
    assert_eq!(normalize_preview("\n first line is empty"), "");
    assert_eq!(normalize_preview("\u{3000}全角空格\r\n下一行"), "全角空格");
    assert_eq!(normalize_preview("\t\tonly line\t"), "only line");
}

#[test]
fn truncate_preview_cuts_and_marks() {
    assert_eq!(truncate_preview("abcdef", 3), "abc…");
    assert_eq!(truncate_preview("abc", 3), "abc");
    assert_eq!(truncate_preview("", 0), "");
    assert_eq!(truncate_preview("ab", 0), "…");
    assert_eq!(truncate_preview("复制的内容", 2), "复制…");
}

#[test]
fn file_name_from_url_takes_last_segment() {
    assert_eq!(file_name_from_url("file:///Users/me/Documents/report.pdf"), "report.pdf");
    assert_eq!(file_name_from_url("file:///Users/me/Folder/"), "Folder");
    assert_eq!(file_name_from_url("file:///Users/me/Folder///"), "Folder");
    assert_eq!(file_name_from_url("///"), "///");
    assert_eq!(file_name_from_url("name.txt"), "name.txt");
    assert_eq!(file_name_from_url(""), "");
}

#[test]
fn type_identifier_classes() {
    assert!(is_text_type("public.utf8-plain-text"));
    assert!(is_text_type("public.utf16-plain-text"));
    assert!(is_text_type("public.text-extended"));
    assert!(is_text_type("NSStringPboardType"));
    assert!(is_text_type("public.plain-text"));
    assert!(!is_text_type("public.html"));
    assert!(!is_text_type("text"));

    assert!(is_file_url_type("public.file-url"));
    assert!(is_file_url_type("com.example.file-url-list"));
    assert!(!is_file_url_type("public.url"));

    assert!(is_image_type("public.png"));
    assert!(is_image_type("public.jpeg"));
    assert!(is_image_type("public.tiff"));
    assert!(is_image_type("com.apple.image-data"));
    assert!(!is_image_type("com.adobe.pdf"));
}

#[test]
fn representation_kind_labels_round_trip() {
    for kind in [
        RepresentationKind::Data,
        RepresentationKind::Text,
        RepresentationKind::PropertyList,
    ] {
        assert_eq!(RepresentationKind::from_label(kind.label()), kind);
    }
    assert_eq!(RepresentationKind::Data.label(), "data");
    assert_eq!(RepresentationKind::Text.label(), "string");
    assert_eq!(RepresentationKind::PropertyList.label(), "plist");
    assert_eq!(RepresentationKind::from_label("unknown"), RepresentationKind::Data);
    assert_eq!(RepresentationKind::from_label(""), RepresentationKind::Data);
}

#[test]
fn watcher_reports_each_change_once() {
    let mut watcher = ClipboardWatcher::new(5);
    assert!(!watcher.observe_change_count(5));
    assert!(watcher.observe_change_count(6));
    assert_eq!(watcher.last_change_count, 6);
    assert!(!watcher.observe_change_count(6));
}

#[test]
fn own_write_is_not_taken_for_a_copy() {
    let mut watcher = ClipboardWatcher::new(1);
    watcher.record_own_write(9);
    assert!(!watcher.observe_change_count(9));
    assert!(watcher.observe_change_count(10));
}

#[test]
fn ensure_restorable_refuses_empty_entries() {
    assert_eq!(
        ensure_restorable(42, &Vec::new()),
        Err("未找到可恢复的剪切板条目: 42".to_string())
    );
    assert_eq!(
        ensure_restorable(-7, &Vec::new()),
        Err("未找到可恢复的剪切板条目: -7".to_string())
    );
    assert_eq!(
        ensure_restorable(i64::MIN, &Vec::new()),
        Err("未找到可恢复的剪切板条目: -9223372036854775808".to_string())
    );
    let items = vec![ClipboardItem {
        item_index: 0,
        representations: vec![ClipboardRepresentation {
            type_identifier: "public.utf8-plain-text".to_string(),
            kind: RepresentationKind::Text,
            payload: b"x".to_vec(),
        }],
    }];
    assert_eq!(ensure_restorable(1, &items), Ok(()));
}

#[test]
fn text_capture_is_titled_by_its_first_line() {
    let items = vec![vec![read("public.utf8-plain-text", Some("Hello\nworld"), None)]];
    let capture = capture_from_pasteboard(&items).unwrap().unwrap();
    assert_eq!(capture.title, "Hello");
    assert_eq!(capture.subtitle, "文本 · 1 项 · 1 个原始表示");
    assert_eq!(capture.items.len(), 1);
    assert_eq!(capture.items[0].item_index, 0);
    let rep = &capture.items[0].representations[0];
    assert_eq!(rep.kind, RepresentationKind::Text);
    assert_eq!(rep.type_identifier, "public.utf8-plain-text");
    assert_eq!(rep.payload, b"Hello\nworld".to_vec());
}

#[test]
fn data_is_kept_before_text_and_property_lists() {
    let items = vec![vec![PasteboardTypeRead {
        type_identifier: "public.utf8-plain-text".to_string(),
        text: Some("text".to_string()),
        data: Some(vec![1, 2, 3]),
        property_list: Err("never read".to_string()),
    }]];
    let capture = capture_from_pasteboard(&items).unwrap().unwrap();
    let rep = &capture.items[0].representations[0];
    assert_eq!(rep.kind, RepresentationKind::Data);
    assert_eq!(rep.payload, vec![1, 2, 3]);
    assert_eq!(capture.title, "text");
}

#[test]
fn property_list_is_kept_when_nothing_else_is_there() {
    let items = vec![vec![PasteboardTypeRead {
        type_identifier: "com.apple.plist".to_string(),
        text: None,
        data: None,
        property_list: Ok(Some(vec![0x62, 0x70])),
    }]];
    let capture = capture_from_pasteboard(&items).unwrap().unwrap();
    let rep = &capture.items[0].representations[0];
    assert_eq!(rep.kind, RepresentationKind::PropertyList);
    assert_eq!(rep.payload, vec![0x62, 0x70]);
    assert_eq!(capture.title, "其他剪切板内容");
    assert_eq!(capture.subtitle, "com.apple.plist");
}

#[test]
fn property_list_error_stops_the_capture() {
    let items = vec![vec![
        read("public.png", None, Some(&[1])),
        PasteboardTypeRead {
            type_identifier: "com.apple.plist".to_string(),
            text: None,
            data: None,
            property_list: Err("序列化 property list 失败".to_string()),
        },
    ]];
    assert_eq!(
        capture_from_pasteboard(&items).err(),
        Some("序列化 property list 失败".to_string())
    );
}

#[test]
fn file_captures_list_the_file_names() {
    let items = vec![
        vec![read("public.file-url", Some("file:///tmp/a.txt"), None)],
        vec![read("public.file-url", Some("file:///tmp/pictures/b.png"), None)],
    ];
    let capture = capture_from_pasteboard(&items).unwrap().unwrap();
    assert_eq!(capture.title, "2 个文件");
    assert_eq!(capture.subtitle, "文件 · a.txt、b.png");
    assert_eq!(capture.items.len(), 2);
    assert_eq!(capture.items[1].item_index, 1);

    let single = vec![vec![read("public.file-url", Some("file:///tmp/a.txt"), None)]];
    let capture = capture_from_pasteboard(&single).unwrap().unwrap();
    assert_eq!(capture.title, "a.txt");
    assert_eq!(capture.subtitle, "文件 · a.txt");
}

#[test]
fn image_captures_count_items() {
    let one = vec![vec![read("public.png", None, Some(&[0x89, 0x50]))]];
    let capture = capture_from_pasteboard(&one).unwrap().unwrap();
    assert_eq!(capture.title, "图片");
    assert_eq!(capture.subtitle, "图片 · 1 个原始表示");

    let two = vec![
        vec![
            read("public.png", None, Some(&[1])),
            read("public.tiff", None, Some(&[2])),
        ],
        vec![read("public.jpeg", None, Some(&[3]))],
    ];
    let capture = capture_from_pasteboard(&two).unwrap().unwrap();
    assert_eq!(capture.title, "2 个图片项目");
    assert_eq!(capture.subtitle, "图片 · 3 个原始表示");
}

#[test]
fn other_captures_list_leading_types() {
    let items = vec![vec![
        read("com.x.one", None, Some(&[1])),
        read("com.x.two", None, Some(&[2])),
        read("com.x.three", None, Some(&[3])),
        read("com.x.four", None, Some(&[4])),
    ]];
    let capture = capture_from_pasteboard(&items).unwrap().unwrap();
    assert_eq!(capture.title, "其他剪切板内容");
    assert_eq!(capture.subtitle, "com.x.one · com.x.two · com.x.three");
    assert_eq!(capture.items[0].representations.len(), 4);
}

#[test]
fn empty_pasteboard_gives_no_capture() {
    assert!(capture_from_pasteboard(&Vec::new()).unwrap().is_none());
    let unreadable = vec![vec![read("com.x.nothing", None, None)], Vec::new()];
    assert!(capture_from_pasteboard(&unreadable).unwrap().is_none());
}

#[test]
fn unreadable_items_keep_later_positions() {
    let items = vec![Vec::new(), vec![read("com.x.blob", None, Some(&[7]))]];
    let capture = capture_from_pasteboard(&items).unwrap().unwrap();
    assert_eq!(capture.items.len(), 1);
    assert_eq!(capture.items[0].item_index, 1);
}

#[test]
fn text_preview_comes_from_first_text_type_with_a_value() {
    let items = vec![vec![
        read("public.utf8-plain-text", None, Some(&[9])),
        read("public.utf16-plain-text", Some("  second  "), None),
        read("public.text", Some("third"), None),
    ]];
    let capture = capture_from_pasteboard(&items).unwrap().unwrap();
    assert_eq!(capture.title, "second");
    assert_eq!(capture.subtitle, "文本 · 1 项 · 3 个原始表示");
}

#[test]
fn summary_counts_and_cuts() {
    let long = "x".repeat(50);
    let (title, subtitle) = summarize_capture(&Some(long), &Vec::new(), false, &Vec::new(), 12, 34);
    assert_eq!(title, format!("{}…", "x".repeat(42)));
    assert_eq!(subtitle, "文本 · 12 项 · 34 个原始表示");

    let files: Vec<String> = (0..10).map(|i| format!("document-{i}.txt")).collect();
    let (title, subtitle) = summarize_capture(&None, &files, true, &Vec::new(), 10, 10);
    assert_eq!(title, "10 个文件");
    assert_eq!(subtitle.chars().count(), 55);
    assert!(subtitle.ends_with('…'));
    assert!(subtitle.starts_with("文件 · document-0.txt、document-1.txt"));
}

#[test]
fn history_database_lives_under_application_support() {
    let dir = history_directory("/Users/me");
    assert_eq!(dir, "/Users/me/Library/Application Support/cococa-clip");
    assert_eq!(
        history_database_path(&dir),
        "/Users/me/Library/Application Support/cococa-clip/clipboard-history.sqlite3"
    );
    assert_eq!(
        history_directory("/Users/me/"),
        "/Users/me/Library/Application Support/cococa-clip"
    );
}

#[test]
fn history_entry_is_plain_data() {
    let entry = HistoryEntry { id: 3, title: "t".to_string(), subtitle: "s".to_string() };
    let copy = entry.clone();
    assert_eq!(copy.id, 3);
    assert_eq!(copy.title, "t");
    assert_eq!(copy.subtitle, "s");
}

fn one_text_item() -> Vec<ClipboardItem> {
    vec![ClipboardItem {
        item_index: 0,
        representations: vec![ClipboardRepresentation {
            type_identifier: "public.utf8-plain-text".to_string(),
            kind: RepresentationKind::Text,
            payload: b"x".to_vec(),
        }],
    }]
}

fn text_capture() -> ClipboardCapture {
    ClipboardCapture { items: one_text_item(), title: "x".to_string(), subtitle: "文本".to_string() }
}

#[test]
fn poll_stores_a_new_copy_once() {
    let mut watcher = ClipboardWatcher::new(3);
    let action = poll_clipboard_change(&mut watcher, PollEvent::CountRead(Ok(4)));
    assert!(matches!(action, PollAction::ReadCapture));
    assert_eq!(watcher.last_change_count, 4);
    let action = poll_clipboard_change(&mut watcher, PollEvent::CaptureRead(Ok(Some(text_capture()))));
    match action {
        PollAction::Store(capture) => assert_eq!(capture.title, "x"),
        _ => panic!("the capture is stored"),
    }
    let action = poll_clipboard_change(&mut watcher, PollEvent::Stored(Ok(1)));
    assert!(matches!(action, PollAction::Finish(Ok(true))));

    let action = poll_clipboard_change(&mut watcher, PollEvent::CountRead(Ok(4)));
    assert!(matches!(action, PollAction::Finish(Ok(false))));
    assert_eq!(watcher.last_change_count, 4);
}

#[test]
fn poll_of_an_empty_pasteboard_stores_nothing() {
    let mut watcher = ClipboardWatcher::new(3);
    assert!(matches!(
        poll_clipboard_change(&mut watcher, PollEvent::CountRead(Ok(5))),
        PollAction::ReadCapture
    ));
    assert!(matches!(
        poll_clipboard_change(&mut watcher, PollEvent::CaptureRead(Ok(None))),
        PollAction::Finish(Ok(false))
    ));
    assert_eq!(watcher.last_change_count, 5);
}

#[test]
fn poll_hands_back_errors_and_consumes_the_change() {
    let mut watcher = ClipboardWatcher::new(3);
    match poll_clipboard_change(&mut watcher, PollEvent::CountRead(Err("count".to_string()))) {
        PollAction::Finish(r) => assert_eq!(r, Err("count".to_string())),
        _ => panic!("the poll ends"),
    }
    assert_eq!(watcher.last_change_count, 3);

    assert!(matches!(
        poll_clipboard_change(&mut watcher, PollEvent::CountRead(Ok(6))),
        PollAction::ReadCapture
    ));
    match poll_clipboard_change(&mut watcher, PollEvent::CaptureRead(Err("read".to_string()))) {
        PollAction::Finish(r) => assert_eq!(r, Err("read".to_string())),
        _ => panic!("the poll ends"),
    }
    assert!(matches!(
        poll_clipboard_change(&mut watcher, PollEvent::CountRead(Ok(6))),
        PollAction::Finish(Ok(false))
    ));

    match poll_clipboard_change(&mut watcher, PollEvent::Stored(Err("insert".to_string()))) {
        PollAction::Finish(r) => assert_eq!(r, Err("insert".to_string())),
        _ => panic!("the poll ends"),
    }
}

#[test]
fn pasting_an_entry_records_its_own_write() {
    let mut watcher = ClipboardWatcher::new(3);
    match paste_entry(&mut watcher, 8, PasteEvent::Loaded(Ok(one_text_item()))) {
        PasteAction::Write(items) => assert_eq!(items.len(), 1),
        _ => panic!("the items are written"),
    }
    assert_eq!(watcher.last_change_count, 3);
    assert!(matches!(paste_entry(&mut watcher, 8, PasteEvent::Written(Ok(11))), PasteAction::Paste));
    assert_eq!(watcher.last_change_count, 11);
    assert!(matches!(
        paste_entry(&mut watcher, 8, PasteEvent::Pasted(Ok(()))),
        PasteAction::Finish(Ok(()))
    ));
    assert!(matches!(
        poll_clipboard_change(&mut watcher, PollEvent::CountRead(Ok(11))),
        PollAction::Finish(Ok(false))
    ));
}

#[test]
fn pasting_an_empty_entry_is_refused() {
    let mut watcher = ClipboardWatcher::new(3);
    match paste_entry(&mut watcher, 12, PasteEvent::Loaded(Ok(Vec::new()))) {
        PasteAction::Finish(r) => assert_eq!(r, Err("未找到可恢复的剪切板条目: 12".to_string())),
        _ => panic!("nothing is written"),
    }
    assert_eq!(watcher.last_change_count, 3);
}

#[test]
fn pasting_hands_back_errors() {
    let mut watcher = ClipboardWatcher::new(3);
    match paste_entry(&mut watcher, 1, PasteEvent::Loaded(Err("load".to_string()))) {
        PasteAction::Finish(r) => assert_eq!(r, Err("load".to_string())),
        _ => panic!("the paste ends"),
    }
    match paste_entry(&mut watcher, 1, PasteEvent::Written(Err("write".to_string()))) {
        PasteAction::Finish(r) => assert_eq!(r, Err("write".to_string())),
        _ => panic!("nothing is pasted"),
    }
    assert_eq!(watcher.last_change_count, 3);
    match paste_entry(&mut watcher, 1, PasteEvent::Pasted(Err("keys".to_string()))) {
        PasteAction::Finish(r) => assert_eq!(r, Err("keys".to_string())),
        _ => panic!("the paste ends"),
    }
}

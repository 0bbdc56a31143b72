use word_index::search::Action;
use word_index::search::Event;
use word_index::search::SearchState;
use word_index::structs::Entry;
use word_index::structs::EntryKind;
use word_index::structs::Extracted;
use word_index::structs::FileRead;
use word_index::structs::Modified;

fn file(path: &str, name: &str, seconds: u64) -> Entry {
    Entry {
        path: path.to_string(),
        file_name: Some(name.to_string()),
        kind: EntryKind::File,
        modified: Modified::At(seconds),
    }
}

/// Runs one indexing pass over `files` (path, name, seconds, content) and
/// returns how many of them were extracted.
fn index_files(state: &SearchState, files: &[(&str, &str, u64, &str)]) -> usize {
    let mut run = state.begin().expect("writer");
    let mut extracted = 0;
    for (path, name, seconds, content) in files {
        let turn = state.step(&mut run, Event::Found(file(path, name, *seconds)));
        match turn.action {
            Action::Extract(doc) => {
                extracted += 1;
                let source = Extracted::Plain(FileRead::Bytes(content.as_bytes().to_vec()));
                let next = state.step(&mut run, Event::Extracted { doc, source });
                assert!(matches!(next.action, Action::Crawl));
                assert!(next.warning.is_none());
            }
            Action::Crawl => {}
            Action::Done(_) => panic!("the run ended early"),
        }
    }
    let end = state.step(&mut run, Event::Exhausted);
    assert!(matches!(end.action, Action::Done(Ok(()))));
    extracted
}

#[test]
fn search_finds_the_file_that_holds_the_keyword() {
    let state = SearchState::in_memory().expect("index");
    let files = [
        ("/root/report.txt", "report.txt", 10, "quarterly revenue"),
        ("/root/notes.md", "notes.md", 11, "unrelated"),
    ];
    assert_eq!(index_files(&state, &files), 2);
    let found = state.search("revenue".to_string(), 0, 10, None).expect("search");
    assert_eq!(found.total, 1);
    assert_eq!(found.offset, 0);
    assert_eq!(found.limit, 10);
    assert_eq!(found.results.len(), 1);
    assert_eq!(found.results[0].get_name(), "report.txt");
    assert_eq!(found.results[0].get_path(), "/root/report.txt");
    assert_eq!(found.results[0].get_content(), "quarterly revenue");
    assert_eq!(found.results[0].get_id(), "");
    assert_eq!(found.results[0].get_timestamp(), 0);
}

#[test]
fn a_second_pass_extracts_nothing() {
    let state = SearchState::in_memory().expect("index");
    let files = [
        ("/root/report.txt", "report.txt", 10, "quarterly revenue"),
        ("/root/notes.md", "notes.md", 11, "unrelated"),
    ];
    assert_eq!(index_files(&state, &files), 2);
    let before = state.search(String::new(), 0, 10, None).expect("search").total;
    assert_eq!(before, 2);
    assert_eq!(index_files(&state, &files), 0);
    let after = state.search(String::new(), 0, 10, None).expect("search").total;
    assert_eq!(after, 2);
}

#[test]
fn a_touched_file_is_replaced_once() {
    let state = SearchState::in_memory().expect("index");
    let files = [("/root/report.txt", "report.txt", 10, "quarterly revenue")];
    assert_eq!(index_files(&state, &files), 1);
    let touched = [("/root/report.txt", "report.txt", 20, "annual revenue")];
    assert_eq!(index_files(&state, &touched), 1);
    let found = state.search(String::new(), 0, 10, None).expect("search");
    assert_eq!(found.total, 1);
    assert_eq!(found.results.len(), 1);
    assert_eq!(found.results[0].get_content(), "annual revenue");
}

#[test]
fn every_indexed_file_is_found_by_its_name() {
    let state = SearchState::in_memory().expect("index");
    let files = [
        ("/root/report.txt", "report.txt", 10, "quarterly revenue"),
        ("/root/notes.md", "notes.md", 11, "unrelated"),
        ("/root/schema.sql", "schema.sql", 12, "create table t"),
    ];
    assert_eq!(index_files(&state, &files), 3);
    for (token, name) in [("report", "report.txt"), ("notes", "notes.md"), ("schema", "schema.sql")] {
        let found = state.search(token.to_string(), 0, 1, None).expect("search");
        assert!(found.total >= 1);
        assert_eq!(found.results.len(), 1);
        assert_eq!(found.results[0].get_name(), name);
    }
}

#[test]
fn neighbouring_pages_make_up_the_larger_page() {
    let state = SearchState::in_memory().expect("index");
    let files = [
        ("/root/a.txt", "a.txt", 1, "revenue"),
        ("/root/b.txt", "b.txt", 2, "revenue revenue"),
        ("/root/c.txt", "c.txt", 3, "revenue of the quarter"),
        ("/root/d.txt", "d.txt", 4, "the revenue and the revenue again"),
        ("/root/e.txt", "e.txt", 5, "no match here"),
    ];
    assert_eq!(index_files(&state, &files), 5);
    let first = state.search("revenue".to_string(), 0, 2, None).expect("search");
    let second = state.search("revenue".to_string(), 2, 2, None).expect("search");
    let both = state.search("revenue".to_string(), 0, 4, None).expect("search");
    assert_eq!(first.total, 4);
    assert_eq!(second.total, 4);
    assert_eq!(both.total, 4);
    assert_eq!(second.offset, 2);
    assert_eq!(second.limit, 2);
    let paths = |fruit: &word_index::structs::SearchFruit| -> Vec<String> {
        fruit.results.iter().map(|d| d.get_path().to_string()).collect()
    };
    let (p1, p2, p4) = (paths(&first), paths(&second), paths(&both));
    assert_eq!(p1.len(), 2);
    assert_eq!(p2.len(), 2);
    assert!(p1.iter().all(|p| !p2.contains(p)));
    let mut joined = p1.clone();
    joined.extend(p2.clone());
    assert_eq!(joined, p4);
}

#[test]
fn a_page_beyond_the_matches_is_empty() {
    let state = SearchState::in_memory().expect("index");
    let files = [
        ("/root/a.txt", "a.txt", 1, "revenue"),
        ("/root/b.txt", "b.txt", 2, "revenue"),
        ("/root/c.txt", "c.txt", 3, "revenue"),
    ];
    assert_eq!(index_files(&state, &files), 3);
    let last = state.search("revenue".to_string(), 2, 5, None).expect("search");
    assert_eq!(last.total, 3);
    assert_eq!(last.results.len(), 1);
    let beyond = state.search("revenue".to_string(), 3, 5, None).expect("search");
    assert_eq!(beyond.total, 3);
    assert_eq!(beyond.results.len(), 0);
    let all = state.search(String::new(), 0, 10, Some(Vec::new())).expect("search");
    assert_eq!(all.total, 3);
    assert_eq!(all.results.len(), 3);
}

#[test]
fn an_unsupported_file_never_reaches_the_index() {
    let state = SearchState::in_memory().expect("index");
    let mut run = state.begin().expect("writer");
    let turn = state.step(&mut run, Event::Found(file("/root/setup.exe", "setup.exe", 3)));
    assert!(matches!(turn.action, Action::Crawl));
    match turn.warning {
        Some(word_index::search::Warning::Rejected(e)) => {
            assert_eq!(e.message(), "未支持的文档类型：/root/setup.exe");
        }
        _ => panic!("the entry was not rejected"),
    }
    assert_eq!(run.uncommitted(), 0);
    let end = state.step(&mut run, Event::Exhausted);
    assert!(matches!(end.action, Action::Done(Ok(()))));
    let found = state.search("setup".to_string(), 0, 10, None).expect("search");
    assert_eq!(found.total, 0);
    assert!(found.results.is_empty());
}

#[test]
fn a_class_filter_keeps_only_its_classes() {
    let state = SearchState::in_memory().expect("index");
    let mut run = state.begin().expect("writer");
    for (path, name, tag) in [
        ("/root/first.txt", "first.txt", Some("A")),
        ("/root/second.txt", "second.txt", Some("B")),
        ("/root/third.txt", "third.txt", Some("A")),
        ("/root/fourth.txt", "fourth.txt", None),
    ] {
        let turn = state.step(&mut run, Event::Found(file(path, name, 7)));
        let mut doc = match turn.action {
            Action::Extract(doc) => doc,
            _ => panic!("no content was asked for"),
        };
        assert_eq!(doc.get_class(), None);
        doc.set_class(tag.map(|t| t.to_string()));
        assert_eq!(doc.get_class(), tag);
        let source = Extracted::Plain(FileRead::Bytes(b"quarterly revenue".to_vec()));
        let next = state.step(&mut run, Event::Extracted { doc, source });
        assert!(matches!(next.action, Action::Crawl));
        assert!(next.warning.is_none());
    }
    let end = state.step(&mut run, Event::Exhausted);
    assert!(matches!(end.action, Action::Done(Ok(()))));
    let all = state.search("revenue".to_string(), 0, 10, None).expect("search");
    assert_eq!(all.total, 4);
    let only_a = state
        .search("revenue".to_string(), 0, 10, Some(vec!["A".to_string()]))
        .expect("search");
    assert_eq!(only_a.total, 2);
    let mut names: Vec<String> = only_a.results.iter().map(|d| d.get_name().to_string()).collect();
    names.sort();
    assert_eq!(names, vec!["first.txt".to_string(), "third.txt".to_string()]);
    assert!(only_a.results.iter().all(|d| d.get_class().is_none()));
    let either = state
        .search("revenue".to_string(), 0, 10, Some(vec!["A".to_string(), "B".to_string()]))
        .expect("search");
    assert_eq!(either.total, 3);
    let listed = state.search(String::new(), 0, 10, Some(vec!["B".to_string()])).expect("search");
    assert_eq!(listed.total, 1);
    assert_eq!(listed.results[0].get_name(), "second.txt");
    let none = state.search("revenue".to_string(), 0, 10, Some(vec!["C".to_string()])).expect("search");
    assert_eq!(none.total, 0);
}

#[test]
fn a_malformed_query_is_a_parse_error() {
    let state = SearchState::in_memory().expect("index");
    match state.search("\"open".to_string(), 0, 10, None) {
        Err(e) => {
            assert!(matches!(e, word_index::search::Error::SearchParser { .. }));
            assert_eq!(e.message(), "解析检索语句失败");
        }
        Ok(_) => panic!("the query was accepted"),
    }
}

#[test]
fn a_batch_is_committed_when_it_is_full() {
    let state = SearchState::in_memory().expect("index");
    let mut run = state.begin().expect("writer");
    for i in 0..word_index::search::BATCH_NUM {
        let path = format!("/root/f{}.txt", i);
        let name = format!("f{}.txt", i);
        let turn = state.step(&mut run, Event::Found(file(&path, &name, 5)));
        let doc = match turn.action {
            Action::Extract(doc) => doc,
            _ => panic!("no content was asked for"),
        };
        let source = Extracted::Plain(FileRead::Bytes(b"text".to_vec()));
        let next = state.step(&mut run, Event::Extracted { doc, source });
        assert!(matches!(next.action, Action::Crawl));
        if i + 1 < word_index::search::BATCH_NUM {
            assert_eq!(run.uncommitted(), i + 1);
        } else {
            assert_eq!(run.uncommitted(), 0);
        }
    }
    let end = state.step(&mut run, Event::Exhausted);
    assert!(matches!(end.action, Action::Done(Ok(()))));
    let found = state.search(String::new(), 0, 1, None).expect("search");
    assert_eq!(found.total, word_index::search::BATCH_NUM);
}

#[test]
fn a_failed_crawl_ends_the_run() {
    let state = SearchState::in_memory().expect("index");
    let mut run = state.begin().expect("writer");
    let turn = state.step(&mut run, Event::CrawlFailed { reason: "permission denied".to_string() });
    assert!(turn.warning.is_none());
    match turn.action {
        Action::Done(Err(word_index::search::Error::ReadDir { source })) => {
            assert_eq!(source, "permission denied");
        }
        _ => panic!("the run did not end on the failure"),
    }
}

#[test]
fn a_file_that_cannot_be_read_is_skipped_with_a_warning() {
    let state = SearchState::in_memory().expect("index");
    let mut run = state.begin().expect("writer");
    let turn = state.step(&mut run, Event::Found(file("/root/a.txt", "a.txt", 5)));
    let doc = match turn.action {
        Action::Extract(doc) => doc,
        _ => panic!("no content was asked for"),
    };
    let source = Extracted::Plain(FileRead::Failed { reason: "gone".to_string() });
    let next = state.step(&mut run, Event::Extracted { doc, source });
    assert!(matches!(next.action, Action::Crawl));
    match next.warning {
        Some(word_index::search::Warning::NotWritten(e)) => {
            assert_eq!(e.message(), "无法打开或读取文件");
            match e {
                word_index::search::Error::OpenOrReadDocument { source } => {
                    assert_eq!(source.message(), "无法打开或读取文件：/root/a.txt");
                }
                _ => panic!("another error"),
            }
        }
        _ => panic!("no warning"),
    }
    assert_eq!(run.uncommitted(), 0);
    let end = state.step(&mut run, Event::Exhausted);
    assert!(matches!(end.action, Action::Done(Ok(()))));
    assert_eq!(state.search(String::new(), 0, 10, None).expect("search").total, 0);
}

#[test]
fn a_second_writer_is_refused() {
    let state = SearchState::in_memory().expect("index");
    let _run = state.begin().expect("writer");
    match state.begin() {
        Err(e) => assert_eq!(e.message(), "创建 WRITER 失败"),
        Ok(_) => panic!("two writers at once"),
    }
}

#[test]
fn a_missing_directory_cannot_be_opened() {
    match SearchState::new("/nonexistent/word-index/data") {
        Err(e) => assert_eq!(e.message(), "创建索引失败"),
        Ok(_) => panic!("an index was opened"),
    }
}

#[test]
fn an_index_on_disk_is_found_again() {
    let directory = tempfile::tempdir().expect("directory");
    let path = directory.path().to_str().expect("path").to_string();
    {
        let state = SearchState::new(&path).expect("index");
        let files = [("/root/report.txt", "report.txt", 10, "quarterly revenue")];
        assert_eq!(index_files(&state, &files), 1);
        assert_eq!(state.search("revenue".to_string(), 0, 10, None).expect("search").total, 1);
    }
    let state = SearchState::new(&path).expect("index");
    let found = state.search("revenue".to_string(), 0, 10, None).expect("search");
    assert_eq!(found.total, 1);
    assert_eq!(found.results[0].get_name(), "report.txt");
    let files = [("/root/report.txt", "report.txt", 10, "quarterly revenue")];
    assert_eq!(index_files(&state, &files), 0);
}

#[test]
fn words_are_found_whatever_their_case_and_script() {
    let state = SearchState::in_memory().expect("index");
    let files = [
        ("/root/a.txt", "a.txt", 1, "Quarterly REVENUE"),
        ("/root/b.txt", "b.txt", 2, "全文检索系统的设计"),
    ];
    assert_eq!(index_files(&state, &files), 2);
    let latin = state.search("revenue".to_string(), 0, 10, None).expect("search");
    assert_eq!(latin.total, 1);
    assert_eq!(latin.results[0].get_name(), "a.txt");
    let upper = state.search("REVENUE".to_string(), 0, 10, None).expect("search");
    assert_eq!(upper.total, 1);
    let cjk = state.search("检索".to_string(), 0, 10, None).expect("search");
    assert_eq!(cjk.total, 1);
    assert_eq!(cjk.results[0].get_name(), "b.txt");
}

#[test]
fn a_snapshot_is_of_the_index_it_was_taken_of() {
    let state = SearchState::in_memory().expect("index");
    let before = state.searcher();
    let names: Vec<String> =
        before.schema().fields().map(|(_, entry)| entry.name().to_string()).collect();
    assert_eq!(names, vec!["id", "name", "path", "content", "timestamp", "class"]);
    assert_eq!(before.num_docs(), 0);
    let files = [("/root/report.txt", "report.txt", 10, "quarterly revenue")];
    assert_eq!(index_files(&state, &files), 1);
    let after = state.searcher();
    assert_eq!(after.num_docs(), 1);
    assert_eq!(before.num_docs(), 0);
    let old = state.search_in(&before, "revenue", 0, 10, &None).expect("search");
    assert_eq!(old.total, 0);
    let new = state.search_in(&after, "revenue", 0, 10, &None).expect("search");
    assert_eq!(new.total, 1);
    assert_eq!(new.results[0].get_name(), "report.txt");
    let doc = word_index::structs::Docx::new(&file("/root/report.txt", "report.txt", 10))
        .expect("document");
    assert!(!state.is_current(&before, &doc));
    assert!(state.is_current(&after, &doc));
    let touched = word_index::structs::Docx::new(&file("/root/report.txt", "report.txt", 11))
        .expect("document");
    assert!(!state.is_current(&after, &touched));
}

#[test]
fn a_limit_of_zero_gives_the_count_and_an_empty_page() {
    let state = SearchState::in_memory().expect("index");
    let files = [
        ("/root/a.txt", "a.txt", 1, "revenue"),
        ("/root/b.txt", "b.txt", 2, "revenue"),
        ("/root/c.txt", "c.txt", 3, "other"),
    ];
    assert_eq!(index_files(&state, &files), 3);
    let found = state.search("revenue".to_string(), 0, 0, None).expect("search");
    assert_eq!(found.total, 2);
    assert_eq!(found.limit, 0);
    assert_eq!(found.offset, 0);
    assert!(found.results.is_empty());
    let later = state.search(String::new(), 7, 0, None).expect("search");
    assert_eq!(later.total, 3);
    assert_eq!(later.offset, 7);
    assert!(later.results.is_empty());
    assert!(matches!(
        state.search("\"open".to_string(), 0, 0, None),
        Err(word_index::search::Error::SearchParser { .. })
    ));
}

#[test]
fn a_found_document_is_passed_over_only_when_its_query_matched() {
    let doc = || {
        word_index::structs::Docx::new(&file("/root/report.txt", "report.txt", 10))
            .expect("document")
    };
    let broken = tantivy::TantivyError::InvalidArgument("broken".to_string());
    let passed = word_index::search::pass_or_extract(doc(), &Some(Ok(1)));
    assert!(matches!(passed.action, Action::Crawl));
    assert!(passed.warning.is_none());
    assert!(matches!(
        word_index::search::pass_or_extract(doc(), &Some(Ok(5))).action,
        Action::Crawl
    ));
    for count in [Some(Ok(0)), Some(Err(broken)), None] {
        let turn = word_index::search::pass_or_extract(doc(), &count);
        assert!(turn.warning.is_none());
        match turn.action {
            Action::Extract(asked) => {
                assert_eq!(asked.get_path(), "/root/report.txt");
                assert_eq!(asked.get_id(), doc().get_id());
                assert_eq!(asked.get_timestamp(), 10);
            }
            _ => panic!("the content was not asked for"),
        }
    }
}

#[test]
fn the_index_segments_words_and_sorts_by_timestamp() {
    let tokenizers = word_index::search::index_tokenizers();
    let mut analyzer = tokenizers.get("default").expect("tokenizer");
    let tokens = |analyzer: &mut tantivy::tokenizer::TextAnalyzer, text: &str| -> Vec<String> {
        let mut stream = analyzer.token_stream(text);
        let mut out = Vec::new();
        while stream.advance() {
            out.push(stream.token().text.clone());
        }
        out
    };
    let kept = "a".repeat(word_index::search::LONGEST_TOKEN - 1);
    let dropped = "b".repeat(word_index::search::LONGEST_TOKEN);
    assert_eq!(word_index::search::LONGEST_TOKEN, 40);
    assert_eq!(tokens(&mut analyzer, &kept), vec![kept.clone()]);
    assert!(tokens(&mut analyzer, &dropped).is_empty());
    assert_eq!(tokens(&mut analyzer, "REVENUE"), vec!["revenue".to_string()]);
    assert!(tokens(&mut analyzer, "全文检索").contains(&"检索".to_string()));
    let settings = word_index::search::index_settings();
    let sort = settings.sort_by_field.expect("sorting");
    assert_eq!(sort.field, "timestamp");
    assert_eq!(sort.order, tantivy::Order::Desc);
    let state = SearchState::in_memory().expect("index");
    let of_index = state.searcher().index().settings().sort_by_field.clone().expect("sorting");
    assert_eq!(of_index.field, "timestamp");
    assert_eq!(of_index.order, tantivy::Order::Desc);
    assert!(state.searcher().index().tokenizers().get("default").is_some());
}

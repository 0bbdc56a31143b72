use word_index::config::get_paths;
use word_index::config::save_path;
use word_index::config::Config;
use word_index::crawler::crawl_filter;
use word_index::crawler::plan_crawl;
use word_index::crawler::CrawlPlan;
use word_index::crawler::Filtering;
use word_index::launch::open_file_by_default_program;
use word_index::search::build_search_filter;
use word_index::search::build_staleness_filter;
use word_index::search::fresh;
use word_index::search::tally;
use word_index::search::Batch;
use word_index::search::BATCH_NUM;
use word_index::structs::converter_command;
use word_index::structs::EntryKind;

#[test]
fn a_new_path_is_added_at_the_end() {
    let mut config = Config::default();
    assert!(save_path(&mut config, "/docs".to_string()).is_ok());
    assert!(save_path(&mut config, "/more".to_string()).is_ok());
    assert_eq!(config.paths, vec!["/docs".to_string(), "/more".to_string()]);
    assert!(config.contains("/docs"));
    assert!(!config.contains("/doc"));
    assert_eq!(get_paths(config), vec!["/docs".to_string(), "/more".to_string()]);
}

#[test]
fn a_path_is_not_added_twice() {
    let mut config = Config { paths: vec!["/docs".to_string()] };
    match save_path(&mut config, "/docs".to_string()) {
        Err(e) => assert_eq!(e.0, "/docs\n索引路径已存在！"),
        Ok(_) => panic!("the path was added again"),
    }
    assert_eq!(config.paths, vec!["/docs".to_string()]);
}

#[test]
fn a_file_is_opened_by_the_file_protocol_handler_on_windows() {
    let launch = open_file_by_default_program("C:\\docs\\a.docx", true).expect("launch");
    assert_eq!(launch.program, "rundll32");
    assert_eq!(launch.args, vec!["url.dll", "FileProtocolHandler", "C:\\docs\\a.docx"]);
}

#[test]
fn no_opener_is_known_elsewhere() {
    match open_file_by_default_program("/docs/a.docx", false) {
        Err(e) => assert_eq!(e.0, "未适配！"),
        Ok(_) => panic!("an opener was found"),
    }
}

#[test]
fn the_converter_is_asked_for_plain_unwrapped_text() {
    let command = converter_command("/docs/a.docx");
    assert_eq!(command.program, "pandoc");
    assert_eq!(
        command.args,
        vec!["-t", "plain", "--wrap=none", "--markdown-headings=atx", "/docs/a.docx"]
    );
}

#[test]
fn hidden_directories_are_pruned() {
    assert_eq!(crawl_filter(Some(".git"), EntryKind::Directory), Filtering::IgnoreDir);
    assert_eq!(crawl_filter(Some("."), EntryKind::Directory), Filtering::IgnoreDir);
    assert_eq!(crawl_filter(Some("docs"), EntryKind::Directory), Filtering::Continue);
    assert_eq!(crawl_filter(Some("a.b"), EntryKind::Directory), Filtering::Continue);
    assert_eq!(crawl_filter(Some(".notes.txt"), EntryKind::File), Filtering::Continue);
    assert_eq!(crawl_filter(Some(".x"), EntryKind::Other), Filtering::Continue);
    assert_eq!(crawl_filter(Some(".x"), EntryKind::Unknown), Filtering::Continue);
    assert_eq!(crawl_filter(None, EntryKind::Directory), Filtering::Continue);
}

#[test]
fn a_file_root_is_its_own_crawl() {
    assert_eq!(plan_crawl(EntryKind::File), CrawlPlan::Single);
    assert_eq!(plan_crawl(EntryKind::Directory), CrawlPlan::Walk);
    assert_eq!(plan_crawl(EntryKind::Other), CrawlPlan::Walk);
    assert_eq!(plan_crawl(EntryKind::Unknown), CrawlPlan::Walk);
}

#[test]
fn the_query_text_names_both_searched_fields() {
    assert_eq!(build_search_filter("revenue", &None), "name:revenue OR content:revenue");
    assert_eq!(build_search_filter("", &None), "*");
    assert_eq!(build_search_filter("", &Some(Vec::new())), "*");
    assert_eq!(
        build_search_filter("revenue", &Some(Vec::new())),
        "name:revenue OR content:revenue"
    );
    assert_eq!(
        build_search_filter("revenue", &Some(vec!["A".to_string()])),
        "(name:revenue OR content:revenue) AND class:IN [A]"
    );
    assert_eq!(
        build_search_filter("", &Some(vec!["A".to_string(), "B".to_string()])),
        "(*) AND class:IN [A B]"
    );
}

#[test]
fn the_staleness_query_names_identifier_and_timestamp() {
    assert_eq!(
        build_staleness_filter("900150983cd24fb0d6963f7d28e17f72", 1_700_000_000),
        "id:900150983cd24fb0d6963f7d28e17f72 AND timestamp:1700000000"
    );
    assert_eq!(build_staleness_filter("ab", 0), "id:ab AND timestamp:0");
}

#[test]
fn an_indexed_copy_is_current_when_the_query_ran_and_matched() {
    assert!(fresh(&Ok(1)));
    assert!(fresh(&Ok(3)));
    assert!(!fresh(&Ok(0)));
    assert!(!fresh(&Err(tantivy::TantivyError::InvalidArgument("broken".to_string()))));
}

#[test]
fn the_hundredth_document_fills_the_batch() {
    assert_eq!(BATCH_NUM, 100);
    assert!(matches!(tally(0, Ok(())), Batch::Joined(1)));
    assert!(matches!(tally(41, Ok(())), Batch::Joined(42)));
    assert!(matches!(tally(98, Ok(())), Batch::Joined(99)));
    assert!(matches!(tally(99, Ok(())), Batch::Full));
    let refused = tally(99, Err(tantivy::TantivyError::InvalidArgument("broken".to_string())));
    match refused {
        Batch::Refused(e) => assert_eq!(e.message(), "添加索引文档失败"),
        _ => panic!("the refusal was counted"),
    }
}

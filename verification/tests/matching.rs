use parser::archive_parser::{match_file, should_enqueue, thread_number_or_default};
use parser::configuration::{FileFilter, ParserConfig, ParserType};

#[test]
fn regex() {
    let file_filter = FileFilter::new("SRUDB.*\\.dat$").unwrap();

    let pattern = "qsdqs_SRUDB_qsdqs.dat";
    assert!(file_filter.is_match(pattern));

    let pattern = "SRUDB.dat";
    assert!(file_filter.is_match(pattern));

    let pattern = "qsdqs_qsdqs.dat";
    assert!(!file_filter.is_match(pattern));

    let pattern = "qsdqs_SRUDB_qsdqs.dat.html";
    assert!(!file_filter.is_match(pattern));
}

#[test]
fn bad_pattern_is_refused() {
    assert!(FileFilter::new("(").is_err());
    let f = FileFilter::new("a+").unwrap();
    assert_eq!(f.pattern(), "a+");
}

// Two filters matching the same file: the first one alone submits, and the
// archive's error count grows by exactly one per extra match.
#[test]
fn duplicate_match_counts_one_error() {
    let parsers = vec![
        ParserConfig {
            file_filter: FileFilter::new("nomatch$").unwrap(),
            parser: ParserType::Evtx,
        },
        ParserConfig {
            file_filter: FileFilter::new("test.*\\.csv$").unwrap(),
            parser: ParserType::Evtx,
        },
        ParserConfig {
            file_filter: FileFilter::new("\\.csv$").unwrap(),
            parser: ParserType::Srum,
        },
    ];

    let (submitted, extra_errors) = match_file(&parsers, "test.csv");
    assert_eq!(submitted, Some(1));
    assert_eq!(extra_errors, 1);

    let (submitted, extra_errors) = match_file(&parsers, "other.bin");
    assert_eq!(submitted, None);
    assert_eq!(extra_errors, 0);
}

#[test]
fn worker_count_default() {
    assert_eq!(thread_number_or_default(4, 16), 4);
    assert_eq!(thread_number_or_default(0, 16), 8);
    assert_eq!(thread_number_or_default(0, 1), 1);
    assert_eq!(thread_number_or_default(0, 0), 1);
}

#[test]
fn driver_takes_matching_entries() {
    assert!(should_enqueue(true, true));
    assert!(!should_enqueue(true, false));
    assert!(should_enqueue(false, false));
    assert!(!should_enqueue(false, true));
}

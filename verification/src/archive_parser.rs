use vstd::prelude::*;

use crate::configuration::{regex_match, ParserConfig};

verus! {

/// The message the archive stage consumes: a directory of artifact files,
/// whether extraction failed, whether the directory is a temporary one the
/// stage must delete, and how long extraction took.
pub struct ArchiveMsg {
    pub folder: String,
    pub in_error: bool,
    pub is_temp_folder: bool,
    pub decompress_duration_millis: u64,
}

/// The message sent back after one file was parsed.
pub struct FileResultMsg {
    pub file: String,
    pub num_rows: usize,
    pub duration_millis: u64,
}

/// The per-archive summary emitted when an archive's files are all done.
pub struct ArchiveResultMsg {
    pub folder: String,
    pub num_errors: usize,
    pub decompress_duration_millis: u64,
    pub parsing_duration_millis: u64,
}

/// How many parser filters match this file name.
pub open spec fn matching_count(parsers: Seq<ParserConfig>, name: Seq<char>) -> int
    decreases parsers.len(),
{
    if parsers.len() == 0 {
        0
    } else {
        matching_count(parsers.drop_last(), name) + if regex_match(
            parsers.last().file_filter@,
            name,
        ) {
            1int
        } else {
            0int
        }
    }
}

/// The first matching filter never comes later than any matching filter.
pub proof fn lemma_matching_count_bounds(parsers: Seq<ParserConfig>, name: Seq<char>)
    ensures
        0 <= matching_count(parsers, name) <= parsers.len(),
    decreases parsers.len(),
{
    if parsers.len() > 0 {
        lemma_matching_count_bounds(parsers.drop_last(), name);
    }
}

/// No filter matches exactly when the matching count is zero.
pub proof fn lemma_matching_count_zero(parsers: Seq<ParserConfig>, name: Seq<char>)
    ensures
        (matching_count(parsers, name) == 0) <==> (forall|j: int|
            0 <= j < parsers.len() ==> !regex_match(#[trigger] parsers[j].file_filter@, name)),
    decreases parsers.len(),
{
    if parsers.len() > 0 {
        let d = parsers.drop_last();
        lemma_matching_count_bounds(d, name);
        lemma_matching_count_zero(d, name);
        assert(parsers.last() == parsers[parsers.len() - 1]);
        if matching_count(parsers, name) == 0 {
            assert forall|j: int|
                0 <= j < parsers.len() implies !regex_match(
                #[trigger] parsers[j].file_filter@,
                name,
            ) by {
                if j < parsers.len() - 1 {
                    assert(d[j] == parsers[j]);
                    assert(!regex_match(d[j].file_filter@, name));
                }
            }
        } else {
            if matching_count(d, name) == 0 {
                // only the last filter can match, and it does
                assert(regex_match(parsers[parsers.len() - 1].file_filter@, name));
            } else {
                assert(exists|j: int|
                    0 <= j < d.len() && regex_match(#[trigger] d[j].file_filter@, name));
                let j = choose|j: int|
                    0 <= j < d.len() && regex_match(#[trigger] d[j].file_filter@, name);
                assert(d[j] == parsers[j]);
                assert(regex_match(parsers[j].file_filter@, name));
            }
        }
    }
}

/// Match one file name against every parser filter in order: the first
/// match, when there is one, is the only filter that submits a parse task,
/// and every further match counts as exactly one more error. So at most one
/// parse task is submitted per file, and an archive's error count grows by
/// exactly one per duplicate match.
#[verifier::loop_isolation(false)]
pub fn match_file(parsers: &Vec<ParserConfig>, file_name: &str) -> (r: (Option<usize>, usize))
    ensures
        r.0 is Some <==> matching_count(parsers@, file_name@) > 0,
        r.0 matches Some(i) ==> i < parsers@.len() && regex_match(
            parsers@[i as int].file_filter@,
            file_name@,
        ) && (forall|j: int|
            0 <= j < i ==> !regex_match(#[trigger] parsers@[j].file_filter@, file_name@)),
        r.1 == if matching_count(parsers@, file_name@) > 0 {
            matching_count(parsers@, file_name@) - 1
        } else {
            0int
        },
{
    proof {
        lemma_matching_count_bounds(parsers@, file_name@);
    }
    let mut first: Option<usize> = None;
    let mut extra: usize = 0;
    let mut i: usize = 0;
    while i < parsers.len()
        invariant
            i <= parsers@.len(),
            first is Some <==> matching_count(parsers@.take(i as int), file_name@) > 0,
            first matches Some(f) ==> f < i && regex_match(
                parsers@[f as int].file_filter@,
                file_name@,
            ) && (forall|j: int|
                0 <= j < f ==> !regex_match(#[trigger] parsers@[j].file_filter@, file_name@)),
            extra == if matching_count(parsers@.take(i as int), file_name@) > 0 {
                matching_count(parsers@.take(i as int), file_name@) - 1
            } else {
                0int
            },
            extra < i || extra == 0,
        decreases parsers.len() - i,
    {
        proof {
            let t = parsers@.take(i + 1);
            assert(t.drop_last() =~= parsers@.take(i as int));
            assert(t.last() == parsers@[i as int]);
            lemma_matching_count_bounds(parsers@.take(i as int), file_name@);
            lemma_matching_count_zero(parsers@.take(i as int), file_name@);
            lemma_matching_count_zero(parsers@.take(i + 1), file_name@);
            assert(forall|j: int|
                0 <= j < i ==> #[trigger] parsers@.take(i as int)[j] == parsers@[j]);
        }
        if parsers[i].file_filter.is_match(file_name) {
            if first.is_some() {
                extra = extra + 1;
            } else {
                proof {
                    assert forall|j: int|
                        0 <= j < i implies !regex_match(
                        #[trigger] parsers@[j].file_filter@,
                        file_name@,
                    ) by {
                        assert(parsers@.take(i as int)[j] == parsers@[j]);
                        assert(!regex_match(parsers@.take(i as int)[j].file_filter@, file_name@));
                    }
                }
                first = Some(i);
            }
        }
        i = i + 1;
    }
    proof {
        assert(parsers@.take(parsers@.len() as int) =~= parsers@);
    }
    (first, extra)
}

/// Whether the driver enqueues a directory entry: directories are taken
/// exactly in pre-decompressed mode, plain files exactly in compressed
/// mode; everything else is only logged.
pub fn should_enqueue(input_is_decompressed: bool, is_dir: bool) -> (r: bool)
    ensures
        r == (input_is_decompressed == is_dir),
{
    input_is_decompressed == is_dir
}

/// Number of worker threads for a stage: a configured value of zero falls
/// back to half the machine's available parallelism, with a floor of one.
pub fn thread_number_or_default(thread_number: usize, available_parallelism: usize) -> (r: usize)
    ensures
        thread_number != 0 ==> r == thread_number,
        thread_number == 0 && available_parallelism / 2 == 0 ==> r == 1,
        thread_number == 0 && available_parallelism / 2 > 0 ==> r == available_parallelism / 2,
{
    if thread_number == 0 {
        let half: usize = available_parallelism / 2;
        if half == 0 {
            1
        } else {
            half
        }
    } else {
        thread_number
    }
}

} // verus!

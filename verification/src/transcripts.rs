//! Recovery copies of transcripts: where they go, how they are named, what they hold.
use vstd::prelude::*;

use crate::paths::{join_path, path_join};
use crate::text::{concat3, decimal, decimal_string, has_suffix, lemma_decimal_injective};

verus! {

/// The directory, under the cache directory, that holds saved transcripts.
pub open spec fn spec_transcripts_dir(cache_dir: Seq<char>) -> Seq<char> {
    path_join(cache_dir, "transcripts"@)
}

pub fn transcripts_dir(cache_dir: &str) -> (dir: String)
    ensures
        dir@ == spec_transcripts_dir(cache_dir@),
{
    join_path(cache_dir, "transcripts")
}

/// The file a transcript saved at a time (milliseconds since the Unix epoch) is written to.
pub open spec fn spec_transcript_file_name(timestamp_millis: nat) -> Seq<char> {
    "transcript-"@ + decimal(timestamp_millis) + ".txt"@
}

pub fn transcript_file_name(timestamp_millis: u128) -> (name: String)
    ensures
        name@ == spec_transcript_file_name(timestamp_millis as nat),
{
    let digits = decimal_string(timestamp_millis);
    concat3("transcript-", digits.as_str(), ".txt")
}

/// Where a transcript saved at a time is written.
pub fn transcript_path(cache_dir: &str, timestamp_millis: u128) -> (path: String)
    ensures
        path@ == path_join(
            spec_transcripts_dir(cache_dir@),
            spec_transcript_file_name(timestamp_millis as nat),
        ),
{
    let dir = transcripts_dir(cache_dir);
    let name = transcript_file_name(timestamp_millis);
    join_path(dir.as_str(), name.as_str())
}

/// Where the copy of the most recent transcript is written.
pub fn latest_transcript_path(cache_dir: &str) -> (path: String)
    ensures
        path@ == path_join(spec_transcripts_dir(cache_dir@), "latest.txt"@),
{
    let dir = transcripts_dir(cache_dir);
    join_path(dir.as_str(), "latest.txt")
}

/// What a transcript file holds: the text, ending in a newline.
pub open spec fn spec_transcript_contents(text: Seq<char>) -> Seq<char> {
    if text.len() > 0 && text.last() == '\n' {
        text
    } else {
        text.push('\n')
    }
}

pub fn transcript_contents(text: &str) -> (contents: String)
    ensures
        contents@ == spec_transcript_contents(text@),
{
    proof {
        reveal_strlit("\n");
    }
    let mut contents = text.to_owned();
    if has_suffix(text, "\n") {
        proof {
            assert(text@.subrange(text@.len() - 1, text@.len() as int)[0] == text@.last());
        }
        contents
    } else {
        proof {
            if text@.len() > 0 && text@.last() == '\n' {
                assert("\n"@ =~= text@.subrange(text@.len() - 1, text@.len() as int));
            }
        }
        contents.append("\n");
        proof {
            assert(contents@ =~= text@.push('\n'));
        }
        contents
    }
}

/// A saved transcript always ends in a newline, and saving it again changes nothing.
pub proof fn lemma_transcript_contents_end_in_newline(text: Seq<char>)
    ensures
        spec_transcript_contents(text).len() > 0,
        spec_transcript_contents(text).last() == '\n',
        spec_transcript_contents(spec_transcript_contents(text)) == spec_transcript_contents(text),
        spec_transcript_contents(text).drop_last() == text || spec_transcript_contents(text) == text,
{
    if !(text.len() > 0 && text.last() == '\n') {
        assert(text.push('\n').drop_last() =~= text);
    }
}

/// Transcripts saved at different times go to different files.
pub proof fn lemma_transcript_file_names_distinct(a: nat, b: nat)
    requires
        spec_transcript_file_name(a) == spec_transcript_file_name(b),
    ensures
        a == b,
{
    reveal_strlit("transcript-");
    reveal_strlit(".txt");
    let na = spec_transcript_file_name(a);
    let nb = spec_transcript_file_name(b);
    assert(na.len() == 11 + decimal(a).len() + 4);
    assert(decimal(a).len() == decimal(b).len());
    assert(na.subrange(11, 11 + decimal(a).len() as int) =~= decimal(a));
    assert(nb.subrange(11, 11 + decimal(b).len() as int) =~= decimal(b));
    lemma_decimal_injective(a, b);
}

} // verus!

//! The file-counting tool: which directory entries count, and what the tool
//! reports for a missing, unreadable or listed directory.

use vstd::prelude::*;
use crate::function_calling::{tool_schema, ToolSchema};
use crate::text::{chars_of, push_str, string_from};

verus! {

/// One directory entry as the tool sees it.
#[derive(Debug)]
pub struct DirEntryInfo {
    pub name: String,
    pub is_file: bool,
}

/// What reading the directory gave.
#[derive(Debug)]
pub enum DirListing {
    /// The path does not exist.
    Missing,
    /// The directory could not be read; the text of the error.
    Unreadable(String),
    /// The entries read, `None` for one that could not be read.
    Entries(Vec<Option<DirEntryInfo>>),
}

/// What the tool reports.
#[derive(Debug)]
pub enum CountReport {
    Error(String),
    Count { directory: String, count: usize },
}

/// An entry counts when it is a regular file whose name does not start
/// with a dot.
pub open spec fn counted(e: Option<DirEntryInfo>) -> bool {
    match e {
        Some(info) => info.is_file && !(info.name@.len() > 0 && info.name@[0] == '.'),
        None => false,
    }
}

/// The number of entries of `s` that count.
pub open spec fn count_counted(s: Seq<Option<DirEntryInfo>>) -> nat
    decreases s.len(),
{
    if s.len() == 0 {
        0
    } else {
        count_counted(s.drop_last()) + if counted(s.last()) { 1nat } else { 0nat }
    }
}

proof fn lemma_count_bound(s: Seq<Option<DirEntryInfo>>)
    ensures
        count_counted(s) <= s.len(),
    decreases s.len(),
{
    if s.len() > 0 {
        lemma_count_bound(s.drop_last());
    }
}

proof fn lemma_count_remove(s: Seq<Option<DirEntryInfo>>, i: int)
    requires
        0 <= i < s.len(),
    ensures
        count_counted(s) == count_counted(s.remove(i)) + if counted(s[i]) { 1nat } else { 0nat },
    decreases s.len(),
{
    if i == s.len() - 1 {
        assert(s.remove(i) =~= s.drop_last());
    } else {
        lemma_count_remove(s.drop_last(), i);
        assert(s.remove(i).drop_last() =~= s.drop_last().remove(i));
        assert(s.remove(i).last() == s.last());
    }
}

/// The count does not depend on the order of the entries: listings that
/// hold the same entries, in any order, count the same.
pub proof fn lemma_count_reorder(a: Seq<Option<DirEntryInfo>>, b: Seq<Option<DirEntryInfo>>)
    requires
        a.to_multiset() == b.to_multiset(),
    ensures
        count_counted(a) == count_counted(b),
    decreases a.len(),
{
    broadcast use vstd::seq_lib::group_to_multiset_ensures;

    if a.len() == 0 {
        assert(b.to_multiset().len() == 0);
        assert(b.len() == 0);
    } else {
        let x = a.last();
        assert(a.drop_last().push(x) =~= a);
        assert(a.to_multiset() =~= a.drop_last().to_multiset().insert(x));
        assert(b.to_multiset().count(x) > 0);
        assert(b.contains(x));
        let j = choose|j: int| 0 <= j < b.len() && b[j] == x;
        assert(b.remove(j).to_multiset() =~= b.to_multiset().remove(x));
        assert(a.drop_last().to_multiset() =~= a.to_multiset().remove(x));
        lemma_count_reorder(a.drop_last(), b.remove(j));
        lemma_count_remove(b, j);
    }
}

/// One more entry in a directory changes the count by one when that entry
/// counts (a regular file whose name does not start with a dot) and
/// leaves it as it was otherwise, wherever the entry is listed and however
/// the other entries are reordered.
pub proof fn lemma_count_one_more_entry(
    before: Seq<Option<DirEntryInfo>>,
    after: Seq<Option<DirEntryInfo>>,
    entry: Option<DirEntryInfo>,
)
    requires
        after.to_multiset() == before.to_multiset().insert(entry),
    ensures
        count_counted(after) == count_counted(before) + if counted(entry) { 1nat } else { 0nat },
{
    broadcast use vstd::seq_lib::group_to_multiset_ensures;

    assert(before.push(entry).to_multiset() =~= before.to_multiset().insert(entry));
    lemma_count_reorder(after, before.push(entry));
    assert(before.push(entry).drop_last() =~= before);
}

/// Whether the entry counts.
pub fn is_counted(e: &Option<DirEntryInfo>) -> (b: bool)
    ensures
        b == counted(*e),
{
    match e {
        Some(info) => {
            if !info.is_file {
                return false;
            }
            let name = chars_of(info.name.as_str());
            !(name.len() > 0 && name[0] == '.')
        },
        None => false,
    }
}

/// The number of regular, non-hidden files among the entries.
pub fn count_visible_files(entries: &Vec<Option<DirEntryInfo>>) -> (n: usize)
    ensures
        n == count_counted(entries@),
{
    let mut n: usize = 0;
    let mut i: usize = 0;
    while i < entries.len()
        invariant
            i <= entries@.len(),
            n == count_counted(entries@.take(i as int)),
        decreases entries@.len() - i,
    {
        assert(entries@.take(i + 1).drop_last() =~= entries@.take(i as int));
        proof {
            lemma_count_bound(entries@.take(i as int));
        }
        if is_counted(&entries[i]) {
            n = n + 1;
        }
        i = i + 1;
    }
    assert(entries@.take(i as int) =~= entries@);
    n
}

/// The directory the tool looks at: the one given, else the current one.
pub fn resolve_directory(directory: Option<&str>) -> (d: &str)
    ensures
        d@ == match directory {
            Some(s) => s@,
            None => "."@,
        },
{
    match directory {
        Some(s) => s,
        None => ".",
    }
}

/// The report of the tool on `directory`, given what reading it gave.
pub open spec fn count_report_matches(directory: Seq<char>, listing: DirListing, r: CountReport) -> bool {
    match listing {
        DirListing::Missing => r matches CountReport::Error(e)
            && e@ == "directory '"@ + directory + "' does not exist"@,
        DirListing::Unreadable(err) => r matches CountReport::Error(e)
            && e@ == "failed to read directory: "@ + err@,
        DirListing::Entries(v) => r matches CountReport::Count { directory: d, count }
            && d@ == directory && count == count_counted(v@),
    }
}

fn report(directory: &str, listing: DirListing) -> (r: CountReport)
    ensures
        count_report_matches(directory@, listing, r),
{
    match listing {
        DirListing::Missing => {
            let mut e = string_from("directory '");
            push_str(&mut e, directory);
            push_str(&mut e, "' does not exist");
            CountReport::Error(e)
        },
        DirListing::Unreadable(err) => {
            let mut e = string_from("failed to read directory: ");
            push_str(&mut e, err.as_str());
            CountReport::Error(e)
        },
        DirListing::Entries(v) => {
            let count = count_visible_files(&v);
            CountReport::Count { directory: string_from(directory), count }
        },
    }
}

/// The file-counting tool of the chat-driven agent.
pub struct CountFiles;

impl CountFiles {
    /// Counts the regular, non-hidden files of `directory`, given what
    /// reading it gave.
    pub fn execute(directory: &str, listing: DirListing) -> (r: CountReport)
        ensures
            count_report_matches(directory@, listing, r),
    {
        report(directory, listing)
    }
}

/// The file-counting tool of the function-calling agent.
#[allow(non_camel_case_types)]
pub struct count_files;

impl count_files {
    /// Counts the regular, non-hidden files of `directory`, given what
    /// reading it gave; every outcome, an error too, is a report.
    pub fn execute(directory: &str, listing: DirListing) -> (r: Result<CountReport, String>)
        ensures
            r matches Ok(rep) && count_report_matches(directory@, listing, rep),
    {
        Ok(report(directory, listing))
    }
}

/// The declaration of the `count_files` tool.
pub fn get_count_files_schema() -> (s: ToolSchema)
    ensures
        s@ == (
            "count_files"@,
            "Count the number of regular non-hidden files in a directory."@,
            "OBJECT"@,
            "directory"@,
            "STRING"@,
            "Directory path. Use '.' for the current folder."@,
            seq!["directory"@],
        ),
{
    tool_schema(
        "count_files",
        "Count the number of regular non-hidden files in a directory.",
        "directory",
        "STRING",
        "Directory path. Use '.' for the current folder.",
    )
}

/// The message that hands a tool result back to the model.
pub fn tool_result_message(result: &str) -> (m: String)
    ensures
        m@ == "Tool result: "@ + result@ + ". Now complete the task."@,
{
    let mut m = string_from("Tool result: ");
    push_str(&mut m, result);
    push_str(&mut m, ". Now complete the task.");
    m
}

} // verus!

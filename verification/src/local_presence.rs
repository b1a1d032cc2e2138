//! Locally defined presence bundles.
//!
//! A file-watch collaborator reports changed files; the logic here decides
//! what is relayed: a `.json` file's text is carried as the parsed
//! document, a `.js` file's text is carried raw as a JSON string value,
//! anything else is skipped.  Reading the files and watching the
//! directory stay outside the library.

use vstd::prelude::*;

use crate::json::json_parse;
use crate::json::json_text;
use crate::json::spec_json_doc;
use crate::json::spec_json_text;

verus! {

/// Whether `suf` closes `s`.
pub open spec fn ends_with_spec(s: Seq<char>, suf: Seq<char>) -> bool {
    suf.len() <= s.len() && s.subrange(s.len() - suf.len(), s.len() as int) == suf
}

/// Whether the characters of `suf` are the tail of `s`.
fn str_ends_with(s: &str, suf: &str) -> (r: bool)
    ensures
        r == ends_with_spec(s@, suf@),
{
    let n = s.unicode_len();
    let m = suf.unicode_len();
    if m > n {
        return false;
    }
    let mut i: usize = 0;
    while i < m
        invariant
            n == s@.len(),
            m == suf@.len(),
            m <= n,
            i <= m,
            forall|k: int| 0 <= k < i ==> s@[n - m + k] == suf@[k],
        decreases m - i,
    {
        if s.get_char(n - m + i) != suf.get_char(i) {
            proof {
                assert(s@.subrange(n - m, n as int)[i as int] == s@[n - m + i]);
            }
            return false;
        }
        i = i + 1;
    }
    proof {
        assert(s@.subrange(n - m, n as int) =~= suf@);
    }
    true
}

/// One relayed bundle file: its bare name and its contents, either a
/// parsed document or raw text wrapped as a JSON string.
#[derive(Debug)]
pub struct LocalFile {
    pub file: String,
    pub contents: serde_json::Value,
}

/// Whether a changed file with this name and text is kept: a well-formed
/// `.json` file, or any `.js` file.
pub open spec fn spec_keeps(file: Seq<char>, contents: Seq<char>) -> bool {
    if ends_with_spec(file, (".json")@) {
        spec_json_doc(contents) is Some
    } else {
        ends_with_spec(file, (".js")@)
    }
}

/// The value a kept file carries: the parsed document for a `.json`
/// file, the raw text as a JSON string value for a `.js` file.
pub open spec fn spec_contents_of(file: Seq<char>, contents: Seq<char>) -> serde_json::Value {
    if ends_with_spec(file, (".json")@) {
        spec_json_doc(contents)->0
    } else {
        spec_json_text(contents)
    }
}

impl LocalFile {
    /// Classifies one changed file, given its bare name and its text.
    /// Kept exactly when [`spec_keeps`] says so; the name is carried
    /// unchanged and the contents are [`spec_contents_of`]: the parsed
    /// document for `.json`, the raw text as a string value for `.js`.
    pub fn new(file: String, contents: String) -> (r: Option<LocalFile>)
        ensures
            r is Some <==> spec_keeps(file@, contents@),
            r matches Some(lf) ==> lf.file@ == file@
                && lf.contents == spec_contents_of(file@, contents@),
    {
        if str_ends_with(file.as_str(), ".json") {
            match json_parse(contents.as_str()) {
                Some(v) => Some(LocalFile { file, contents: v }),
                None => None,
            }
        } else if str_ends_with(file.as_str(), ".js") {
            Some(LocalFile { file, contents: json_text(contents) })
        } else {
            None
        }
    }
}

/// The payload of one outbound local-presence event: the kept files.
#[derive(Debug)]
pub struct LocalFiles {
    pub files: Vec<LocalFile>,
}

impl LocalFiles {
    /// Wraps an already-classified list of files.
    pub fn new(files: Vec<LocalFile>) -> (r: LocalFiles)
        ensures
            r.files@ == files@,
    {
        LocalFiles { files }
    }
}

/// The name and carried value of each given file, in order.
pub open spec fn files_view(files: Seq<LocalFile>) -> Seq<(Seq<char>, serde_json::Value)> {
    Seq::new(files.len(), |i: int| (files[i].file@, files[i].contents))
}

/// The name and carried value of each entry that classification keeps,
/// in order.
pub open spec fn kept_files(entries: Seq<(String, String)>) -> Seq<(Seq<char>, serde_json::Value)>
    decreases entries.len(),
{
    if entries.len() == 0 {
        Seq::empty()
    } else {
        kept_files(entries.drop_last()) + (if spec_keeps(entries.last().0@, entries.last().1@) {
            seq![(entries.last().0@, spec_contents_of(entries.last().0@, entries.last().1@))]
        } else {
            Seq::empty()
        })
    }
}

/// The file-watch half that the library computes: classification of a
/// batch of changed files.
pub struct LocalPresence;

impl LocalPresence {
    /// A classifier for batches of changed files.
    pub fn new() -> (r: LocalPresence)
    {
        LocalPresence
    }

    /// Classifies one batch of changed files, each given as its bare name
    /// and its text.  The kept files appear in batch order, under their
    /// own names and with the values [`spec_contents_of`] fixes, with
    /// nothing else among them.
    pub fn collect_files(&self, entries: &Vec<(String, String)>) -> (r: LocalFiles)
        ensures
            files_view(r.files@) == kept_files(entries@),
    {
        let mut files: Vec<LocalFile> = Vec::new();
        let n = entries.len();
        let mut i: usize = 0;
        proof {
            assert(entries@.take(0) =~= Seq::<(String, String)>::empty());
            assert(files_view(files@) =~= kept_files(entries@.take(0)));
        }
        while i < n
            invariant
                n == entries@.len(),
                i <= n,
                files_view(files@) == kept_files(entries@.take(i as int)),
            decreases n - i,
        {
            let name = entries[i].0.clone();
            let text = entries[i].1.clone();
            match LocalFile::new(name, text) {
                Some(lf) => {
                    files.push(lf);
                },
                None => {},
            }
            i = i + 1;
            proof {
                let taken = entries@.take(i as int);
                assert(taken.drop_last() =~= entries@.take(i - 1));
                assert(taken.last() == entries@[i - 1]);
                assert(files_view(files@) =~= kept_files(taken));
            }
        }
        proof {
            assert(entries@.take(n as int) =~= entries@);
        }
        LocalFiles { files }
    }
}

} // verus!

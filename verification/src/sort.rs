//! The column a report is sorted by, as named on the command line.

use crate::text::{lowercase, lowercase_of, str_eq};
use crate::totals::LangTotal;
use vstd::prelude::*;
use vstd::string::*;

verus! {

/// The column a report is sorted by.
#[derive(Debug, PartialEq, Eq, Structural, Clone, Copy)]
pub enum Sort {
    Code,
    Comment,
    Blank,
    Lines,
    /// By the name of the language: only for the report by language.
    Language,
    /// By the number of files: only for the report by language.
    Files,
}

/// The edit distance that `edit_distance::edit_distance` finds between two strings.
pub uninterp spec fn edit_distance_of(a: Seq<char>, b: Seq<char>) -> nat;

/// `edit_distance::edit_distance` gives the Levenshtein distance of two
/// strings, which depends on the two strings alone.
#[verifier::external_body]
pub(crate) fn distance(a: &str, b: &str) -> (d: usize)
    ensures
        d == edit_distance_of(a@, b@),
{
    edit_distance::edit_distance(a, b)
}

/// The column that a word names exactly.
pub open spec fn named_sort(s: Seq<char>) -> Option<Sort> {
    if s == "blank"@ || s == "Blank"@ {
        Some(Sort::Blank)
    } else if s == "code"@ || s == "Code"@ {
        Some(Sort::Code)
    } else if s == "comment"@ || s == "Comment"@ {
        Some(Sort::Comment)
    } else if s == "lines"@ || s == "Lines"@ {
        Some(Sort::Lines)
    } else if s == "language"@ || s == "Language"@ {
        Some(Sort::Language)
    } else if s == "files"@ || s == "Files"@ {
        Some(Sort::Files)
    } else {
        None
    }
}

/// The farthest that a word may be from a column's name to be taken for a
/// slip of the pen.
pub const NEAR: usize = 2;

/// The column to suggest for a word that is at the given distances from the
/// names of the six columns: the first that is near, in the order blank,
/// code, comment, lines, language, files.
pub open spec fn near_sort(
    blank: nat,
    code: nat,
    comment: nat,
    lines: nat,
    language: nat,
    files: nat,
) -> Option<Seq<char>> {
    if blank <= NEAR {
        Some("Blank"@)
    } else if code <= NEAR {
        Some("Code"@)
    } else if comment <= NEAR {
        Some("Comment"@)
    } else if lines <= NEAR {
        Some("Lines"@)
    } else if language <= NEAR {
        Some("Language"@)
    } else if files <= NEAR {
        Some("Files"@)
    } else {
        None
    }
}

/// The column to suggest for a word in lower case that names none.
pub open spec fn suggested_sort(lower: Seq<char>) -> Option<Seq<char>> {
    near_sort(
        edit_distance_of(lower, "blank"@),
        edit_distance_of(lower, "code"@),
        edit_distance_of(lower, "comment"@),
        edit_distance_of(lower, "lines"@),
        edit_distance_of(lower, "language"@),
        edit_distance_of(lower, "files"@),
    )
}

impl Sort {
    /// The column to suggest for a word that is at the given distances from
    /// the names of the six columns.
    pub fn suggest(
        blank: usize,
        code: usize,
        comment: usize,
        lines: usize,
        language: usize,
        files: usize,
    ) -> (name: Option<&'static str>)
        ensures
            match name {
                Some(n) => near_sort(
                    blank as nat,
                    code as nat,
                    comment as nat,
                    lines as nat,
                    language as nat,
                    files as nat,
                ) == Some(n@),
                None => near_sort(
                    blank as nat,
                    code as nat,
                    comment as nat,
                    lines as nat,
                    language as nat,
                    files as nat,
                ) is None,
            },
    {
        if blank <= NEAR {
            Some("Blank")
        } else if code <= NEAR {
            Some("Code")
        } else if comment <= NEAR {
            Some("Comment")
        } else if lines <= NEAR {
            Some("Lines")
        } else if language <= NEAR {
            Some("Language")
        } else if files <= NEAR {
            Some("Files")
        } else {
            None
        }
    }

    /// The column that a word names exactly.
    pub fn named(s: &str) -> (sort: Option<Sort>)
        ensures
            sort == named_sort(s@),
    {
        if str_eq(s, "blank") || str_eq(s, "Blank") {
            Some(Sort::Blank)
        } else if str_eq(s, "code") || str_eq(s, "Code") {
            Some(Sort::Code)
        } else if str_eq(s, "comment") || str_eq(s, "Comment") {
            Some(Sort::Comment)
        } else if str_eq(s, "lines") || str_eq(s, "Lines") {
            Some(Sort::Lines)
        } else if str_eq(s, "language") || str_eq(s, "Language") {
            Some(Sort::Language)
        } else if str_eq(s, "files") || str_eq(s, "Files") {
            Some(Sort::Files)
        } else {
            None
        }
    }

    /// Reads the name of a column. A word that names none is an error, which
    /// carries the name of a column that the word is near to, if there is one.
    pub fn from_str(s: &str) -> (r: Result<Sort, Option<String>>)
        ensures
            match r {
                Ok(sort) => named_sort(s@) == Some(sort),
                Err(Some(name)) => named_sort(s@) is None && suggested_sort(lowercase_of(s@))
                    == Some(name@),
                Err(None) => named_sort(s@) is None && suggested_sort(lowercase_of(s@)) is None,
            },
    {
        match Sort::named(s) {
            Some(sort) => Ok(sort),
            None => {
                let lower = lowercase(s);
                let l: &str = lower.as_str();
                let name = Sort::suggest(
                    distance(l, "blank"),
                    distance(l, "code"),
                    distance(l, "comment"),
                    distance(l, "lines"),
                    distance(l, "language"),
                    distance(l, "files"),
                );
                match name {
                    Some(n) => Err(Some(n.to_owned())),
                    None => Err(None),
                }
            },
        }
    }

    /// Whether the column can order the files of one language: the name of
    /// the language and the number of its files are the same for all of them.
    pub open spec fn orders_files(self) -> bool {
        self != Sort::Language && self != Sort::Files
    }

    /// Tells whether the column can order the files of one language.
    pub fn for_files(&self) -> (r: bool)
        ensures
            r == self.orders_files(),
    {
        match self {
            Sort::Language => false,
            Sort::Files => false,
            _ => true,
        }
    }

    /// The number that a total is ordered by, largest first. The name of the
    /// language is no number.
    pub open spec fn key_of(self, total: LangTotal) -> Option<u32> {
        match self {
            Sort::Code => Some(total.count.code),
            Sort::Comment => Some(total.count.comment),
            Sort::Blank => Some(total.count.blank),
            Sort::Lines => Some(total.count.lines),
            Sort::Files => Some(total.files),
            Sort::Language => None,
        }
    }

    /// The number that a total is ordered by, largest first.
    pub fn key(&self, total: &LangTotal) -> (k: Option<u32>)
        ensures
            k == self.key_of(*total),
    {
        match self {
            Sort::Code => Some(total.count.code),
            Sort::Comment => Some(total.count.comment),
            Sort::Blank => Some(total.count.blank),
            Sort::Lines => Some(total.count.lines),
            Sort::Files => Some(total.files),
            Sort::Language => None,
        }
    }
}

/// The end of a string for a column of a given width: the string itself
/// where it has at most `n` bytes, and else what is left after as many
/// characters are dropped as the string has bytes over `n`.
pub open spec fn last_chars(s: &str, n: nat) -> Seq<char> {
    let over = s.len() - n;
    if over <= 0 {
        s@
    } else if over >= s@.len() {
        Seq::empty()
    } else {
        s@.subrange(over, s@.len() as int)
    }
}

/// The end of a string for a column of a given width.
pub fn last_n_chars(s: &str, n: usize) -> (r: String)
    ensures
        r@ == last_chars(s, n as nat),
{
    let bytes: usize = s.len();
    if bytes <= n {
        return s.to_owned();
    }
    let over: usize = bytes - n;
    let chars: usize = s.unicode_len();
    if over >= chars {
        String::new()
    } else {
        s.substring_char(over, chars).to_owned()
    }
}

} // verus!

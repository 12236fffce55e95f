//! Counting lines of code: a byte-oriented classifier that sorts every line of
//! a source file into code, comment or blank, and totals kept per language.

pub mod classify;
pub mod file;
pub mod lang;
pub mod lines;
pub mod options;
pub mod sort;
pub mod syntax;
pub mod tally;
pub mod text;
pub mod totals;

pub use crate::file::{classify, combine_kinds, count, count_file, count_passes};
pub use crate::lang::{
    check_shebang, counter_config_for_lang, lang_from_ext, lang_from_lower, reads_first_line,
    told_by_name, Lang,
};
pub use crate::lines::{count_buf_lines, line_count, ByteLines, ByteLinesState};
pub use crate::syntax::{CommentSyntax, Delimiters, Markers};
pub use crate::tally::{Count, LineKind};
pub use crate::totals::{LangTotal, Totals};
pub use crate::sort::{last_n_chars, Sort};
pub use crate::options::{combine_patterns, keeps, walk_flags};

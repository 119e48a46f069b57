//! Delimiter characters of the markup notation.

use vstd::prelude::*;

verus! {

/// Explicit ruby-base marker.
pub const RUBY_PREFIX: char = '｜';

/// Ruby opener.
pub const RUBY_BEGIN: char = '《';

/// Ruby closer.
pub const RUBY_END: char = '》';

/// Directive opener.
pub const COMMAND_BEGIN: char = '［';

/// Directive closer.
pub const COMMAND_END: char = '］';

/// Directive identifier following the opener.
pub const IGETA: char = '＃';

/// External-glyph marker.
pub const GAIJI_MARK: char = '※';

/// Accent-span opener.
pub const ACCENT_BEGIN: char = '〔';

/// Accent-span closer.
pub const ACCENT_END: char = '〕';

/// Whether a character starts a token other than plain text.
pub open spec fn is_delimiter_char(c: char) -> bool {
    c == '［' || c == '《' || c == '｜' || c == '※' || c == '〔'
}

/// The fixed accent-mark characters: `' ` ^ ~ : & _ , / @`.
pub open spec fn is_accent_mark_char(c: char) -> bool {
    c == '\'' || c == '`' || c == '^' || c == '~' || c == ':' || c == '&' || c == '_' || c == ','
        || c == '/' || c == '@'
}

} // verus!

//! The few places where the library leans on outside crates: text
//! wrapping, session-token generation, and the terminal's size. Each call
//! stands behind one trusted declaration; everything computed from their
//! results is verified.

use vstd::prelude::*;

verus! {

/// What `textwrap::wrap` returns for a text and a width: the text split
/// into display lines no wider than the width (each embedded newline also
/// starts a new line). The result is a function of the two arguments alone.
pub uninterp spec fn wrap_lines(text: Seq<char>, width: int) -> Seq<Seq<char>>;

/// Relies on textwrap::wrap with default options: breaks the text into
/// lines of at most `width` display columns.
#[verifier::external_body]
pub(crate) fn wrap_text(text: &str, width: usize) -> (r: Vec<String>)
    ensures
        r.deep_view() == wrap_lines(text@, width as int),
{
    textwrap::wrap(text, textwrap::Options::new(width)).into_iter().map(
        |line| line.into_owned(),
    ).collect()
}

/// Relies on uuid::Uuid::new_v4 and its simple formatter: a freshly drawn
/// random identifier written as exactly 32 hexadecimal characters. The
/// value is random, so nothing more is promised of it.
#[verifier::external_body]
pub(crate) fn new_session_token() -> (r: String)
    ensures
        r@.len() == 32,
{
    uuid::Uuid::new_v4().simple().to_string()
}

/// Relies on terminal_size::terminal_size: the terminal's current width
/// and height in character cells. The outcome depends on the machine and
/// the moment, so nothing is promised of it; `None` means the size could
/// not be determined.
#[verifier::external_body]
pub(crate) fn query_terminal_size() -> (r: Option<(u16, u16)>) {
    terminal_size::terminal_size().map(|(w, h)| (w.0, h.0))
}

} // verus!

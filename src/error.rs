use vstd::prelude::*;

verus! {

/// The kinds of failure that a run, or one item of a batch, can meet.
#[derive(Debug, Clone, Copy, PartialEq, Eq, Structural)]
pub enum ScrapeError {
    /// The server answered with a status outside the success class.
    Fetch(u16),
    /// The request could not be made, or its body could not be read.
    Request,
    /// The page could not be parsed as markup.
    Parse,
    /// A matched anchor has no link target.
    MissingAttribute,
    /// A matched anchor has neither a title nor any text.
    MissingName,
    /// Writing a downloaded file failed.
    Io,
    /// The command line names no page to fetch.
    Usage,
}

} // verus!

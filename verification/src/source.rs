//! Where an import takes its payload from.

use vstd::prelude::*;
use vstd::string::*;
use crate::error::{CommandError, CommandErrorView, ErrorKind};
use crate::file::check_file_exists;
use crate::net::{check_url, is_url};
use crate::text::{join, str_eq};

verus! {

/// One of the three ways to acquire the payload of an import.
#[derive(Debug)]
pub enum ImportSource {
    /// A tarball at this path, relative to the working directory.
    File(String),
    /// A resource the daemon fetches itself from this URL.
    Url(String),
    /// The caller's standard input.
    Stdin,
}

/// The mathematical content of an [`ImportSource`].
pub enum ImportSourceView {
    File(Seq<char>),
    Url(Seq<char>),
    Stdin,
}

impl View for ImportSource {
    type V = ImportSourceView;

    open spec fn view(&self) -> ImportSourceView {
        match self {
            ImportSource::File(path) => ImportSourceView::File(path@),
            ImportSource::Url(url) => ImportSourceView::Url(url@),
            ImportSource::Stdin => ImportSourceView::Stdin,
        }
    }
}

/// The source that `token` stands for, by priority: `-` is standard input,
/// then a valid URL, then an existing file; anything else is no source.
pub open spec fn resolution(token: Seq<char>, file_exists: bool) -> Option<ImportSourceView> {
    if token == "-"@ {
        Some(ImportSourceView::Stdin)
    } else if is_url(token) {
        Some(ImportSourceView::Url(token))
    } else if file_exists {
        Some(ImportSourceView::File(token))
    } else {
        None
    }
}

/// The message that reports a token which stands for no source.
pub open spec fn source_not_found_message(token: Seq<char>) -> Seq<char> {
    "File or URL does not exist: "@ + token
}

/// Classifies the source token of an import. `file_exists` says whether a
/// file named `token` exists under the working directory; it is consulted
/// only for a token that is neither `-` nor a valid URL.
pub fn resolve_source(token: &str, file_exists: bool) -> (resolved: Result<
    ImportSource,
    CommandError,
>)
    ensures
        match resolution(token@, file_exists) {
            Some(source) => resolved matches Ok(found) && found@ == source,
            None => resolved matches Err(e) && e@ == (CommandErrorView {
                kind: ErrorKind::SourceNotFound,
                message: source_not_found_message(token@),
            }),
        },
{
    if str_eq(token, "-") {
        Ok(ImportSource::Stdin)
    } else if check_url(token).is_ok() {
        Ok(ImportSource::Url(token.to_owned()))
    } else if check_file_exists(token, file_exists).is_ok() {
        Ok(ImportSource::File(token.to_owned()))
    } else {
        Err(
            CommandError {
                kind: ErrorKind::SourceNotFound,
                message: join("File or URL does not exist: ", token),
            },
        )
    }
}

/// Resolution is total and ordered by priority. `-` is standard input
/// whatever the file system holds, and is no URL. Any other token that is a
/// valid URL is that URL, even where a file of the same name exists. Any
/// other token is the file of that name exactly where the file exists, and
/// no source at all where it does not.
pub proof fn lemma_resolution_is_ordered(token: Seq<char>, file_exists: bool)
    ensures
        !is_url("-"@),
        token == "-"@ ==> resolution(token, file_exists) == Some(ImportSourceView::Stdin),
        token != "-"@ && is_url(token) ==> resolution(token, file_exists) == Some(
            ImportSourceView::Url(token),
        ),
        token != "-"@ && !is_url(token) && file_exists ==> resolution(token, file_exists) == Some(
            ImportSourceView::File(token),
        ),
        token != "-"@ && !is_url(token) && !file_exists ==> resolution(token, file_exists) is None,
{
    reveal_strlit("-");
    reveal_strlit("http://");
    reveal_strlit("https://");
}

} // verus!

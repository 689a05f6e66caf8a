//! The archive packager: the decisions and names around the archive of an
//! index, which is written at most once and served from then on.
use vstd::prelude::*;
use vstd::string::*;

use crate::text::{decimal, decimal_text};

verus! {

/// The file name of an index's archive.
pub open spec fn archive_name(index_name: Seq<char>) -> Seq<char> {
    index_name + ".tar.gz"@
}

/// Distinct indices have distinct archives: the archive name determines the
/// index name.
pub proof fn lemma_archive_name_injective(a: Seq<char>, b: Seq<char>)
    requires
        archive_name(a) == archive_name(b),
    ensures
        a == b,
{
    assert(a =~= archive_name(a).subrange(0, a.len() as int));
    assert(b =~= archive_name(b).subrange(0, b.len() as int));
}

/// The file name of an index's archive.
pub fn archive_file_name(index_name: &str) -> (r: String)
    ensures
        r@ == archive_name(index_name@),
{
    String::from_str(index_name).concat(".tar.gz")
}

/// The file name under which an archive is written before it is renamed to
/// its own name, so that no reader ever sees a partial archive under it.
pub fn partial_archive_file_name(index_name: &str) -> (r: String)
    ensures
        r@ == archive_name(index_name@) + ".partial"@,
{
    archive_file_name(index_name).concat(".partial")
}

/// What a download request leads to.
#[derive(Clone, Copy, Debug, PartialEq, Eq, Structural)]
pub enum DownloadStep {
    /// The index does not exist.
    NotFound,
    /// The archive must be written from the index directory, then served.
    Package,
    /// The archive is already there and is served as it is.
    Serve,
}

/// The step for a download, given what exists on disk.
pub open spec fn next_step(index_exists: bool, archive_exists: bool) -> DownloadStep {
    if !index_exists {
        DownloadStep::NotFound
    } else if archive_exists {
        DownloadStep::Serve
    } else {
        DownloadStep::Package
    }
}

/// Whether the archive exists after a step that succeeded.
pub open spec fn archived_after(archive_exists: bool, step: DownloadStep) -> bool {
    archive_exists || step == DownloadStep::Package
}

/// Whether a step walks the index directory and writes the archive.
pub open spec fn writes_archive(step: DownloadStep) -> bool {
    step == DownloadStep::Package
}

/// The step for a download, given what exists on disk.
pub fn plan_download(index_exists: bool, archive_exists: bool) -> (r: DownloadStep)
    ensures
        r == next_step(index_exists, archive_exists),
{
    if !index_exists {
        DownloadStep::NotFound
    } else if archive_exists {
        DownloadStep::Serve
    } else {
        DownloadStep::Package
    }
}

/// Once a download of an index has succeeded, every later download of it
/// serves the archive already written: the index directory is not walked
/// again and the archive is not rewritten, so the same bytes are served.
pub proof fn lemma_second_download_reuses_archive(archive_exists: bool)
    ensures
        next_step(true, archive_exists) != DownloadStep::NotFound,
        next_step(true, archived_after(archive_exists, next_step(true, archive_exists)))
            == DownloadStep::Serve,
        !writes_archive(
            next_step(true, archived_after(archive_exists, next_step(true, archive_exists))),
        ),
        archived_after(
            archived_after(archive_exists, next_step(true, archive_exists)),
            DownloadStep::Serve,
        ),
{
}

/// The message of a download of an index that does not exist.
pub fn not_found_message(index_name: &str) -> (r: String)
    ensures
        r@ == "Index '"@ + index_name@ + "' not found"@,
{
    String::from_str("Index '").concat(index_name).concat("' not found")
}

/// The value of the `Content-Disposition` header for an archive.
pub open spec fn disposition(file_name: Seq<char>) -> Seq<char> {
    "attachment; filename=\""@ + file_name + "\""@
}

/// The headers of a download response carrying `content_length` bytes of
/// the archive named `file_name`.
pub open spec fn download_header_list(file_name: Seq<char>, content_length: nat) -> Seq<
    (Seq<char>, Seq<char>),
> {
    seq![
        ("Access-Control-Allow-Origin"@, "*"@),
        ("Access-Control-Allow-Methods"@, "*"@),
        ("Access-Control-Allow-Headers"@, "*"@),
        ("Content-Type"@, "application/gzip"@),
        ("Content-Disposition"@, disposition(file_name)),
        ("Content-Length"@, decimal(content_length)),
    ]
}

/// The views of a list of headers.
pub open spec fn header_views(h: Seq<(String, String)>) -> Seq<(Seq<char>, Seq<char>)> {
    h.map_values(|p: (String, String)| (p.0@, p.1@))
}

fn header(name: &str, value: String) -> (r: (String, String))
    ensures
        r.0@ == name@,
        r.1@ == value@,
{
    (String::from_str(name), value)
}

/// The headers of a download response carrying `content_length` bytes of
/// the archive named `file_name`.
pub fn download_headers(file_name: &str, content_length: u64) -> (r: Vec<(String, String)>)
    ensures
        header_views(r@) == download_header_list(file_name@, content_length as nat),
{
    let disposition_value = String::from_str("attachment; filename=\"").concat(file_name).concat(
        "\"",
    );
    let mut r: Vec<(String, String)> = Vec::new();
    r.push(header("Access-Control-Allow-Origin", String::from_str("*")));
    r.push(header("Access-Control-Allow-Methods", String::from_str("*")));
    r.push(header("Access-Control-Allow-Headers", String::from_str("*")));
    r.push(header("Content-Type", String::from_str("application/gzip")));
    r.push(header("Content-Disposition", disposition_value));
    r.push(header("Content-Length", decimal_text(content_length)));
    assert(header_views(r@) =~= download_header_list(file_name@, content_length as nat));
    r
}

} // verus!

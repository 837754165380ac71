//! The rows of the file-listing page: a shortened digest, a download
//! link and a QR-page link per registered file. Assembling the rows
//! into a page is left to the HTML-rendering collaborator.

use vstd::prelude::*;

use crate::net::{host_text, HostAddr};
use crate::server::Server;
use crate::strutil::{basename, spec_basename};
use crate::url::compose_url;

verus! {

/// How many leading digest characters the listing shows.
pub open spec fn spec_digest_show_chars() -> int {
    10
}

/// An HTML anchor: `<a href="url">desc</a>`.
pub open spec fn spec_a_href(url: Seq<char>, desc: Seq<char>) -> Seq<char> {
    "<a href=\""@ + url + "\">"@ + desc + "</a>"@
}

/// Render an HTML anchor for `url` labelled `desc`.
pub fn a_href(url: &str, desc: &str) -> (r: String)
    ensures
        r@ == spec_a_href(url@, desc@),
{
    let mut s = String::from_str("<a href=\"");
    s.append(url);
    s.append("\">");
    s.append(desc);
    s.append("</a>");
    proof {
        assert(s@ =~= spec_a_href(url@, desc@));
    }
    s
}

/// One listing row, ready for the page table.
pub struct ListRow {
    pub digest_short: String,
    pub download: String,
    pub qr: String,
}

/// The leading characters of a digest key shown in the listing: the
/// first ten, or all of a shorter key.
pub open spec fn spec_short_digest(d: Seq<char>) -> Seq<char> {
    if d.len() >= spec_digest_show_chars() {
        d.take(spec_digest_show_chars())
    } else {
        d
    }
}

/// The row for one digest entry: the shortened key, the download link
/// labelled with the file's base name, and the QR-page link.
pub open spec fn spec_list_row(
    s: Server,
    interfaces: Seq<HostAddr>,
    entry: (Seq<char>, Seq<char>),
) -> (Seq<char>, Seq<char>, Seq<char>) {
    (
        spec_short_digest(entry.0),
        spec_a_href(s.spec_digest_url("sha512"@, entry.0, interfaces), spec_basename(entry.1)),
        spec_a_href(s.spec_digest_url("qr/sha512"@, entry.0, interfaces), "QR code"@),
    )
}

/// What a rendered row holds.
pub open spec fn spec_row_view(r: ListRow) -> (Seq<char>, Seq<char>, Seq<char>) {
    (r.digest_short@, r.download@, r.qr@)
}

/// Render the listing rows for every recorded digest entry, in order.
pub fn list_rows(server: &Server, interfaces: &Vec<HostAddr>) -> (r: Vec<ListRow>)
    ensures
        r@.len() == server.registry.spec_entries().len(),
        forall|i: int|
            0 <= i < r@.len() ==> spec_row_view(r@[i]) == spec_list_row(
                *server,
                interfaces@,
                server.registry.spec_entries()[i],
            ),
{
    let host = server.bind.primary_host(interfaces);
    let host_str = host_text(&host);
    let port = server.bind.port();
    let n = server.registry.entries.len();
    let mut rows: Vec<ListRow> = Vec::new();
    for i in 0..n
        invariant
            n == server.registry.entries@.len(),
            host_str@ == crate::net::spec_host_text(
                server.bind.spec_primary_host(interfaces@),
            ),
            port == server.bind.spec_port(),
            rows@.len() == i,
            forall|j: int|
                0 <= j < i ==> spec_row_view(rows@[j]) == spec_list_row(
                    *server,
                    interfaces@,
                    server.registry.spec_entries()[j],
                ),
    {
        let digest = &server.registry.entries[i].digest;
        let path = &server.registry.entries[i].path;
        let len = digest.as_str().unicode_len();
        let cut = if len >= 10 {
            10
        } else {
            len
        };
        let short = digest.as_str().substring_char(0, cut).to_owned();
        proof {
            if len >= 10 {
                assert(short@ =~= spec_short_digest(digest@));
            } else {
                assert(short@ =~= digest@);
            }
        }
        let name = basename(path.as_str());
        let download_url = compose_url("http", host_str.as_str(), port, "sha512", digest.as_str());
        let qr_page_url = compose_url(
            "http",
            host_str.as_str(),
            port,
            "qr/sha512",
            digest.as_str(),
        );
        let download = a_href(download_url.as_str(), name.as_str());
        let qr = a_href(qr_page_url.as_str(), "QR code");
        rows.push(ListRow { digest_short: short, download, qr });
    }
    rows
}

} // verus!

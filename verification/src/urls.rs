//! The share-link parser and the builders of the vendor's request URLs.

use vstd::prelude::*;
use vstd::string::StrSliceExecFns;
use vstd::string::StringExecFns;
use crate::text::lemma_first_match_unique;
use crate::text::match_at;
use crate::text::dec_of;
use crate::text::find_char_from;
use crate::text::find_sub;
use crate::text::first_match_at;
use crate::text::substring_string;
use crate::text::u64_to_dec;

verus! {

/// The service's base URL, as characters.
pub open spec fn base_url() -> Seq<char> {
    "https://cloud.tsinghua.edu.cn"@
}

/// The marker that precedes the share key in a share link.
pub open spec fn share_marker() -> Seq<char> {
    "https://cloud.tsinghua.edu.cn/d/"@
}

/// What `urlencoding::encode` returns for a string: a percent-encoding
/// determined by the characters of its argument alone.
pub uninterp spec fn url_encoded_of(s: Seq<char>) -> Seq<char>;

/// Relies on urlencoding::encode: percent-encodes every byte outside
/// `A-Z a-z 0-9 - . _ ~`; the result is a function of the input characters.
#[verifier::external_body]
fn url_encode(s: &str) -> (r: String)
    ensures
        r@ == url_encoded_of(s@),
{
    urlencoding::encode(s).into_owned()
}

/// The share key of `link` runs from `i + marker len` to `end`: the marker's
/// first occurrence starts at `i`, and `end` is the first `/` after it.
pub open spec fn share_key_span(link: Seq<char>, i: int, end: int) -> bool {
    &&& first_match_at(link, share_marker(), i)
    &&& i + share_marker().len() <= end < link.len()
    &&& link[end] == '/'
    &&& forall|j: int| i + share_marker().len() <= j < end ==> link[j] != '/'
}

/// Extracts the share key from a full share link: the characters between the
/// first occurrence of the fixed marker and the next `/`. Returns `None` when
/// the marker is absent or no `/` follows it, which the caller must read as
/// "not a recognized share link", not as a hard failure.
pub fn parse_share_key(share_link: String) -> (r: Option<String>)
    ensures
        match r {
            Some(key) => exists|i: int, end: int|
                #[trigger] share_key_span(share_link@, i, end) && key@ == share_link@.subrange(
                    i + share_marker().len(),
                    end,
                ),
            None => forall|i: int, end: int| !share_key_span(share_link@, i, end),
        },
{
    let marker = "https://cloud.tsinghua.edu.cn/d/";
    // Materializes the machine bound on the link's character count, which
    // the index arithmetic below needs.
    let _link_len: usize = share_link.as_str().unicode_len();
    let pos = match find_sub(share_link.as_str(), marker) {
        Some(p) => p,
        None => {
            proof {
                assert forall|i: int, end: int| !share_key_span(share_link@, i, end) by {
                    if share_key_span(share_link@, i, end) {
                        assert(match_at(share_link@, share_marker(), i));
                    }
                }
            }
            return None;
        },
    };
    let start: usize = pos + marker.unicode_len();
    let end = match find_char_from(share_link.as_str(), '/', start) {
        Some(e) => e,
        None => {
            proof {
                assert forall|i: int, end: int| !share_key_span(share_link@, i, end) by {
                    if share_key_span(share_link@, i, end) {
                        lemma_first_match_unique(share_link@, share_marker(), i, pos as int);
                    }
                }
            }
            return None;
        },
    };
    let key = substring_string(share_link.as_str(), start, end);
    proof {
        assert(share_key_span(share_link@, pos as int, end as int));
    }
    Some(key)
}

/// The URL of the directory-listing endpoint for `path` under `share_key`.
pub fn build_dirents_url(share_key: &str, path: &str) -> (r: String)
    ensures
        r@ == "https://cloud.tsinghua.edu.cn/api/v2.1/share-links/"@ + share_key@
            + "/dirents/?path="@ + url_encoded_of(path@),
{
    let r = String::from_str("https://cloud.tsinghua.edu.cn/api/v2.1/share-links/").concat(
        share_key,
    ).concat("/dirents/?path=").concat(url_encode(path).as_str());
    assert(r@ =~= "https://cloud.tsinghua.edu.cn/api/v2.1/share-links/"@ + share_key@
        + "/dirents/?path="@ + url_encoded_of(path@));
    r
}

/// The URL of the file-download redirect endpoint for `file_path` under
/// `share_key`, with the direct-download flag set.
pub fn build_download_url(share_key: &str, file_path: &str) -> (r: String)
    ensures
        r@ == "https://cloud.tsinghua.edu.cn/d/"@ + share_key@ + "/files/?p="@ + url_encoded_of(
            file_path@,
        ) + "&dl=1"@,
{
    let r = String::from_str("https://cloud.tsinghua.edu.cn/d/").concat(share_key).concat(
        "/files/?p=",
    ).concat(url_encode(file_path).as_str()).concat("&dl=1");
    assert(r@ =~= "https://cloud.tsinghua.edu.cn/d/"@ + share_key@ + "/files/?p="@
        + url_encoded_of(file_path@) + "&dl=1"@);
    r
}

/// The URL of the share's landing page, which serves the password form.
pub fn build_landing_url(share_key: &str) -> (r: String)
    ensures
        r@ == "https://cloud.tsinghua.edu.cn/d/"@ + share_key@ + "/"@,
{
    let r = String::from_str("https://cloud.tsinghua.edu.cn/d/").concat(share_key).concat("/");
    assert(r@ =~= "https://cloud.tsinghua.edu.cn/d/"@ + share_key@ + "/"@);
    r
}

/// The `Range` header value requesting the bytes from `offset` on.
pub fn range_header_value(offset: u64) -> (r: String)
    ensures
        r@ == "bytes="@ + dec_of(offset as nat) + "-"@,
{
    let r = String::from_str("bytes=").concat(u64_to_dec(offset).as_str()).concat("-");
    assert(r@ =~= "bytes="@ + dec_of(offset as nat) + "-"@);
    r
}

} // verus!

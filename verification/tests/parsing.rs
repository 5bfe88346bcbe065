use cloud_download::session::extract_csrf_token;
use cloud_download::urls::build_dirents_url;
use cloud_download::urls::build_download_url;
use cloud_download::urls::build_landing_url;
use cloud_download::urls::parse_share_key;
use cloud_download::urls::range_header_value;

#[test]
fn parse_share_key_extracts_key() {
    let r = parse_share_key("https://cloud.tsinghua.edu.cn/d/abc123/".to_string());
    assert_eq!(r, Some("abc123".to_string()));
}

#[test]
fn parse_share_key_stops_at_first_slash() {
    let r = parse_share_key("https://cloud.tsinghua.edu.cn/d/abc/def/".to_string());
    assert_eq!(r, Some("abc".to_string()));
}

#[test]
fn parse_share_key_without_marker_is_none() {
    let r = parse_share_key("https://example.com/d/abc123/".to_string());
    assert_eq!(r, None);
}

#[test]
fn parse_share_key_without_closing_slash_is_none() {
    let r = parse_share_key("https://cloud.tsinghua.edu.cn/d/abc123".to_string());
    assert_eq!(r, None);
}

#[test]
fn dirents_url_percent_encodes_the_path() {
    let url = build_dirents_url("k", "/sub dir");
    assert_eq!(
        url,
        "https://cloud.tsinghua.edu.cn/api/v2.1/share-links/k/dirents/?path=%2Fsub%20dir"
    );
}

#[test]
fn download_url_percent_encodes_and_sets_direct_flag() {
    let url = build_download_url("k", "/a b.txt");
    assert_eq!(
        url,
        "https://cloud.tsinghua.edu.cn/d/k/files/?p=%2Fa%20b.txt&dl=1"
    );
}

#[test]
fn landing_url_points_at_the_share_page() {
    assert_eq!(build_landing_url("k"), "https://cloud.tsinghua.edu.cn/d/k/");
}

#[test]
fn range_header_names_the_resume_offset() {
    assert_eq!(range_header_value(1024), "bytes=1024-");
    assert_eq!(range_header_value(0), "bytes=0-");
}

#[test]
fn csrf_token_from_double_quoted_field() {
    let html = "<form><input type=\"hidden\" name=\"csrfmiddlewaretoken\" value=\"tok123\"></form>";
    assert_eq!(extract_csrf_token(html), Some("tok123".to_string()));
}

#[test]
fn csrf_token_from_single_quoted_field() {
    let html = "<input name='csrfmiddlewaretoken' value='tok456'>";
    assert_eq!(extract_csrf_token(html), Some("tok456".to_string()));
}

#[test]
fn csrf_token_absent_without_field_name() {
    let html = "<form><input name=\"other\" value=\"x\"></form>";
    assert_eq!(extract_csrf_token(html), None);
}

#[test]
fn csrf_token_absent_when_value_never_closes() {
    let html = "<input name=\"csrfmiddlewaretoken\" value=\"unterminated";
    assert_eq!(extract_csrf_token(html), None);
}

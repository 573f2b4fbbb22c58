//! The remote catalog as the sync run sees it: an entry's metadata, the
//! address of its metadata document and the local file of its image.

use vstd::prelude::*;
use crate::text::{
    append_decimal, append_from, append_str, append_zero_padded, chars_of, decimal,
    find_last_segment, last_segment, lemma_last_segment, lemma_zero_padded, numeral_value,
    string_of, zero_padded,
};

verus! {

/// Metadata of one comic, as the catalog serves it.
#[derive(Clone, Debug, PartialEq, Eq)]
pub struct Xkcd {
    pub month: String,
    pub link: String,
    pub year: String,
    pub news: String,
    pub safe_title: String,
    pub transcript: String,
    pub alt: String,
    pub title: String,
    pub day: String,
    pub num: usize,
    pub img: String,
}

/// Digits that the number in an image's file name is padded to.
pub const FILE_NUMBER_WIDTH: usize = 5;

/// Address of the metadata document of the latest comic.
pub open spec fn latest_json_url() -> Seq<char> {
    "https://xkcd.com/info.0.json"@
}

/// Address of the metadata document of comic `num`.
pub open spec fn json_url(num: usize) -> Seq<char> {
    "http://xkcd.com/"@ + decimal(num as nat) + "/info.0.json"@
}

/// Name of the local file for the image of comic `num` served at `url`:
/// the number, zero-padded, an underscore and the last segment of `url`.
pub open spec fn image_file_name(num: usize, url: Seq<char>) -> Seq<char> {
    zero_padded(num as nat, FILE_NUMBER_WIDTH as nat) + seq!['_'] + last_segment(url)
}

/// `name` inside the directory `dir`: the two joined by one `/`, which an
/// empty `dir` or one that ends in `/` does not need.
pub open spec fn path_in(dir: Seq<char>, name: Seq<char>) -> Seq<char> {
    if dir.len() == 0 || dir.last() == '/' {
        dir + name
    } else {
        dir + seq!['/'] + name
    }
}

/// Local path for the image of comic `num`; none where `url` ends without
/// a file name, that is where its last segment is empty.
pub open spec fn image_file_path(num: usize, url: Seq<char>, dir: Seq<char>) -> Option<Seq<char>> {
    if last_segment(url).len() == 0 {
        None
    } else {
        Some(path_in(dir, image_file_name(num, url)))
    }
}

/// No two comics share a local file: in one directory the paths of
/// different numbers differ, whatever addresses their images are served
/// at.
pub proof fn lemma_paths_differ(
    a: usize,
    b: usize,
    url_a: Seq<char>,
    url_b: Seq<char>,
    dir: Seq<char>,
)
    requires
        a != b,
    ensures
        image_file_name(a, url_a) != image_file_name(b, url_b),
        path_in(dir, image_file_name(a, url_a)) != path_in(dir, image_file_name(b, url_b)),
        image_file_path(a, url_a, dir) is Some ==> image_file_path(a, url_a, dir)
            != image_file_path(b, url_b, dir),
{
    let width = FILE_NUMBER_WIDTH as nat;
    let num_a = zero_padded(a as nat, width);
    let num_b = zero_padded(b as nat, width);
    let name_a = image_file_name(a, url_a);
    let name_b = image_file_name(b, url_b);
    lemma_zero_padded(a as nat, width);
    lemma_zero_padded(b as nat, width);
    if name_a == name_b {
        assert(name_a[num_a.len() as int] == '_');
        assert(name_b[num_b.len() as int] == '_');
        if num_a.len() < num_b.len() {
            assert(name_b[num_a.len() as int] == num_b[num_a.len() as int]);
        } else if num_b.len() < num_a.len() {
            assert(name_a[num_b.len() as int] == num_a[num_b.len() as int]);
        }
        assert(num_a.len() == num_b.len());
        assert(num_a == name_a.take(num_a.len() as int));
        assert(num_b == name_b.take(num_b.len() as int));
        assert(numeral_value(num_a) == numeral_value(num_b));
    }
    assert(name_a != name_b);
    let prefix = if dir.len() == 0 || dir.last() == '/' {
        dir
    } else {
        dir + seq!['/']
    };
    assert(path_in(dir, name_a) == prefix + name_a);
    assert(path_in(dir, name_b) == prefix + name_b);
    assert((prefix + name_a).skip(prefix.len() as int) == name_a);
    assert((prefix + name_b).skip(prefix.len() as int) == name_b);
}

/// Why no local path could be derived for an image.
#[derive(Clone, Copy, Debug, PartialEq, Eq)]
pub enum PathError {
    /// The image's address ends without a file name.
    NoFileName,
}

/// Address of the metadata document of the latest comic.
pub fn build_latest_json_url() -> (url: String)
    ensures
        url@ == latest_json_url(),
{
    "https://xkcd.com/info.0.json".to_owned()
}

/// Address of the metadata document of comic `num`.
pub fn build_json_url_for_num(num: usize) -> (url: String)
    ensures
        url@ == json_url(num),
{
    let mut url = chars_of("http://xkcd.com/");
    append_decimal(&mut url, num);
    append_str(&mut url, "/info.0.json");
    string_of(&url)
}

/// Local path, inside `comic_dir`, for the image of comic `num` that the
/// catalog serves at `comic_url`. Fails where the address ends without a
/// file name.
pub fn create_image_file_path(num: usize, comic_url: &str, comic_dir: &str) -> (path: Result<
    String,
    PathError,
>)
    ensures
        match path {
            Ok(p) => image_file_path(num, comic_url@, comic_dir@) == Some(p@),
            Err(e) => e == PathError::NoFileName && image_file_path(num, comic_url@, comic_dir@)
                is None,
        },
{
    let url = chars_of(comic_url);
    let start = find_last_segment(&url);
    proof {
        lemma_last_segment(url@);
    }
    if start == url.len() {
        return Err(PathError::NoFileName);
    }
    let mut path = chars_of(comic_dir);
    if path.len() > 0 && path[path.len() - 1] != '/' {
        path.push('/');
    }
    append_zero_padded(&mut path, num, FILE_NUMBER_WIDTH);
    path.push('_');
    append_from(&mut path, &url, start);
    Ok(string_of(&path))
}

} // verus!

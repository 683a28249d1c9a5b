//! Names of the remote and local frame resources.
//!
//! Every frame index maps to one remote URL and one local file under the
//! download directory; the assembly stage additionally names the manifest,
//! the output video and one manifest line per present frame.  Each builder
//! returns exactly the character sequence its spec function describes.

use vstd::prelude::*;
use vstd::string::StringExecFns;

verus! {

/// Decimal digit `d` as a one-character sequence.
pub open spec fn digit_rep(d: nat) -> Seq<char>
    recommends
        d < 10,
{
    if d == 0 {
        "0"@
    } else if d == 1 {
        "1"@
    } else if d == 2 {
        "2"@
    } else if d == 3 {
        "3"@
    } else if d == 4 {
        "4"@
    } else if d == 5 {
        "5"@
    } else if d == 6 {
        "6"@
    } else if d == 7 {
        "7"@
    } else if d == 8 {
        "8"@
    } else {
        "9"@
    }
}

/// Decimal rendering of `n`, most significant digit first, no leading zeros.
pub open spec fn dec_rep(n: nat) -> Seq<char>
    decreases n,
{
    if n < 10 {
        digit_rep(n)
    } else {
        dec_rep(n / 10) + digit_rep(n % 10)
    }
}

/// File name of the frame with index `i`: `video<i>.jpeg`.
pub open spec fn frame_file_name_rep(i: nat) -> Seq<char> {
    "video"@ + dec_rep(i) + ".jpeg"@
}

/// Remote address of one frame: `https://<host>/<uuid>/<resolution>/video<i>.jpeg`.
pub open spec fn frame_url_rep(uuid: Seq<char>, resolution: Seq<char>, i: nat) -> Seq<char> {
    "https://surrit.com/"@ + uuid + "/"@ + resolution + "/"@ + frame_file_name_rep(i)
}

/// Directory every frame of one movie is written into.
pub open spec fn movie_dir_rep(movie: Seq<char>) -> Seq<char> {
    "downloads/"@ + movie
}

/// Local path of one fetched frame.
pub open spec fn frame_path_rep(movie: Seq<char>, i: nat) -> Seq<char> {
    movie_dir_rep(movie) + "/"@ + frame_file_name_rep(i)
}

/// Path of the concatenation manifest of one movie.
pub open spec fn list_path_rep(movie: Seq<char>) -> Seq<char> {
    movie_dir_rep(movie) + "/list.txt"@
}

/// Path of the final assembled video.
pub open spec fn output_path_rep(movie: Seq<char>) -> Seq<char> {
    "downloads/"@ + movie + ".mp4"@
}

/// One manifest line for a present frame: `file 'video<i>.jpeg'`.
pub open spec fn manifest_line_rep(i: nat) -> Seq<char> {
    "file '"@ + frame_file_name_rep(i) + "'"@
}

/// Appends the digit character for `d` to `s`.
fn push_digit(s: &mut String, d: u64)
    requires
        d < 10,
    ensures
        final(s)@ == old(s)@ + digit_rep(d as nat),
{
    if d == 0 {
        s.append("0");
    } else if d == 1 {
        s.append("1");
    } else if d == 2 {
        s.append("2");
    } else if d == 3 {
        s.append("3");
    } else if d == 4 {
        s.append("4");
    } else if d == 5 {
        s.append("5");
    } else if d == 6 {
        s.append("6");
    } else if d == 7 {
        s.append("7");
    } else if d == 8 {
        s.append("8");
    } else {
        s.append("9");
    }
}

/// Renders `n` in decimal.
pub fn u64_dec(n: u64) -> (s: String)
    ensures
        s@ == dec_rep(n as nat),
    decreases n,
{
    if n < 10 {
        let mut s = String::new();
        push_digit(&mut s, n);
        proof {
            assert(s@ =~= dec_rep(n as nat));
        }
        s
    } else {
        let mut s = u64_dec(n / 10);
        push_digit(&mut s, n % 10);
        s
    }
}

/// Builds `video<i>.jpeg`.
pub fn frame_file_name(i: u64) -> (s: String)
    ensures
        s@ == frame_file_name_rep(i as nat),
{
    let mut s = String::from_str("video");
    let digits = u64_dec(i);
    s.append(digits.as_str());
    s.append(".jpeg");
    s
}

/// Builds the remote address of frame `i` of the given video and resolution.
pub fn frame_url(uuid: &str, resolution: &str, i: u64) -> (s: String)
    ensures
        s@ == frame_url_rep(uuid@, resolution@, i as nat),
{
    let mut s = String::from_str("https://surrit.com/");
    s.append(uuid);
    s.append("/");
    s.append(resolution);
    s.append("/");
    let name = frame_file_name(i);
    s.append(name.as_str());
    s
}

/// Builds the directory path of one movie's frames.
pub fn movie_dir(movie: &str) -> (s: String)
    ensures
        s@ == movie_dir_rep(movie@),
{
    let mut s = String::from_str("downloads/");
    s.append(movie);
    s
}

/// Builds the local path frame `i` of the movie is written to.
pub fn frame_path(movie: &str, i: u64) -> (s: String)
    ensures
        s@ == frame_path_rep(movie@, i as nat),
{
    let mut s = movie_dir(movie);
    s.append("/");
    let name = frame_file_name(i);
    s.append(name.as_str());
    s
}

/// Builds the path of the movie's concatenation manifest.
pub fn list_path(movie: &str) -> (s: String)
    ensures
        s@ == list_path_rep(movie@),
{
    let mut s = movie_dir(movie);
    s.append("/list.txt");
    s
}

/// Builds the path of the movie's assembled output video.
pub fn output_path(movie: &str) -> (s: String)
    ensures
        s@ == output_path_rep(movie@),
{
    let mut s = String::from_str("downloads/");
    s.append(movie);
    s.append(".mp4");
    s
}

/// Builds the manifest line naming frame `i`.
pub fn manifest_line(i: u64) -> (s: String)
    ensures
        s@ == manifest_line_rep(i as nat),
{
    let mut s = String::from_str("file '");
    let name = frame_file_name(i);
    s.append(name.as_str());
    s.append("'");
    s
}

} // verus!

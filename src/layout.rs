//! Where the font, its archive and the archive's download in progress live.
use vstd::prelude::*;

verus! {

/// Page that describes the font family.
pub const INFO_URL: &'static str = "http://www.google.com/get/noto/";

/// Where the font archive is downloaded from.
pub const DOWNLOAD_URL: &'static str = "https://noto-website-2.storage.googleapis.com/pkgs/NotoSans-unhinted.zip";

/// The font directory, relative to the user's home directory.
pub const RELATIVE_TO_HOME: &'static str = ".fonts";

/// File name of the cached archive inside the font directory.
pub const ZIP_NAME: &'static str = "NotoSans-unhinted.zip";

/// File name of an archive download that has not completed yet.
pub const PARTIAL_ZIP_NAME: &'static str = "NotoSans-unhinted.zip.part";

/// File name of the font inside the font directory.
pub const FONT_NAME: &'static str = "NotoSans-Regular.ttf";

/// `dir` joined with `name`: a separator goes between them unless `dir` is
/// empty or already ends in one.
pub open spec fn join(dir: Seq<char>, name: Seq<char>) -> Seq<char> {
    if dir.len() == 0 || dir.last() == '/' {
        dir + name
    } else {
        dir + seq!['/'] + name
    }
}

/// The font directory of a user whose home directory is `home`.
pub open spec fn base_dir_of(home: Seq<char>) -> Seq<char> {
    join(home, RELATIVE_TO_HOME@)
}

/// The font file inside the font directory `base`.
pub open spec fn font_path_of(base: Seq<char>) -> Seq<char> {
    join(base, FONT_NAME@)
}

/// The cached archive inside the font directory `base`.
pub open spec fn zip_path_of(base: Seq<char>) -> Seq<char> {
    join(base, ZIP_NAME@)
}

/// The download in progress inside the font directory `base`.
pub open spec fn partial_zip_path_of(base: Seq<char>) -> Seq<char> {
    join(base, PARTIAL_ZIP_NAME@)
}

/// Joins `name` onto the directory `dir`.
pub fn join_path(dir: &str, name: &str) -> (r: String)
    ensures
        r@ == join(dir@, name@),
{
    let n = dir.unicode_len();
    let mut r = String::from_str(dir);
    if n > 0 && dir.get_char(n - 1) != '/' {
        r.append("/");
        proof {
            reveal_strlit("/");
        }
    }
    r.append(name);
    r
}

/// The font directory for the home directory `home`.
pub fn base_dir(home: &str) -> (r: String)
    ensures
        r@ == base_dir_of(home@),
{
    join_path(home, RELATIVE_TO_HOME)
}

/// The font file inside the font directory `base`.
pub fn font_path(base: &str) -> (r: String)
    ensures
        r@ == font_path_of(base@),
{
    join_path(base, FONT_NAME)
}

/// The cached archive inside the font directory `base`.
pub fn zip_path(base: &str) -> (r: String)
    ensures
        r@ == zip_path_of(base@),
{
    join_path(base, ZIP_NAME)
}

/// The download in progress inside the font directory `base`.
pub fn partial_zip_path(base: &str) -> (r: String)
    ensures
        r@ == partial_zip_path_of(base@),
{
    join_path(base, PARTIAL_ZIP_NAME)
}

} // verus!

//! Where the engine's license is found.

use vstd::prelude::*;

use crate::error::Error;
use crate::text::{chars_of, push_str, string_of_chars};

verus! {

/// The name of the license file.
pub const RDFOX_DEFAULT_LICENSE_FILE_NAME: &'static str = "RDFox.lic";

/// The path that joining `name` onto the path `dir` gives
/// (`std::path::Path::join`).
pub uninterp spec fn joined_path(dir: Seq<char>, name: Seq<char>) -> Seq<char>;

/// The path `name` joined onto the path `dir` (`std::path::Path::join`).
#[verifier::external_body]
fn path_join(dir: &str, name: &str) -> (r: String)
    ensures
        r@ == joined_path(dir@, name@),
{
    std::path::Path::new(dir).join(name).to_string_lossy().into_owned()
}

/// The license file in the directory `dir`.
pub fn license_file_in(dir: &str) -> (r: String)
    ensures
        r@ == joined_path(dir@, "RDFox.lic"@),
{
    path_join(dir, "RDFox.lic")
}

/// The license file in the engine's home directory `rdfox_home`.
pub fn home_license_file(rdfox_home: &str) -> (r: String)
    ensures
        r@ == rdfox_home@ + "/RDFox.lic"@,
{
    let mut v = chars_of(rdfox_home);
    push_str(&mut v, "/RDFox.lic");
    string_of_chars(&v)
}

/// Where the license is: its content where `license_content` (the setting
/// that holds it) is given, which takes precedence; else the license file in
/// the directory `dir`, where one is given and that file exists
/// (`dir_file_exists`); else the license file in the engine's home directory
/// `rdfox_home`, where that exists (`home_file_exists`);
/// `RDFoxLicenseFileNotFound` otherwise. The result holds the path of the
/// file found, or the content.
pub fn find_license(
    dir: Option<&str>,
    rdfox_home: &str,
    license_content: Option<String>,
    dir_file_exists: bool,
    home_file_exists: bool,
) -> (r: Result<(Option<String>, Option<String>), Error>)
    ensures
        license_content matches Some(c) ==> (r matches Ok((None, Some(c2))) && c2 == c),
        license_content is None && dir is Some && dir_file_exists ==> (r matches Ok((Some(p), None))
            && p@ == joined_path(dir->0@, "RDFox.lic"@)),
        license_content is None && !(dir is Some && dir_file_exists) && home_file_exists ==> (r matches Ok(
            (Some(p), None),
        ) && p@ == rdfox_home@ + "/RDFox.lic"@),
        license_content is None && !(dir is Some && dir_file_exists) && !home_file_exists ==> (r matches Err(
            Error::RDFoxLicenseFileNotFound,
        )),
{
    if let Some(content) = license_content {
        return Ok((None, Some(content)));
    }
    if let Some(d) = dir {
        if dir_file_exists {
            return Ok((Some(license_file_in(d)), None));
        }
    }
    if home_file_exists {
        return Ok((Some(home_license_file(rdfox_home)), None));
    }
    Err(Error::RDFoxLicenseFileNotFound)
}

} // verus!

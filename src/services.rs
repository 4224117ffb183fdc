use vstd::prelude::*;
use vstd::string::*;

verus! {

/// The download URL of an archive of a library release.
pub open spec fn release_url(lib_name: Seq<char>, status: Seq<char>, version: Seq<char>, zip_path: Seq<char>) -> Seq<char> {
    "https://github.com/libsdl-org/"@ + lib_name + "/releases/download/"@ + status + "-"@ + version
        + "/"@ + zip_path
}

/// The address of the latest-release query for a repository.
pub open spec fn latest_release_query(repo: Seq<char>) -> Seq<char> {
    "https://api.github.com/repos/libsdl-org/"@ + repo + "/releases/latest"@
}

/// Builds the download URL of `zip_path` in release `<status>-<version>` of `lib_name`.
pub fn get_url_format(lib_name: &str, status: &str, version: &str, zip_path: &str) -> (r: String)
    ensures
        r@ == release_url(lib_name@, status@, version@, zip_path@),
{
    let mut url = String::from_str("https://github.com/libsdl-org/");
    url.append(lib_name);
    url.append("/releases/download/");
    url.append(status);
    url.append("-");
    url.append(version);
    url.append("/");
    url.append(zip_path);
    url
}

/// Builds the latest-release query address of `repo`.
pub fn latest_release_url(repo: &str) -> (r: String)
    ensures
        r@ == latest_release_query(repo@),
{
    let mut url = String::from_str("https://api.github.com/repos/libsdl-org/");
    url.append(repo);
    url.append("/releases/latest");
    url
}

} // verus!

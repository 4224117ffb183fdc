use vstd::prelude::*;
use vstd::string::*;
use crate::text::{is_prefix, starts_with_text};

verus! {

/// A library name without its leading `"SDL"`, where it has one.
pub open spec fn strip_sdl(name: Seq<char>) -> Seq<char> {
    if is_prefix("SDL"@, name) {
        name.subrange(3, name.len() as int)
    } else {
        name
    }
}

/// The artifact family of a library at a version: `"SDL"`, the version's first
/// character, then the name without its `"SDL"` prefix (`SDL_image` at `2.0.5`
/// gives `SDL2_image`).
pub open spec fn family_of(name: Seq<char>, version: Seq<char>) -> Seq<char> {
    "SDL"@ + seq![version[0]] + strip_sdl(name)
}

/// `<family>-<version>`: the top directory of a release's archives.
pub open spec fn true_name_of(name: Seq<char>, version: Seq<char>) -> Seq<char> {
    family_of(name, version) + "-"@ + version
}

/// The prebuilt runtime archive of a release for an architecture.
pub open spec fn runtime_archive(family: Seq<char>, version: Seq<char>, arch: Seq<char>) -> Seq<char> {
    family + "-"@ + version + "-win32-"@ + arch + ".zip"@
}

/// The development archive (headers and import libraries) of a release.
pub open spec fn dev_archive(family: Seq<char>, version: Seq<char>) -> Seq<char> {
    family + "-devel-"@ + version + "-VC.zip"@
}

/// The source archive of a release.
pub open spec fn source_archive(family: Seq<char>, version: Seq<char>) -> Seq<char> {
    family + "-"@ + version + ".tar.gz"@
}

/// The artifact family of `lib_name` at `version`.
pub fn family_name(lib_name: &str, version: &str) -> (r: String)
    requires
        version@.len() > 0,
    ensures
        r@ == family_of(lib_name@, version@),
{
    proof {
        reveal_strlit("SDL");
    }
    let mut fam = String::from_str("SDL");
    fam.append(version.substring_char(0, 1));
    let n = lib_name.unicode_len();
    if starts_with_text(lib_name, "SDL") {
        fam.append(lib_name.substring_char(3, n));
    } else {
        fam.append(lib_name);
    }
    assert(fam@ =~= family_of(lib_name@, version@));
    fam
}

/// `<family>-<version>`.
pub fn true_name(family: &str, version: &str) -> (r: String)
    ensures
        r@ == family@ + "-"@ + version@,
{
    let mut s = String::from_str(family);
    s.append("-");
    s.append(version);
    s
}

/// The file name of the prebuilt runtime archive.
pub fn runtime_archive_name(family: &str, version: &str, arch: &str) -> (r: String)
    ensures
        r@ == runtime_archive(family@, version@, arch@),
{
    let mut s = String::from_str(family);
    s.append("-");
    s.append(version);
    s.append("-win32-");
    s.append(arch);
    s.append(".zip");
    s
}

/// The file name of the development archive.
pub fn dev_archive_name(family: &str, version: &str) -> (r: String)
    ensures
        r@ == dev_archive(family@, version@),
{
    let mut s = String::from_str(family);
    s.append("-devel-");
    s.append(version);
    s.append("-VC.zip");
    s
}

/// The file name of the source archive.
pub fn source_archive_name(family: &str, version: &str) -> (r: String)
    ensures
        r@ == source_archive(family@, version@),
{
    let mut s = String::from_str(family);
    s.append("-");
    s.append(version);
    s.append(".tar.gz");
    s
}

/// `a` followed by `b`.
pub fn joined(a: &str, b: &str) -> (r: String)
    ensures
        r@ == a@ + b@,
{
    let mut s = String::from_str(a);
    s.append(b);
    s
}

} // verus!

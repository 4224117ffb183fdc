use vstd::prelude::*;
use vstd::string::*;
use crate::text::{same_text, find_char, has_char};

verus! {

/// One library declared in the manifest.
#[derive(Debug, PartialEq, Eq)]
pub struct Lib {
    pub name: String,
    /// Release channel, used verbatim in download URLs.
    pub status: String,
    pub version: String,
}

/// The `sdl` section of the manifest.
#[derive(Debug, PartialEq, Eq)]
pub struct SdlSection {
    /// Explicit architecture, or `"auto"`.
    pub arch: String,
    /// Libraries in installation order.
    pub libs: Vec<Lib>,
}

/// The whole manifest.
#[derive(Debug, PartialEq, Eq)]
pub struct SdlConfig {
    /// Schema version of the manifest.
    pub version: String,
    pub sdl: SdlSection,
}

/// One category of installed files.
#[derive(Clone, Copy, Debug, PartialEq, Eq, Structural)]
pub enum LibTag {
    Bin,
    Include,
    Lib,
}

/// Failures of the package manager's own logic.
#[derive(Debug, PartialEq, Eq)]
pub enum PkgError {
    /// The manifest's schema version is not supported.
    UnsupportedVersion(String),
    /// A library name outside the supported set.
    UnsupportedLibrary(String),
    /// A release tag that is not of the form `<channel>-<version>`.
    MalformedReleaseTag(String),
    /// A download answered with a non-success HTTP status.
    Download(u16),
}

/// The name of the destination directory that holds files of a tag.
pub open spec fn tag_dir(t: LibTag) -> Seq<char> {
    match t {
        LibTag::Bin => "bin"@,
        LibTag::Include => "include"@,
        LibTag::Lib => "lib"@,
    }
}

impl LibTag {
    /// The destination directory name of this tag.
    pub fn to_str(&self) -> (r: String)
        ensures
            r@ == tag_dir(*self),
    {
        match self {
            LibTag::Bin => String::from_str("bin"),
            LibTag::Include => String::from_str("include"),
            LibTag::Lib => String::from_str("lib"),
        }
    }
}

impl Lib {
    /// A field-for-field copy.
    pub fn copied(&self) -> (r: Lib)
        ensures
            r == *self,
    {
        Lib { name: self.name.clone(), status: self.status.clone(), version: self.version.clone() }
    }
}

/// The library names that can be installed.
pub open spec fn is_supported_lib(name: Seq<char>) -> bool {
    name == "SDL"@ || name == "SDL_image"@ || name == "SDL_mixer"@ || name == "SDL_ttf"@
}

/// The manifest schema versions that can be read.
pub open spec fn is_supported_version(v: Seq<char>) -> bool {
    v == "1.0.0"@
}

/// Whether `name` is an installable library.
pub fn supported_lib(name: &str) -> (r: bool)
    ensures
        r == is_supported_lib(name@),
{
    same_text(name, "SDL") || same_text(name, "SDL_image") || same_text(name, "SDL_mixer")
        || same_text(name, "SDL_ttf")
}

/// Whether `v` is a readable manifest schema version.
pub fn supported_version(v: &str) -> (r: bool)
    ensures
        r == is_supported_version(v@),
{
    same_text(v, "1.0.0")
}

/// Every library of the sequence has a supported name.
pub open spec fn all_supported(libs: Seq<Lib>) -> bool {
    forall|i: int| 0 <= i < libs.len() ==> is_supported_lib(#[trigger] libs[i].name@)
}

/// `i` is the position of the first library with an unsupported name.
pub open spec fn first_unsupported_at(libs: Seq<Lib>, i: int) -> bool {
    &&& 0 <= i < libs.len()
    &&& !is_supported_lib(libs[i].name@)
    &&& forall|j: int| 0 <= j < i ==> is_supported_lib(#[trigger] libs[j].name@)
}

/// The manifest passes validation.
pub open spec fn config_valid(c: SdlConfig) -> bool {
    is_supported_version(c.version@) && all_supported(c.sdl.libs@)
}

/// `e` is the error that validation reports for `c`: an unsupported schema
/// version, or else the first unsupported library name.
pub open spec fn validation_error(c: SdlConfig, e: PkgError) -> bool {
    match e {
        PkgError::UnsupportedVersion(v) => !is_supported_version(c.version@) && v@ == c.version@,
        PkgError::UnsupportedLibrary(n) => is_supported_version(c.version@) && exists|i: int|
            first_unsupported_at(c.sdl.libs@, i) && n@ == c.sdl.libs@[i].name@,
        _ => false,
    }
}

/// Validates the schema version, then each library name in order.
pub fn check_libs(libs: &SdlConfig) -> (r: Result<(), PkgError>)
    ensures
        r is Ok <==> config_valid(*libs),
        r matches Err(e) ==> validation_error(*libs, e),
{
    if !supported_version(libs.version.as_str()) {
        return Err(PkgError::UnsupportedVersion(libs.version.clone()));
    }
    let n = libs.sdl.libs.len();
    let mut i: usize = 0;
    while i < n
        invariant
            n == libs.sdl.libs@.len(),
            is_supported_version(libs.version@),
            i <= n,
            forall|j: int| 0 <= j < i ==> is_supported_lib(#[trigger] libs.sdl.libs@[j].name@),
        decreases n - i,
    {
        let name = &libs.sdl.libs[i].name;
        if !supported_lib(name.as_str()) {
            assert(first_unsupported_at(libs.sdl.libs@, i as int));
            return Err(PkgError::UnsupportedLibrary(name.clone()));
        }
        i = i + 1;
    }
    Ok(())
}

/// `k` is the position of the first `-` in `s`.
pub open spec fn dash_at(s: Seq<char>, k: int) -> bool {
    &&& 0 <= k < s.len()
    &&& s[k] == '-'
    &&& forall|j: int| 0 <= j < k ==> s[j] != '-'
}

/// The position of the first `-` in `s`, or its length where there is none.
pub open spec fn dash_index(s: Seq<char>) -> int {
    if has_char(s, '-') {
        choose|k: int| dash_at(s, k)
    } else {
        s.len() as int
    }
}

/// The channel of a release tag `<channel>-<version>`: what precedes the first `-`.
pub open spec fn release_channel(tag: Seq<char>) -> Seq<char> {
    tag.subrange(0, dash_index(tag))
}

/// The version of a release tag: what follows the first `-`, up to the next one.
pub open spec fn release_version(tag: Seq<char>) -> Seq<char> {
    let rest = tag.subrange(dash_index(tag) + 1, tag.len() as int);
    rest.subrange(0, dash_index(rest))
}

/// The first dash is the one that `dash_index` picks.
proof fn lemma_dash_index(s: Seq<char>, k: int)
    requires
        dash_at(s, k),
    ensures
        dash_index(s) == k,
{
    assert(has_char(s, '-'));
    let c = choose|c: int| dash_at(s, c);
    assert(dash_at(s, c));
    if c < k {
        assert(s[c] != '-');
    } else if k < c {
        assert(s[k] != '-');
    }
}

/// Without a dash, `dash_index` is the length.
proof fn lemma_no_dash(s: Seq<char>)
    requires
        !has_char(s, '-'),
    ensures
        dash_index(s) == s.len(),
{
}

/// Splits a release tag into its channel and version.
pub fn split_release_tag(tag: &str) -> (r: Option<(String, String)>)
    ensures
        r is Some <==> has_char(tag@, '-'),
        r matches Some((c, v)) ==> c@ == release_channel(tag@) && v@ == release_version(tag@),
{
    match find_char(tag, '-') {
        None => None,
        Some(k) => {
            proof {
                lemma_dash_index(tag@, k as int);
            }
            let n = tag.unicode_len();
            let channel = tag.substring_char(0, k);
            let rest = tag.substring_char(k + 1, n);
            let m = rest.unicode_len();
            let e = match find_char(rest, '-') {
                Some(k2) => {
                    proof {
                        lemma_dash_index(rest@, k2 as int);
                    }
                    k2
                },
                None => {
                    proof {
                        lemma_no_dash(rest@);
                    }
                    m
                },
            };
            let version = rest.substring_char(0, e);
            Some((String::from_str(channel), String::from_str(version)))
        },
    }
}

/// Moves a library to the release named by `latest_tag`.
pub fn update_lib(lib: &mut Lib, latest_tag: &str) -> (r: Result<(), PkgError>)
    ensures
        r is Ok <==> has_char(latest_tag@, '-'),
        r is Ok ==> final(lib).name == old(lib).name
            && final(lib).status@ == release_channel(latest_tag@)
            && final(lib).version@ == release_version(latest_tag@),
        r is Err ==> *final(lib) == *old(lib) && r->Err_0 is MalformedReleaseTag
            && r->Err_0->MalformedReleaseTag_0@ == latest_tag@,
{
    match split_release_tag(latest_tag) {
        Some((status, version)) => {
            lib.version = version;
            lib.status = status;
            Ok(())
        },
        None => Err(PkgError::MalformedReleaseTag(String::from_str(latest_tag))),
    }
}

/// Some library of the sequence is called `name`.
pub open spec fn has_lib(libs: Seq<Lib>, name: Seq<char>) -> bool {
    exists|i: int| 0 <= i < libs.len() && #[trigger] libs[i].name@ == name
}

/// `i` is the position of the first library called `name`.
pub open spec fn first_named_at(libs: Seq<Lib>, name: Seq<char>, i: int) -> bool {
    &&& 0 <= i < libs.len()
    &&& libs[i].name@ == name
    &&& forall|j: int| 0 <= j < i ==> #[trigger] libs[j].name@ != name
}

/// The position of the first library called `name`, if any.
pub fn find_lib(libs: &Vec<Lib>, name: &str) -> (r: Option<usize>)
    ensures
        r is None <==> !has_lib(libs@, name@),
        r matches Some(i) ==> first_named_at(libs@, name@, i as int),
{
    let n = libs.len();
    let mut i: usize = 0;
    while i < n
        invariant
            n == libs@.len(),
            i <= n,
            forall|j: int| 0 <= j < i ==> #[trigger] libs@[j].name@ != name@,
        decreases n - i,
    {
        if same_text(libs[i].name.as_str(), name) {
            return Some(i);
        }
        i = i + 1;
    }
    None
}

/// Whether resolving `lib_name` needs the latest release tag: the manifest
/// lacks it and it is installable.
pub fn needs_latest_release(config: &SdlConfig, lib_name: &str) -> (r: bool)
    ensures
        r == (!has_lib(config.sdl.libs@, lib_name@) && is_supported_lib(lib_name@)),
{
    find_lib(&config.sdl.libs, lib_name).is_none() && supported_lib(lib_name)
}

/// The entry for `lib_name`: the manifest's own where it has one, else a new
/// entry at the latest release of a supported library.
pub fn get_lib(config: &SdlConfig, lib_name: &str, latest_tag: Option<&str>) -> (r: Option<Lib>)
    ensures
        has_lib(config.sdl.libs@, lib_name@) ==> r is Some && exists|i: int|
            first_named_at(config.sdl.libs@, lib_name@, i) && r->Some_0 == config.sdl.libs@[i],
        !has_lib(config.sdl.libs@, lib_name@) ==> (r is Some <==> is_supported_lib(lib_name@)
            && latest_tag is Some && has_char(latest_tag->Some_0@, '-')),
        !has_lib(config.sdl.libs@, lib_name@) && r is Some ==> latest_tag is Some
            && r->Some_0.name@ == lib_name@
            && r->Some_0.status@ == release_channel(latest_tag->Some_0@)
            && r->Some_0.version@ == release_version(latest_tag->Some_0@),
{
    match find_lib(&config.sdl.libs, lib_name) {
        Some(i) => Some(config.sdl.libs[i].copied()),
        None => {
            if !supported_lib(lib_name) {
                return None;
            }
            match latest_tag {
                None => None,
                Some(t) => match split_release_tag(t) {
                    None => None,
                    Some((status, version)) => Some(
                        Lib { name: String::from_str(lib_name), status, version },
                    ),
                },
            }
        },
    }
}

/// A fresh manifest holding the base library at the release `latest_tag`.
pub fn initial_config(latest_tag: &str) -> (r: Result<SdlConfig, PkgError>)
    ensures
        r is Ok <==> has_char(latest_tag@, '-'),
        r matches Ok(c) ==> c.version@ == "1.0.0"@ && c.sdl.arch@ == "auto"@
            && c.sdl.libs@.len() == 1 && c.sdl.libs@[0].name@ == "SDL"@
            && c.sdl.libs@[0].status@ == release_channel(latest_tag@)
            && c.sdl.libs@[0].version@ == release_version(latest_tag@),
        r matches Err(e) ==> e matches PkgError::MalformedReleaseTag(t) && t@ == latest_tag@,
{
    match split_release_tag(latest_tag) {
        None => Err(PkgError::MalformedReleaseTag(String::from_str(latest_tag))),
        Some((status, version)) => {
            let lib = Lib { name: String::from_str("SDL"), status, version };
            let mut libs: Vec<Lib> = Vec::new();
            libs.push(lib);
            Ok(
                SdlConfig {
                    version: String::from_str("1.0.0"),
                    sdl: SdlSection { arch: String::from_str("auto"), libs },
                },
            )
        },
    }
}

/// The libraries of `libs` not called `name`, in order.
pub open spec fn without_lib(libs: Seq<Lib>, name: Seq<char>) -> Seq<Lib> {
    libs.filter(|l: Lib| l.name@ != name)
}

/// Adds `lib` at the end of the manifest unless a library of that name is
/// already declared; says whether it was added.
pub fn add_lib(config: &mut SdlConfig, lib: Lib) -> (r: bool)
    ensures
        r == !has_lib(old(config).sdl.libs@, lib.name@),
        final(config).version == old(config).version,
        final(config).sdl.arch == old(config).sdl.arch,
        final(config).sdl.libs@ == if r {
            old(config).sdl.libs@.push(lib)
        } else {
            old(config).sdl.libs@
        },
{
    if find_lib(&config.sdl.libs, lib.name.as_str()).is_some() {
        false
    } else {
        config.sdl.libs.push(lib);
        true
    }
}

/// Removes every library called `name`; says whether there was one.
pub fn remove_lib(config: &mut SdlConfig, name: &str) -> (r: bool)
    ensures
        r == has_lib(old(config).sdl.libs@, name@),
        final(config).version == old(config).version,
        final(config).sdl.arch == old(config).sdl.arch,
        final(config).sdl.libs@ == without_lib(old(config).sdl.libs@, name@),
{
    let ghost libs0 = config.sdl.libs@;
    proof {
        reveal(Seq::filter);
    }
    let mut kept: Vec<Lib> = Vec::new();
    let mut found = false;
    let n = config.sdl.libs.len();
    let mut i: usize = 0;
    while i < n
        invariant
            n == config.sdl.libs@.len(),
            config.sdl.libs@ == libs0,
            i <= n,
            kept@ == without_lib(libs0.subrange(0, i as int), name@),
            found == has_lib(libs0.subrange(0, i as int), name@),
        decreases n - i,
    {
        let ghost pre = libs0.subrange(0, i as int);
        proof {
            reveal(Seq::filter);
        }
        assert(libs0.subrange(0, i + 1).drop_last() =~= pre);
        assert(libs0.subrange(0, i + 1).last() == libs0[i as int]);
        let l = &config.sdl.libs[i];
        if same_text(l.name.as_str(), name) {
            found = true;
            assert(libs0.subrange(0, i + 1)[i as int].name@ == name@);
            assert(without_lib(libs0.subrange(0, i + 1), name@) == without_lib(pre, name@));
        } else {
            kept.push(l.copied());
            assert(without_lib(libs0.subrange(0, i + 1), name@) == without_lib(pre, name@).push(
                libs0[i as int],
            ));
            assert(has_lib(libs0.subrange(0, i + 1), name@) == has_lib(pre, name@)) by {
                if has_lib(libs0.subrange(0, i + 1), name@) {
                    let k = choose|k: int| 0 <= k < i + 1 && #[trigger] libs0.subrange(0, i + 1)[k].name@ == name@;
                    assert(pre[k].name@ == name@);
                }
                if has_lib(pre, name@) {
                    let k = choose|k: int| 0 <= k < i && #[trigger] pre[k].name@ == name@;
                    assert(libs0.subrange(0, i + 1)[k].name@ == name@);
                }
            }
        }
        i = i + 1;
    }
    assert(libs0.subrange(0, n as int) =~= libs0);
    config.sdl.libs = kept;
    found
}

/// `k` is the position of the first tag that is not `<channel>-<version>`.
pub open spec fn first_malformed_at(tags: Seq<Seq<char>>, k: int) -> bool {
    &&& 0 <= k < tags.len()
    &&& !has_char(tags[k], '-')
    &&& forall|j: int| 0 <= j < k ==> has_char(#[trigger] tags[j], '-')
}

/// The manifest with each library moved to the release named by the tag at
/// its position, or the first malformed tag, in which case nothing changes.
pub fn update_all(config: &SdlConfig, tags: &Vec<String>) -> (r: Result<SdlConfig, PkgError>)
    requires
        tags@.len() == config.sdl.libs@.len(),
    ensures
        r is Ok <==> forall|i: int| 0 <= i < tags@.len() ==> has_char(#[trigger] tags@[i]@, '-'),
        r matches Ok(c) ==> {
            &&& c.version == config.version
            &&& c.sdl.arch == config.sdl.arch
            &&& c.sdl.libs@.len() == config.sdl.libs@.len()
            &&& forall|i: int| 0 <= i < c.sdl.libs@.len() ==> {
                &&& (#[trigger] c.sdl.libs@[i]).name == config.sdl.libs@[i].name
                &&& c.sdl.libs@[i].status@ == release_channel(tags@[i]@)
                &&& c.sdl.libs@[i].version@ == release_version(tags@[i]@)
            }
        },
        r is Err ==> exists|k: int|
            first_malformed_at(tags@.map_values(|t: String| t@), k) && r == Err::<SdlConfig, PkgError>(
                PkgError::MalformedReleaseTag(tags@[k]),
            ),
{
    let n = config.sdl.libs.len();
    let mut libs: Vec<Lib> = Vec::new();
    let mut i: usize = 0;
    while i < n
        invariant
            n == config.sdl.libs@.len(),
            n == tags@.len(),
            i <= n,
            libs@.len() == i,
            forall|j: int| 0 <= j < i ==> has_char(#[trigger] tags@[j]@, '-'),
            forall|j: int| 0 <= j < i ==> {
                &&& (#[trigger] libs@[j]).name == config.sdl.libs@[j].name
                &&& libs@[j].status@ == release_channel(tags@[j]@)
                &&& libs@[j].version@ == release_version(tags@[j]@)
            },
        decreases n - i,
    {
        let mut lib = config.sdl.libs[i].copied();
        match update_lib(&mut lib, tags[i].as_str()) {
            Ok(()) => libs.push(lib),
            Err(_) => {
                let ghost views = tags@.map_values(|t: String| t@);
                assert(first_malformed_at(views, i as int)) by {
                    assert forall|j: int| 0 <= j < i implies has_char(#[trigger] views[j], '-') by {
                        assert(views[j] == tags@[j]@);
                    }
                }
                return Err(PkgError::MalformedReleaseTag(tags[i].clone()));
            },
        }
        i = i + 1;
    }
    Ok(
        SdlConfig {
            version: config.version.clone(),
            sdl: SdlSection { arch: config.sdl.arch.clone(), libs },
        },
    )
}

} // verus!

use vstd::prelude::*;
use vstd::string::*;
use crate::command::{all_resolvable, check_commands, is_internal, texts};
use crate::names::{
    dev_archive, dev_archive_name, family_name, family_of, joined, runtime_archive,
    runtime_archive_name, source_archive, source_archive_name, true_name, true_name_of,
};
use crate::package::{
    check_libs, config_valid, is_supported_lib, tag_dir, validation_error, Lib, LibTag, PkgError,
    SdlConfig,
};
use crate::platform::Platform;
use crate::services::{get_url_format, release_url};
use crate::transfer::{fetch_step_of, FetchStep};

verus! {

/// The scratch directory in which archives are downloaded and unpacked.
pub open spec fn scratch_root() -> Seq<char> {
    "./tmp"@
}

/// The scratch directory.
pub fn tmp_path() -> (r: String)
    ensures
        r@ == scratch_root(),
{
    String::from_str("./tmp")
}

/// An archive to bring into the scratch directory: download `url` to
/// `archive` and unpack it into `dest_dir` (empty for the scratch root
/// itself). Where `unpacked` exists the archive was unpacked before. All three
/// are relative to the scratch root.
#[derive(Debug, PartialEq, Eq)]
pub struct Fetch {
    pub url: String,
    pub archive: String,
    pub dest_dir: String,
    pub unpacked: String,
}

/// A copy from the scratch tree (`source`, relative to the scratch root) into
/// the destination tree (`dest`).
#[derive(Debug, PartialEq, Eq)]
pub struct Placement {
    pub tag: LibTag,
    pub source: String,
    pub dest: String,
}

/// One external command of a build.
#[derive(Debug, PartialEq, Eq)]
pub struct Step {
    pub program: String,
    pub args: Vec<String>,
}

impl View for Fetch {
    type V = (Seq<char>, Seq<char>, Seq<char>, Seq<char>);

    open spec fn view(&self) -> Self::V {
        (self.url@, self.archive@, self.dest_dir@, self.unpacked@)
    }
}

impl View for Placement {
    type V = (LibTag, Seq<char>, Seq<char>);

    open spec fn view(&self) -> Self::V {
        (self.tag, self.source@, self.dest@)
    }
}

impl View for Step {
    type V = (Seq<char>, Seq<Seq<char>>);

    open spec fn view(&self) -> Self::V {
        (self.program@, texts(self.args@))
    }
}

/// The views of a list of fetches.
pub open spec fn fetch_views(v: Seq<Fetch>) -> Seq<(Seq<char>, Seq<char>, Seq<char>, Seq<char>)> {
    v.map_values(|f: Fetch| f@)
}

/// The views of a list of copies.
pub open spec fn placement_views(v: Seq<Placement>) -> Seq<(LibTag, Seq<char>, Seq<char>)> {
    v.map_values(|p: Placement| p@)
}

/// The views of a list of commands.
pub open spec fn step_views(v: Seq<Step>) -> Seq<(Seq<char>, Seq<Seq<char>>)> {
    v.map_values(|s: Step| s@)
}

/// A tag passes the filter `only`: the empty filter passes every tag.
pub open spec fn selected(only: Seq<LibTag>, t: LibTag) -> bool {
    only.len() == 0 || only.contains(t)
}

/// `x` alone where `b` holds, else nothing.
pub open spec fn optional<A>(b: bool, x: A) -> Seq<A> {
    if b {
        seq![x]
    } else {
        Seq::empty()
    }
}

/// The two archives of a prebuilt library: runtime, then development.
pub open spec fn windows_fetches(l: Lib, arch: Seq<char>) -> Seq<(Seq<char>, Seq<char>, Seq<char>, Seq<char>)> {
    let n = l.name@;
    let v = l.version@;
    let fam = family_of(n, v);
    seq![
        (release_url(n, l.status@, v, runtime_archive(fam, v, arch)), n + ".zip"@, n, n),
        (
            release_url(n, l.status@, v, dev_archive(fam, v)),
            n + "-VC.zip"@,
            n + "-VC"@,
            n + "-VC"@,
        ),
    ]
}

/// The copies of a prebuilt library that the filter `only` selects: headers,
/// link libraries of the architecture, then the shared library.
pub open spec fn windows_placements(l: Lib, arch: Seq<char>, only: Seq<LibTag>) -> Seq<(LibTag, Seq<char>, Seq<char>)> {
    let n = l.name@;
    let fam = family_of(n, l.version@);
    let dev = n + "-VC/"@ + true_name_of(n, l.version@);
    optional(selected(only, LibTag::Include), (LibTag::Include, dev + "/include"@, "."@))
        + optional(selected(only, LibTag::Lib), (LibTag::Lib, dev + "/lib/"@ + arch, "./lib"@))
        + optional(
        selected(only, LibTag::Bin),
        (LibTag::Bin, n + "/"@ + fam + ".dll"@, "./bin/"@ + fam + ".dll"@),
    )
}

/// The source archive of a library built on the host, which unpacks into the
/// scratch root as the tree `<family>-<version>`.
pub open spec fn linux_fetches(l: Lib) -> Seq<(Seq<char>, Seq<char>, Seq<char>, Seq<char>)> {
    let n = l.name@;
    let v = l.version@;
    seq![
        (
            release_url(n, l.status@, v, source_archive(family_of(n, v), v)),
            n + ".tar.gz"@,
            ""@,
            true_name_of(n, v),
        ),
    ]
}

/// The programs that a source build needs, in the order it runs them.
pub open spec fn build_programs() -> Seq<Seq<char>> {
    seq!["cd"@, "mkdir"@, "cd"@, "cmake"@, "make"@, "sudo"@]
}

/// The commands of a source build of the tree `tn` unpacked in the scratch
/// directory: enter it, configure, build, install, and come back.
pub open spec fn build_steps(tn: Seq<char>) -> Seq<(Seq<char>, Seq<Seq<char>>)> {
    seq![
        ("cd"@, seq![scratch_root() + "/"@ + tn]),
        ("mkdir"@, seq!["build"@]),
        ("cd"@, seq!["build"@]),
        ("cmake"@, seq![".."@]),
        ("make"@, Seq::empty()),
        ("sudo"@, seq!["make"@, "install"@]),
        ("cd"@, seq!["../../.."@]),
    ]
}

/// The copies of a source-built library: its headers alone, if selected.
pub open spec fn linux_placements(l: Lib, only: Seq<LibTag>) -> Seq<(LibTag, Seq<char>, Seq<char>)> {
    optional(
        selected(only, LibTag::Include),
        (LibTag::Include, true_name_of(l.name@, l.version@) + "/include"@, "."@),
    )
}

/// Whether the filter `only` selects `t`.
pub fn tag_selected(only: &Vec<LibTag>, t: LibTag) -> (r: bool)
    ensures
        r == selected(only@, t),
{
    let n = only.len();
    if n == 0 {
        return true;
    }
    let mut i: usize = 0;
    while i < n
        invariant
            n == only@.len(),
            i <= n,
            forall|j: int| 0 <= j < i ==> only@[j] != t,
        decreases n - i,
    {
        if only[i] == t {
            return true;
        }
        i = i + 1;
    }
    false
}

/// The download of `archive` from release `<status>-<version>` of `lib_name`.
fn fetch_of(lib: &Lib, archive: &str, local: String, dest_dir: String, unpacked: String) -> (r: Fetch)
    ensures
        r@ == (
            release_url(lib.name@, lib.status@, lib.version@, archive@),
            local@,
            dest_dir@,
            unpacked@,
        ),
{
    let url = get_url_format(lib.name.as_str(), lib.status.as_str(), lib.version.as_str(), archive);
    Fetch { url, archive: local, dest_dir, unpacked }
}

/// The archives of a prebuilt library.
pub fn windows_fetch_list(lib: &Lib, arch: &str) -> (r: Vec<Fetch>)
    requires
        lib.version@.len() > 0,
    ensures
        fetch_views(r@) == windows_fetches(*lib, arch@),
{
    let name = lib.name.as_str();
    let version = lib.version.as_str();
    let fam = family_name(name, version);
    let zip_path = runtime_archive_name(fam.as_str(), version, arch);
    let zip_path_vc = dev_archive_name(fam.as_str(), version);
    let runtime = fetch_of(
        lib,
        zip_path.as_str(),
        joined(name, ".zip"),
        String::from_str(name),
        String::from_str(name),
    );
    let dev = fetch_of(
        lib,
        zip_path_vc.as_str(),
        joined(name, "-VC.zip"),
        joined(name, "-VC"),
        joined(name, "-VC"),
    );
    let mut r: Vec<Fetch> = Vec::new();
    r.push(runtime);
    r.push(dev);
    assert(fetch_views(r@) =~= windows_fetches(*lib, arch@));
    r
}

/// The copies of a prebuilt library that `only` selects.
pub fn windows_placement_list(lib: &Lib, arch: &str, only: &Vec<LibTag>) -> (r: Vec<Placement>)
    requires
        lib.version@.len() > 0,
    ensures
        placement_views(r@) == windows_placements(*lib, arch@, only@),
{
    let name = lib.name.as_str();
    let version = lib.version.as_str();
    let fam = family_name(name, version);
    let tn = true_name(fam.as_str(), version);
    let mut dev = joined(name, "-VC/");
    dev.append(tn.as_str());
    assert(dev@ =~= name@ + "-VC/"@ + true_name_of(name@, version@));
    let mut r: Vec<Placement> = Vec::new();
    let ghost inc = optional(
        selected(only@, LibTag::Include),
        (LibTag::Include, dev@ + "/include"@, "."@),
    );
    let ghost lib_part = optional(
        selected(only@, LibTag::Lib),
        (LibTag::Lib, dev@ + "/lib/"@ + arch@, "./lib"@),
    );
    if tag_selected(only, LibTag::Include) {
        r.push(
            Placement {
                tag: LibTag::Include,
                source: joined(dev.as_str(), "/include"),
                dest: String::from_str("."),
            },
        );
    }
    assert(placement_views(r@) =~= inc);
    if tag_selected(only, LibTag::Lib) {
        let mut src = joined(dev.as_str(), "/lib/");
        src.append(arch);
        r.push(Placement { tag: LibTag::Lib, source: src, dest: String::from_str("./lib") });
    }
    assert(placement_views(r@) =~= inc + lib_part);
    if tag_selected(only, LibTag::Bin) {
        let dll = joined(fam.as_str(), ".dll");
        let mut src = joined(name, "/");
        src.append(dll.as_str());
        let dest = joined("./bin/", dll.as_str());
        assert(src@ =~= name@ + "/"@ + fam@ + ".dll"@);
        assert(dest@ =~= "./bin/"@ + fam@ + ".dll"@);
        r.push(Placement { tag: LibTag::Bin, source: src, dest });
    }
    assert(placement_views(r@) =~= windows_placements(*lib, arch@, only@));
    r
}

/// The source archive of a library built on the host.
pub fn linux_fetch_list(lib: &Lib) -> (r: Vec<Fetch>)
    requires
        lib.version@.len() > 0,
    ensures
        fetch_views(r@) == linux_fetches(*lib),
{
    let name = lib.name.as_str();
    let version = lib.version.as_str();
    let fam = family_name(name, version);
    let zip_path = source_archive_name(fam.as_str(), version);
    let tn = true_name(fam.as_str(), version);
    let f = fetch_of(lib, zip_path.as_str(), joined(name, ".tar.gz"), String::from_str(""), tn);
    let mut r: Vec<Fetch> = Vec::new();
    r.push(f);
    assert(fetch_views(r@) =~= linux_fetches(*lib));
    r
}

/// The list holding `a` alone.
fn one_text(a: &str) -> (r: Vec<String>)
    ensures
        texts(r@) == seq![a@],
{
    let mut r: Vec<String> = Vec::new();
    r.push(String::from_str(a));
    assert(texts(r@) =~= seq![a@]);
    r
}

/// The list holding `a`, then `b`.
fn two_texts(a: &str, b: &str) -> (r: Vec<String>)
    ensures
        texts(r@) == seq![a@, b@],
{
    let mut r: Vec<String> = Vec::new();
    r.push(String::from_str(a));
    r.push(String::from_str(b));
    assert(texts(r@) =~= seq![a@, b@]);
    r
}

/// A command with its arguments.
fn step(program: &str, args: Vec<String>) -> (r: Step)
    ensures
        r@ == (program@, texts(args@)),
{
    Step { program: String::from_str(program), args }
}

/// The names of the programs that a source build runs.
pub fn build_program_list() -> (r: Vec<String>)
    ensures
        texts(r@) == build_programs(),
{
    let mut r: Vec<String> = Vec::new();
    r.push(String::from_str("cd"));
    r.push(String::from_str("mkdir"));
    r.push(String::from_str("cd"));
    r.push(String::from_str("cmake"));
    r.push(String::from_str("make"));
    r.push(String::from_str("sudo"));
    assert(texts(r@) =~= build_programs());
    r
}

/// The commands of a source build of the tree `tn`.
pub fn build_step_list(tn: &str) -> (r: Vec<Step>)
    ensures
        step_views(r@) == build_steps(tn@),
{
    let mut dir = tmp_path();
    dir.append("/");
    dir.append(tn);
    let mut r: Vec<Step> = Vec::new();
    r.push(step("cd", one_text(dir.as_str())));
    r.push(step("mkdir", one_text("build")));
    r.push(step("cd", one_text("build")));
    r.push(step("cmake", one_text("..")));
    let none: Vec<String> = Vec::new();
    assert(texts(none@) =~= Seq::<Seq<char>>::empty());
    r.push(step("make", none));
    r.push(step("sudo", two_texts("make", "install")));
    r.push(step("cd", one_text("../../..")));
    assert(step_views(r@) =~= build_steps(tn@));
    r
}

/// The arguments of the system-package installation that precedes source builds.
pub open spec fn dependency_args() -> Seq<Seq<char>> {
    seq![
        "apt-get"@,
        "install"@,
        "-y"@,
        "build-essential"@,
        "git"@,
        "make"@,
        "pkg-config"@,
        "cmake"@,
        "ninja-build"@,
        "libasound2-dev"@,
        "libpulse-dev"@,
        "libx11-dev"@,
        "libxext-dev"@,
        "libxrandr-dev"@,
        "libxcursor-dev"@,
        "libxfixes-dev"@,
        "libxi-dev"@,
        "libxss-dev"@,
        "libxkbcommon-dev"@,
        "libdrm-dev"@,
        "libgbm-dev"@,
        "libgl1-mesa-dev"@,
        "libgles2-mesa-dev"@,
        "libegl1-mesa-dev"@,
        "libdbus-1-dev"@,
    ]
}

/// The system-package installation that precedes source builds, run as `sudo`.
pub fn dependency_step() -> (r: Step)
    ensures
        r@ == ("sudo"@, dependency_args()),
{
    let mut args: Vec<String> = Vec::new();
    args.push(String::from_str("apt-get"));
    args.push(String::from_str("install"));
    args.push(String::from_str("-y"));
    args.push(String::from_str("build-essential"));
    args.push(String::from_str("git"));
    args.push(String::from_str("make"));
    args.push(String::from_str("pkg-config"));
    args.push(String::from_str("cmake"));
    args.push(String::from_str("ninja-build"));
    args.push(String::from_str("libasound2-dev"));
    args.push(String::from_str("libpulse-dev"));
    args.push(String::from_str("libx11-dev"));
    args.push(String::from_str("libxext-dev"));
    args.push(String::from_str("libxrandr-dev"));
    args.push(String::from_str("libxcursor-dev"));
    args.push(String::from_str("libxfixes-dev"));
    args.push(String::from_str("libxi-dev"));
    args.push(String::from_str("libxss-dev"));
    args.push(String::from_str("libxkbcommon-dev"));
    args.push(String::from_str("libdrm-dev"));
    args.push(String::from_str("libgbm-dev"));
    args.push(String::from_str("libgl1-mesa-dev"));
    args.push(String::from_str("libgles2-mesa-dev"));
    args.push(String::from_str("libegl1-mesa-dev"));
    args.push(String::from_str("libdbus-1-dev"));
    assert(texts(args@) =~= dependency_args());
    step("sudo", args)
}

/// What to do for one library of the manifest.
#[derive(Debug, PartialEq, Eq)]
pub struct LibraryPlan {
    pub name: String,
    /// Archives to bring into the scratch directory, in order.
    pub fetches: Vec<Fetch>,
    /// A program that the build needs was not found: nothing is built or copied.
    pub toolchain_missing: bool,
    /// Commands to run once the archives are unpacked, in order.
    pub build: Vec<Step>,
    /// Copies into the destination tree, in order.
    pub placements: Vec<Placement>,
}

/// What to do for a whole installation.
#[derive(Debug, PartialEq, Eq)]
pub struct InstallPlan {
    /// Commands to run once before any library.
    pub setup: Vec<Step>,
    /// One plan per library, in manifest order.
    pub libraries: Vec<LibraryPlan>,
}

/// A request to install the libraries of a manifest.
#[derive(Debug, PartialEq, Eq)]
pub struct SdlInstallation {
    pub libs: SdlConfig,
    /// Tags to place; empty for all.
    pub only: Vec<LibTag>,
}

/// Every library of the manifest has a version with a first character.
pub open spec fn versions_named(c: SdlConfig) -> bool {
    forall|i: int| 0 <= i < c.sdl.libs@.len() ==> (#[trigger] c.sdl.libs@[i]).version@.len() > 0
}

/// The platforms that have an installation strategy.
pub open spec fn is_served(p: Platform) -> bool {
    p == Platform::Windows || p == Platform::Linux
}

/// Whether every library of the manifest has a non-empty version.
pub fn versions_present(c: &SdlConfig) -> (r: bool)
    ensures
        r == versions_named(*c),
{
    let n = c.sdl.libs.len();
    let mut i: usize = 0;
    while i < n
        invariant
            n == c.sdl.libs@.len(),
            i <= n,
            forall|j: int| 0 <= j < i ==> (#[trigger] c.sdl.libs@[j]).version@.len() > 0,
        decreases n - i,
    {
        if c.sdl.libs[i].version.unicode_len() == 0 {
            return false;
        }
        i = i + 1;
    }
    true
}

/// `p` is the plan of library `l` on `platform`, with architecture `arch`,
/// tag filter `only`, and the programs `found` on the host.
pub open spec fn library_plan_of(
    p: LibraryPlan,
    l: Lib,
    platform: Platform,
    arch: Seq<char>,
    only: Seq<LibTag>,
    found: Seq<Seq<char>>,
) -> bool {
    &&& p.name@ == l.name@
    &&& platform == Platform::Windows ==> {
        &&& fetch_views(p.fetches@) == windows_fetches(l, arch)
        &&& !p.toolchain_missing
        &&& p.build@.len() == 0
        &&& placement_views(p.placements@) == windows_placements(l, arch, only)
    }
    &&& platform == Platform::Linux ==> {
        &&& fetch_views(p.fetches@) == linux_fetches(l)
        &&& p.toolchain_missing == !all_resolvable(build_programs(), found)
        &&& p.toolchain_missing ==> p.build@.len() == 0 && p.placements@.len() == 0
        &&& !p.toolchain_missing ==> step_views(p.build@) == build_steps(true_name_of(l.name@, l.version@))
            && placement_views(p.placements@) == linux_placements(l, only)
    }
}

/// `p` is the plan of the whole request.
pub open spec fn install_plan_of(
    p: InstallPlan,
    param: SdlInstallation,
    platform: Platform,
    arch: Seq<char>,
    found: Seq<Seq<char>>,
) -> bool {
    let libs = param.libs.sdl.libs@;
    &&& step_views(p.setup@) == (if platform == Platform::Linux {
        seq![("sudo"@, dependency_args())]
    } else {
        Seq::empty()
    })
    &&& p.libraries@.len() == (if is_served(platform) { libs.len() } else { 0 })
    &&& forall|i: int| 0 <= i < p.libraries@.len() ==> library_plan_of(
        #[trigger] p.libraries@[i], libs[i], platform, arch, param.only@, found)
}

/// The plan for one library on a served platform.
pub fn plan_library(lib: &Lib, platform: Platform, arch: &str, only: &Vec<LibTag>, found: &Vec<String>) -> (r: LibraryPlan)
    requires
        lib.version@.len() > 0,
        is_served(platform),
    ensures
        library_plan_of(r, *lib, platform, arch@, only@, texts(found@)),
{
    let name = lib.name.clone();
    match platform {
        Platform::Windows => LibraryPlan {
            name,
            fetches: windows_fetch_list(lib, arch),
            toolchain_missing: false,
            build: Vec::new(),
            placements: windows_placement_list(lib, arch, only),
        },
        _ => {
            let fetches = linux_fetch_list(lib);
            let programs = build_program_list();
            if check_commands(&programs, found) != 0 {
                LibraryPlan { name, fetches, toolchain_missing: true, build: Vec::new(), placements: Vec::new() }
            } else {
                let fam = family_name(lib.name.as_str(), lib.version.as_str());
                let tn = true_name(fam.as_str(), lib.version.as_str());
                let mut placements: Vec<Placement> = Vec::new();
                if tag_selected(only, LibTag::Include) {
                    placements.push(
                        Placement {
                            tag: LibTag::Include,
                            source: joined(tn.as_str(), "/include"),
                            dest: String::from_str("."),
                        },
                    );
                }
                assert(placement_views(placements@) =~= linux_placements(*lib, only@));
                LibraryPlan { name, fetches, toolchain_missing: false, build: build_step_list(tn.as_str()), placements }
            }
        },
    }
}

/// Validates the request, then plans every library in manifest order. The
/// validation comes first: a rejected manifest yields no plan at all.
pub fn install(param: &SdlInstallation, platform: Platform, arch: &str, found: &Vec<String>) -> (r: Result<InstallPlan, PkgError>)
    requires
        versions_named(param.libs),
    ensures
        r is Ok <==> config_valid(param.libs),
        r matches Err(e) ==> validation_error(param.libs, e),
        r matches Ok(p) ==> install_plan_of(p, *param, platform, arch@, texts(found@)),
{
    check_libs(&param.libs)?;
    let mut setup: Vec<Step> = Vec::new();
    if platform == Platform::Linux {
        setup.push(dependency_step());
    }
    assert(step_views(setup@) =~= (if platform == Platform::Linux {
        seq![("sudo"@, dependency_args())]
    } else {
        Seq::empty()
    }));
    let mut libraries: Vec<LibraryPlan> = Vec::new();
    if is_served_platform(platform) {
        let libs = &param.libs.sdl.libs;
        let n = libs.len();
        let mut i: usize = 0;
        while i < n
            invariant
                n == libs@.len(),
                libs == &param.libs.sdl.libs,
                versions_named(param.libs),
                is_served(platform),
                i <= n,
                libraries@.len() == i,
                forall|j: int| 0 <= j < i ==> library_plan_of(
                    #[trigger] libraries@[j], libs@[j], platform, arch@, param.only@, texts(found@)),
            decreases n - i,
        {
            libraries.push(plan_library(&libs[i], platform, arch, &param.only, found));
            i = i + 1;
        }
    }
    Ok(InstallPlan { setup, libraries })
}

/// Whether `p` has an installation strategy.
pub fn is_served_platform(p: Platform) -> (r: bool)
    ensures
        r == is_served(p),
{
    p == Platform::Windows || p == Platform::Linux
}

/// The destination directory of a tag.
pub open spec fn dest_dir_of(t: LibTag) -> Seq<char> {
    "./"@ + tag_dir(t)
}

/// The directories that `clean` removes: those of the tags in `only`, in
/// order, or all three where `only` is empty.
pub open spec fn clean_targets_of(only: Seq<LibTag>) -> Seq<Seq<char>> {
    if only.len() == 0 {
        seq![dest_dir_of(LibTag::Bin), dest_dir_of(LibTag::Lib), dest_dir_of(LibTag::Include)]
    } else {
        only.map_values(|t: LibTag| dest_dir_of(t))
    }
}

/// The destination directory of a tag.
pub fn dest_dir(t: LibTag) -> (r: String)
    ensures
        r@ == dest_dir_of(t),
{
    let d = t.to_str();
    joined("./", d.as_str())
}

/// The directories that `clean` removes.
pub fn clean_targets(only: &Vec<LibTag>) -> (r: Vec<String>)
    ensures
        texts(r@) == clean_targets_of(only@),
{
    let mut r: Vec<String> = Vec::new();
    let n = only.len();
    if n == 0 {
        r.push(dest_dir(LibTag::Bin));
        r.push(dest_dir(LibTag::Lib));
        r.push(dest_dir(LibTag::Include));
        assert(texts(r@) =~= clean_targets_of(only@));
        return r;
    }
    let mut i: usize = 0;
    while i < n
        invariant
            n == only@.len(),
            i <= n,
            texts(r@) =~= only@.subrange(0, i as int).map_values(|t: LibTag| dest_dir_of(t)),
        decreases n - i,
    {
        let ghost before = r@;
        r.push(dest_dir(only[i]));
        assert(texts(r@) =~= texts(before).push(dest_dir_of(only@[i as int])));
        assert(only@.subrange(0, i + 1) =~= only@.subrange(0, i as int).push(only@[i as int]));
        i = i + 1;
    }
    assert(only@.subrange(0, n as int) =~= only@);
    r
}

/// The destination tree after a sequence of copies, modelled as a map from
/// each destination to the scratch source that filled it last.
pub open spec fn place_all(
    tree: Map<Seq<char>, Seq<char>>,
    ps: Seq<(LibTag, Seq<char>, Seq<char>)>,
) -> Map<Seq<char>, Seq<char>>
    decreases ps.len(),
{
    if ps.len() == 0 {
        tree
    } else {
        place_all(tree.insert(ps[0].2, ps[0].1), ps.drop_first())
    }
}

/// What a sequence of copies writes, each destination mapped to its last source.
pub open spec fn written(ps: Seq<(LibTag, Seq<char>, Seq<char>)>) -> Map<Seq<char>, Seq<char>>
    decreases ps.len(),
{
    if ps.len() == 0 {
        Map::empty()
    } else {
        map![ps[0].2 => ps[0].1].union_prefer_right(written(ps.drop_first()))
    }
}

/// Copying in sequence lays what the copies write over the tree.
proof fn lemma_place_all_writes(tree: Map<Seq<char>, Seq<char>>, ps: Seq<(LibTag, Seq<char>, Seq<char>)>)
    ensures
        place_all(tree, ps) == tree.union_prefer_right(written(ps)),
    decreases ps.len(),
{
    if ps.len() == 0 {
        assert(tree.union_prefer_right(written(ps)) =~= tree);
    } else {
        lemma_place_all_writes(tree.insert(ps[0].2, ps[0].1), ps.drop_first());
        assert(tree.insert(ps[0].2, ps[0].1).union_prefer_right(written(ps.drop_first()))
            =~= tree.union_prefer_right(written(ps)));
    }
}

/// Installing again changes nothing: copying the same files a second time
/// leaves the destination tree as the first pass left it, and an archive
/// whose unpacked directory exists is not fetched again.
pub proof fn lemma_reinstall_idempotent(
    tree: Map<Seq<char>, Seq<char>>,
    ps: Seq<(LibTag, Seq<char>, Seq<char>)>,
    archive_exists: bool,
)
    ensures
        place_all(place_all(tree, ps), ps) == place_all(tree, ps),
        fetch_step_of(true, archive_exists) == FetchStep::AlreadyInstalled,
{
    lemma_place_all_writes(tree, ps);
    lemma_place_all_writes(place_all(tree, ps), ps);
    assert(tree.union_prefer_right(written(ps)).union_prefer_right(written(ps))
        =~= tree.union_prefer_right(written(ps)));
}

/// A manifest naming an unsupported library fails validation, so `install`
/// returns an error and no plan: nothing is fetched.
pub proof fn lemma_unsupported_library_rejected(c: SdlConfig, i: int)
    requires
        0 <= i < c.sdl.libs@.len(),
        !is_supported_lib(c.sdl.libs@[i].name@),
    ensures
        !config_valid(c),
{
}

/// With the filter holding only `Include`, a plan copies headers alone: on
/// either platform no copy goes to `bin/` or `lib/`.
pub proof fn lemma_header_only_places_headers(l: Lib, arch: Seq<char>)
    ensures
        forall|k: int| 0 <= k < windows_placements(l, arch, seq![LibTag::Include]).len()
            ==> (#[trigger] windows_placements(l, arch, seq![LibTag::Include])[k]).0 == LibTag::Include,
        forall|k: int| 0 <= k < linux_placements(l, seq![LibTag::Include]).len()
            ==> (#[trigger] linux_placements(l, seq![LibTag::Include])[k]).0 == LibTag::Include,
        windows_placements(l, arch, seq![LibTag::Include]).len() == 1,
        linux_placements(l, seq![LibTag::Include]).len() == 1,
{
    let only = seq![LibTag::Include];
    assert(only[0] == LibTag::Include);
    assert(selected(only, LibTag::Include));
    assert(!only.contains(LibTag::Lib));
    assert(!only.contains(LibTag::Bin));
}

/// Where the configuration tool is not found on the host, the plan of a
/// source build runs no command at all and copies nothing.
pub proof fn lemma_missing_configure_blocks_build(
    p: LibraryPlan,
    l: Lib,
    arch: Seq<char>,
    only: Seq<LibTag>,
    found: Seq<Seq<char>>,
)
    requires
        library_plan_of(p, l, Platform::Linux, arch, only, found),
        !found.contains("cmake"@),
    ensures
        p.toolchain_missing,
        p.build@.len() == 0,
        p.placements@.len() == 0,
{
    reveal_strlit("cmake");
    reveal_strlit("cd");
    reveal_strlit("mkdir");
    assert("cmake"@.len() == 5 && "cd"@.len() == 2);
    assert("cmake"@[1] == 'm' && "mkdir"@[1] == 'k');
    assert(build_programs()[3] == "cmake"@);
    assert(!is_internal("cmake"@));
}

} // verus!

use sdlpkg::installation::{
    clean_targets, install, tmp_path, versions_present, InstallPlan, SdlInstallation,
};
use sdlpkg::package::{Lib, LibTag, PkgError, SdlConfig, SdlSection};
use sdlpkg::platform::Platform;
use sdlpkg::transfer::{fetch_step, FetchStep};

fn lib(name: &str, status: &str, version: &str) -> Lib {
    Lib { name: name.to_string(), status: status.to_string(), version: version.to_string() }
}

fn config(libs: Vec<Lib>) -> SdlConfig {
    SdlConfig {
        version: "1.0.0".to_string(),
        sdl: SdlSection { arch: "auto".to_string(), libs },
    }
}

fn request(libs: Vec<Lib>, only: Vec<LibTag>) -> SdlInstallation {
    SdlInstallation { libs: config(libs), only }
}

fn all_found() -> Vec<String> {
    vec!["cmake".to_string(), "make".to_string(), "sudo".to_string()]
}

fn plan(req: &SdlInstallation, platform: Platform) -> InstallPlan {
    install(req, platform, "x64", &all_found()).expect("valid manifest")
}

#[test]
fn windows_image_release_fetches_two_archives() {
    let req = request(vec![lib("SDL_image", "release", "2.0.5")], vec![]);
    let p = plan(&req, Platform::Windows);
    assert!(p.setup.is_empty());
    assert_eq!(p.libraries.len(), 1);
    let l = &p.libraries[0];
    assert_eq!(l.name, "SDL_image");
    assert_eq!(l.fetches.len(), 2);
    assert!(l.fetches[0].url.contains("SDL2_image-2.0.5-win32-x64"));
    assert!(l.fetches[1].url.contains("SDL2_image-devel-2.0.5-VC"));
    assert_eq!(
        l.fetches[0].url,
        "https://github.com/libsdl-org/SDL_image/releases/download/release-2.0.5/SDL2_image-2.0.5-win32-x64.zip"
    );
    assert_eq!(
        l.fetches[1].url,
        "https://github.com/libsdl-org/SDL_image/releases/download/release-2.0.5/SDL2_image-devel-2.0.5-VC.zip"
    );
    assert_eq!(l.fetches[0].archive, "SDL_image.zip");
    assert_eq!(l.fetches[0].dest_dir, "SDL_image");
    assert_eq!(l.fetches[0].unpacked, "SDL_image");
    assert_eq!(l.fetches[1].archive, "SDL_image-VC.zip");
    assert_eq!(l.fetches[1].dest_dir, "SDL_image-VC");
    assert!(!l.toolchain_missing);
    assert!(l.build.is_empty());
    let tags: Vec<LibTag> = l.placements.iter().map(|p| p.tag).collect();
    assert_eq!(tags, vec![LibTag::Include, LibTag::Lib, LibTag::Bin]);
    assert_eq!(l.placements[0].source, "SDL_image-VC/SDL2_image-2.0.5/include");
    assert_eq!(l.placements[0].dest, ".");
    assert_eq!(l.placements[1].source, "SDL_image-VC/SDL2_image-2.0.5/lib/x64");
    assert_eq!(l.placements[1].dest, "./lib");
    assert_eq!(l.placements[2].source, "SDL_image/SDL2_image.dll");
    assert_eq!(l.placements[2].dest, "./bin/SDL2_image.dll");
}

#[test]
fn unsupported_library_fails_before_any_fetch() {
    let req = request(vec![lib("Foo", "release", "2.0.5")], vec![]);
    let r = install(&req, Platform::Windows, "x64", &all_found());
    assert_eq!(r, Err(PkgError::UnsupportedLibrary("Foo".to_string())));
}

#[test]
fn first_unsupported_library_is_reported() {
    let req = request(
        vec![
            lib("SDL", "release", "2.30.0"),
            lib("SDL_net", "release", "2.2.0"),
            lib("Bar", "release", "1.0.0"),
        ],
        vec![],
    );
    let r = install(&req, Platform::Linux, "x64", &all_found());
    assert_eq!(r, Err(PkgError::UnsupportedLibrary("SDL_net".to_string())));
}

#[test]
fn unsupported_schema_version_is_rejected() {
    let mut req = request(vec![lib("Foo", "release", "2.0.5")], vec![]);
    req.libs.version = "2.0.0".to_string();
    let r = install(&req, Platform::Windows, "x64", &all_found());
    assert_eq!(r, Err(PkgError::UnsupportedVersion("2.0.0".to_string())));
}

#[test]
fn header_filter_places_headers_only() {
    let req = request(vec![lib("SDL_image", "release", "2.0.5")], vec![LibTag::Include]);
    let p = plan(&req, Platform::Windows);
    let l = &p.libraries[0];
    assert_eq!(l.fetches.len(), 2);
    assert_eq!(l.placements.len(), 1);
    assert_eq!(l.placements[0].tag, LibTag::Include);
    assert!(l.placements.iter().all(|p| !p.dest.starts_with("./bin") && !p.dest.starts_with("./lib")));
}

#[test]
fn filter_keeps_tag_order_of_the_plan() {
    let req = request(vec![lib("SDL_ttf", "release", "2.22.0")], vec![LibTag::Bin, LibTag::Lib]);
    let p = plan(&req, Platform::Windows);
    let tags: Vec<LibTag> = p.libraries[0].placements.iter().map(|p| p.tag).collect();
    assert_eq!(tags, vec![LibTag::Lib, LibTag::Bin]);
    assert_eq!(p.libraries[0].placements[1].dest, "./bin/SDL2_ttf.dll");
}

#[test]
fn linux_builds_from_source() {
    let req = request(vec![lib("SDL", "release", "3.2.0")], vec![]);
    let p = plan(&req, Platform::Linux);
    assert_eq!(p.setup.len(), 1);
    assert_eq!(p.setup[0].program, "sudo");
    assert_eq!(p.setup[0].args[0], "apt-get");
    assert_eq!(p.setup[0].args.len(), 25);
    let l = &p.libraries[0];
    assert_eq!(l.fetches.len(), 1);
    assert_eq!(
        l.fetches[0].url,
        "https://github.com/libsdl-org/SDL/releases/download/release-3.2.0/SDL3-3.2.0.tar.gz"
    );
    assert_eq!(l.fetches[0].archive, "SDL.tar.gz");
    assert_eq!(l.fetches[0].dest_dir, "");
    assert_eq!(l.fetches[0].unpacked, "SDL3-3.2.0");
    assert!(!l.toolchain_missing);
    let programs: Vec<&str> = l.build.iter().map(|s| s.program.as_str()).collect();
    assert_eq!(programs, vec!["cd", "mkdir", "cd", "cmake", "make", "sudo", "cd"]);
    assert_eq!(l.build[0].args, vec!["./tmp/SDL3-3.2.0".to_string()]);
    assert_eq!(l.build[5].args, vec!["make".to_string(), "install".to_string()]);
    assert_eq!(l.placements.len(), 1);
    assert_eq!(l.placements[0].tag, LibTag::Include);
    assert_eq!(l.placements[0].source, "SDL3-3.2.0/include");
}

#[test]
fn missing_configure_tool_blocks_the_build() {
    let req = request(vec![lib("SDL", "release", "3.2.0")], vec![]);
    let found = vec!["make".to_string(), "sudo".to_string()];
    let p = install(&req, Platform::Linux, "x64", &found).unwrap();
    let l = &p.libraries[0];
    assert!(l.toolchain_missing);
    assert!(l.build.is_empty());
    assert!(l.placements.is_empty());
    assert_eq!(l.fetches.len(), 1);
}

#[test]
fn linux_header_placement_honours_the_filter() {
    let req = request(vec![lib("SDL_mixer", "release", "2.8.0")], vec![LibTag::Bin]);
    let p = plan(&req, Platform::Linux);
    assert!(p.libraries[0].placements.is_empty());
    assert_eq!(p.libraries[0].build.len(), 7);
}

#[test]
fn unserved_platform_plans_nothing() {
    let req = request(vec![lib("SDL", "release", "3.2.0")], vec![]);
    let p = plan(&req, Platform::MacOS);
    assert!(p.libraries.is_empty());
    assert!(p.setup.is_empty());
}

#[test]
fn libraries_are_planned_in_manifest_order() {
    let req = request(
        vec![lib("SDL_ttf", "release", "2.22.0"), lib("SDL", "prerelease", "3.1.6")],
        vec![],
    );
    let p = plan(&req, Platform::Windows);
    assert_eq!(p.libraries.len(), 2);
    assert_eq!(p.libraries[0].name, "SDL_ttf");
    assert_eq!(p.libraries[1].name, "SDL");
    assert_eq!(
        p.libraries[1].fetches[0].url,
        "https://github.com/libsdl-org/SDL/releases/download/prerelease-3.1.6/SDL3-3.1.6-win32-x64.zip"
    );
}

#[test]
fn reinstall_plans_the_same_work_and_skips_present_archives() {
    let req = request(vec![lib("SDL_image", "release", "2.0.5")], vec![]);
    let first = plan(&req, Platform::Windows);
    let second = plan(&req, Platform::Windows);
    assert_eq!(first, second);
    assert_eq!(fetch_step(true, false), FetchStep::AlreadyInstalled);
    assert_eq!(fetch_step(true, true), FetchStep::AlreadyInstalled);
    assert_eq!(fetch_step(false, true), FetchStep::UnpackOnly);
    assert_eq!(fetch_step(false, false), FetchStep::DownloadAndUnpack);
}

#[test]
fn empty_version_is_detected() {
    assert!(!versions_present(&config(vec![lib("SDL", "release", "")])));
    assert!(versions_present(&config(vec![lib("SDL", "release", "2.0.0")])));
    assert!(versions_present(&config(vec![])));
}

#[test]
fn clean_targets_follow_the_filter() {
    assert_eq!(clean_targets(&vec![]), vec!["./bin", "./lib", "./include"]);
    assert_eq!(clean_targets(&vec![LibTag::Include, LibTag::Bin]), vec!["./include", "./bin"]);
}

#[test]
fn scratch_root_is_tmp() {
    assert_eq!(tmp_path(), "./tmp");
}

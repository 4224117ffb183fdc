use sdlpkg::names::{dev_archive_name, family_name, runtime_archive_name, source_archive_name, true_name};
use sdlpkg::package::{
    add_lib, check_libs, get_lib, initial_config, needs_latest_release, remove_lib, split_release_tag,
    supported_lib, update_all, update_lib, Lib, LibTag, PkgError, SdlConfig, SdlSection,
};
use sdlpkg::platform::{effective_arch, get_architecture, Platform};
use sdlpkg::services::{get_url_format, latest_release_url};

fn lib(name: &str, status: &str, version: &str) -> Lib {
    Lib { name: name.to_string(), status: status.to_string(), version: version.to_string() }
}

fn config(libs: Vec<Lib>) -> SdlConfig {
    SdlConfig {
        version: "1.0.0".to_string(),
        sdl: SdlSection { arch: "auto".to_string(), libs },
    }
}

#[test]
fn family_splices_the_first_version_character() {
    assert_eq!(family_name("SDL_image", "2.0.5"), "SDL2_image");
    assert_eq!(family_name("SDL", "3.2.0"), "SDL3");
    assert_eq!(family_name("SDL_ttf", "2.22.0"), "SDL2_ttf");
    assert_eq!(family_name("Foo_image", "3.2"), "SDL3Foo_image");
}

#[test]
fn archive_names() {
    assert_eq!(true_name("SDL2_image", "2.0.5"), "SDL2_image-2.0.5");
    assert_eq!(runtime_archive_name("SDL2_image", "2.0.5", "x64"), "SDL2_image-2.0.5-win32-x64.zip");
    assert_eq!(dev_archive_name("SDL2_image", "2.0.5"), "SDL2_image-devel-2.0.5-VC.zip");
    assert_eq!(source_archive_name("SDL3", "3.2.0"), "SDL3-3.2.0.tar.gz");
}

#[test]
fn url_format() {
    assert_eq!(
        get_url_format("SDL_image", "release", "2.0.5", "SDL2_image-2.0.5-win32-x64.zip"),
        "https://github.com/libsdl-org/SDL_image/releases/download/release-2.0.5/SDL2_image-2.0.5-win32-x64.zip"
    );
    assert_eq!(latest_release_url("SDL"), "https://api.github.com/repos/libsdl-org/SDL/releases/latest");
}

#[test]
fn validation() {
    assert_eq!(check_libs(&config(vec![lib("SDL", "release", "2.30.0")])), Ok(()));
    assert_eq!(check_libs(&config(vec![])), Ok(()));
    assert_eq!(
        check_libs(&config(vec![lib("SDL_image", "release", "2.0.5"), lib("Foo", "release", "1.0.0")])),
        Err(PkgError::UnsupportedLibrary("Foo".to_string()))
    );
    let mut c = config(vec![]);
    c.version = "0.9".to_string();
    assert_eq!(check_libs(&c), Err(PkgError::UnsupportedVersion("0.9".to_string())));
    assert!(supported_lib("SDL_mixer"));
    assert!(!supported_lib("sdl_mixer"));
}

#[test]
fn release_tags() {
    assert_eq!(
        split_release_tag("release-2.30.0"),
        Some(("release".to_string(), "2.30.0".to_string()))
    );
    assert_eq!(
        split_release_tag("prerelease-3.1.2-rc"),
        Some(("prerelease".to_string(), "3.1.2".to_string()))
    );
    assert_eq!(split_release_tag("release-"), Some(("release".to_string(), "".to_string())));
    assert_eq!(split_release_tag("v2.30.0"), None);
}

#[test]
fn update_moves_to_latest_release() {
    let mut l = lib("SDL_image", "release", "2.0.5");
    assert_eq!(update_lib(&mut l, "release-2.8.2"), Ok(()));
    assert_eq!(l, lib("SDL_image", "release", "2.8.2"));
    let before = lib("SDL", "release", "2.30.0");
    let mut l = lib("SDL", "release", "2.30.0");
    assert_eq!(update_lib(&mut l, "latest"), Err(PkgError::MalformedReleaseTag("latest".to_string())));
    assert_eq!(l, before);
}

#[test]
fn lookup_prefers_the_manifest() {
    let c = config(vec![lib("SDL", "release", "2.30.0"), lib("SDL_ttf", "release", "2.22.0")]);
    assert!(!needs_latest_release(&c, "SDL_ttf"));
    assert!(needs_latest_release(&c, "SDL_image"));
    assert!(!needs_latest_release(&c, "Foo"));
    assert_eq!(get_lib(&c, "SDL_ttf", None), Some(lib("SDL_ttf", "release", "2.22.0")));
    assert_eq!(get_lib(&c, "SDL_ttf", Some("release-9.9.9")), Some(lib("SDL_ttf", "release", "2.22.0")));
    assert_eq!(
        get_lib(&c, "SDL_image", Some("release-2.8.2")),
        Some(lib("SDL_image", "release", "2.8.2"))
    );
    assert_eq!(get_lib(&c, "SDL_image", None), None);
    assert_eq!(get_lib(&c, "Foo", Some("release-1.0.0")), None);
}

#[test]
fn fresh_manifest() {
    let c = initial_config("release-2.30.9").unwrap();
    assert_eq!(c, config(vec![lib("SDL", "release", "2.30.9")]));
    assert_eq!(initial_config("2.30.9"), Err(PkgError::MalformedReleaseTag("2.30.9".to_string())));
}

#[test]
fn adding_and_removing_libraries() {
    let mut c = config(vec![lib("SDL", "release", "2.30.0")]);
    assert!(add_lib(&mut c, lib("SDL_image", "release", "2.8.2")));
    assert!(!add_lib(&mut c, lib("SDL", "release", "3.0.0")));
    assert_eq!(c.sdl.libs, vec![lib("SDL", "release", "2.30.0"), lib("SDL_image", "release", "2.8.2")]);
    assert!(remove_lib(&mut c, "SDL"));
    assert_eq!(c.sdl.libs, vec![lib("SDL_image", "release", "2.8.2")]);
    assert!(!remove_lib(&mut c, "SDL_ttf"));
    assert_eq!(c.sdl.libs.len(), 1);
}

#[test]
fn tag_directories() {
    assert_eq!(LibTag::Bin.to_str(), "bin");
    assert_eq!(LibTag::Include.to_str(), "include");
    assert_eq!(LibTag::Lib.to_str(), "lib");
}

#[test]
fn platform_detection() {
    assert_eq!(Platform::detect("windows"), Platform::Windows);
    assert_eq!(Platform::detect("linux"), Platform::Linux);
    assert_eq!(Platform::detect("macos"), Platform::MacOS);
    assert_eq!(Platform::detect("freebsd"), Platform::Unknown);
    assert_eq!(get_architecture("x86_64"), "x64");
    assert_eq!(get_architecture("x86"), "x86");
    assert_eq!(effective_arch("auto", "x64"), "x64");
    assert_eq!(effective_arch("x86", "x64"), "x86");
}

#[test]
fn update_all_is_all_or_nothing() {
    let c = config(vec![lib("SDL", "release", "2.30.0"), lib("SDL_image", "release", "2.0.5")]);
    let tags = vec!["release-3.2.0".to_string(), "prerelease-3.0.0".to_string()];
    let updated = update_all(&c, &tags).unwrap();
    assert_eq!(
        updated,
        config(vec![lib("SDL", "release", "3.2.0"), lib("SDL_image", "prerelease", "3.0.0")])
    );
    let bad = vec!["release-3.2.0".to_string(), "nightly".to_string()];
    assert_eq!(update_all(&c, &bad), Err(PkgError::MalformedReleaseTag("nightly".to_string())));
}

use assethook::open::{HookApi, OpenAction, OpenHook, OpenStage};
use assethook::cppapi::asset::asset_path;
use assethook::pkg::validate_package_name;

fn record(path: &str) -> asset_path {
    asset_path { string8_path: path.to_string(), typ: 0, string8_idmap: 0, isSystemOverlay: false }
}

fn begin(api: HookApi, pkg: &str, filename: &str) -> (OpenHook, OpenAction) {
    let (mut h, a) = OpenHook::begin(api, pkg);
    assert_eq!(h.pkg_valid, validate_package_name(pkg).unwrap());
    match a {
        OpenAction::ReadFileName => {
            let a = h.named(filename);
            (h, a)
        }
        other => (h, other),
    }
}

fn canonical_request(a: &OpenAction) -> String {
    match a {
        OpenAction::Canonicalize(p) => p.clone(),
        _ => panic!("expected a path to resolve"),
    }
}

#[test]
fn invalid_package_goes_to_original() {
    let (h, a) = begin(HookApi::PublicAsset, "com/evil", "a.png");
    assert!(matches!(a, OpenAction::CallOriginal));
    assert!(matches!(h.stage, OpenStage::Done));
    assert!(!h.pkg_valid);
}

#[test]
fn public_api_redirects_inside_hook_dir() {
    let (mut h, a) = begin(HookApi::PublicAsset, "com.example", "index.bundle");
    assert_eq!(canonical_request(&a), "/data/local/tmp/assethook/com.example/assets/index.bundle");
    let a = h.resolved(Some("/data/local/tmp/assethook/com.example/assets/index.bundle"));
    assert!(matches!(a, OpenAction::OpenOriginal));
    let a = h.opened(0x1000);
    match a {
        OpenAction::MapFile(f) => assert_eq!(f, "/data/local/tmp/assethook/com.example/assets/index.bundle"),
        _ => panic!("expected a file to map"),
    }
    let a = h.mapped(Some(1234));
    assert!(matches!(a, OpenAction::Register { asset: 0x1000, size: 1234 }));
    assert!(matches!(h.stage, OpenStage::Done));
}

#[test]
fn public_api_registers_even_null_asset() {
    let (mut h, _) = begin(HookApi::PublicAsset, "com.example", "x");
    h.resolved(Some("/data/local/tmp/assethook/com.example/assets/x"));
    assert!(matches!(h.opened(0), OpenAction::MapFile(_)));
    assert!(matches!(h.mapped(Some(3)), OpenAction::Register { asset: 0, size: 3 }));
}

#[test]
fn missing_replacement_goes_to_original() {
    let (mut h, _) = begin(HookApi::PublicAsset, "com.example", "nope");
    assert!(matches!(h.resolved(None), OpenAction::CallOriginal));
}

#[test]
fn link_out_of_hook_dir_goes_to_original() {
    let (mut h, _) = begin(HookApi::PublicAsset, "com.example", "evil");
    assert!(matches!(h.resolved(Some("/data/data/com.other/secret")), OpenAction::CallOriginal));
    let (mut h, _) = begin(HookApi::PublicAsset, "com.example", "evil");
    assert!(matches!(
        h.resolved(Some("/data/local/tmp/assethook/com.examplez/assets/evil")),
        OpenAction::CallOriginal
    ));
}

#[test]
fn unmappable_replacement_returns_asset() {
    let (mut h, _) = begin(HookApi::PublicAsset, "com.example", "a");
    h.resolved(Some("/data/local/tmp/assethook/com.example/assets/a"));
    h.opened(77);
    assert!(matches!(h.mapped(None), OpenAction::ReturnAsset(77)));
}

#[test]
fn internal_manager_checks_apk_and_null() {
    let (mut h, a) = begin(HookApi::InternalAssetManager, "com.example", "res/raw/a");
    assert_eq!(canonical_request(&a), "/data/local/tmp/assethook/com.example/res/raw/a");
    assert!(matches!(h.resolved(Some("/data/local/tmp/assethook/com.example/res/raw/a")), OpenAction::CheckApkPath));
    assert!(matches!(h.apk_path_known(&record("/data/app/com.example-1/base.apk")), OpenAction::OpenOriginal));
    assert!(matches!(h.opened(0), OpenAction::ReturnAsset(0)));

    let (mut h, _) = begin(HookApi::InternalAssetManager, "com.example", "a");
    h.resolved(Some("/data/local/tmp/assethook/com.example/a"));
    assert!(matches!(h.apk_path_known(&record("/system/framework/framework-res.apk")), OpenAction::CallOriginal));

    let (mut h, _) = begin(HookApi::InternalAssetManager, "com.example", "a");
    h.resolved(Some("/data/local/tmp/assethook/com.example/a"));
    h.apk_path_known(&record("/data/app/com.example-2/base.apk"));
    assert!(matches!(h.opened(42), OpenAction::MapFile(_)));
    assert!(matches!(h.mapped(Some(9)), OpenAction::Register { asset: 42, size: 9 }));
}

#[test]
fn begin_asks_for_file_name_only_when_valid() {
    let (h, a) = OpenHook::begin(HookApi::InternalAssetManager, "x1");
    assert!(matches!(a, OpenAction::CallOriginal));
    assert!(matches!(h.stage, OpenStage::Done));
    let (mut h, a) = OpenHook::begin(HookApi::InternalAssetManager, "x");
    assert!(matches!(a, OpenAction::ReadFileName));
    assert!(matches!(h.stage, OpenStage::Naming));
    let a = h.named("f");
    assert_eq!(canonical_request(&a), "/data/local/tmp/assethook/x/f");
    assert!(matches!(h.stage, OpenStage::Resolving));
}

#[test]
fn public_api_serves_only_from_assets_dir() {
    let (mut h, a) = begin(HookApi::PublicAsset, "com.example", "../x");
    assert_eq!(canonical_request(&a), "/data/local/tmp/assethook/com.example/assets/../x");
    assert!(matches!(h.resolved(Some("/data/local/tmp/assethook/com.example/x")), OpenAction::CallOriginal));
    let (mut h, _) = begin(HookApi::PublicAsset, "com.example", "sub/y");
    assert!(matches!(
        h.resolved(Some("/data/local/tmp/assethook/com.example/assets/sub/y")),
        OpenAction::OpenOriginal
    ));
}

#[test]
fn internal_manager_serves_from_package_dir() {
    let (mut h, _) = begin(HookApi::InternalAssetManager, "com.example", "res/raw/a");
    assert!(matches!(h.resolved(Some("/data/local/tmp/assethook/com.example/res/raw/a")), OpenAction::CheckApkPath));
}

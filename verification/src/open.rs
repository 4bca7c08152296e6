//! The decisions taken when the application opens an asset. Opening is an
//! exchange with the outside world (resolving a path on disk, reading the
//! asset path record, calling the original open, mapping a file); the
//! application performs each action and hands back what came of it, and
//! [`OpenHook`] decides what happens next. A file is redirected only when
//! the package name passed validation, the replacement resolves to a path
//! inside the package's hook directory, and (for the internal asset
//! manager) the asset comes from the package's own APK.

use vstd::prelude::*;
use crate::cppapi::asset::asset_path;
use crate::path::{path_starts_with, path_within, str_starts_with};
use crate::pkg::{
    apk_path_prefix, apk_prefix_of, assets_dir_of, hook_dir_of, is_package_name_text, is_single_name,
    validate_package_name,
    lemma_assets_within_package, package_assets_dir, internal_replacement_of, internal_replacement_path,
    package_hook_dir, public_replacement_of, public_replacement_path,
};

verus! {

/// Which entry point of the asset system is being intercepted.
#[derive(PartialEq, Eq, Structural, Clone, Copy, Debug)]
pub enum HookApi {
    /// `AAssetManager_open` of the public asset API.
    PublicAsset,
    /// `AssetManager::openNonAssetInPathLocked` of the internal asset manager.
    InternalAssetManager,
}

/// What the application does next.
pub enum OpenAction {
    /// Call the original open and return its result; nothing is redirected.
    CallOriginal,
    /// Report the name of the file being opened.
    ReadFileName,
    /// Resolve this path on disk (following links) and report the result.
    Canonicalize(String),
    /// Report the path of the APK that the asset is being opened from.
    CheckApkPath,
    /// Call the original open and report the asset it returns.
    OpenOriginal,
    /// Map this file and report its size.
    MapFile(String),
    /// Return this asset as the original opened it; nothing is redirected.
    ReturnAsset(usize),
    /// Redirect the asset to the mapped file of this size, then return it.
    Register { asset: usize, size: usize },
}

/// Where an open stands.
pub enum OpenStage {
    Naming,
    Resolving,
    CheckingApk { canonical: String },
    Opening { canonical: String },
    Mapping { canonical: String, asset: usize },
    Done,
}

/// An open in progress.
pub struct OpenHook {
    pub api: HookApi,
    pub pkg: String,
    pub pkg_valid: bool,
    pub stage: OpenStage,
    /// The APK path that passed the check (internal asset manager only).
    pub apk_path: Option<String>,
}

/// The path that the replacement of `filename` would have.
pub open spec fn replacement_path(api: HookApi, pkg: Seq<char>, filename: Seq<char>) -> Seq<char> {
    match api {
        HookApi::PublicAsset => public_replacement_path(pkg, filename),
        HookApi::InternalAssetManager => internal_replacement_path(pkg, filename),
    }
}

/// The directory a resolved replacement must lie in: `assets/` in the
/// package's directory for the public asset API, the package's directory
/// for the internal asset manager.
pub open spec fn replacement_dir(api: HookApi, pkg: Seq<char>) -> Seq<char> {
    match api {
        HookApi::PublicAsset => package_assets_dir(pkg),
        HookApi::InternalAssetManager => package_hook_dir(pkg),
    }
}

impl OpenHook {
    /// The internal asset manager's APK check has passed.
    pub open spec fn apk_checked(&self) -> bool {
        self.api == HookApi::InternalAssetManager ==> (self.apk_path matches Some(p)
            && apk_path_prefix(self.pkg@).is_prefix_of(p@))
    }

    /// What an open in progress has established so far: `pkg_valid` tells
    /// whether the package name is valid, every stage but the last follows a
    /// valid package name, from the point the replacement
    /// resolved it lies inside the package's hook directory, and from the
    /// point the original is opened the APK check has passed.
    pub open spec fn wf(&self) -> bool {
        &&& self.pkg_valid == is_package_name_text(self.pkg@)
        &&& self.stage_wf()
    }

    /// What the current stage has established.
    pub open spec fn stage_wf(&self) -> bool {
        match self.stage {
            OpenStage::Naming => self.pkg_valid,
            OpenStage::Resolving => self.pkg_valid,
            OpenStage::CheckingApk { canonical } => {
                &&& self.pkg_valid
                &&& self.api == HookApi::InternalAssetManager
                &&& path_within(canonical@, replacement_dir(self.api, self.pkg@))
            },
            OpenStage::Opening { canonical } => {
                &&& self.pkg_valid
                &&& path_within(canonical@, replacement_dir(self.api, self.pkg@))
                &&& self.apk_checked()
            },
            OpenStage::Mapping { canonical, asset } => {
                &&& self.pkg_valid
                &&& path_within(canonical@, replacement_dir(self.api, self.pkg@))
                &&& self.apk_checked()
                &&& self.api == HookApi::InternalAssetManager ==> asset != 0
            },
            OpenStage::Done => true,
        }
    }

    /// Starts an open for package `pkg`: its name is validated
    /// ([`crate::pkg::validate_package_name`]); an invalid name sends the
    /// call to the original, a valid one asks for the file name.
    pub fn begin(api: HookApi, pkg: &str) -> (r: (OpenHook, OpenAction))
        ensures
            r.0.wf(),
            r.0.api == api,
            r.0.pkg@ == pkg@,
            r.0.pkg_valid == is_package_name_text(pkg@),
            r.0.apk_path is None,
            !r.0.pkg_valid ==> r.0.stage is Done && r.1 is CallOriginal,
            r.0.pkg_valid ==> r.0.stage is Naming && r.1 is ReadFileName,
    {
        let name = String::from_str(pkg);
        let pkg_valid = match validate_package_name(pkg) {
            Some(v) => v,
            None => false,
        };
        if !pkg_valid {
            return (
                OpenHook { api, pkg: name, pkg_valid, stage: OpenStage::Done, apk_path: None },
                OpenAction::CallOriginal,
            );
        }
        (
            OpenHook { api, pkg: name, pkg_valid, stage: OpenStage::Naming, apk_path: None },
            OpenAction::ReadFileName,
        )
    }

    /// The file being opened is `filename`: the replacement path that it
    /// would have is to be resolved.
    pub fn named(&mut self, filename: &str) -> (action: OpenAction)
        requires
            old(self).wf(),
            old(self).stage is Naming,
        ensures
            final(self).wf(),
            final(self).api == old(self).api,
            final(self).pkg == old(self).pkg,
            final(self).pkg_valid == old(self).pkg_valid,
            final(self).apk_path == old(self).apk_path,
            final(self).stage is Resolving,
            action matches OpenAction::Canonicalize(p) && p@ == replacement_path(
                old(self).api,
                old(self).pkg@,
                filename@,
            ),
    {
        let candidate = match self.api {
            HookApi::PublicAsset => public_replacement_of(self.pkg.as_str(), filename),
            HookApi::InternalAssetManager => internal_replacement_of(self.pkg.as_str(), filename),
        };
        self.stage = OpenStage::Resolving;
        OpenAction::Canonicalize(candidate)
    }

    /// The replacement resolved to `canonical` (or could not be resolved:
    /// `None`, which is how a missing replacement shows). Outside the
    /// replacement directory ([`replacement_dir`]) the call goes to the
    /// original.
    pub fn resolved(&mut self, canonical: Option<&str>) -> (action: OpenAction)
        requires
            old(self).wf(),
            old(self).stage is Resolving,
        ensures
            final(self).wf(),
            final(self).api == old(self).api,
            final(self).pkg == old(self).pkg,
            final(self).pkg_valid == old(self).pkg_valid,
            match canonical {
                None => final(self).stage is Done && action is CallOriginal,
                Some(c) => if !path_within(c@, replacement_dir(old(self).api, old(self).pkg@)) {
                    final(self).stage is Done && action is CallOriginal
                } else if old(self).api == HookApi::InternalAssetManager {
                    action is CheckApkPath && (final(self).stage matches OpenStage::CheckingApk {
                        canonical: k,
                    } && k@ == c@)
                } else {
                    action is OpenOriginal && (final(self).stage matches OpenStage::Opening {
                        canonical: k,
                    } && k@ == c@)
                },
            },
    {
        match canonical {
            None => {
                self.stage = OpenStage::Done;
                OpenAction::CallOriginal
            },
            Some(c) => {
                let dir = match self.api {
                    HookApi::PublicAsset => assets_dir_of(self.pkg.as_str()),
                    HookApi::InternalAssetManager => hook_dir_of(self.pkg.as_str()),
                };
                if !path_starts_with(c, dir.as_str()) {
                    self.stage = OpenStage::Done;
                    return OpenAction::CallOriginal;
                }
                let k = String::from_str(c);
                match self.api {
                    HookApi::InternalAssetManager => {
                        self.stage = OpenStage::CheckingApk { canonical: k };
                        OpenAction::CheckApkPath
                    },
                    HookApi::PublicAsset => {
                        self.stage = OpenStage::Opening { canonical: k };
                        OpenAction::OpenOriginal
                    },
                }
            },
        }
    }

    /// The asset is being opened through the asset path record `ap`: only
    /// from the package's own APK (`/data/app/<pkg>-...`) is it redirected.
    pub fn apk_path_known(&mut self, ap: &asset_path) -> (action: OpenAction)
        requires
            old(self).wf(),
            old(self).stage is CheckingApk,
        ensures
            final(self).wf(),
            final(self).api == old(self).api,
            final(self).pkg == old(self).pkg,
            final(self).pkg_valid == old(self).pkg_valid,
            if apk_path_prefix(old(self).pkg@).is_prefix_of(ap.string8_path@) {
                (final(self).apk_path matches Some(p) && p@ == ap.string8_path@) && action is OpenOriginal && (final(self).stage matches OpenStage::Opening { canonical: k }
                    && (old(self).stage matches OpenStage::CheckingApk { canonical: c } && k@ == c@))
            } else {
                final(self).stage is Done && action is CallOriginal
            },
    {
        let prefix = apk_prefix_of(self.pkg.as_str());
        if !str_starts_with(ap.string8_path.as_str(), prefix.as_str()) {
            self.stage = OpenStage::Done;
            return OpenAction::CallOriginal;
        }
        let k = match &self.stage {
            OpenStage::CheckingApk { canonical } => canonical.clone(),
            _ => String::new(),
        };
        self.apk_path = Some(ap.string8_path.clone());
        self.stage = OpenStage::Opening { canonical: k };
        OpenAction::OpenOriginal
    }

    /// The original open returned `asset` (0 for none). The internal asset
    /// manager's null result is returned as it is; otherwise the replacement
    /// is to be mapped.
    pub fn opened(&mut self, asset: usize) -> (action: OpenAction)
        requires
            old(self).wf(),
            old(self).stage is Opening,
        ensures
            final(self).wf(),
            final(self).api == old(self).api,
            final(self).pkg == old(self).pkg,
            final(self).pkg_valid == old(self).pkg_valid,
            if old(self).api == HookApi::InternalAssetManager && asset == 0 {
                final(self).stage is Done && action == OpenAction::ReturnAsset(asset)
            } else {
                old(self).stage matches OpenStage::Opening { canonical: c } && (final(self).stage matches OpenStage::Mapping {
                    canonical: k,
                    asset: a,
                } && k@ == c@ && a == asset) && (action matches OpenAction::MapFile(f) && f@ == c@)
            },
    {
        if self.api == HookApi::InternalAssetManager && asset == 0 {
            self.stage = OpenStage::Done;
            return OpenAction::ReturnAsset(asset);
        }
        let k = match &self.stage {
            OpenStage::Opening { canonical } => canonical.clone(),
            _ => String::new(),
        };
        let f = k.clone();
        self.stage = OpenStage::Mapping { canonical: k, asset };
        OpenAction::MapFile(f)
    }

    /// The replacement was mapped with `size` bytes (`None`: it could not be
    /// mapped, and the asset is returned unredirected).
    pub fn mapped(&mut self, size: Option<usize>) -> (action: OpenAction)
        requires
            old(self).wf(),
            old(self).stage is Mapping,
        ensures
            final(self).wf(),
            final(self).stage is Done,
            final(self).api == old(self).api,
            final(self).pkg == old(self).pkg,
            final(self).pkg_valid == old(self).pkg_valid,
            old(self).stage matches OpenStage::Mapping { canonical, asset } && match size {
                None => action == OpenAction::ReturnAsset(asset),
                Some(s) => action == (OpenAction::Register { asset, size: s }),
            },
    {
        let asset = match &self.stage {
            OpenStage::Mapping { canonical: _, asset } => *asset,
            _ => 0,
        };
        self.stage = OpenStage::Done;
        match size {
            None => OpenAction::ReturnAsset(asset),
            Some(s) => OpenAction::Register { asset, size: s },
        }
    }
}

/// A redirect is granted only where everything was checked: whenever an
/// open in progress is about to map a replacement, the package name passed
/// validation and the replacement lies inside the replacement directory
/// (`assets/` of the package's directory for the public asset API), hence,
/// for a package name that is one path component, inside the package's hook
/// directory; for the internal asset manager the asset also comes from the
/// package's own APK and the original open returned an asset.
pub proof fn lemma_redirect_only_inside_hook_dir(h: OpenHook)
    requires
        h.wf(),
        h.stage is Mapping,
    ensures
        h.pkg_valid,
        is_package_name_text(h.pkg@),
        h.stage matches OpenStage::Mapping { canonical, asset } && path_within(
            canonical@,
            replacement_dir(h.api, h.pkg@),
        ) && (is_single_name(h.pkg@) ==> path_within(canonical@, package_hook_dir(h.pkg@))) && (
        h.api == HookApi::InternalAssetManager ==> asset != 0),
        h.api == HookApi::InternalAssetManager ==> (h.apk_path matches Some(p)
            && apk_path_prefix(h.pkg@).is_prefix_of(p@)),
{
    if let OpenStage::Mapping { canonical, asset } = h.stage {
        if is_single_name(h.pkg@) && h.api == HookApi::PublicAsset {
            lemma_assets_within_package(canonical@, h.pkg@);
        }
    }
}

/// Where a replacement is looked for: for the internal asset manager the
/// file name right after the package's hook directory
/// (`/data/local/tmp/assethook/<pkg>/<filename>`), for the public asset API
/// right after its `assets/` directory, whatever the file name.
pub proof fn lemma_replacement_path_layout(pkg: Seq<char>, filename: Seq<char>)
    ensures
        replacement_path(HookApi::InternalAssetManager, pkg, filename) == "/data/local/tmp/assethook/"@
            + pkg + "/"@ + filename,
        replacement_path(HookApi::PublicAsset, pkg, filename) == "/data/local/tmp/assethook/"@ + pkg
            + "/assets/"@ + filename,
        package_hook_dir(pkg).is_prefix_of(replacement_path(HookApi::InternalAssetManager, pkg, filename)),
        replacement_path(HookApi::InternalAssetManager, pkg, filename).skip(
            package_hook_dir(pkg).len() as int,
        ) == filename,
        package_assets_dir(pkg).is_prefix_of(replacement_path(HookApi::PublicAsset, pkg, filename)),
        replacement_path(HookApi::PublicAsset, pkg, filename).skip(package_assets_dir(pkg).len() as int)
            == filename,
{
    let i = replacement_path(HookApi::InternalAssetManager, pkg, filename);
    let d = package_hook_dir(pkg);
    assert(i =~= d + filename);
    assert(i.take(d.len() as int) =~= d);
    assert(i.skip(d.len() as int) =~= filename);
    let q = replacement_path(HookApi::PublicAsset, pkg, filename);
    let a = package_assets_dir(pkg);
    assert(q =~= a + filename);
    assert(q.take(a.len() as int) =~= a);
    assert(q.skip(a.len() as int) =~= filename);
    assert(d + filename =~= "/data/local/tmp/assethook/"@ + pkg + "/"@ + filename);
}

} // verus!

//! The package whose assets are redirected: its name (read from the
//! process command line), its validation, and the paths derived from it.

use vstd::prelude::*;
use vstd::string::*;
use crate::path::{
    body_components, components, has_root, lemma_split_append_name, lemma_split_append_slash,
    path_within, split_slash, Component,
};

verus! {

/// What `regex::Regex::new(pattern)` followed by `Regex::is_match(text)`
/// gives: `None` when the pattern does not compile, else whether the
/// pattern matches somewhere in `text`. It is a function of the two strings.
pub uninterp spec fn regex_match_outcome(pattern: Seq<char>, text: Seq<char>) -> Option<bool>;

/// A text made only of ASCII letters, `_` and `.`, and at least one of
/// them: what the pattern `^[a-zA-Z_.]+$` matches (`^` and `$` anchor at the
/// start and the end of the text, the class holds the two letter ranges,
/// `_` and `.`, and `+` asks for one or more).
pub open spec fn is_package_name_text(s: Seq<char>) -> bool {
    &&& s.len() > 0
    &&& forall|i: int|
        0 <= i < s.len() ==> {
            let c = #[trigger] s[i];
            ('a' <= c && c <= 'z') || ('A' <= c && c <= 'Z') || c == '_' || c == '.'
        }
}

/// Compiles `pattern` with `regex::Regex::new` and, when that succeeds,
/// tests `text` with `Regex::is_match`. The contract claims that the outcome
/// is the named function of the two strings and, for the package-name
/// pattern `^[a-zA-Z_.]+$` (which compiles), what the regex crate's syntax
/// documentation gives for it: a match exactly for the texts of
/// [`is_package_name_text`]. Of other patterns nothing more is claimed.
#[verifier::external_body]
fn regex_is_match(pattern: &str, text: &str) -> (r: Option<bool>)
    ensures
        r == regex_match_outcome(pattern@, text@),
        pattern@ == package_name_pattern() ==> r == Some(is_package_name_text(text@)),
{
    match regex::Regex::new(pattern) {
        Ok(re) => Some(re.is_match(text)),
        Err(_) => None,
    }
}

/// The pattern that a package name must match before anything of the
/// package is redirected: letters, `_` and `.`, and at least one of them.
pub open spec fn package_name_pattern() -> Seq<char> {
    "^[a-zA-Z_.]+$"@
}

/// Tests a package name against [`package_name_pattern`]: valid exactly
/// when it is made of ASCII letters, `_` and `.`, and is not empty.
pub fn validate_package_name(pkg: &str) -> (r: Option<bool>)
    ensures
        r == regex_match_outcome(package_name_pattern(), pkg@),
        r == Some(is_package_name_text(pkg@)),
{
    regex_is_match("^[a-zA-Z_.]+$", pkg)
}

/// `t` is what stands in `s` before its first NUL character (all of `s`
/// when there is none).
pub open spec fn text_before_nul(s: Seq<char>, t: Seq<char>) -> bool {
    &&& t.len() <= s.len()
    &&& t == s.take(t.len() as int)
    &&& forall|j: int| 0 <= j < t.len() ==> t[j] != '\0'
    &&& t.len() < s.len() ==> s[t.len() as int] == '\0'
}

/// One step of reading the package name from the lines of
/// `/proc/self/cmdline`: appends to `name` what `line` holds before its
/// first NUL, and tells whether a NUL ended the name.
pub fn take_until_nul(name: &mut String, line: &str) -> (ended: bool)
    ensures
        exists|t: Seq<char>|
            {
                &&& text_before_nul(line@, t)
                &&& final(name)@ == old(name)@ + t
                &&& ended == (t.len() < line@.len())
            },
{
    let n = line.unicode_len();
    let mut i: usize = 0;
    while i < n
        invariant
            n == line@.len(),
            i <= n,
            forall|j: int| 0 <= j < i ==> line@[j] != '\0',
        ensures
            i <= n,
            forall|j: int| 0 <= j < i ==> line@[j] != '\0',
            i < n ==> line@[i as int] == '\0',
        decreases n - i,
    {
        if line.get_char(i) == '\0' {
            break;
        }
        i = i + 1;
    }
    let part = line.substring_char(0, i);
    name.append(part);
    assert(text_before_nul(line@, line@.take(i as int)));
    i < n
}

/// The directory under which replacement files live.
pub open spec fn hook_root() -> Seq<char> {
    "/data/local/tmp/assethook/"@
}

/// The directory of a package's replacement files: the hook root, the
/// package name and a separator.
pub open spec fn package_hook_dir(pkg: Seq<char>) -> Seq<char> {
    hook_root() + pkg + "/"@
}

/// The start that the path of the package's own APK has: `/data/app/`,
/// the package name and `-`.
pub open spec fn apk_path_prefix(pkg: Seq<char>) -> Seq<char> {
    "/data/app/"@ + pkg + "-"@
}

/// The directory of a package's replacement files.
pub fn hook_dir_of(pkg: &str) -> (r: String)
    ensures
        r@ == package_hook_dir(pkg@),
{
    let mut s = String::from_str("/data/local/tmp/assethook/");
    s.append(pkg);
    s.append("/");
    s
}

/// The start of the path of the package's own APK.
pub fn apk_prefix_of(pkg: &str) -> (r: String)
    ensures
        r@ == apk_path_prefix(pkg@),
{
    let mut s = String::from_str("/data/app/");
    s.append(pkg);
    s.append("-");
    s
}

/// Where the replacement of an asset opened through the public asset API
/// would lie: `assets/<filename>` in the package's directory.
pub open spec fn public_replacement_path(pkg: Seq<char>, filename: Seq<char>) -> Seq<char> {
    package_assets_dir(pkg) + filename
}

/// The directory of a package's replacement assets for the public asset
/// API: `assets/` in the package's directory.
pub open spec fn package_assets_dir(pkg: Seq<char>) -> Seq<char> {
    hook_root() + pkg + "/assets/"@
}

/// The directory of a package's replacement assets for the public asset API.
pub fn assets_dir_of(pkg: &str) -> (r: String)
    ensures
        r@ == package_assets_dir(pkg@),
{
    let mut s = String::from_str("/data/local/tmp/assethook/");
    s.append(pkg);
    s.append("/assets/");
    s
}

/// Where the replacement of a file opened through the internal asset
/// manager would lie: `<filename>` in the package's directory.
pub open spec fn internal_replacement_path(pkg: Seq<char>, filename: Seq<char>) -> Seq<char> {
    package_hook_dir(pkg) + filename
}

/// The replacement path for an asset opened through the public asset API.
pub fn public_replacement_of(pkg: &str, filename: &str) -> (r: String)
    ensures
        r@ == public_replacement_path(pkg@, filename@),
{
    let mut s = assets_dir_of(pkg);
    s.append(filename);
    s
}

/// The replacement path for a file opened through the internal asset manager.
pub fn internal_replacement_of(pkg: &str, filename: &str) -> (r: String)
    ensures
        r@ == internal_replacement_path(pkg@, filename@),
{
    let mut s = hook_dir_of(pkg);
    s.append(filename);
    s
}

/// A package name that makes one path component: not empty, no separator,
/// and neither `.` nor `..`.
pub open spec fn is_single_name(p: Seq<char>) -> bool {
    &&& p.len() > 0
    &&& !p.contains('/')
    &&& p != seq!['.']
    &&& p != seq!['.', '.']
}

/// A valid package name other than `.` and `..` makes one path component.
pub proof fn lemma_valid_name_is_single(p: Seq<char>)
    requires
        is_package_name_text(p),
        p != seq!['.'],
        p != seq!['.', '.'],
    ensures
        is_single_name(p),
{
    assert(!p.contains('/')) by {
        if p.contains('/') {
            let i = choose|i: int| 0 <= i < p.len() && p[i] == '/';
            assert(p[i] == '/');
        }
    }
}

proof fn lemma_names_have_no_slash(t: Seq<char>)
    requires
        forall|i: int| 0 <= i < t.len() ==> t[i] != '/',
    ensures
        !t.contains('/'),
{
}

proof fn lemma_hook_dir_split(p: Seq<char>)
    requires
        !p.contains('/'),
    ensures
        has_root(package_hook_dir(p)),
        split_slash(package_hook_dir(p)) == seq![
            Seq::<char>::empty(),
            seq!['d', 'a', 't', 'a'],
            seq!['l', 'o', 'c', 'a', 'l'],
            seq!['t', 'm', 'p'],
            seq!['a', 's', 's', 'e', 't', 'h', 'o', 'o', 'k'],
            p,
            Seq::<char>::empty(),
        ],
{
    reveal_strlit("/data/local/tmp/assethook/");
    reveal_strlit("/");
    let d = seq!['d', 'a', 't', 'a'];
    let l = seq!['l', 'o', 'c', 'a', 'l'];
    let t = seq!['t', 'm', 'p'];
    let h = seq!['a', 's', 's', 'e', 't', 'h', 'o', 'o', 'k'];
    lemma_names_have_no_slash(d);
    lemma_names_have_no_slash(l);
    lemma_names_have_no_slash(t);
    lemma_names_have_no_slash(h);
    let e = Seq::<char>::empty();
    let s1 = e.push('/');
    let s2 = s1 + d;
    let s3 = s2.push('/');
    let s4 = s3 + l;
    let s5 = s4.push('/');
    let s6 = s5 + t;
    let s7 = s6.push('/');
    let s8 = s7 + h;
    let s9 = s8.push('/');
    let s10 = s9 + p;
    let s11 = s10.push('/');
    assert(package_hook_dir(p) =~= s11);
    assert(split_slash(e) == seq![e]);
    lemma_split_append_slash(e);
    assert(split_slash(s1) =~= seq![e, e]);
    lemma_split_append_name(s1, d);
    assert(split_slash(s2) =~= seq![e, d]);
    lemma_split_append_slash(s2);
    lemma_split_append_name(s3, l);
    assert(split_slash(s4) =~= seq![e, d, l]);
    lemma_split_append_slash(s4);
    lemma_split_append_name(s5, t);
    assert(split_slash(s6) =~= seq![e, d, l, t]);
    lemma_split_append_slash(s6);
    lemma_split_append_name(s7, h);
    assert(split_slash(s8) =~= seq![e, d, l, t, h]);
    lemma_split_append_slash(s8);
    lemma_split_append_name(s9, p);
    assert(split_slash(s10) =~= seq![e, d, l, t, h, p]);
    lemma_split_append_slash(s10);
    assert(split_slash(s11) =~= seq![e, d, l, t, h, p, e]);
    assert(has_root(s11));
}

proof fn lemma_fixed_names_are_plain()
    ensures
        seq!['d', 'a', 't', 'a'] != seq!['.'] && seq!['d', 'a', 't', 'a'] != seq!['.', '.'],
        seq!['l', 'o', 'c', 'a', 'l'] != seq!['.'] && seq!['l', 'o', 'c', 'a', 'l'] != seq!['.', '.'],
        seq!['t', 'm', 'p'] != seq!['.'] && seq!['t', 'm', 'p'] != seq!['.', '.'],
        seq!['a', 's', 's', 'e', 't', 'h', 'o', 'o', 'k'] != seq!['.']
            && seq!['a', 's', 's', 'e', 't', 'h', 'o', 'o', 'k'] != seq!['.', '.'],
        seq!['a', 's', 's', 'e', 't', 's'] != seq!['.'] && seq!['a', 's', 's', 'e', 't', 's'] != seq!['.', '.'],
{
    assert(seq!['d', 'a', 't', 'a'].len() == 4);
    assert(seq!['l', 'o', 'c', 'a', 'l'].len() == 5);
    assert(seq!['t', 'm', 'p'][0] == 't');
    assert(seq!['a', 's', 's', 'e', 't', 'h', 'o', 'o', 'k'].len() == 9);
    assert(seq!['a', 's', 's', 'e', 't', 's'].len() == 6);
}

/// The components of a package's hook directory: the root, `data`,
/// `local`, `tmp`, `assethook`, and the package name.
pub proof fn lemma_hook_dir_components(p: Seq<char>)
    requires
        is_single_name(p),
    ensures
        components(package_hook_dir(p)) == seq![
            Component::RootDir,
            Component::Normal(seq!['d', 'a', 't', 'a']),
            Component::Normal(seq!['l', 'o', 'c', 'a', 'l']),
            Component::Normal(seq!['t', 'm', 'p']),
            Component::Normal(seq!['a', 's', 's', 'e', 't', 'h', 'o', 'o', 'k']),
            Component::Normal(p),
        ],
{
    lemma_hook_dir_split(p);
    lemma_fixed_names_are_plain();
    let e = Seq::<char>::empty();
    let d = seq!['d', 'a', 't', 'a'];
    let l = seq!['l', 'o', 'c', 'a', 'l'];
    let t = seq!['t', 'm', 'p'];
    let h = seq!['a', 's', 's', 'e', 't', 'h', 'o', 'o', 'k'];
    let ps = seq![e, d, l, t, h, p, e];
    assert(ps.drop_last() =~= seq![e, d, l, t, h, p]);
    assert(seq![e, d, l, t, h, p].drop_last() =~= seq![e, d, l, t, h]);
    assert(seq![e, d, l, t, h].drop_last() =~= seq![e, d, l, t]);
    assert(seq![e, d, l, t].drop_last() =~= seq![e, d, l]);
    assert(seq![e, d, l].drop_last() =~= seq![e, d]);
    assert(seq![e, d].drop_last() =~= seq![e]);
    assert(seq![e].drop_last() =~= Seq::<Seq<char>>::empty());
    reveal_with_fuel(body_components, 8);
    assert(components(package_hook_dir(p)) =~= seq![
        Component::RootDir,
        Component::Normal(d),
        Component::Normal(l),
        Component::Normal(t),
        Component::Normal(h),
        Component::Normal(p),
    ]);
}

/// The components of a package's assets directory: those of its hook
/// directory, then `assets`.
pub proof fn lemma_assets_dir_components(p: Seq<char>)
    requires
        is_single_name(p),
    ensures
        components(package_assets_dir(p)) == components(package_hook_dir(p)).push(
            Component::Normal(seq!['a', 's', 's', 'e', 't', 's']),
        ),
{
    reveal_strlit("/assets/");
    reveal_strlit("/");
    lemma_hook_dir_split(p);
    lemma_hook_dir_components(p);
    lemma_fixed_names_are_plain();
    let a = seq!['a', 's', 's', 'e', 't', 's'];
    lemma_names_have_no_slash(a);
    let dir = package_hook_dir(p);
    assert(package_assets_dir(p) =~= (dir + a).push('/'));
    lemma_split_append_name(dir, a);
    lemma_split_append_slash(dir + a);
    let e = Seq::<char>::empty();
    let d = seq!['d', 'a', 't', 'a'];
    let l = seq!['l', 'o', 'c', 'a', 'l'];
    let t = seq!['t', 'm', 'p'];
    let h = seq!['a', 's', 's', 'e', 't', 'h', 'o', 'o', 'k'];
    let ps = seq![e, d, l, t, h, p, a, e];
    assert(split_slash(package_assets_dir(p)) =~= ps);
    assert(has_root(package_assets_dir(p)));
    assert(ps.drop_last() =~= seq![e, d, l, t, h, p, a]);
    assert(seq![e, d, l, t, h, p, a].drop_last() =~= seq![e, d, l, t, h, p]);
    assert(seq![e, d, l, t, h, p].drop_last() =~= seq![e, d, l, t, h]);
    assert(seq![e, d, l, t, h].drop_last() =~= seq![e, d, l, t]);
    assert(seq![e, d, l, t].drop_last() =~= seq![e, d, l]);
    assert(seq![e, d, l].drop_last() =~= seq![e, d]);
    assert(seq![e, d].drop_last() =~= seq![e]);
    assert(seq![e].drop_last() =~= Seq::<Seq<char>>::empty());
    reveal_with_fuel(body_components, 9);
    assert(components(package_assets_dir(p)) =~= seq![
        Component::RootDir,
        Component::Normal(d),
        Component::Normal(l),
        Component::Normal(t),
        Component::Normal(h),
        Component::Normal(p),
        Component::Normal(a),
    ]);
}

/// What lies in a package's assets directory lies in its hook directory.
pub proof fn lemma_assets_within_package(x: Seq<char>, p: Seq<char>)
    requires
        is_single_name(p),
        path_within(x, package_assets_dir(p)),
    ensures
        path_within(x, package_hook_dir(p)),
{
    lemma_assets_dir_components(p);
    let ca = components(package_assets_dir(p));
    let ch = components(package_hook_dir(p));
    assert(ca.take(ch.len() as int) =~= ch);
    crate::path::lemma_within_reflexive_transitive(x, package_assets_dir(p), package_hook_dir(p));
}

/// Packages do not share replacement files: no path lies inside the hook
/// directories of two different packages whose names are single path
/// components.
pub proof fn lemma_package_dirs_disjoint(x: Seq<char>, p: Seq<char>, q: Seq<char>)
    requires
        is_single_name(p),
        is_single_name(q),
        path_within(x, package_hook_dir(p)),
        path_within(x, package_hook_dir(q)),
    ensures
        p == q,
{
    lemma_hook_dir_components(p);
    lemma_hook_dir_components(q);
    let cx = components(x);
    assert(cx.take(6)[5] == Component::Normal(p));
    assert(cx.take(6)[5] == Component::Normal(q));
}

} // verus!

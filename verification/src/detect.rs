//! Recognising a running game: which processes count, which folders hold games, and
//! what Steam's manifest and library files say.
use vstd::prelude::*;
use crate::config::{AppConfig, owned};
use crate::text::{
    contains, ends_with, starts_with, lines, split, replace, lowercase, chars_of, extend_str, string_of,
    lines_chars, split_chars, replace_chars, contains_exec, lower, str_contains, str_ends_with, str_starts_with,
    str_eq, slice_chars, ends_with_exec,
};

verus! {

// ---------------------------------------------------------------------------
// Ordered sets of strings
// ---------------------------------------------------------------------------

/// Lexicographic order of character sequences, which for UTF-8 text is the byte order
/// that `String`'s `Ord` uses.
pub open spec fn str_lt(a: Seq<char>, b: Seq<char>) -> bool
    decreases a.len(),
{
    if a.len() == 0 {
        b.len() > 0
    } else if b.len() == 0 {
        false
    } else if a[0] != b[0] {
        a[0] < b[0]
    } else {
        str_lt(a.drop_first(), b.drop_first())
    }
}

pub proof fn lemma_str_lt_trichotomy(a: Seq<char>, b: Seq<char>)
    ensures
        str_lt(a, b) || a == b || str_lt(b, a),
        !(str_lt(a, b) && str_lt(b, a)),
        !str_lt(a, a),
    decreases a.len(),
{
    if a.len() > 0 && b.len() > 0 {
        lemma_str_lt_trichotomy(a.drop_first(), b.drop_first());
        if a[0] == b[0] && a.drop_first() == b.drop_first() {
            assert(a =~= seq![a[0]] + a.drop_first());
            assert(b =~= seq![b[0]] + b.drop_first());
        }
    } else if a.len() == 0 && b.len() == 0 {
        assert(a =~= b);
    } else if a.len() > 0 {
        lemma_str_lt_trichotomy(a.drop_first(), a.drop_first());
    }
}

pub proof fn lemma_str_lt_transitive(a: Seq<char>, b: Seq<char>, c: Seq<char>)
    requires
        str_lt(a, b),
        str_lt(b, c),
    ensures
        str_lt(a, c),
    decreases a.len(),
{
    if a.len() > 0 && b.len() > 0 && c.len() > 0 && a[0] == b[0] && b[0] == c[0] {
        lemma_str_lt_transitive(a.drop_first(), b.drop_first(), c.drop_first());
    }
}

/// Exec comparison of two character sequences.
fn str_lt_exec(a: &Vec<char>, b: &Vec<char>) -> (r: bool)
    ensures
        r == str_lt(a@, b@),
{
    let mut i: usize = 0;
    assert(a@.skip(0) =~= a@);
    assert(b@.skip(0) =~= b@);
    while i < a.len() && i < b.len() && a[i] == b[i]
        invariant
            i <= a.len(),
            i <= b.len(),
            str_lt(a@, b@) == str_lt(a@.skip(i as int), b@.skip(i as int)),
        decreases a.len() - i,
    {
        assert(a@.skip(i as int).drop_first() =~= a@.skip(i + 1));
        assert(b@.skip(i as int).drop_first() =~= b@.skip(i + 1));
        i += 1;
    }
    if i == a.len() {
        i < b.len()
    } else if i == b.len() {
        false
    } else {
        a[i] < b[i]
    }
}

pub open spec fn views(v: Seq<String>) -> Seq<Seq<char>> {
    v.map_values(|s: String| s@)
}

/// Strictly increasing: sorted and without duplicates.
pub open spec fn strictly_sorted(v: Seq<Seq<char>>) -> bool {
    forall|i: int, j: int| 0 <= i < j < v.len() ==> str_lt(v[i], v[j])
}

/// A set of strings kept in order, as a `BTreeSet<String>` keeps it.
pub struct SortedStrings {
    items: Vec<String>,
}

impl SortedStrings {
    pub closed spec fn view(&self) -> Seq<Seq<char>> {
        views(self.items@)
    }

    pub closed spec fn well_formed(&self) -> bool {
        strictly_sorted(views(self.items@))
    }

    pub fn new() -> (s: Self)
        ensures
            s.well_formed(),
            s.view() == Seq::<Seq<char>>::empty(),
    {
        let s = SortedStrings { items: Vec::new() };
        assert(views(s.items@) =~= Seq::<Seq<char>>::empty());
        s
    }

    /// Adds a string unless it is already there.
    pub fn insert(&mut self, value: String)
        requires
            old(self).well_formed(),
        ensures
            final(self).well_formed(),
            forall|t: Seq<char>|
                #![trigger final(self).view().contains(t)]
                #![trigger old(self).view().contains(t)]
                final(self).view().contains(t) <==> (old(self).view().contains(t) || t == value@),
    {
        let ghost before = views(self.items@);
        let vv = chars_of(value.as_str());
        let mut i: usize = 0;
        while i < self.items.len()
            invariant
                i <= self.items.len(),
                views(self.items@) == before,
                before == old(self).view(),
                strictly_sorted(before),
                vv@ == value@,
                forall|k: int| 0 <= k < i ==> str_lt(before[k], value@),
            decreases self.items.len() - i,
        {
            let cur = chars_of(self.items[i].as_str());
            if !str_lt_exec(&cur, &vv) {
                proof {
                    lemma_str_lt_trichotomy(before[i as int], value@);
                }
                if str_eq(self.items[i].as_str(), value.as_str()) {
                    assert(before.contains(value@)) by {
                        assert(before[i as int] == value@);
                    }
                    return;
                }
                // value < items[i]: insert here.
                self.items.insert(i, value);
                proof {
                    let after = views(self.items@);
                    assert(after =~= before.insert(i as int, value@));
                    assert forall|a: int, b: int| 0 <= a < b < after.len() implies str_lt(after[a], after[b]) by {
                        if b == i {
                        } else if a == i {
                            if b > i + 1 {
                                lemma_str_lt_transitive(value@, before[i as int], before[b - 1]);
                            }
                        } else if a < i && b > i {
                            if b > i + 1 {
                                lemma_str_lt_transitive(value@, before[i as int], before[b - 1]);
                            }
                            lemma_str_lt_transitive(before[a], value@, before[b - 1]);
                        }
                    }
                    assert forall|t: Seq<char>| after.contains(t) <==> (before.contains(t) || t == value@) by {
                        if after.contains(t) {
                            let k = choose|k: int| 0 <= k < after.len() && after[k] == t;
                            if k < i {
                                assert(before[k] == t);
                            } else if k > i {
                                assert(before[k - 1] == t);
                            }
                        }
                        if before.contains(t) {
                            let k = choose|k: int| 0 <= k < before.len() && before[k] == t;
                            if k < i {
                                assert(after[k] == t);
                            } else {
                                assert(after[k + 1] == t);
                            }
                        }
                        if t == value@ {
                            assert(after[i as int] == t);
                        }
                    }
                }
                return;
            }
            i += 1;
        }
        self.items.push(value);
        proof {
            let after = views(self.items@);
            assert(after =~= before.push(value@));
            assert forall|t: Seq<char>| after.contains(t) <==> (before.contains(t) || t == value@) by {
                if after.contains(t) {
                    let k = choose|k: int| 0 <= k < after.len() && after[k] == t;
                    if k < before.len() {
                        assert(before[k] == t);
                    }
                }
                if before.contains(t) {
                    let k = choose|k: int| 0 <= k < before.len() && before[k] == t;
                    assert(after[k] == t);
                }
                if t == value@ {
                    assert(after[before.len() as int] == t);
                }
            }
        }
    }

    /// The strings in order.
    pub fn into_vec(self) -> (v: Vec<String>)
        requires
            self.well_formed(),
        ensures
            views(v@) == self.view(),
            strictly_sorted(views(v@)),
    {
        self.items
    }
}

// ---------------------------------------------------------------------------
// Paths
// ---------------------------------------------------------------------------

/// `s` without trailing `\` and `/` characters.
pub open spec fn trim_end_slashes(s: Seq<char>) -> Seq<char>
    decreases s.len(),
{
    if s.len() > 0 && (s.last() == '\\' || s.last() == '/') {
        trim_end_slashes(s.drop_last())
    } else {
        s
    }
}

/// The comparable form of a (canonicalised) path: without trailing separators, in lower
/// case.
pub open spec fn normalized_path(canonical: Seq<char>) -> Seq<char> {
    lowercase(trim_end_slashes(canonical))
}

/// The comparable form of a path whose canonical form (or, when it cannot be
/// canonicalised, the path itself) is `canonical`.
pub fn normalize_path(canonical: &str) -> (r: String)
    ensures
        r@ == normalized_path(canonical@),
{
    let v = chars_of(canonical);
    let mut j: usize = v.len();
    assert(v@.subrange(0, j as int) =~= v@);
    while j > 0 && (v[j - 1] == '\\' || v[j - 1] == '/')
        invariant
            j <= v.len(),
            trim_end_slashes(v@) == trim_end_slashes(v@.subrange(0, j as int)),
        decreases j,
    {
        assert(v@.subrange(0, j as int).drop_last() =~= v@.subrange(0, j - 1));
        j -= 1;
    }
    let t = slice_chars(&v, 0, j);
    let text = string_of(&t);
    lower(text.as_str())
}

/// A (normalised) file lies in a (normalised) folder: it is the folder or below it.
pub open spec fn under_folder(file: Seq<char>, folder: Seq<char>) -> bool {
    file == folder || starts_with(file, folder + "\\"@)
}

pub fn is_under_folder(file: &str, folder: &str) -> (b: bool)
    ensures
        b == under_folder(file@, folder@),
{
    if str_eq(file, folder) {
        return true;
    }
    let mut prefix = chars_of(folder);
    extend_str(&mut prefix, "\\");
    let p = string_of(&prefix);
    str_starts_with(file, p.as_str())
}

/// A normalised folder is a Steam library (`...\steamapps`), whose installed games are
/// read from its manifests.
pub fn is_steam_library(normalized: &str) -> (b: bool)
    ensures
        b == ends_with(normalized@, "\\steamapps"@),
{
    str_ends_with(normalized, "\\steamapps")
}

// ---------------------------------------------------------------------------
// Steam files
// ---------------------------------------------------------------------------

/// A line that holds `key` and at least three quotes gives the text between its third
/// and fourth quote, with doubled backslashes made single.
pub open spec fn quoted_value(line: Seq<char>, key: Seq<char>) -> Option<Seq<char>> {
    if contains(line, key) && split(line, '"').len() >= 4 {
        Some(replace(split(line, '"')[3], "\\\\"@, "\\"@))
    } else {
        None
    }
}

/// The value of the first line of a Valve key/value file (`.acf`) that names `"key"`.
pub open spec fn acf_value_in(ls: Seq<Seq<char>>, key: Seq<char>) -> Seq<char>
    decreases ls.len(),
{
    if ls.len() == 0 {
        Seq::empty()
    } else {
        match quoted_value(ls[0], "\""@ + key + "\""@) {
            Some(v) => v,
            None => acf_value_in(ls.drop_first(), key),
        }
    }
}

pub open spec fn acf_value_spec(text: Seq<char>, key: Seq<char>) -> Seq<char> {
    acf_value_in(lines(text), key)
}

fn quoted_value_exec(line: &Vec<char>, needle: &Vec<char>) -> (r: Option<Vec<char>>)
    ensures
        match r {
            Some(v) => quoted_value(line@, needle@) == Some(v@),
            None => quoted_value(line@, needle@) is None,
        },
{
    if !contains_exec(line, needle) {
        return None;
    }
    let parts = split_chars(line, '"');
    if parts.len() < 4 {
        return None;
    }
    let from = chars_of("\\\\");
    let to = chars_of("\\");
    proof {
        reveal_strlit("\\\\");
    }
    assert(parts.deep_view()[3] == parts@[3]@);
    Some(replace_chars(&parts[3], &from, &to))
}

/// The value that a Valve key/value file gives `key` (empty when none).
pub fn acf_value(text: &str, key: &str) -> (r: String)
    ensures
        r@ == acf_value_spec(text@, key@),
{
    let mut needle = chars_of("\"");
    extend_str(&mut needle, key);
    extend_str(&mut needle, "\"");
    let tv = chars_of(text);
    let ls = lines_chars(&tv);
    let ghost lv = ls.deep_view();
    let mut i: usize = 0;
    assert(lv.skip(0) =~= lv);
    while i < ls.len()
        invariant
            i <= ls.len(),
            lv == ls.deep_view(),
            lv == lines(text@),
            needle@ == "\""@ + key@ + "\""@,
            acf_value_in(lv, key@) == acf_value_in(lv.skip(i as int), key@),
        decreases ls.len() - i,
    {
        assert(lv.skip(i as int).drop_first() =~= lv.skip(i + 1));
        assert(lv.skip(i as int)[0] == ls@[i as int]@);
        if let Some(v) = quoted_value_exec(&ls[i], &needle) {
            return string_of(&v);
        }
        i += 1;
    }
    assert(lv.skip(i as int) =~= Seq::<Seq<char>>::empty());
    String::new()
}

/// A manifest file of an installed Steam app: `appmanifest_*.acf`.
pub fn is_app_manifest(file_name: &str) -> (b: bool)
    ensures
        b == (starts_with(file_name@, "appmanifest_"@) && ends_with(file_name@, ".acf"@)),
{
    str_starts_with(file_name, "appmanifest_") && str_ends_with(file_name, ".acf")
}

/// Whether some keyword, lower-cased, occurs in `haystack`.
pub open spec fn any_keyword(haystack: Seq<char>, keywords: Seq<Seq<char>>) -> bool {
    exists|i: int| 0 <= i < keywords.len() && contains(haystack, lowercase(#[trigger] keywords[i]))
}

/// The installation folder name of a Steam app manifest, unless it has none or its name
/// or folder holds an excluded keyword (tools, servers, runtimes, ...).
pub open spec fn steam_app_dir(manifest: Seq<char>, excluded: Seq<Seq<char>>) -> Option<Seq<char>> {
    let name = acf_value_spec(manifest, "name"@);
    let dir = acf_value_spec(manifest, "installdir"@);
    if dir.len() == 0 {
        None
    } else if any_keyword(lowercase(name + " "@ + dir), excluded) {
        None
    } else {
        Some(dir)
    }
}

/// Excluded keywords match whatever their letter case: replacing a keyword with another
/// spelling of it in other letters changes no manifest's verdict.
pub proof fn law_steam_keywords_ignore_case(manifest: Seq<char>, excluded: Seq<Seq<char>>, i: int, k: Seq<char>)
    requires
        0 <= i < excluded.len(),
        lowercase(k) == lowercase(excluded[i]),
    ensures
        steam_app_dir(manifest, excluded.update(i, k)) == steam_app_dir(manifest, excluded),
{
    let ex2 = excluded.update(i, k);
    assert forall|h: Seq<char>| any_keyword(h, ex2) == any_keyword(h, excluded) by {
        if any_keyword(h, ex2) {
            let j = choose|j: int| 0 <= j < ex2.len() && contains(h, lowercase(#[trigger] ex2[j]));
            assert(lowercase(ex2[j]) == lowercase(excluded[j]));
            assert(contains(h, lowercase(excluded[j])));
        }
        if any_keyword(h, excluded) {
            let j = choose|j: int| 0 <= j < excluded.len() && contains(h, lowercase(#[trigger] excluded[j]));
            assert(lowercase(ex2[j]) == lowercase(excluded[j]));
            assert(contains(h, lowercase(ex2[j])));
        }
    }
}

/// An app is left out when its lower-cased name and folder, joined by a space, hold the
/// lower-cased text of an excluded keyword; otherwise an app with an installation
/// folder gives that folder.
pub proof fn law_steam_excluded_apps_left_out(manifest: Seq<char>, excluded: Seq<Seq<char>>)
    ensures
        ({
            let name = acf_value_spec(manifest, "name"@);
            let dir = acf_value_spec(manifest, "installdir"@);
            let haystack = lowercase(name + " "@ + dir);
            &&& (exists|i: int| 0 <= i < excluded.len() && #[trigger] contains(haystack, lowercase(excluded[i])))
                ==> steam_app_dir(manifest, excluded) is None
            &&& (dir.len() > 0 && forall|i: int| 0 <= i < excluded.len() ==> !#[trigger] contains(haystack, lowercase(excluded[i])))
                ==> steam_app_dir(manifest, excluded) == Some(dir)
            &&& dir.len() == 0 ==> steam_app_dir(manifest, excluded) is None
        }),
{
    let name = acf_value_spec(manifest, "name"@);
    let dir = acf_value_spec(manifest, "installdir"@);
    let haystack = lowercase(name + " "@ + dir);
    if exists|i: int| 0 <= i < excluded.len() && #[trigger] contains(haystack, lowercase(excluded[i])) {
        let i = choose|i: int| 0 <= i < excluded.len() && #[trigger] contains(haystack, lowercase(excluded[i]));
        assert(any_keyword(haystack, excluded));
    }
}

pub fn steam_app_install_dir(manifest: &str, excluded_keywords: &Vec<String>) -> (r: Option<String>)
    ensures
        match r {
            Some(d) => steam_app_dir(manifest@, views(excluded_keywords@)) == Some(d@),
            None => steam_app_dir(manifest@, views(excluded_keywords@)) is None,
        },
{
    let app_name = acf_value(manifest, "name");
    let install_dir = acf_value(manifest, "installdir");
    if install_dir.as_str().is_empty() {
        return None;
    }
    let mut joined = chars_of(app_name.as_str());
    extend_str(&mut joined, " ");
    extend_str(&mut joined, install_dir.as_str());
    let joined_text = string_of(&joined);
    let haystack = lower(joined_text.as_str());
    let ghost ks = views(excluded_keywords@);
    let mut i: usize = 0;
    while i < excluded_keywords.len()
        invariant
            i <= excluded_keywords.len(),
            ks == views(excluded_keywords@),
            install_dir@ == acf_value_spec(manifest@, "installdir"@),
            install_dir@.len() > 0,
            haystack@ == lowercase(acf_value_spec(manifest@, "name"@) + " "@ + install_dir@),
            forall|k: int| 0 <= k < i ==> !contains(haystack@, lowercase(#[trigger] ks[k])),
        decreases excluded_keywords.len() - i,
    {
        let kw = lower(excluded_keywords[i].as_str());
        if str_contains(haystack.as_str(), kw.as_str()) {
            assert(contains(haystack@, lowercase(ks[i as int])));
            return None;
        }
        i += 1;
    }
    Some(install_dir)
}

/// The library folders that Steam's `libraryfolders.vdf` lists: each `"path"` line's
/// value followed by `\steamapps`.
pub open spec fn library_folders_in(ls: Seq<Seq<char>>) -> Seq<Seq<char>>
    decreases ls.len(),
{
    if ls.len() == 0 {
        Seq::empty()
    } else {
        let rest = library_folders_in(ls.drop_last());
        match quoted_value(ls.last(), "\"path\""@) {
            Some(v) => rest.push(v + "\\steamapps"@),
            None => rest,
        }
    }
}

pub fn steam_library_folders(vdf: &str) -> (r: Vec<String>)
    ensures
        views(r@) == library_folders_in(lines(vdf@)),
{
    let needle = chars_of("\"path\"");
    let tv = chars_of(vdf);
    let ls = lines_chars(&tv);
    let ghost lv = ls.deep_view();
    let mut out: Vec<String> = Vec::new();
    let mut i: usize = 0;
    assert(lv.take(0) =~= Seq::<Seq<char>>::empty());
    assert(views(out@) =~= Seq::<Seq<char>>::empty());
    while i < ls.len()
        invariant
            i <= ls.len(),
            lv == ls.deep_view(),
            needle@ == "\"path\""@,
            views(out@) == library_folders_in(lv.take(i as int)),
        decreases ls.len() - i,
    {
        assert(lv.take(i + 1).drop_last() =~= lv.take(i as int));
        assert(lv.take(i + 1).last() == ls@[i as int]@);
        let ghost before = views(out@);
        if let Some(v) = quoted_value_exec(&ls[i], &needle) {
            let mut folder = v;
            extend_str(&mut folder, "\\steamapps");
            out.push(string_of(&folder));
            assert(views(out@) =~= before.push(v@ + "\\steamapps"@));
        }
        i += 1;
    }
    assert(lv.take(ls.len() as int) =~= lv);
    out
}

// ---------------------------------------------------------------------------
// Game detection
// ---------------------------------------------------------------------------

/// The lower-cased settings that detection compares processes with.
pub struct GameDetector {
    pub folders: Vec<String>,
    pub process_names: Vec<String>,
    pub excluded_names: Vec<String>,
    pub excluded_path_keywords: Vec<String>,
}

/// What a process's executable name says.
pub enum NameVerdict {
    /// Excluded (launchers, helpers): not a game.
    Skip,
    /// Listed as a game: this name.
    Game(String),
    /// Decided by its path.
    CheckPath,
}

/// What a process's path says.
pub enum PathVerdict {
    Skip,
    Game,
    Other,
}

fn lower_all(v: &Vec<String>) -> (r: Vec<String>)
    ensures
        views(r@) == views(v@).map_values(|s: Seq<char>| lowercase(s)),
{
    let mut r: Vec<String> = Vec::new();
    let mut i: usize = 0;
    while i < v.len()
        invariant
            i <= v.len(),
            views(r@) == views(v@).take(i as int).map_values(|s: Seq<char>| lowercase(s)),
        decreases v.len() - i,
    {
        let ghost before = views(r@);
        r.push(lower(v[i].as_str()));
        assert(views(r@) =~= before.push(lowercase(v@[i as int]@)));
        assert(views(v@).take(i + 1).map_values(|s: Seq<char>| lowercase(s)) =~= views(v@).take(i as int).map_values(
            |s: Seq<char>| lowercase(s),
        ).push(lowercase(v@[i as int]@)));
        i += 1;
    }
    assert(views(v@).take(v.len() as int) =~= views(v@));
    r
}

fn list_contains(v: &Vec<String>, s: &str) -> (b: bool)
    ensures
        b == views(v@).contains(s@),
{
    let mut i: usize = 0;
    while i < v.len()
        invariant
            i <= v.len(),
            forall|k: int| 0 <= k < i ==> v@[k]@ != s@,
        decreases v.len() - i,
    {
        if str_eq(v[i].as_str(), s) {
            assert(views(v@)[i as int] == s@);
            return true;
        }
        i += 1;
    }
    assert(!views(v@).contains(s@)) by {
        if views(v@).contains(s@) {
            let k = choose|k: int| 0 <= k < views(v@).len() && views(v@)[k] == s@;
            assert(v@[k]@ == s@);
        }
    }
    false
}

/// The executable name without a final `.exe`.
pub open spec fn exe_stem(exe: Seq<char>) -> Seq<char> {
    if ends_with(exe, ".exe"@) {
        exe.take(exe.len() - 4)
    } else {
        exe
    }
}

pub open spec fn name_verdict(d: GameDetector, exe: Seq<char>) -> Option<bool> {
    let stem = exe_stem(exe);
    if views(d.excluded_names@).contains(exe) || views(d.excluded_names@).contains(stem) {
        Some(false)
    } else if views(d.process_names@).contains(exe) || views(d.process_names@).contains(stem) {
        Some(true)
    } else {
        None
    }
}

pub open spec fn path_verdict(d: GameDetector, path: Seq<char>, folders: Seq<Seq<char>>) -> PathVerdict {
    if exists|i: int| 0 <= i < d.excluded_path_keywords@.len() && contains(path, #[trigger] d.excluded_path_keywords@[i]@) {
        PathVerdict::Skip
    } else if exists|i: int| 0 <= i < folders.len() && under_folder(path, #[trigger] folders[i]) {
        PathVerdict::Game
    } else {
        PathVerdict::Other
    }
}

impl GameDetector {
    /// A detector for `config`, looking in `folders` (see `build_detection_folders`).
    pub fn new(config: &AppConfig, folders: Vec<String>) -> (d: Self)
        ensures
            d.folders == folders,
            views(d.process_names@) == views(config.game_processes@).map_values(|s: Seq<char>| lowercase(s)),
            views(d.excluded_names@) == views(config.exclude_processes@).map_values(|s: Seq<char>| lowercase(s)),
            views(d.excluded_path_keywords@) == views(config.exclude_path_keywords@).map_values(
                |s: Seq<char>| lowercase(s),
            ),
    {
        GameDetector {
            folders,
            process_names: lower_all(&config.game_processes),
            excluded_names: lower_all(&config.exclude_processes),
            excluded_path_keywords: lower_all(&config.exclude_path_keywords),
        }
    }

    /// The verdict on a process by its lower-cased executable name: excluded names (with
    /// or without `.exe`) are skipped, listed game names are games, the rest are judged
    /// by path.
    pub fn check_name(&self, exe: &str) -> (v: NameVerdict)
        ensures
            match name_verdict(*self, exe@) {
                Some(false) => v is Skip,
                Some(true) => (v matches NameVerdict::Game(n) && n@ == exe@),
                None => v is CheckPath,
            },
    {
        let ev = chars_of(exe);
        let suffix = chars_of(".exe");
        proof {
            reveal_strlit(".exe");
        }
        let stem_chars = if ends_with_exec(&ev, &suffix) {
            slice_chars(&ev, 0, ev.len() - 4)
        } else {
            slice_chars(&ev, 0, ev.len())
        };
        assert(stem_chars@ =~= exe_stem(exe@));
        let stem = string_of(&stem_chars);
        if list_contains(&self.excluded_names, exe) || list_contains(&self.excluded_names, stem.as_str()) {
            NameVerdict::Skip
        } else if list_contains(&self.process_names, exe) || list_contains(&self.process_names, stem.as_str()) {
            NameVerdict::Game(owned(exe))
        } else {
            NameVerdict::CheckPath
        }
    }

    /// The verdict on a process by its normalised path, given the normalised detection
    /// folders: paths with an excluded keyword are skipped, paths in a folder are games.
    pub fn check_path(&self, path: &str, folders: &Vec<String>) -> (v: PathVerdict)
        ensures
            v == path_verdict(*self, path@, views(folders@)),
    {
        let mut i: usize = 0;
        while i < self.excluded_path_keywords.len()
            invariant
                i <= self.excluded_path_keywords.len(),
                forall|k: int| 0 <= k < i ==> !contains(path@, #[trigger] self.excluded_path_keywords@[k]@),
            decreases self.excluded_path_keywords.len() - i,
        {
            if str_contains(path, self.excluded_path_keywords[i].as_str()) {
                return PathVerdict::Skip;
            }
            i += 1;
        }
        let mut j: usize = 0;
        while j < folders.len()
            invariant
                j <= folders.len(),
                forall|k: int| 0 <= k < self.excluded_path_keywords@.len() ==> !contains(path@, #[trigger] self.excluded_path_keywords@[k]@),
                forall|k: int| 0 <= k < j ==> !under_folder(path@, #[trigger] views(folders@)[k]),
            decreases folders.len() - j,
        {
            if is_under_folder(path, folders[j].as_str()) {
                assert(under_folder(path@, views(folders@)[j as int]));
                return PathVerdict::Game;
            }
            j += 1;
        }
        PathVerdict::Other
    }
}

/// A path a file may lie on inside `folder`: the folder itself, or the folder's text
/// followed by a backslash and more.
proof fn lemma_under_folder(path: Seq<char>, folder: Seq<char>)
    ensures
        under_folder(path, folder) <==> (path == folder || (folder.len() < path.len()
            && path.take(folder.len() as int) == folder && path[folder.len() as int] == '\\')),
{
    reveal_strlit("\\");
    let sep = folder + "\\"@;
    assert(sep.len() == folder.len() + 1);
    if folder.len() < path.len() && path.take(folder.len() as int) == folder && path[folder.len() as int] == '\\' {
        assert(path.subrange(0, sep.len() as int) =~= sep);
    }
    if starts_with(path, sep) {
        assert(path.subrange(0, sep.len() as int) == sep);
        assert(path.take(folder.len() as int) =~= path.subrange(0, sep.len() as int).take(folder.len() as int));
        assert(sep.take(folder.len() as int) =~= folder);
        assert(path[folder.len() as int] == path.subrange(0, sep.len() as int)[folder.len() as int]);
    }
}

/// A process is a game by its path exactly when the path holds no excluded keyword and
/// lies inside a detection folder: it is the folder, or it goes on after the folder's
/// text with a backslash. A path that only begins with a folder's text, such as
/// `e:\gamesaves\backup.exe` beside the folder `e:\games`, is not inside that folder.
pub proof fn law_game_paths_lie_inside_a_folder(d: GameDetector, path: Seq<char>, folders: Seq<Seq<char>>)
    ensures
        (path_verdict(d, path, folders) is Game) <==> (
            (forall|k: int| 0 <= k < d.excluded_path_keywords@.len()
                ==> !contains(path, #[trigger] d.excluded_path_keywords@[k]@))
            && exists|i: int| 0 <= i < folders.len() && (path == #[trigger] folders[i] || (folders[i].len() < path.len()
                && path.take(folders[i].len() as int) == folders[i] && path[folders[i].len() as int] == '\\'))),
        (path_verdict(d, path, folders) is Skip) <==> exists|k: int| 0 <= k < d.excluded_path_keywords@.len()
            && contains(path, #[trigger] d.excluded_path_keywords@[k]@),
{
    assert forall|i: int| 0 <= i < folders.len() implies (under_folder(path, #[trigger] folders[i]) <==> (path == folders[i] || (folders[i].len() < path.len()
                && path.take(folders[i].len() as int) == folders[i] && path[folders[i].len() as int] == '\\'))) by {
        lemma_under_folder(path, folders[i]);
    }
}

/// A configured game folder: as written, normalised, and, for a Steam library, the
/// installed games' folders found in it.
pub struct FolderScan {
    pub folder: String,
    pub normalized: String,
    pub steam_apps: Vec<String>,
}

/// What a folder contributes to detection: the games in a Steam library, else itself.
pub open spec fn contributed(f: FolderScan) -> Seq<Seq<char>> {
    if ends_with(f.normalized@, "\\steamapps"@) {
        views(f.steam_apps@)
    } else {
        seq![f.folder@]
    }
}

pub open spec fn all_contributed(fs: Seq<FolderScan>, t: Seq<char>) -> bool {
    exists|i: int| 0 <= i < fs.len() && contributed(#[trigger] fs[i]).contains(t)
}

/// The folders in which running programs count as games: sorted, without duplicates,
/// and exactly the games of the Steam libraries and the other configured folders.
pub fn build_detection_folders(scans: Vec<FolderScan>) -> (r: Vec<String>)
    ensures
        strictly_sorted(views(r@)),
        forall|t: Seq<char>| views(r@).contains(t) <==> all_contributed(scans@, t),
{
    let mut set = SortedStrings::new();
    let ghost all = scans@;
    assert(all.len() == scans.len());
    let mut rest = scans;
    let mut taken: usize = 0;
    assert(all.take(0) =~= Seq::<FolderScan>::empty());
    while rest.len() > 0
        invariant
            set.well_formed(),
            taken + rest@.len() == all.len(),
            all.len() <= usize::MAX,
            rest@ == all.skip(taken as int),
            forall|t: Seq<char>| set.view().contains(t) <==> all_contributed(all.take(taken as int), t),
        decreases rest@.len(),
    {
        let scan = rest.remove(0);
        assert(scan == all[taken as int]);
        let ghost prev = set.view();
        if is_steam_library(scan.normalized.as_str()) {
            let mut k: usize = 0;
            while k < scan.steam_apps.len()
                invariant
                    set.well_formed(),
                    k <= scan.steam_apps.len(),
                    forall|t: Seq<char>|
                        #![trigger set.view().contains(t)]
                        set.view().contains(t) <==> (prev.contains(t) || views(scan.steam_apps@).take(k as int).contains(t)),
                decreases scan.steam_apps.len() - k,
            {
                set.insert(scan.steam_apps[k].clone());
                proof {
                    assert forall|t: Seq<char>| set.view().contains(t) <==> (prev.contains(t) || views(scan.steam_apps@).take(k + 1).contains(t)) by {
                        let s1 = views(scan.steam_apps@).take(k as int);
                        let s2 = views(scan.steam_apps@).take(k + 1);
                        assert(s2 =~= s1.push(scan.steam_apps@[k as int]@));
                        if s2.contains(t) {
                            let w = choose|w: int| 0 <= w < s2.len() && s2[w] == t;
                            if w < k {
                                assert(s1[w] == t);
                            }
                        }
                        if s1.contains(t) {
                            let w = choose|w: int| 0 <= w < s1.len() && s1[w] == t;
                            assert(s2[w] == t);
                        }
                        if t == scan.steam_apps@[k as int]@ {
                            assert(s2[k as int] == t);
                        }
                    }
                }
                k += 1;
            }
            assert(views(scan.steam_apps@).take(scan.steam_apps.len() as int) =~= views(scan.steam_apps@));
        } else {
            set.insert(scan.folder.clone());
            proof {
                assert forall|t: Seq<char>| set.view().contains(t) <==> (prev.contains(t) || contributed(scan).contains(t)) by {
                    if t == scan.folder@ {
                        assert(contributed(scan)[0] == t);
                    }
                }
            }
        }
        assert(forall|t: Seq<char>| set.view().contains(t) <==> (prev.contains(t) || contributed(scan).contains(t)));
        proof {
            assert(all.take(taken + 1) =~= all.take(taken as int).push(scan));
            assert forall|t: Seq<char>| set.view().contains(t) <==> all_contributed(all.take(taken + 1), t) by {
                let a = all.take(taken as int);
                let b = all.take(taken + 1);
                if all_contributed(b, t) {
                    let w = choose|w: int| 0 <= w < b.len() && contributed(#[trigger] b[w]).contains(t);
                    if w < taken {
                        assert(a[w] == b[w]);
                    }
                }
                if all_contributed(a, t) {
                    let w = choose|w: int| 0 <= w < a.len() && contributed(#[trigger] a[w]).contains(t);
                    assert(b[w] == a[w]);
                }
                if contributed(scan).contains(t) {
                    assert(b[taken as int] == scan);
                }
            }
            assert(rest@ =~= all.skip(taken + 1));
        }
        taken += 1;
    }
    assert(all.take(taken as int) =~= all);
    set.into_vec()
}

// ---------------------------------------------------------------------------
// Process path cache
// ---------------------------------------------------------------------------

/// What is remembered of a process: the executable name it had and the path found for
/// it (empty when none could be read).
pub struct CacheEntry {
    pub pid: u32,
    pub exe: String,
    pub path: String,
}

pub open spec fn distinct_pids(s: Seq<CacheEntry>) -> bool {
    forall|i: int, j: int| 0 <= i < j < s.len() ==> s[i].pid != s[j].pid
}

/// What the entries remember of `pid`: its executable name and path.
pub open spec fn cache_lookup(s: Seq<CacheEntry>, pid: u32) -> Option<(Seq<char>, Seq<char>)> {
    if exists|i: int| 0 <= i < s.len() && s[i].pid == pid {
        let i = choose|i: int| 0 <= i < s.len() && s[i].pid == pid;
        Some((s[i].exe@, s[i].path@))
    } else {
        None
    }
}

proof fn lemma_lookup_at(s: Seq<CacheEntry>, i: int)
    requires
        distinct_pids(s),
        0 <= i < s.len(),
    ensures
        cache_lookup(s, s[i].pid) == Some((s[i].exe@, s[i].path@)),
{
    let k = choose|k: int| 0 <= k < s.len() && s[k].pid == s[i].pid;
    if k != i {
        if k < i {
            assert(s[k].pid != s[i].pid);
        } else {
            assert(s[i].pid != s[k].pid);
        }
    }
}

/// The paths found for running processes, kept between checks so that each process is
/// opened once: a map from process id to executable name and path.
pub struct PathCache {
    entries: Vec<CacheEntry>,
}

/// The cache's answer for a process.
pub enum CacheAnswer {
    /// Remembered for this executable name: its path, if one was found.
    Known(Option<String>),
    /// Not remembered, or remembered for another executable: the process must be asked.
    Unknown,
}

/// More entries than this are pruned to the live processes after a check.
pub const PATH_CACHE_LIMIT: usize = 256;

/// A change made to the path cache.
pub enum CacheOp {
    /// `remember(pid, exe, path)`.
    Remember { pid: u32, exe: Seq<char>, path: Seq<char> },
    /// `prune(live)`.
    Prune { live: Seq<u32> },
}

/// `after` is `before` changed by `op`, as `PathCache::remember` and `PathCache::prune`
/// change it.
pub open spec fn cache_step(before: PathCache, after: PathCache, op: CacheOp) -> bool {
    &&& after.well_formed()
    &&& match op {
        CacheOp::Remember { pid, exe, path } => {
            &&& after.remembered(pid) == Some((exe, path))
            &&& forall|q: u32| q != pid ==> #[trigger] after.remembered(q) == before.remembered(q)
        },
        CacheOp::Prune { live } => forall|q: u32|
            #[trigger] after.remembered(q) == (if before.size() > PATH_CACHE_LIMIT && !live.contains(q) {
                None
            } else {
                before.remembered(q)
            }),
    }
}

/// Over any run of changes in which `pid` is not remembered anew and every pruning finds
/// it running, what the cache remembers of `pid` stays as it was: a process once looked
/// up is answered from the cache, and not asked again, for as long as it runs under the
/// same executable name.
pub proof fn law_cache_keeps_running_process(states: Seq<PathCache>, ops: Seq<CacheOp>, pid: u32)
    requires
        states.len() == ops.len() + 1,
        forall|i: int| 0 <= i < ops.len() ==> cache_step(#[trigger] states[i], states[i + 1], ops[i]),
        forall|i: int| 0 <= i < ops.len() ==> (#[trigger] ops[i] matches CacheOp::Remember { pid: q, .. } ==> q != pid),
        forall|i: int| 0 <= i < ops.len() ==> (#[trigger] ops[i] matches CacheOp::Prune { live } ==> live.contains(pid)),
    ensures
        states.last().remembered(pid) == states[0].remembered(pid),
    decreases ops.len(),
{
    if ops.len() > 0 {
        let n = ops.len() - 1;
        law_cache_keeps_running_process(states.drop_last(), ops.drop_last(), pid);
        assert(states.drop_last()[0] == states[0]);
        assert(states.drop_last().last() == states[n]);
        assert(cache_step(states[n], states[n + 1], ops[n]));
        match ops[n] {
            CacheOp::Remember { pid: q, exe, path } => {
                assert(q != pid);
            },
            CacheOp::Prune { live } => {
                assert(live.contains(pid));
            },
        }
    }
}

impl PathCache {
    pub closed spec fn well_formed(&self) -> bool {
        distinct_pids(self.entries@)
    }

    /// What the cache remembers of `pid`.
    pub closed spec fn remembered(&self, pid: u32) -> Option<(Seq<char>, Seq<char>)> {
        cache_lookup(self.entries@, pid)
    }

    /// The number of processes remembered.
    pub closed spec fn size(&self) -> nat {
        self.entries@.len()
    }

    pub fn new() -> (c: Self)
        ensures
            c.well_formed(),
            c.size() == 0,
            forall|pid: u32| #[trigger] c.remembered(pid) is None,
    {
        PathCache { entries: Vec::new() }
    }

    pub fn len(&self) -> (n: usize)
        ensures
            n == self.size(),
    {
        self.entries.len()
    }

    /// The answer for process `pid` now running `exe`.
    pub fn lookup(&self, pid: u32, exe: &str) -> (a: CacheAnswer)
        requires
            self.well_formed(),
        ensures
            match self.remembered(pid) {
                Some((e, p)) => if e == exe@ {
                    a matches CacheAnswer::Known(r) && (if p.len() == 0 {
                        r is None
                    } else {
                        r matches Some(q) && q@ == p
                    })
                } else {
                    a is Unknown
                },
                None => a is Unknown,
            },
    {
        let mut i: usize = 0;
        while i < self.entries.len()
            invariant
                i <= self.entries.len(),
                distinct_pids(self.entries@),
                forall|k: int| 0 <= k < i ==> self.entries@[k].pid != pid,
            decreases self.entries.len() - i,
        {
            if self.entries[i].pid == pid {
                proof {
                    lemma_lookup_at(self.entries@, i as int);
                }
                if str_eq(self.entries[i].exe.as_str(), exe) {
                    if self.entries[i].path.as_str().is_empty() {
                        return CacheAnswer::Known(None);
                    } else {
                        return CacheAnswer::Known(Some(self.entries[i].path.clone()));
                    }
                } else {
                    return CacheAnswer::Unknown;
                }
            }
            i += 1;
        }
        CacheAnswer::Unknown
    }

    /// Remembers the executable name and path of `pid`, replacing what was remembered.
    pub fn remember(&mut self, pid: u32, exe: String, path: String)
        requires
            old(self).well_formed(),
        ensures
            final(self).well_formed(),
            final(self).remembered(pid) == Some((exe@, path@)),
            forall|q: u32| q != pid ==> #[trigger] final(self).remembered(q) == old(self).remembered(q),
            final(self).size() == old(self).size() + (if old(self).remembered(pid) is Some { 0int } else { 1int }),
            cache_step(*old(self), *final(self), CacheOp::Remember { pid, exe: exe@, path: path@ }),
    {
        let ghost before = self.entries@;
        let mut i: usize = 0;
        while i < self.entries.len()
            invariant
                i <= self.entries.len(),
                self.entries@ == before,
                before == old(self).entries@,
                distinct_pids(before),
                forall|k: int| 0 <= k < i ==> before[k].pid != pid,
            decreases self.entries.len() - i,
        {
            if self.entries[i].pid == pid {
                proof {
                    lemma_lookup_at(before, i as int);
                }
                self.entries.set(i, CacheEntry { pid, exe, path });
                proof {
                    let after = self.entries@;
                    assert(distinct_pids(after)) by {
                        assert forall|a: int, b: int| 0 <= a < b < after.len() implies after[a].pid != after[b].pid by {
                            assert(before[a].pid != before[b].pid);
                        }
                    }
                    lemma_lookup_at(after, i as int);
                    assert forall|q: u32| q != pid implies #[trigger] cache_lookup(after, q) == cache_lookup(before, q) by {
                        if exists|k: int| 0 <= k < before.len() && before[k].pid == q {
                            let k = choose|k: int| 0 <= k < before.len() && before[k].pid == q;
                            lemma_lookup_at(before, k);
                            assert(after[k] == before[k]);
                            lemma_lookup_at(after, k);
                        } else {
                            assert forall|k: int| 0 <= k < after.len() implies after[k].pid != q by {
                                if k != i {
                                    assert(after[k] == before[k]);
                                }
                            }
                        }
                    }
                }
                return;
            }
            i += 1;
        }
        self.entries.push(CacheEntry { pid, exe, path });
        proof {
            let after = self.entries@;
            assert(after =~= before.push(after[before.len() as int]));
            assert(distinct_pids(after)) by {
                assert forall|a: int, b: int| 0 <= a < b < after.len() implies after[a].pid != after[b].pid by {
                    if b < before.len() {
                        assert(before[a].pid != before[b].pid);
                    }
                }
            }
            lemma_lookup_at(after, before.len() as int);
            assert(cache_lookup(before, pid) is None);
            assert forall|q: u32| q != pid implies #[trigger] cache_lookup(after, q) == cache_lookup(before, q) by {
                if exists|k: int| 0 <= k < before.len() && before[k].pid == q {
                    let k = choose|k: int| 0 <= k < before.len() && before[k].pid == q;
                    lemma_lookup_at(before, k);
                    assert(after[k] == before[k]);
                    lemma_lookup_at(after, k);
                } else {
                    assert forall|k: int| 0 <= k < after.len() implies after[k].pid != q by {
                        if k < before.len() {
                            assert(after[k] == before[k]);
                        }
                    }
                }
            }
        }
    }

    /// After a check, a cache grown past the limit keeps only the processes still
    /// running; a smaller one is left as it is.
    pub fn prune(&mut self, live: &Vec<u32>)
        requires
            old(self).well_formed(),
        ensures
            final(self).well_formed(),
            old(self).size() <= PATH_CACHE_LIMIT ==> *final(self) == *old(self),
            old(self).size() > PATH_CACHE_LIMIT ==> forall|q: u32| #[trigger] final(self).remembered(q) == (if live@.contains(
                q,
            ) {
                old(self).remembered(q)
            } else {
                None
            }),
            cache_step(*old(self), *final(self), CacheOp::Prune { live: live@ }),
    {
        if self.entries.len() <= PATH_CACHE_LIMIT {
            return;
        }
        let ghost before = self.entries@;
        let mut kept: Vec<CacheEntry> = Vec::new();
        let mut rest: Vec<CacheEntry> = Vec::new();
        std::mem::swap(&mut rest, &mut self.entries);
        let mut taken: usize = 0;
        assert(rest@ == before);
        assert(before.len() <= usize::MAX);
        while rest.len() > 0
            invariant
                taken + rest@.len() == before.len(),
                before.len() <= usize::MAX,
                rest@ == before.skip(taken as int),
                distinct_pids(before),
                distinct_pids(kept@),
                forall|j: int| 0 <= j < kept@.len() ==> exists|k: int| 0 <= k < taken && #[trigger] kept@[j] == before[k],
                forall|q: u32| #[trigger] cache_lookup(kept@, q) == (if live@.contains(q) && exists|k: int| 0 <= k < taken && before[k].pid == q {
                    cache_lookup(before, q)
                } else {
                    None
                }),
            decreases rest@.len(),
        {
            let e = rest.remove(0);
            assert(e == before[taken as int]);
            assert(rest@ =~= before.skip(taken + 1));
            let mut alive = false;
            let mut k: usize = 0;
            while k < live.len()
                invariant
                    k <= live.len(),
                    alive == exists|m: int| 0 <= m < k && live@[m] == e.pid,
                decreases live.len() - k,
            {
                if live[k] == e.pid {
                    alive = true;
                }
                k += 1;
            }
            let ghost k0 = kept@;
            if alive {
                kept.push(e);
                proof {
                    let after = kept@;
                    assert(after =~= k0.push(before[taken as int]));
                    assert(live@.contains(before[taken as int].pid));
                    assert(distinct_pids(after)) by {
                        assert forall|a: int, b: int| 0 <= a < b < after.len() implies after[a].pid != after[b].pid by {
                            if b == k0.len() {
                                let w = choose|w: int| 0 <= w < taken && #[trigger] k0[a] == before[w];
                                assert(before[w].pid != before[taken as int].pid);
                            } else {
                                assert(k0[a].pid != k0[b].pid);
                            }
                        }
                    }
                    assert forall|j: int| 0 <= j < after.len() implies exists|k: int| 0 <= k < taken + 1 && #[trigger] after[j] == before[k] by {
                        if j < k0.len() {
                            let w = choose|w: int| 0 <= w < taken && #[trigger] k0[j] == before[w];
                            assert(after[j] == before[w]);
                        } else {
                            assert(after[j] == before[taken as int]);
                        }
                    }
                    lemma_lookup_at(before, taken as int);
                    lemma_lookup_at(after, k0.len() as int);
                    assert forall|q: u32| #[trigger] cache_lookup(after, q) == (if live@.contains(q) && exists|k: int| 0 <= k < taken + 1 && before[k].pid == q {
                        cache_lookup(before, q)
                    } else {
                        None
                    }) by {
                        if q != before[taken as int].pid {
                            assert(cache_lookup(k0, q) == (if live@.contains(q) && exists|k: int| 0 <= k < taken && before[k].pid == q {
                                cache_lookup(before, q)
                            } else {
                                None
                            }));
                            if exists|k: int| 0 <= k < taken + 1 && before[k].pid == q {
                                let w = choose|w: int| 0 <= w < taken + 1 && before[w].pid == q;
                                assert(w < taken);
                            }
                            if exists|j: int| 0 <= j < k0.len() && k0[j].pid == q {
                                let j = choose|j: int| 0 <= j < k0.len() && k0[j].pid == q;
                                lemma_lookup_at(k0, j);
                                assert(after[j] == k0[j]);
                                lemma_lookup_at(after, j);
                            } else {
                                assert forall|j: int| 0 <= j < after.len() implies after[j].pid != q by {
                                    if j < k0.len() {
                                        assert(after[j] == k0[j]);
                                    }
                                }
                            }
                        }
                    }
                }
            } else {
                proof {
                    assert(!live@.contains(before[taken as int].pid)) by {
                        if live@.contains(before[taken as int].pid) {
                            let m = choose|m: int| 0 <= m < live@.len() && live@[m] == before[taken as int].pid;
                            assert(live@[m] == e.pid);
                        }
                    }
                    assert forall|j: int| 0 <= j < k0.len() implies exists|k: int| 0 <= k < taken + 1 && #[trigger] k0[j] == before[k] by {
                        let w = choose|w: int| 0 <= w < taken && #[trigger] k0[j] == before[w];
                    }
                    assert forall|q: u32| #[trigger] cache_lookup(k0, q) == (if live@.contains(q) && exists|k: int| 0 <= k < taken + 1 && before[k].pid == q {
                        cache_lookup(before, q)
                    } else {
                        None
                    }) by {
                        assert(cache_lookup(k0, q) == (if live@.contains(q) && exists|k: int| 0 <= k < taken && before[k].pid == q {
                            cache_lookup(before, q)
                        } else {
                            None
                        }));
                        if live@.contains(q) && exists|k: int| 0 <= k < taken + 1 && before[k].pid == q {
                            let w = choose|w: int| 0 <= w < taken + 1 && before[w].pid == q;
                            assert(w < taken);
                        }
                    }
                }
            }
            taken += 1;
        }
        proof {
            assert forall|q: u32| #[trigger] cache_lookup(kept@, q) == (if live@.contains(q) {
                cache_lookup(before, q)
            } else {
                None
            }) by {
                assert(cache_lookup(kept@, q) == (if live@.contains(q) && exists|k: int| 0 <= k < taken && before[k].pid == q {
                    cache_lookup(before, q)
                } else {
                    None
                }));
                if !(exists|k: int| 0 <= k < taken && before[k].pid == q) {
                    assert(cache_lookup(before, q) is None);
                }
            }
        }
        self.entries = kept;
    }
}

// ---------------------------------------------------------------------------
// Scanning for game libraries
// ---------------------------------------------------------------------------

/// The folders below a drive's root where games are commonly installed.
pub open spec fn library_relative_folders_spec() -> Seq<Seq<char>> {
    seq![
        "SteamLibrary\\steamapps"@,
        "Games"@,
        "Epic Games"@,
        "GOG Games"@,
        "WeGameApps"@,
        "XboxGames"@,
        "Battle.net"@,
        "EA Games"@,
        "Ubisoft Game Launcher\\games"@,
    ]
}

pub fn library_relative_folders() -> (r: Vec<String>)
    ensures
        views(r@) == library_relative_folders_spec(),
{
    let mut r: Vec<String> = Vec::new();
    r.push(owned("SteamLibrary\\steamapps"));
    r.push(owned("Games"));
    r.push(owned("Epic Games"));
    r.push(owned("GOG Games"));
    r.push(owned("WeGameApps"));
    r.push(owned("XboxGames"));
    r.push(owned("Battle.net"));
    r.push(owned("EA Games"));
    r.push(owned("Ubisoft Game Launcher\\games"));
    assert(views(r@) =~= library_relative_folders_spec());
    r
}

/// Where a drive's Steam library lists the other libraries, below the drive's root.
pub fn drive_library_list() -> (r: String)
    ensures
        r@ == "SteamLibrary\\steamapps\\libraryfolders.vdf"@,
{
    owned("SteamLibrary\\steamapps\\libraryfolders.vdf")
}

/// Where a Steam installation lists its libraries, below a program files folder.
pub fn program_files_library_list() -> (r: String)
    ensures
        r@ == "Steam\\steamapps\\libraryfolders.vdf"@,
{
    owned("Steam\\steamapps\\libraryfolders.vdf")
}

/// The found folders in order and without repetition.
pub fn sorted_unique(items: Vec<String>) -> (r: Vec<String>)
    ensures
        strictly_sorted(views(r@)),
        forall|t: Seq<char>| #[trigger] views(r@).contains(t) <==> views(items@).contains(t),
{
    let mut set = SortedStrings::new();
    let ghost all = views(items@);
    let mut i: usize = 0;
    assert(all.take(0) =~= Seq::<Seq<char>>::empty());
    while i < items.len()
        invariant
            i <= items.len(),
            all == views(items@),
            set.well_formed(),
            forall|t: Seq<char>|
                #![trigger set.view().contains(t)]
                set.view().contains(t) <==> all.take(i as int).contains(t),
        decreases items.len() - i,
    {
        set.insert(items[i].clone());
        proof {
            assert forall|t: Seq<char>| set.view().contains(t) <==> all.take(i + 1).contains(t) by {
                let s1 = all.take(i as int);
                let s2 = all.take(i + 1);
                assert(s2 =~= s1.push(items@[i as int]@));
                if s2.contains(t) {
                    let w = choose|w: int| 0 <= w < s2.len() && s2[w] == t;
                    if w < i {
                        assert(s1[w] == t);
                    }
                }
                if s1.contains(t) {
                    let w = choose|w: int| 0 <= w < s1.len() && s1[w] == t;
                    assert(s2[w] == t);
                }
                if t == items@[i as int]@ {
                    assert(s2[i as int] == t);
                }
            }
        }
        i += 1;
    }
    assert(all.take(items.len() as int) =~= all);
    set.into_vec()
}

} // verus!

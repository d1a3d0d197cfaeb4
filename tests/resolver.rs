use livuals_launcher::fs::FsSnapshot;
use livuals_launcher::path::{render, DirPath};
use livuals_launcher::platform::Platform;
use livuals_launcher::resolve::{candidate_dirs, find_ia_root_with, has_livuals, has_scripts, resolve_script, resolver_queries};

fn unix(parts: &[&str]) -> DirPath {
    DirPath::new("/".to_string(), parts.iter().map(|s| s.to_string()).collect())
}

fn text(p: &DirPath) -> String {
    render(p, "/")
}

fn add_file(fs: &mut FsSnapshot, parts: &[&str]) {
    fs.add_file(unix(parts));
}

fn add_dir(fs: &mut FsSnapshot, parts: &[&str]) {
    fs.add_dir(unix(parts));
}

/// A directory with a launch script and the payload.
fn full_root(fs: &mut FsSnapshot, base: &[&str]) {
    let mut script: Vec<&str> = base.to_vec();
    script.push("runlivuals_macos.sh");
    add_file(fs, &script);
    let mut payload: Vec<&str> = base.to_vec();
    payload.push("livuals");
    add_dir(fs, &payload);
}

fn resolve(fs: &FsSnapshot, hint: Option<DirPath>, exe: Option<DirPath>, cwd: Option<DirPath>) -> String {
    text(&find_ia_root_with(Platform::MacOs, fs, &hint, &exe, &cwd))
}

#[test]
fn empty_tree_without_hint_falls_back_to_cwd() {
    let fs = FsSnapshot::new();
    let r = resolve(&fs, None, Some(unix(&["opt", "app", "bin", "launcher"])), Some(unix(&["home", "u", "work"])));
    assert_eq!(r, "/home/u/work");
}

#[test]
fn empty_tree_with_hint_falls_back_to_hint() {
    let fs = FsSnapshot::new();
    let r = resolve(&fs, Some(unix(&["pkg", "res"])), None, Some(unix(&["home", "u"])));
    assert_eq!(r, "/pkg/res");
}

#[test]
fn nothing_known_falls_back_to_dot() {
    let fs = FsSnapshot::new();
    let r = find_ia_root_with(Platform::Windows, &fs, &None, &None, &None);
    assert_eq!(render(&r, "\\"), ".");
}

#[test]
fn scripts_and_payload_beat_scripts_alone() {
    let mut fs = FsSnapshot::new();
    add_file(&mut fs, &["opt", "app", "bin", "runlivuals.bat"]);
    full_root(&mut fs, &["home", "u", "work"]);
    let r = resolve(&fs, None, Some(unix(&["opt", "app", "bin", "launcher"])), Some(unix(&["home", "u", "work"])));
    assert_eq!(r, "/home/u/work");
}

#[test]
fn scripts_alone_chosen_when_nothing_has_both() {
    let mut fs = FsSnapshot::new();
    add_file(&mut fs, &["opt", "app", "scripts", "runlivuals.bat"]);
    let r = resolve(&fs, None, Some(unix(&["opt", "app", "bin", "launcher"])), Some(unix(&["home", "u"])));
    assert_eq!(r, "/opt/app");
}

#[test]
fn hint_beats_executable_ancestors() {
    let mut fs = FsSnapshot::new();
    full_root(&mut fs, &["pkg", "res"]);
    full_root(&mut fs, &["opt", "app"]);
    let r = resolve(&fs, Some(unix(&["pkg", "res"])), Some(unix(&["opt", "app", "launcher"])), None);
    assert_eq!(r, "/pkg/res");
}

#[test]
fn executable_ancestor_beats_cwd_ancestor() {
    let mut fs = FsSnapshot::new();
    full_root(&mut fs, &["opt"]);
    full_root(&mut fs, &["home", "u"]);
    let r = resolve(&fs, None, Some(unix(&["opt", "app", "bin", "launcher"])), Some(unix(&["home", "u", "work"])));
    assert_eq!(r, "/opt");
}

#[test]
fn nearer_executable_ancestor_wins() {
    let mut fs = FsSnapshot::new();
    full_root(&mut fs, &["opt"]);
    full_root(&mut fs, &["opt", "app"]);
    let r = resolve(&fs, None, Some(unix(&["opt", "app", "bin", "launcher"])), None);
    assert_eq!(r, "/opt/app");
}

#[test]
fn nested_checkout_directory_found() {
    let mut fs = FsSnapshot::new();
    full_root(&mut fs, &["src", "iaarabes"]);
    let r = resolve(&fs, None, None, Some(unix(&["src", "tools"])));
    assert_eq!(r, "/src/iaarabes");
}

#[test]
fn bare_directory_beats_its_nested_ones() {
    let mut fs = FsSnapshot::new();
    full_root(&mut fs, &["src"]);
    full_root(&mut fs, &["src", "iaarabes"]);
    full_root(&mut fs, &["src", "resources"]);
    let r = resolve(&fs, None, None, Some(unix(&["src"])));
    assert_eq!(r, "/src");
}

#[test]
fn bundle_resources_on_macos_only() {
    let mut fs = FsSnapshot::new();
    full_root(&mut fs, &["Applications", "Livuals.app", "Contents", "Resources"]);
    let exe = unix(&["Applications", "Livuals.app", "Contents", "MacOS", "livuals"]);
    let mac = find_ia_root_with(Platform::MacOs, &fs, &None, &Some(exe.duplicate()), &Some(unix(&["tmp"])));
    assert_eq!(text(&mac), "/Applications/Livuals.app/Contents/Resources");
    let win = find_ia_root_with(Platform::Windows, &fs, &None, &Some(exe), &Some(unix(&["tmp"])));
    assert_eq!(text(&win), "/tmp");
}

#[test]
fn ancestors_searched_sixteen_levels_deep() {
    let mut fs = FsSnapshot::new();
    full_root(&mut fs, &["a"]);
    let deep: Vec<&str> = vec!["a", "b", "c", "d", "e", "f", "g", "h", "i", "j", "k", "l", "m", "n", "o", "p", "q"];
    // The working directory is 17 levels deep: "/a" is its 16th parent.
    let r = resolve(&fs, None, None, Some(unix(&deep)));
    assert_eq!(r, "/a");
    // One level deeper, "/a" is the 17th parent and lies beyond the search.
    let mut deeper = deep.clone();
    deeper.push("r");
    let r = resolve(&fs, None, None, Some(unix(&deeper)));
    assert_eq!(r, "/a/b/c/d/e/f/g/h/i/j/k/l/m/n/o/p/q/r");
}

#[test]
fn sixteenth_parent_of_executable_directory_searched() {
    let mut fs = FsSnapshot::new();
    full_root(&mut fs, &["a"]);
    let exe: Vec<&str> = vec!["a", "b", "c", "d", "e", "f", "g", "h", "i", "j", "k", "l", "m", "n", "o", "p", "q", "exe"];
    let r = resolve(&fs, None, Some(unix(&exe)), None);
    assert_eq!(r, "/a");
}

#[test]
fn bundle_resources_beat_working_directory() {
    let mut fs = FsSnapshot::new();
    full_root(&mut fs, &["L.app", "Contents", "Resources"]);
    full_root(&mut fs, &["home", "u"]);
    let r = resolve(&fs, None, Some(unix(&["L.app", "Contents", "MacOS", "exe"])), Some(unix(&["home", "u"])));
    assert_eq!(r, "/L.app/Contents/Resources");
}

#[test]
fn resolving_twice_gives_the_same_root() {
    let mut fs = FsSnapshot::new();
    full_root(&mut fs, &["home", "u"]);
    let first = resolve(&fs, None, Some(unix(&["opt", "x"])), Some(unix(&["home", "u", "w"])));
    let second = resolve(&fs, None, Some(unix(&["opt", "x"])), Some(unix(&["home", "u", "w"])));
    assert_eq!(first, second);
    assert_eq!(first, "/home/u");
}

#[test]
fn candidates_in_priority_order() {
    let c = candidate_dirs(
        Platform::MacOs,
        &Some(unix(&["pkg"])),
        &Some(unix(&["App.app", "Contents", "MacOS", "exe"])),
        &Some(unix(&["w"])),
    );
    let names: Vec<String> = c.iter().map(text).collect();
    assert_eq!(
        names,
        vec!["/pkg", "/App.app/Contents/MacOS", "/App.app/Contents", "/App.app", "/", "/App.app/Contents/Resources", "/w", "/"]
    );
}

#[test]
fn script_found_directly_before_resources_and_scripts() {
    let mut fs = FsSnapshot::new();
    add_file(&mut fs, &["r", "scripts", "install.bat"]);
    add_file(&mut fs, &["r", "resources", "install.bat"]);
    let found = resolve_script(&fs, &unix(&["r"]), "install.bat").unwrap();
    assert_eq!(text(&found), "/r/resources/install.bat");
    add_file(&mut fs, &["r", "install.bat"]);
    let found = resolve_script(&fs, &unix(&["r"]), "install.bat").unwrap();
    assert_eq!(text(&found), "/r/install.bat");
    assert!(resolve_script(&fs, &unix(&["r"]), "other.bat").is_none());
}

#[test]
fn presence_predicates() {
    let mut fs = FsSnapshot::new();
    add_file(&mut fs, &["r", "scripts", "runlivuals_macos.sh"]);
    add_file(&mut fs, &["r", "livuals"]);
    assert!(has_scripts(&fs, &unix(&["r"])));
    assert!(!has_scripts(&fs, &unix(&["r", "scripts", "x"])));
    assert!(!has_livuals(&fs, &unix(&["r"])));
    add_dir(&mut fs, &["q", "livuals"]);
    assert!(has_livuals(&fs, &unix(&["q"])));
}

#[test]
fn queries_cover_every_directory_tried() {
    let cands = vec![unix(&["c"])];
    let q: Vec<String> = resolver_queries(&cands).iter().map(text).collect();
    assert_eq!(q.len(), 21);
    assert_eq!(q[0], "/c/livuals");
    assert_eq!(q[1], "/c/runlivuals.bat");
    assert_eq!(q[2], "/c/resources/runlivuals.bat");
    assert_eq!(q[3], "/c/scripts/runlivuals.bat");
    assert_eq!(q[4], "/c/runlivuals_macos.sh");
    assert_eq!(q[7], "/c/iaarabes/livuals");
    assert_eq!(q[20], "/c/resources/scripts/runlivuals_macos.sh");
    assert!(resolver_queries(&Vec::new()).is_empty());
}

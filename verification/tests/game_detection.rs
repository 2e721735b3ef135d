use qbee_limiter::config::AppConfig;
use qbee_limiter::detect::{
    acf_value, build_detection_folders, is_app_manifest, is_steam_library, is_under_folder, library_relative_folders,
    normalize_path, sorted_unique, steam_app_install_dir, steam_library_folders, CacheAnswer, FolderScan, GameDetector,
    NameVerdict, PathCache, PathVerdict, SortedStrings,
};

const MANIFEST: &str = "\"AppState\"\n{\n\t\"appid\"\t\t\"730\"\n\t\"name\"\t\t\"Counter-Strike 2\"\n\t\"installdir\"\t\t\"Counter-Strike Global Offensive\"\n}\n";

#[test]
fn acf_values() {
    assert_eq!(acf_value(MANIFEST, "name"), "Counter-Strike 2");
    assert_eq!(acf_value(MANIFEST, "installdir"), "Counter-Strike Global Offensive");
    assert_eq!(acf_value(MANIFEST, "missing"), "");
    assert_eq!(acf_value("\"path\"\t\t\"D:\\\\SteamLibrary\"", "path"), "D:\\SteamLibrary");
}

#[test]
fn steam_manifests() {
    assert!(is_app_manifest("appmanifest_730.acf"));
    assert!(!is_app_manifest("appmanifest_730.acf.bak"));
    assert!(!is_app_manifest("libraryfolders.vdf"));
    let excluded: Vec<String> = AppConfig::default().exclude_steam_app_keywords;
    assert_eq!(steam_app_install_dir(MANIFEST, &excluded), Some("Counter-Strike Global Offensive".into()));
    let tool = "\"name\" \"Steamworks Common Redistributables\"\n\"installdir\" \"Steamworks Shared\"\n";
    assert_eq!(steam_app_install_dir(tool, &excluded), None);
    let server = "\"name\" \"Some Dedicated Server\"\n\"installdir\" \"srv\"\n";
    assert_eq!(steam_app_install_dir(server, &excluded), None);
    assert_eq!(steam_app_install_dir("\"name\" \"x\"\n", &excluded), None);
}

#[test]
fn steam_library_list() {
    let vdf = "\"libraryfolders\"\n{\n\t\"0\"\n\t{\n\t\t\"path\"\t\t\"C:\\\\Program Files (x86)\\\\Steam\"\n\t}\n\t\"1\"\n\t{\n\t\t\"path\"\t\t\"E:\\\\SteamLibrary\"\n\t}\n}\n";
    assert_eq!(
        steam_library_folders(vdf),
        vec!["C:\\Program Files (x86)\\Steam\\steamapps".to_string(), "E:\\SteamLibrary\\steamapps".to_string()]
    );
    assert!(steam_library_folders("nothing").is_empty());
}

#[test]
fn paths_and_folders() {
    assert_eq!(normalize_path("C:\\Games\\Foo\\"), "c:\\games\\foo");
    assert_eq!(normalize_path("D:/X//"), "d:/x");
    assert!(is_under_folder("c:\\games\\foo\\bin\\foo.exe", "c:\\games\\foo"));
    assert!(is_under_folder("c:\\games\\foo", "c:\\games\\foo"));
    assert!(!is_under_folder("c:\\games\\foobar\\x.exe", "c:\\games\\foo"));
    assert!(is_steam_library("d:\\steamlibrary\\steamapps"));
    assert!(!is_steam_library("d:\\games"));
}

#[test]
fn sorted_sets_of_folders() {
    let mut set = SortedStrings::new();
    set.insert("b".into());
    set.insert("a".into());
    set.insert("b".into());
    set.insert("C".into());
    assert_eq!(set.into_vec(), vec!["C", "a", "b"]);
    assert_eq!(sorted_unique(vec!["z".into(), "y".into(), "z".into()]), vec!["y", "z"]);
    assert_eq!(library_relative_folders().len(), 9);
    assert_eq!(library_relative_folders()[0], "SteamLibrary\\steamapps");
}

#[test]
fn detection_folders_expand_steam_libraries() {
    let scans = vec![
        FolderScan {
            folder: "D:\\SteamLibrary\\steamapps".into(),
            normalized: "d:\\steamlibrary\\steamapps".into(),
            steam_apps: vec!["D:\\SteamLibrary\\steamapps\\common\\Zed".into(), "D:\\SteamLibrary\\steamapps\\common\\Alpha".into()],
        },
        FolderScan { folder: "E:\\Games".into(), normalized: "e:\\games".into(), steam_apps: vec![] },
        FolderScan { folder: "E:\\Games".into(), normalized: "e:\\games".into(), steam_apps: vec![] },
    ];
    assert_eq!(
        build_detection_folders(scans),
        vec!["D:\\SteamLibrary\\steamapps\\common\\Alpha", "D:\\SteamLibrary\\steamapps\\common\\Zed", "E:\\Games"]
    );
}

fn detector() -> GameDetector {
    let mut c = AppConfig::default();
    c.game_processes = vec!["MyGame".into()];
    GameDetector::new(&c, vec![])
}

#[test]
fn process_names() {
    let d = detector();
    assert!(matches!(d.check_name("steam.exe"), NameVerdict::Skip));
    assert!(matches!(d.check_name("steam"), NameVerdict::CheckPath));
    assert!(matches!(d.check_name("mygame.exe"), NameVerdict::Game(n) if n == "mygame.exe"));
    assert!(matches!(d.check_name("mygame"), NameVerdict::Game(n) if n == "mygame"));
    assert!(matches!(d.check_name("other.exe"), NameVerdict::CheckPath));
}

#[test]
fn process_paths() {
    let d = detector();
    let folders = vec!["c:\\games\\foo".to_string()];
    assert!(matches!(d.check_path("c:\\games\\foo\\foo.exe", &folders), PathVerdict::Game));
    assert!(matches!(d.check_path("c:\\games\\foo\\_commonredist\\vc.exe", &folders), PathVerdict::Skip));
    assert!(matches!(d.check_path("c:\\windows\\x.exe", &folders), PathVerdict::Other));
}

#[test]
fn path_cache_remembers_and_prunes() {
    let mut cache = PathCache::new();
    assert!(matches!(cache.lookup(1, "a.exe"), CacheAnswer::Unknown));
    cache.remember(1, "a.exe".into(), "C:\\a.exe".into());
    cache.remember(2, "b.exe".into(), String::new());
    assert!(matches!(cache.lookup(1, "a.exe"), CacheAnswer::Known(Some(p)) if p == "C:\\a.exe"));
    assert!(matches!(cache.lookup(2, "b.exe"), CacheAnswer::Known(None)));
    assert!(matches!(cache.lookup(1, "other.exe"), CacheAnswer::Unknown));
    cache.remember(1, "c.exe".into(), "C:\\c.exe".into());
    assert_eq!(cache.len(), 2);
    assert!(matches!(cache.lookup(1, "c.exe"), CacheAnswer::Known(Some(p)) if p == "C:\\c.exe"));
    cache.prune(&vec![]);
    assert_eq!(cache.len(), 2);
    for pid in 10..300u32 {
        cache.remember(pid, "x.exe".into(), String::new());
    }
    assert_eq!(cache.len(), 292);
    cache.prune(&vec![1, 10, 11, 999]);
    assert_eq!(cache.len(), 3);
    assert!(matches!(cache.lookup(1, "c.exe"), CacheAnswer::Known(Some(_))));
    assert!(matches!(cache.lookup(2, "b.exe"), CacheAnswer::Unknown));
    assert!(matches!(cache.lookup(11, "x.exe"), CacheAnswer::Known(None)));
}

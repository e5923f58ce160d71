use entra_sidecar::locate::{
    clone_texts, find_runtime, find_script, home_directory, join_path, script_path_in, Observation, PathSearch,
    Platform, PlatformProfile, SearchAction, VersionLayout,
};

fn strings(items: &[&str]) -> Vec<String> {
    items.iter().map(|s| s.to_string()).collect()
}

/// Drives a search to its end in a world that holds these commands, files
/// and directories. Returns how it ended and everything that was asked for.
fn run(
    mut search: PathSearch,
    commands: &[&str],
    files: &[&str],
    directories: &[(&str, Vec<&str>)],
) -> (SearchAction, Vec<SearchAction>) {
    let mut asked = Vec::new();
    for _ in 0..1000 {
        let action = search.action();
        let seen = match &action {
            SearchAction::Found(_) | SearchAction::NotFound(_) => return (action, asked),
            SearchAction::RunVersionCheck(c) if commands.contains(&c.as_str()) => {
                Observation::Succeeded
            }
            SearchAction::ProbeFile(p) if files.contains(&p.as_str()) => Observation::Succeeded,
            SearchAction::ListDirectory(d) => {
                match directories.iter().find(|(name, _)| name == d) {
                    Some((_, entries)) => Observation::Entries(strings(entries)),
                    None => Observation::Failed,
                }
            }
            _ => Observation::Failed,
        };
        asked.push(action);
        search.observe(seen);
    }
    panic!("the search did not end");
}

#[test]
fn platform_separators() {
    assert_eq!(Platform::Windows.path_separator(), '\\');
    assert_eq!(Platform::MacOs.path_separator(), '/');
    assert_eq!(Platform::Linux.path_separator(), '/');
    assert_eq!(Platform::Windows.search_path_separator(), ';');
    assert_eq!(Platform::MacOs.search_path_separator(), ':');
    assert_eq!(Platform::Linux.search_path_separator(), ':');
}

#[test]
fn joins_paths() {
    assert_eq!(join_path("/a", "b", Platform::Linux), "/a/b");
    assert_eq!(join_path("/a/", "b", Platform::Linux), "/a/b");
    assert_eq!(join_path("", "b", Platform::Linux), "b");
    assert_eq!(join_path("/", "b/c", Platform::MacOs), "/b/c");
    assert_eq!(join_path("C:\\a", "b", Platform::Windows), "C:\\a\\b");
    assert_eq!(join_path("C:\\a\\", "b", Platform::Windows), "C:\\a\\b");
    assert_eq!(join_path("C:/a/", "b", Platform::Windows), "C:/a/b");
    assert_eq!(join_path("/a\\", "b", Platform::Linux), "/a\\/b");
}

#[test]
fn script_paths() {
    assert_eq!(script_path_in("/opt/app", Platform::Linux), "/opt/app/sidecar/dist/index.js");
    assert_eq!(script_path_in("C:\\app", Platform::Windows), "C:\\app\\sidecar\\dist\\index.js");
}

#[test]
fn copies_lists() {
    assert_eq!(clone_texts(&strings(&["a", "", "c"])), strings(&["a", "", "c"]));
    assert_eq!(clone_texts(&Vec::new()), Vec::<String>::new());
}

#[test]
fn linux_profile() {
    let p = PlatformProfile::for_platform(Platform::Linux, Some("/home/u"), true);
    assert_eq!(p.platform, Platform::Linux);
    assert_eq!(p.runtime_command, "node");
    assert_eq!(p.standard_paths, strings(&["/usr/bin/node", "/usr/local/bin/node", "/snap/bin/node"]));
    assert_eq!(p.tool_dirs, strings(&["/usr/local/bin", "/usr/bin", "/bin"]));
    assert_eq!(p.resource_dir, None);
    assert!(!p.hide_console_window);
    assert_eq!(p.version_layouts.len(), 4);
    assert_eq!(
        p.version_layouts[0],
        VersionLayout {
            base_dir: "/home/u/.nvm/versions/node".to_string(),
            executable: "bin/node".to_string(),
        }
    );
    assert_eq!(p.version_layouts[1].base_dir, "/home/u/.fnm/node-versions");
    assert_eq!(p.version_layouts[1].executable, "installation/bin/node");
    assert_eq!(p.version_layouts[2].base_dir, "/home/u/.volta/tools/image/node");
    assert_eq!(p.version_layouts[3].base_dir, "/home/u/.asdf/installs/nodejs");
}

#[test]
fn macos_profile() {
    let p = PlatformProfile::for_platform(Platform::MacOs, None, true);
    assert_eq!(
        p.standard_paths,
        strings(&["/opt/homebrew/bin/node", "/usr/local/bin/node", "/usr/bin/node"])
    );
    assert_eq!(p.tool_dirs, strings(&["/opt/homebrew/bin", "/usr/local/bin", "/usr/bin", "/bin"]));
    assert_eq!(p.resource_dir, Some("../Resources".to_string()));
    assert!(p.version_layouts.is_empty());
    assert!(!p.hide_console_window);
}

#[test]
fn windows_profile() {
    let p = PlatformProfile::for_platform(Platform::Windows, Some("C:\\Users\\u"), true);
    assert_eq!(
        p.standard_paths,
        strings(&[
            "C:\\Program Files\\nodejs\\node.exe",
            "C:\\Program Files (x86)\\nodejs\\node.exe"
        ])
    );
    assert_eq!(p.version_layouts.len(), 3);
    assert_eq!(p.version_layouts[0].base_dir, "C:\\Users\\u\\AppData\\Roaming\\nvm");
    assert_eq!(p.version_layouts[0].executable, "node.exe");
    assert_eq!(p.version_layouts[1].executable, "installation\\node.exe");
    assert_eq!(p.resource_dir, None);
    assert!(p.hide_console_window);
    assert!(!PlatformProfile::for_platform(Platform::Windows, None, false).hide_console_window);
}

#[test]
fn runtime_on_the_search_path_is_used_by_name() {
    let p = PlatformProfile::for_platform(Platform::Linux, Some("/home/u"), false);
    let (end, asked) = run(find_runtime(&p), &["node"], &["/usr/bin/node"], &[]);
    assert_eq!(end, SearchAction::Found("node".to_string()));
    assert_eq!(asked, vec![SearchAction::RunVersionCheck("node".to_string())]);
}

#[test]
fn runtime_is_found_at_the_first_existing_standard_path() {
    let p = PlatformProfile::for_platform(Platform::Linux, Some("/home/u"), false);
    let (end, asked) = run(find_runtime(&p), &[], &["/snap/bin/node", "/usr/local/bin/node"], &[]);
    assert_eq!(end, SearchAction::Found("/usr/local/bin/node".to_string()));
    assert_eq!(
        asked,
        vec![
            SearchAction::RunVersionCheck("node".to_string()),
            SearchAction::ProbeFile("/usr/bin/node".to_string()),
            SearchAction::ProbeFile("/usr/local/bin/node".to_string()),
        ]
    );
}

#[test]
fn runtime_is_found_under_a_version_manager() {
    let p = PlatformProfile::for_platform(Platform::Linux, Some("/home/u"), false);
    let (end, asked) = run(
        find_runtime(&p),
        &[],
        &["/home/u/.fnm/node-versions/v20/installation/bin/node"],
        &[
            ("/home/u/.nvm/versions/node", vec!["v18", "v16"]),
            ("/home/u/.fnm/node-versions", vec!["v22", "v20", "v21"]),
        ],
    );
    assert_eq!(
        end,
        SearchAction::Found("/home/u/.fnm/node-versions/v20/installation/bin/node".to_string())
    );
    let probed: Vec<String> = asked
        .iter()
        .filter_map(|a| match a {
            SearchAction::ProbeFile(p) => Some(p.clone()),
            _ => None,
        })
        .collect();
    assert_eq!(
        probed,
        strings(&[
            "/usr/bin/node",
            "/usr/local/bin/node",
            "/snap/bin/node",
            "/home/u/.nvm/versions/node/v18/bin/node",
            "/home/u/.nvm/versions/node/v16/bin/node",
            "/home/u/.fnm/node-versions/v22/installation/bin/node",
            "/home/u/.fnm/node-versions/v20/installation/bin/node",
        ])
    );
}

#[test]
fn runtime_is_not_found_only_when_everything_was_tried() {
    let p = PlatformProfile::for_platform(Platform::Linux, Some("/home/u"), false);
    let (end, asked) =
        run(find_runtime(&p), &[], &[], &[("/home/u/.asdf/installs/nodejs", vec!["20.1.0"])]);
    assert_eq!(
        end,
        SearchAction::NotFound(strings(&[
            "/usr/bin/node",
            "/usr/local/bin/node",
            "/snap/bin/node",
            "/home/u/.asdf/installs/nodejs/20.1.0/bin/node",
        ]))
    );
    assert_eq!(asked.len(), 1 + 3 + 4 + 1);
}

#[test]
fn a_finished_search_stays_finished() {
    let mut search = PathSearch::new(None, strings(&["/a", "/b"]), Vec::new(), Platform::Linux);
    assert_eq!(search.action(), SearchAction::ProbeFile("/a".to_string()));
    search.observe(Observation::Entries(strings(&["x"])));
    assert_eq!(search.action(), SearchAction::ProbeFile("/b".to_string()));
    search.observe(Observation::Succeeded);
    assert_eq!(search.action(), SearchAction::Found("/b".to_string()));
    search.observe(Observation::Failed);
    search.observe(Observation::Succeeded);
    assert_eq!(search.action(), SearchAction::Found("/b".to_string()));
    let mut none = PathSearch::new(None, Vec::new(), Vec::new(), Platform::Linux);
    assert_eq!(none.action(), SearchAction::NotFound(Vec::new()));
    none.observe(Observation::Succeeded);
    assert_eq!(none.action(), SearchAction::NotFound(Vec::new()));
}

#[test]
fn packaged_script_is_found_beside_the_executable() {
    let p = PlatformProfile::for_platform(Platform::Linux, None, true);
    let ancestors = strings(&["/opt/app", "/opt", "/"]);
    let (end, asked) =
        run(find_script(&p, "/opt/app", &ancestors), &[], &["/opt/app/sidecar/dist/index.js"], &[]);
    assert_eq!(end, SearchAction::Found("/opt/app/sidecar/dist/index.js".to_string()));
    assert_eq!(asked, vec![SearchAction::ProbeFile("/opt/app/sidecar/dist/index.js".to_string())]);
}

#[test]
fn bundled_script_is_tried_first_on_macos() {
    let p = PlatformProfile::for_platform(Platform::MacOs, None, true);
    let exe_dir = "/Applications/App.app/Contents/MacOS";
    let bundled = "/Applications/App.app/Contents/MacOS/../Resources/sidecar/dist/index.js";
    let beside = "/Applications/App.app/Contents/MacOS/sidecar/dist/index.js";
    let (end, asked) = run(find_script(&p, exe_dir, &Vec::new()), &[], &[beside, bundled], &[]);
    assert_eq!(end, SearchAction::Found(bundled.to_string()));
    assert_eq!(asked.len(), 1);
    let (end, _) = run(find_script(&p, exe_dir, &Vec::new()), &[], &[beside], &[]);
    assert_eq!(end, SearchAction::Found(beside.to_string()));
}

#[test]
fn development_script_is_found_in_the_nearest_ancestor() {
    let p = PlatformProfile::for_platform(Platform::Linux, None, false);
    let exe_dir = "/w/src-tauri/target/debug";
    let ancestors =
        strings(&["/w/src-tauri/target/debug", "/w/src-tauri/target", "/w/src-tauri", "/w", "/"]);
    let (end, _) = run(
        find_script(&p, exe_dir, &ancestors),
        &[],
        &["/sidecar/dist/index.js", "/w/sidecar/dist/index.js"],
        &[],
    );
    assert_eq!(end, SearchAction::Found("/w/sidecar/dist/index.js".to_string()));
}

#[test]
fn missing_script_reports_every_checked_path() {
    let p = PlatformProfile::for_platform(Platform::Linux, None, false);
    let (end, _) = run(find_script(&p, "/w/bin", &strings(&["/w/bin", "/w", "/"])), &[], &[], &[]);
    assert_eq!(
        end,
        SearchAction::NotFound(strings(&[
            "/w/bin/sidecar/dist/index.js",
            "/w/bin/sidecar/dist/index.js",
            "/w/sidecar/dist/index.js",
            "/sidecar/dist/index.js",
        ]))
    );
}

#[test]
fn home_directory_from_the_environment() {
    assert_eq!(Platform::Windows.home_variable(), "USERPROFILE");
    assert_eq!(Platform::MacOs.home_variable(), "HOME");
    assert_eq!(Platform::Linux.home_variable(), "HOME");
    assert_eq!(home_directory(Some("/home/u".to_string())), Some("/home/u".to_string()));
    assert_eq!(home_directory(Some(String::new())), None);
    assert_eq!(home_directory(None), None);
}

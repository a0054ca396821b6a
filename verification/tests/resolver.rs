use arashi::error::ResolutionError;
use arashi::layout::{
    detect_layout, installed_package, installed_packages, InstalledPackage, LayoutCache,
    PackageLayout, PnpmLock,
};
use arashi::resolver::{Answer, Probe, Resolution, Step};
use arashi::tree::{resolve_module_path, FileTree};

fn names(list: &[&str]) -> Vec<String> {
    list.iter().map(|s| s.to_string()).collect()
}

fn pnpm_project() -> FileTree {
    let mut tree = FileTree::new();
    tree.add_file("/app/pnpm-lock.yaml", "packages:\n  lodash@4.17.21: {}\n");
    tree.add_dir(
        "/app/node_modules/.pnpm",
        names(&["lock.yaml", "lodash-es@4.17.21", "lodash@4.17.21", "react-dom@18.2.0"]),
    );
    tree.add_dir("/app/node_modules/.pnpm/lodash@4.17.21/node_modules/lodash", names(&["package.json"]));
    tree.add_file(
        "/app/node_modules/.pnpm/lodash@4.17.21/node_modules/lodash/package.json",
        "{\"name\": \"lodash\", \"main\": \"lodash.js\"}",
    );
    tree.add_file("/app/node_modules/.pnpm/lodash@4.17.21/node_modules/lodash/lodash.js", "");
    tree.add_dir(
        "/app/node_modules/.pnpm/react-dom@18.2.0/node_modules/react-dom",
        names(&["package.json", "client.js", "index.js"]),
    );
    tree.add_file(
        "/app/node_modules/.pnpm/react-dom@18.2.0/node_modules/react-dom/package.json",
        "{\"main\": \"index.js\"}",
    );
    tree.add_file("/app/node_modules/.pnpm/react-dom@18.2.0/node_modules/react-dom/index.js", "");
    tree
}

/// Runs a resolution on answers given by `reply`, and returns the questions
/// that were put together with the result.
fn drive(
    root: &str,
    specifier: &str,
    layout: PackageLayout,
    reply: &dyn Fn(&Probe) -> Answer,
) -> (Vec<Probe>, Result<String, ResolutionError>) {
    let mut asked = Vec::new();
    let (mut state, mut step) = Resolution::start(root, specifier, layout);
    loop {
        match step {
            Step::Done(result) => return (asked, result),
            Step::Ask(probe) => {
                let answer = reply(&probe);
                asked.push(probe);
                let next = state.advance(answer);
                state = next.0;
                step = next.1;
            }
        }
    }
}

#[test]
fn pnpm_store_entry_resolves_to_manifest_main() {
    let tree = pnpm_project();
    let resolved = resolve_module_path(&tree, "/app", "lodash").unwrap();
    assert_eq!(resolved, "/app/node_modules/.pnpm/lodash@4.17.21/node_modules/lodash/lodash.js");
    assert!(resolved.ends_with(".pnpm/lodash@4.17.21/node_modules/lodash/lodash.js"));
}

#[test]
fn manifest_module_field_wins_over_main() {
    let mut tree = FileTree::new();
    tree.add_file("/app/package-lock.json", "{}");
    tree.add_dir("/app/node_modules/vue", names(&["package.json"]));
    tree.add_file(
        "/app/node_modules/vue/package.json",
        "{\"main\": \"index.js\", \"module\": \"dist/vue.esm.js\"}",
    );
    tree.add_file("/app/node_modules/vue/index.js", "");
    tree.add_file("/app/node_modules/vue/dist/vue.esm.js", "");
    assert_eq!(
        resolve_module_path(&tree, "/app", "vue"),
        Ok("/app/node_modules/vue/dist/vue.esm.js".to_string())
    );
}

#[test]
fn manifest_module_that_is_no_string_names_no_entry() {
    let mut tree = FileTree::new();
    tree.add_file("/app/package-lock.json", "{}");
    tree.add_dir("/app/node_modules/odd", names(&["package.json"]));
    tree.add_file("/app/node_modules/odd/package.json", "{\"main\": \"index.js\", \"module\": 3}");
    assert_eq!(resolve_module_path(&tree, "/app", "odd"), Err(ResolutionError::EntryNotFound));
}

#[test]
fn pnpm_flat_directory_is_tried_before_the_store() {
    let mut tree = pnpm_project();
    tree.add_dir("/app/node_modules/.pnpm/node_modules/lodash", names(&["package.json"]));
    tree.add_file(
        "/app/node_modules/.pnpm/node_modules/lodash/package.json",
        "{\"module\": \"lodash.esm.js\"}",
    );
    tree.add_file("/app/node_modules/.pnpm/node_modules/lodash/lodash.esm.js", "");
    assert_eq!(
        resolve_module_path(&tree, "/app", "lodash"),
        Ok("/app/node_modules/.pnpm/node_modules/lodash/lodash.esm.js".to_string())
    );
}

#[test]
fn store_scan_skips_entries_of_other_packages() {
    let tree = pnpm_project();
    let (asked, result) = drive("/app", "lodash", PackageLayout::PnpmLayout, &|p| tree.answer(p));
    assert_eq!(
        asked,
        vec![
            Probe::IsDir("/app/node_modules/.pnpm/node_modules/lodash".to_string()),
            Probe::ListDir("/app/node_modules/.pnpm".to_string()),
            Probe::IsDir("/app/node_modules/.pnpm/lodash@4.17.21/node_modules/lodash".to_string()),
            Probe::ReadText(
                "/app/node_modules/.pnpm/lodash@4.17.21/node_modules/lodash/package.json".to_string()
            ),
            Probe::IsFile(
                "/app/node_modules/.pnpm/lodash@4.17.21/node_modules/lodash/lodash.js".to_string()
            ),
        ]
    );
    assert_eq!(
        result,
        Ok("/app/node_modules/.pnpm/lodash@4.17.21/node_modules/lodash/lodash.js".to_string())
    );
}

#[test]
fn sub_path_is_probed_in_fixed_order() {
    let (asked, result) = drive("/app", "react-dom/client", PackageLayout::NpmLayout, &|p| match p {
        Probe::IsDir(_) => Answer::Exists(true),
        Probe::IsFile(_) => Answer::Exists(false),
        Probe::ListDir(_) => Answer::Entries(None),
        Probe::ReadText(_) => Answer::Text(None),
    });
    assert_eq!(
        asked,
        vec![
            Probe::IsDir("/app/node_modules/react-dom".to_string()),
            Probe::IsFile("/app/node_modules/react-dom/client".to_string()),
            Probe::IsFile("/app/node_modules/react-dom/client.js".to_string()),
            Probe::IsFile("/app/node_modules/react-dom/client.ts".to_string()),
            Probe::IsFile("/app/node_modules/react-dom/client/index.js".to_string()),
            Probe::IsFile("/app/node_modules/react-dom/client/index.ts".to_string()),
            Probe::ReadText("/app/node_modules/react-dom/package.json".to_string()),
        ]
    );
    assert_eq!(result, Err(ResolutionError::EntryNotFound));
}

#[test]
fn sub_path_returns_first_candidate_that_exists() {
    let mut tree = pnpm_project();
    let dir = "/app/node_modules/.pnpm/react-dom@18.2.0/node_modules/react-dom";
    tree.add_file(&format!("{dir}/client/index.js"), "");
    tree.add_file(&format!("{dir}/client.ts"), "");
    assert_eq!(resolve_module_path(&tree, "/app", "react-dom/client"), Ok(format!("{dir}/client.ts")));
    tree.add_file(&format!("{dir}/client.js"), "");
    assert_eq!(resolve_module_path(&tree, "/app", "react-dom/client"), Ok(format!("{dir}/client.js")));
    tree.add_file(&format!("{dir}/client"), "");
    assert_eq!(resolve_module_path(&tree, "/app", "react-dom/client"), Ok(format!("{dir}/client")));
}

#[test]
fn sub_path_candidate_must_be_a_file() {
    let mut tree = pnpm_project();
    let dir = "/app/node_modules/.pnpm/react-dom@18.2.0/node_modules/react-dom";
    tree.add_dir(&format!("{dir}/client"), names(&["index.ts"]));
    tree.add_file(&format!("{dir}/client/index.ts"), "");
    assert_eq!(
        resolve_module_path(&tree, "/app", "react-dom/client"),
        Ok(format!("{dir}/client/index.ts"))
    );
}

#[test]
fn sub_path_without_a_file_falls_back_to_the_manifest() {
    let tree = pnpm_project();
    assert_eq!(
        resolve_module_path(&tree, "/app", "react-dom/server"),
        Ok("/app/node_modules/.pnpm/react-dom@18.2.0/node_modules/react-dom/index.js".to_string())
    );
}

#[test]
fn npm_layout_looks_directly_below_node_modules() {
    let mut tree = FileTree::new();
    tree.add_file("/srv/app/package-lock.json", "{}");
    tree.add_dir("/srv/app/node_modules/left-pad", names(&["package.json", "index.js"]));
    tree.add_file("/srv/app/node_modules/left-pad/package.json", "{\"main\": \"index.js\"}");
    tree.add_file("/srv/app/node_modules/left-pad/index.js", "");
    assert_eq!(
        resolve_module_path(&tree, "/srv/app", "left-pad"),
        Ok("/srv/app/node_modules/left-pad/index.js".to_string())
    );
}

#[test]
fn pnpm_lockfile_wins_over_npm_lockfile() {
    let mut tree = pnpm_project();
    tree.add_file("/app/package-lock.json", "{}");
    tree.add_dir("/app/node_modules/lodash", names(&["package.json"]));
    tree.add_file("/app/node_modules/lodash/package.json", "{\"main\": \"npm.js\"}");
    tree.add_file("/app/node_modules/lodash/npm.js", "");
    assert_eq!(
        resolve_module_path(&tree, "/app", "lodash"),
        Ok("/app/node_modules/.pnpm/lodash@4.17.21/node_modules/lodash/lodash.js".to_string())
    );
}

#[test]
fn missing_lockfile_is_reported() {
    let mut tree = FileTree::new();
    tree.add_dir("/app/node_modules/lodash", names(&["package.json"]));
    tree.add_file("/app/node_modules/lodash/package.json", "{\"main\": \"lodash.js\"}");
    assert_eq!(resolve_module_path(&tree, "/app", "lodash"), Err(ResolutionError::NoLockfile));
    let (asked, result) = drive("/app", "lodash", PackageLayout::Unknown, &|p| tree.answer(p));
    assert!(asked.is_empty());
    assert_eq!(result, Err(ResolutionError::NoLockfile));
}

#[test]
fn missing_package_is_not_found() {
    let tree = pnpm_project();
    assert_eq!(resolve_module_path(&tree, "/app", "express"), Err(ResolutionError::PackageNotFound));
    let mut npm = FileTree::new();
    npm.add_file("/app/package-lock.json", "{}");
    assert_eq!(resolve_module_path(&npm, "/app", "express"), Err(ResolutionError::PackageNotFound));
}

#[test]
fn store_that_cannot_be_listed_holds_no_package() {
    let mut tree = FileTree::new();
    tree.add_file("/app/pnpm-lock.yaml", "");
    assert_eq!(resolve_module_path(&tree, "/app", "lodash"), Err(ResolutionError::PackageNotFound));
}

#[test]
fn store_entry_without_package_directory_is_passed_over() {
    let mut tree = FileTree::new();
    tree.add_file("/app/pnpm-lock.yaml", "");
    tree.add_dir("/app/node_modules/.pnpm", names(&["lodash@3.0.0", "lodash@4.17.21"]));
    tree.add_dir("/app/node_modules/.pnpm/lodash@4.17.21/node_modules/lodash", names(&[]));
    tree.add_file(
        "/app/node_modules/.pnpm/lodash@4.17.21/node_modules/lodash/package.json",
        "{\"main\": \"four.js\"}",
    );
    tree.add_file("/app/node_modules/.pnpm/lodash@4.17.21/node_modules/lodash/four.js", "");
    assert_eq!(
        resolve_module_path(&tree, "/app", "lodash"),
        Ok("/app/node_modules/.pnpm/lodash@4.17.21/node_modules/lodash/four.js".to_string())
    );
}

#[test]
fn package_without_manifest_has_no_entry() {
    let mut tree = FileTree::new();
    tree.add_file("/app/package-lock.json", "{}");
    tree.add_dir("/app/node_modules/bare", names(&[]));
    assert_eq!(resolve_module_path(&tree, "/app", "bare"), Err(ResolutionError::EntryNotFound));
}

#[test]
fn manifest_without_entry_fields_has_no_entry() {
    let mut tree = FileTree::new();
    tree.add_file("/app/package-lock.json", "{}");
    tree.add_dir("/app/node_modules/types", names(&["package.json"]));
    tree.add_file("/app/node_modules/types/package.json", "{\"name\": \"types\"}");
    assert_eq!(resolve_module_path(&tree, "/app", "types"), Err(ResolutionError::EntryNotFound));
}

#[test]
fn malformed_manifest_is_a_parse_error() {
    let mut tree = FileTree::new();
    tree.add_file("/app/package-lock.json", "{}");
    tree.add_dir("/app/node_modules/broken", names(&["package.json"]));
    tree.add_file("/app/node_modules/broken/package.json", "{\"main\": ");
    assert_eq!(resolve_module_path(&tree, "/app", "broken"), Err(ResolutionError::ManifestParseError));
}

#[test]
fn specifier_that_names_no_package_is_not_found() {
    let tree = pnpm_project();
    for specifier in ["", "./local", "../up", "/abs/path", "https://cdn.example/x.js", "/lodash"] {
        assert_eq!(
            resolve_module_path(&tree, "/app", specifier),
            Err(ResolutionError::PackageNotFound),
            "{specifier}"
        );
    }
}

#[test]
fn resolution_is_the_same_on_every_run() {
    let tree = pnpm_project();
    for specifier in ["lodash", "react-dom/client", "express", "react-dom"] {
        let first = resolve_module_path(&tree, "/app", specifier);
        let second = resolve_module_path(&tree, "/app", specifier);
        assert_eq!(first, second);
        let layout = detect_layout(true, false);
        let (_, driven) = drive("/app", specifier, layout, &|p| tree.answer(p));
        assert_eq!(driven, first);
    }
}

#[test]
fn finished_resolution_stays_finished() {
    let (state, step) = Resolution::start("/app", "./x", PackageLayout::NpmLayout);
    assert_eq!(step, Step::Done(Err(ResolutionError::PackageNotFound)));
    let (_, again) = state.advance(Answer::Exists(true));
    assert_eq!(again, Step::Done(Err(ResolutionError::PackageNotFound)));
}

#[test]
fn answer_of_the_wrong_kind_counts_as_no() {
    let (state, step) = Resolution::start("/app", "lodash", PackageLayout::NpmLayout);
    assert_eq!(step, Step::Ask(Probe::IsDir("/app/node_modules/lodash".to_string())));
    let (_, next) = state.advance(Answer::Text(Some("yes".to_string())));
    assert_eq!(next, Step::Done(Err(ResolutionError::PackageNotFound)));
}

#[test]
fn tree_answers_from_its_first_node() {
    let mut tree = FileTree::new();
    tree.add_file("/a", "one");
    tree.add_file("/a", "two");
    tree.add_dir("/d", names(&["x"]));
    tree.add_dir("/d", names(&["y", "z"]));
    assert_eq!(tree.answer(&Probe::ReadText("/a".to_string())), Answer::Text(Some("one".to_string())));
    assert_eq!(tree.answer(&Probe::ListDir("/d".to_string())), Answer::Entries(Some(names(&["x"]))));
    assert_eq!(tree.answer(&Probe::IsFile("/a".to_string())), Answer::Exists(true));
    assert_eq!(tree.answer(&Probe::IsFile("/d".to_string())), Answer::Exists(false));
    assert_eq!(tree.answer(&Probe::IsDir("/d".to_string())), Answer::Exists(true));
    assert_eq!(tree.answer(&Probe::IsDir("/a".to_string())), Answer::Exists(false));
    assert_eq!(tree.answer(&Probe::ReadText("/b".to_string())), Answer::Text(None));
    assert_eq!(tree.answer(&Probe::ListDir("/e".to_string())), Answer::Entries(None));
}

#[test]
fn layout_follows_the_lockfiles() {
    assert_eq!(detect_layout(true, true), PackageLayout::PnpmLayout);
    assert_eq!(detect_layout(true, false), PackageLayout::PnpmLayout);
    assert_eq!(detect_layout(false, true), PackageLayout::NpmLayout);
    assert_eq!(detect_layout(false, false), PackageLayout::Unknown);
}

#[test]
fn lockfile_keys_name_the_installed_packages() {
    let lock = PnpmLock {
        packages: names(&["lodash@4.17.21", "@babel/core@7.24.0", "@types/node@20.1.0(x@1)", "bare", ""]),
    };
    let installed = installed_packages("/app", &lock);
    assert_eq!(installed.len(), 5);
    assert_eq!(
        installed[0],
        InstalledPackage {
            key: "lodash@4.17.21".to_string(),
            name: "lodash".to_string(),
            version: "4.17.21".to_string(),
            path: "/app/node_modules/.pnpm/lodash@4.17.21/node_modules/lodash".to_string(),
        }
    );
    assert_eq!(installed[1].name, "@babel/core");
    assert_eq!(installed[1].version, "7.24.0");
    assert_eq!(
        installed[1].path,
        "/app/node_modules/.pnpm/@babel/core@7.24.0/node_modules/@babel/core"
    );
    assert_eq!(installed[2].name, "@types/node");
    assert_eq!(installed[2].version, "20.1.0(x@1)");
    assert_eq!(installed[3].name, "bare");
    assert_eq!(installed[3].version, "");
    assert_eq!(installed[4], installed_package("/app", ""));
    assert_eq!(installed[4].name, "");
    assert_eq!(installed_package("/app", "@"), InstalledPackage {
        key: "@".to_string(),
        name: "@".to_string(),
        version: String::new(),
        path: "/app/node_modules/.pnpm/@/node_modules/@".to_string(),
    });
}

#[test]
fn lockfile_entry_is_where_the_resolver_looks() {
    let tree = pnpm_project();
    let package = installed_package("/app", "lodash@4.17.21");
    let resolved = resolve_module_path(&tree, "/app", &package.name).unwrap();
    assert_eq!(resolved, format!("{}/lodash.js", package.path));
}

#[test]
fn manifest_entry_must_be_an_existing_file() {
    let mut tree = FileTree::new();
    tree.add_file("/app/package-lock.json", "{}");
    tree.add_dir("/app/node_modules/ghost", names(&["package.json", "lib"]));
    tree.add_file("/app/node_modules/ghost/package.json", "{\"main\": \"gone.js\"}");
    assert_eq!(resolve_module_path(&tree, "/app", "ghost"), Err(ResolutionError::EntryNotFound));
    assert_eq!(resolve_module_path(&tree, "/app", "ghost/sub"), Err(ResolutionError::EntryNotFound));

    tree.add_dir("/app/node_modules/folder", names(&["package.json", "lib"]));
    tree.add_file("/app/node_modules/folder/package.json", "{\"main\": \"lib\"}");
    tree.add_dir("/app/node_modules/folder/lib", names(&["index.js"]));
    tree.add_file("/app/node_modules/folder/lib/index.js", "");
    assert_eq!(resolve_module_path(&tree, "/app", "folder"), Err(ResolutionError::EntryNotFound));

    tree.add_file("/app/node_modules/ghost/gone.js", "");
    assert_eq!(
        resolve_module_path(&tree, "/app", "ghost"),
        Ok("/app/node_modules/ghost/gone.js".to_string())
    );
}

#[test]
fn manifest_entry_is_asked_about_before_it_is_handed_out() {
    let reply = |exists: bool| {
        move |p: &Probe| match p {
            Probe::IsDir(_) => Answer::Exists(true),
            Probe::IsFile(_) => Answer::Exists(exists),
            Probe::ListDir(_) => Answer::Entries(None),
            Probe::ReadText(_) => Answer::Text(Some("{\"module\": \"esm/index.js\"}".to_string())),
        }
    };
    let (asked, result) = drive("/app", "vue", PackageLayout::NpmLayout, &reply(true));
    assert_eq!(
        asked,
        vec![
            Probe::IsDir("/app/node_modules/vue".to_string()),
            Probe::ReadText("/app/node_modules/vue/package.json".to_string()),
            Probe::IsFile("/app/node_modules/vue/esm/index.js".to_string()),
        ]
    );
    assert_eq!(result, Ok("/app/node_modules/vue/esm/index.js".to_string()));
    let (asked, result) = drive("/app", "vue", PackageLayout::NpmLayout, &reply(false));
    assert_eq!(asked.len(), 3);
    assert_eq!(result, Err(ResolutionError::EntryNotFound));
}

#[test]
fn resolved_path_is_a_file_of_the_tree_below_the_root() {
    let mut tree = pnpm_project();
    tree.add_file("/app/node_modules/.pnpm/react-dom@18.2.0/node_modules/react-dom/client.js", "");
    for specifier in ["lodash", "react-dom", "react-dom/client", "react-dom/server"] {
        let resolved = resolve_module_path(&tree, "/app", specifier).unwrap();
        assert!(resolved.starts_with("/app/"), "{resolved}");
        assert_eq!(tree.answer(&Probe::IsFile(resolved.clone())), Answer::Exists(true));
        assert_eq!(tree.answer(&Probe::IsDir(resolved)), Answer::Exists(false));
    }
}

#[test]
fn missing_lockfile_is_reported_for_every_specifier() {
    let mut tree = FileTree::new();
    tree.add_dir("/app/node_modules/lodash", names(&["package.json"]));
    for specifier in ["", "lodash", "./x", "/abs", "https://h/x.js", "react-dom/client", "@scope/x"] {
        assert_eq!(
            resolve_module_path(&tree, "/app", specifier),
            Err(ResolutionError::NoLockfile),
            "{specifier}"
        );
        let (state, step) = Resolution::start("/app", specifier, PackageLayout::Unknown);
        assert_eq!(step, Step::Done(Err(ResolutionError::NoLockfile)));
        let (_, again) = state.advance(Answer::Exists(true));
        assert_eq!(again, Step::Done(Err(ResolutionError::NoLockfile)));
    }
    tree.add_file("/app/package-lock.json", "{}");
    tree.add_file("/app/node_modules/lodash/package.json", "{\"main\": \"lodash.js\"}");
    tree.add_file("/app/node_modules/lodash/lodash.js", "");
    assert_eq!(
        resolve_module_path(&tree, "/app", "lodash"),
        Ok("/app/node_modules/lodash/lodash.js".to_string())
    );
    assert_eq!(resolve_module_path(&tree, "/app", ""), Err(ResolutionError::PackageNotFound));
}

#[test]
fn layout_is_kept_once_it_is_known() {
    let mut cache = LayoutCache::new();
    assert_eq!(cache.get(), None);
    assert_eq!(cache.detect(false, false), PackageLayout::Unknown);
    assert_eq!(cache.get(), None);
    assert_eq!(cache.detect(false, true), PackageLayout::NpmLayout);
    assert_eq!(cache.get(), Some(PackageLayout::NpmLayout));
    assert_eq!(cache.detect(false, false), PackageLayout::Unknown);
    assert_eq!(cache.get(), Some(PackageLayout::NpmLayout));
    assert_eq!(cache.detect(true, true), PackageLayout::PnpmLayout);
    assert_eq!(cache.get(), Some(PackageLayout::PnpmLayout));
}

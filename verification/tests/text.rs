use arashi::cli::{Cli, Commands, DEFAULT_ADDRESS};
use arashi::error::ResolutionError;
use arashi::manifest::{manifest_entry, pick_entry, JsonMember};
use arashi::paths::{
    candidate, flat_package, join_path, manifest, npm_lock, npm_package, pnpm_lock, store,
    store_package, ENTRY_CANDIDATES,
};
use arashi::specifier::{classify, split_specifier, SpecifierKind};
use arashi::text::{
    chars_of, find_char, followed_by, matches_at, str_ends_with, str_eq, string_of, substring,
};

#[test]
fn specifiers_are_classified() {
    assert_eq!(classify("./a"), SpecifierKind::Relative);
    assert_eq!(classify("../a"), SpecifierKind::Relative);
    assert_eq!(classify(".hidden"), SpecifierKind::Relative);
    assert_eq!(classify("/a"), SpecifierKind::Absolute);
    assert_eq!(classify("/@modules/react"), SpecifierKind::Absolute);
    assert_eq!(classify("https://x.y/z.js"), SpecifierKind::Url);
    assert_eq!(classify("http://x"), SpecifierKind::Url);
    assert_eq!(classify("data:text/javascript,1"), SpecifierKind::Url);
    assert_eq!(classify("node:fs"), SpecifierKind::Url);
    assert_eq!(classify("a+b.c-d:x"), SpecifierKind::Url);
    assert_eq!(classify("react"), SpecifierKind::Bare);
    assert_eq!(classify("react-dom/client"), SpecifierKind::Bare);
    assert_eq!(classify("@scope/name"), SpecifierKind::Bare);
    assert_eq!(classify("http-proxy"), SpecifierKind::Bare);
    assert_eq!(classify("1st:x"), SpecifierKind::Bare);
    assert_eq!(classify(":x"), SpecifierKind::Bare);
    assert_eq!(classify("a b:c"), SpecifierKind::Bare);
    assert_eq!(classify("pkg/a:b"), SpecifierKind::Bare);
    assert_eq!(classify(""), SpecifierKind::Bare);
}

#[test]
fn specifier_splits_on_its_first_slash() {
    assert_eq!(split_specifier("react-dom/client"), ("react-dom".to_string(), Some("client".to_string())));
    assert_eq!(split_specifier("react"), ("react".to_string(), None));
    assert_eq!(split_specifier("a/b/c"), ("a".to_string(), Some("b/c".to_string())));
    assert_eq!(split_specifier("a/"), ("a".to_string(), Some(String::new())));
    assert_eq!(split_specifier("@scope/name/sub"), ("@scope".to_string(), Some("name/sub".to_string())));
    assert_eq!(split_specifier(""), (String::new(), None));
}

#[test]
fn paths_are_joined_with_one_slash() {
    assert_eq!(join_path("/app", "src/a.ts"), "/app/src/a.ts");
    assert_eq!(join_path("/app/", "src/a.ts"), "/app/src/a.ts");
    assert_eq!(join_path("", "src"), "src");
    assert_eq!(join_path("/", "src"), "/src");
    assert_eq!(join_path("/app", ""), "/app/");
    assert_eq!(join_path("C:/work", "x"), "C:/work/x");
}

#[test]
fn layout_paths_follow_the_package_managers() {
    assert_eq!(pnpm_lock("/app"), "/app/pnpm-lock.yaml");
    assert_eq!(npm_lock("/app"), "/app/package-lock.json");
    assert_eq!(store("/app"), "/app/node_modules/.pnpm");
    assert_eq!(flat_package("/app", "react"), "/app/node_modules/.pnpm/node_modules/react");
    assert_eq!(
        store_package("/app", "react@18.2.0", "react"),
        "/app/node_modules/.pnpm/react@18.2.0/node_modules/react"
    );
    assert_eq!(npm_package("/app", "react"), "/app/node_modules/react");
    assert_eq!(manifest("/app/node_modules/react"), "/app/node_modules/react/package.json");
}

#[test]
fn entry_candidates_come_in_fixed_order() {
    assert_eq!(ENTRY_CANDIDATES, 5);
    let all: Vec<String> = (0..ENTRY_CANDIDATES).map(|k| candidate("/d", "client", k)).collect();
    assert_eq!(
        all,
        vec!["/d/client", "/d/client.js", "/d/client.ts", "/d/client/index.js", "/d/client/index.ts"]
    );
    assert_eq!(candidate("/d", "client", 17), "/d/client/index.ts");
}

#[test]
fn manifest_names_its_entry() {
    assert_eq!(manifest_entry("{\"main\": \"lib/index.js\"}"), Ok("lib/index.js".to_string()));
    assert_eq!(manifest_entry("{\"module\": \"esm.js\", \"main\": \"cjs.js\"}"), Ok("esm.js".to_string()));
    assert_eq!(manifest_entry("{\"main\": \"cjs.js\", \"module\": \"esm.js\"}"), Ok("esm.js".to_string()));
    assert_eq!(manifest_entry("{\"main\": \"\\u00e9.js\"}"), Ok("é.js".to_string()));
    assert_eq!(manifest_entry("{\"module\": null, \"main\": \"cjs.js\"}"), Err(ResolutionError::EntryNotFound));
    assert_eq!(manifest_entry("{\"main\": [\"a.js\"]}"), Err(ResolutionError::EntryNotFound));
    assert_eq!(manifest_entry("{}"), Err(ResolutionError::EntryNotFound));
    assert_eq!(manifest_entry("[\"main\"]"), Err(ResolutionError::EntryNotFound));
    assert_eq!(manifest_entry("\"main\""), Err(ResolutionError::EntryNotFound));
    assert_eq!(manifest_entry(""), Err(ResolutionError::ManifestParseError));
    assert_eq!(manifest_entry("{main: 1}"), Err(ResolutionError::ManifestParseError));
    assert_eq!(manifest_entry("{\"main\": \"a.js\"} trailing"), Err(ResolutionError::ManifestParseError));
}

#[test]
fn entry_is_picked_from_module_then_main() {
    let text = |s: &str| JsonMember::Text(s.to_string());
    assert_eq!(pick_entry(text("m.js"), text("c.js")), Ok("m.js".to_string()));
    assert_eq!(pick_entry(text("m.js"), JsonMember::Absent), Ok("m.js".to_string()));
    assert_eq!(pick_entry(text("m.js"), JsonMember::Other), Ok("m.js".to_string()));
    assert_eq!(pick_entry(JsonMember::Absent, text("c.js")), Ok("c.js".to_string()));
    assert_eq!(pick_entry(JsonMember::Other, text("c.js")), Err(ResolutionError::EntryNotFound));
    assert_eq!(pick_entry(JsonMember::Absent, JsonMember::Other), Err(ResolutionError::EntryNotFound));
    assert_eq!(pick_entry(JsonMember::Absent, JsonMember::Absent), Err(ResolutionError::EntryNotFound));
}

#[test]
fn texts_are_compared_by_their_characters() {
    assert!(str_ends_with("a.tsx", ".tsx"));
    assert!(!str_ends_with("tsx", ".tsx"));
    assert!(str_ends_with("é.ts", ".ts"));
    assert!(str_eq("héllo", "héllo"));
    assert!(!str_eq("héllo", "hello"));
    assert!(!str_eq("a", "ab"));
    assert!(str_eq("", ""));
    assert_eq!(followed_by("ab", "cd"), "abcd");
}

#[test]
fn texts_are_taken_apart_and_put_together() {
    let v = chars_of("añb/c");
    assert_eq!(v, vec!['a', 'ñ', 'b', '/', 'c']);
    assert_eq!(string_of(&v), "añb/c");
    assert_ne!(string_of(&v), "");
    assert_eq!(substring(&v, 1, 3), "ñb");
    assert_eq!(substring(&v, 2, 2), "");
    assert_eq!(find_char(&v, '/'), 3);
    assert_eq!(find_char(&v, 'z'), 5);
    assert!(matches_at(&v, 1, &chars_of("ñb")));
    assert!(!matches_at(&v, 4, &chars_of("cd")));
    assert!(!matches_at(&v, 9, &chars_of("")));
    assert!(matches_at(&v, 5, &chars_of("")));
}

#[test]
fn command_line_gives_the_address_to_listen_on() {
    let cli = Cli { command: Commands::Dev { port: "0.0.0.0:3000".to_string() } };
    assert_eq!(cli.address(), "0.0.0.0:3000");
    assert_eq!(DEFAULT_ADDRESS, "127.0.0.1:8080");
}

use arashi::cache::{BuildCommand, BuildState, Claim, DepCache, Waiting};
use arashi::error::BuildError;

fn strings(list: &[&str]) -> Vec<String> {
    list.iter().map(|s| s.to_string()).collect()
}

#[test]
fn new_cache_is_empty_and_lives_below_node_modules() {
    let cache = DepCache::new("/app");
    assert_eq!(cache.state("react"), BuildState::NotStarted);
    assert_eq!(cache.get_cached_path("react"), None);
    assert_eq!(
        cache.directories(),
        strings(&["/app/node_modules/.arashi", "/app/node_modules/.arashi/deps"])
    );
    assert_eq!(cache.directories(), cache.directories());
}

#[test]
fn build_command_bundles_for_the_browser() {
    let cache = DepCache::new("/app");
    let command = cache.build_dep("react", "/app/node_modules/react/index.js");
    assert_eq!(
        command,
        BuildCommand {
            program: "npx".to_string(),
            args: strings(&[
                "esbuild",
                "/app/node_modules/react/index.js",
                "--bundle",
                "--format=esm",
                "--platform=browser",
                "--target=es2020",
                "--outfile=/app/node_modules/.arashi/deps/react.js",
            ]),
            outfile: "/app/node_modules/.arashi/deps/react.js".to_string(),
        }
    );
}

#[test]
fn one_caller_of_many_builds_and_all_get_one_path() {
    let mut cache = DepCache::new("/app");
    let callers = 8;
    let mut builds = Vec::new();
    let mut waits = 0;
    for _ in 0..callers {
        match cache.get_or_build("react", "/app/node_modules/react/index.js") {
            Claim::Build(command) => builds.push(command),
            Claim::Wait => waits += 1,
            Claim::Cached(path) => panic!("nothing was built yet: {path}"),
        }
    }
    assert_eq!(builds.len(), 1);
    assert_eq!(waits, callers - 1);
    assert_eq!(cache.state("react"), BuildState::Building);
    assert_eq!(cache.poll("react", 0, 1000), Waiting::Pending { left_ms: 1000 });

    let built = cache.complete("react", true).unwrap();
    assert_eq!(built, "/app/node_modules/.arashi/deps/react.js");
    assert_eq!(built, builds[0].outfile);
    for _ in 1..callers {
        assert_eq!(cache.poll("react", 50, 1000), Waiting::Ready(built.clone()));
    }
    assert_eq!(
        cache.get_or_build("react", "/app/node_modules/react/index.js"),
        Claim::Cached(built.clone())
    );
    assert_eq!(cache.get_cached_path("react"), Some(built));
    assert_eq!(cache.state("react"), BuildState::Cached);
}

#[test]
fn failed_build_leaves_no_record_and_can_be_retried() {
    let mut cache = DepCache::new("/app");
    assert!(matches!(cache.get_or_build("vue", "/p/vue.js"), Claim::Build(_)));
    assert_eq!(cache.complete("vue", false), Err(BuildError::BuildProcessFailure));
    assert_eq!(cache.state("vue"), BuildState::NotStarted);
    assert_eq!(cache.get_cached_path("vue"), None);
    assert_eq!(cache.poll("vue", 10, 1000), Waiting::Failed(BuildError::BuildProcessFailure));

    assert!(matches!(cache.get_or_build("vue", "/p/vue.js"), Claim::Build(_)));
    assert_eq!(cache.complete("vue", true), Ok("/app/node_modules/.arashi/deps/vue.js".to_string()));
    assert_eq!(cache.state("vue"), BuildState::Cached);
}

#[test]
fn waiter_times_out_at_the_limit() {
    let mut cache = DepCache::new("/app");
    assert!(matches!(cache.get_or_build("slow", "/p/slow.js"), Claim::Build(_)));
    assert_eq!(cache.poll("slow", 0, 30_000), Waiting::Pending { left_ms: 30_000 });
    assert_eq!(cache.poll("slow", 29_999, 30_000), Waiting::Pending { left_ms: 1 });
    assert_eq!(cache.poll("slow", 30_000, 30_000), Waiting::Failed(BuildError::BuildTimeout));
    assert_eq!(cache.poll("slow", 30_001, 30_000), Waiting::Failed(BuildError::BuildTimeout));
    assert_eq!(cache.poll("slow", 0, 0), Waiting::Failed(BuildError::BuildTimeout));
    assert_eq!(cache.state("slow"), BuildState::Building);
}

#[test]
fn record_is_never_overwritten() {
    let mut cache = DepCache::new("/app");
    assert!(matches!(cache.get_or_build("a", "/p/a.js"), Claim::Build(_)));
    let first = cache.complete("a", true).unwrap();
    assert_eq!(cache.complete("a", false), Ok(first.clone()));
    assert_eq!(cache.complete("a", true), Ok(first.clone()));
    assert!(matches!(cache.get_or_build("b", "/p/b.js"), Claim::Build(_)));
    assert_eq!(cache.complete("b", false), Err(BuildError::BuildProcessFailure));
    assert_eq!(cache.get_cached_path("a"), Some(first));
}

#[test]
fn packages_are_built_independently() {
    let mut cache = DepCache::new("/app/");
    assert!(matches!(cache.get_or_build("a", "/p/a.js"), Claim::Build(_)));
    assert!(matches!(cache.get_or_build("b", "/p/b.js"), Claim::Build(_)));
    assert_eq!(cache.get_or_build("a", "/p/a.js"), Claim::Wait);
    assert_eq!(cache.complete("b", true), Ok("/app/node_modules/.arashi/deps/b.js".to_string()));
    assert_eq!(cache.state("a"), BuildState::Building);
    assert_eq!(cache.artifact_path("react-dom/client"), "/app/node_modules/.arashi/deps/react-dom/client.js");
}

#[test]
fn build_end_without_a_claim_records_nothing() {
    let mut cache = DepCache::new("/app");
    assert_eq!(cache.complete("x", true), Err(BuildError::BuildProcessFailure));
    assert_eq!(cache.state("x"), BuildState::NotStarted);
    assert_eq!(cache.get_cached_path("x"), None);
}

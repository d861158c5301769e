use judge::error::{Error, ErrorKind};
use judge::invoke::{InvokeRequest, RequestExtensions};
use judge::invoker_client::{Client, Pool, PoolInner};
use judge::problem::{ChildValuerCfg, FileRef, FileRefRoot, Problem, Valuer};
use judge::problem_loader::{
    Loader, LoaderConfig, ProblemCache, ProblemCacheItem, Registry, SearchPhase, SearchReport,
    SearchTask,
};
use judge::processor::FileRefResolver;
use judge::toolchain_loader::{Command, ToolchainLoader, ToolchainSpec};
use judge::problem;
use judge::valuer_client::{frame_message, launch, ChildClientConfig, POLL_TIMEOUT_SECS};

fn text(s: &str) -> String {
    s.to_string()
}

fn invocation(id: u128) -> InvokeRequest {
    InvokeRequest {
        steps: Vec::new(),
        inputs: Vec::new(),
        outputs: Vec::new(),
        id,
        ext: RequestExtensions { extra_files: Vec::new(), substitutions: Vec::new() },
    }
}

fn problem_named(checker: &str) -> Problem {
    Problem {
        tests: Vec::new(),
        checker_exe: FileRef { root: FileRefRoot::Problem, path: text(checker) },
        checker_cmd: Vec::new(),
        valuer: Valuer::Child(ChildValuerCfg {
            exe: FileRef { root: FileRefRoot::Problem, path: text("valuer") },
            extra_args: Vec::new(),
            current_dir: None,
        }),
    }
}

fn loader(fs: bool, mongodb: bool) -> Loader {
    let conf = LoaderConfig {
        fs: if fs { Some(text("/problems")) } else { None },
        mongodb: if mongodb { Some(text("mongodb://db")) } else { None },
    };
    Loader::from_config(&conf, text("/cache"))
}

#[test]
fn client_serves_the_first_pool() {
    let mut builder = Client::builder();
    assert!(builder.pools.is_empty());
    builder.add(Pool::new_from_address("http://one:1"));
    builder.add(Pool::new_from_address("http://two:2"));
    assert_eq!(
        builder.pools,
        vec![PoolInner::Http { addr: text("http://one:1") }, PoolInner::Http { addr: text("http://two:2") }]
    );
    let client = builder.build();
    assert_eq!(client.pools.len(), 2);
    assert_eq!(client.instance().unwrap().address, "http://one:1");
}

#[test]
fn client_without_pools_has_no_instance() {
    let error = Client::builder().build().instance().unwrap_err();
    assert_eq!(error.kind, ErrorKind::NoPoolsConfigured);
    assert_eq!(error.message(), "no pools configured");
}

#[test]
fn call_assigns_a_random_id() {
    let mut builder = Client::builder();
    builder.add(Pool::new_from_address("http://invoker:8000"));
    let instance = builder.build().instance().unwrap();
    let first = instance.call(invocation(0)).unwrap();
    let second = instance.call(invocation(0)).unwrap();
    assert_eq!(first.url, "http://invoker:8000/exec");
    assert_ne!(first.request.id, 0);
    assert_ne!(first.request.id, second.request.id);
    for id in [first.request.id, second.request.id] {
        let uuid = uuid::Uuid::from_u128(id);
        assert_eq!(uuid.get_version_num(), 4);
        assert!(!uuid.is_nil());
        assert_eq!(id & 0xf000_c000_0000_0000_0000, 0x4000_8000_0000_0000_0000);
    }
    assert_eq!(InvokeRequest { id: 0, ..first.request }, invocation(0));
}

#[test]
fn call_refuses_a_request_with_an_id() {
    let mut builder = Client::builder();
    builder.add(Pool::new_from_address("http://invoker:8000"));
    let instance = builder.build().instance().unwrap();
    let error = instance.call(invocation(7)).unwrap_err();
    assert_eq!(error.kind, ErrorKind::RequestIdNotNil);
    assert_eq!(error.message(), "request id is not nil");
    assert_eq!(instance.dispatch(invocation(1), 5).unwrap_err().kind, ErrorKind::RequestIdNotNil);
    let sent = instance.dispatch(invocation(0), 5).unwrap();
    assert_eq!(sent.request, invocation(5));
    assert_eq!(sent.url, "http://invoker:8000/exec");
}

#[test]
fn registries_follow_the_configuration() {
    assert!(loader(false, false).registries.is_empty());
    assert_eq!(loader(true, false).registries, vec![Registry::Fs { root: text("/problems") }]);
    assert_eq!(loader(false, true).registries, vec![Registry::Mongo { url: text("mongodb://db") }]);
    let both = loader(true, true);
    assert_eq!(
        both.registries,
        vec![Registry::Fs { root: text("/problems") }, Registry::Mongo { url: text("mongodb://db") }]
    );
    assert_eq!(both.registries[0].name(), "fs");
    assert_eq!(both.registries[1].name(), "mongodb");
    assert_eq!(both.cache_dir, "/cache");
    assert!(both.cache.items.is_empty());
}

#[test]
fn search_asks_the_registries_in_order() {
    let mut loader = loader(true, true);
    assert_eq!(loader.find("a-plus-b"), None);
    let (search, task) = loader.start("a-plus-b");
    assert_eq!(task, SearchTask::Prepare { dir: text("/cache/a-plus-b") });
    assert_eq!(search.phase, SearchPhase::Preparing);
    let (search, task) = loader.proceed(search, SearchReport::Ready);
    assert_eq!(task, SearchTask::Ask { registry: 0, dir: text("/cache/a-plus-b") });
    let (search, task) = loader.proceed(search, SearchReport::Answer(None));
    assert_eq!(task, SearchTask::Ask { registry: 1, dir: text("/cache/a-plus-b") });
    assert_eq!(search.phase, SearchPhase::Asking { registry: 1 });
    let (search, task) = loader.proceed(search, SearchReport::Answer(Some(problem_named("chk"))));
    assert_eq!(task, SearchTask::Found);
    assert_eq!(search.phase, SearchPhase::Finished);
    let (manifest, assets) = loader.find("a-plus-b").unwrap();
    assert_eq!(*manifest, problem_named("chk"));
    assert_eq!(assets, "/cache/a-plus-b");
}

#[test]
fn search_stops_at_the_first_registry_that_knows() {
    let mut loader = loader(true, true);
    let (search, _) = loader.start("p");
    let (search, _) = loader.proceed(search, SearchReport::Ready);
    let (_, task) = loader.proceed(search, SearchReport::Answer(Some(problem_named("first"))));
    assert_eq!(task, SearchTask::Found);
    assert_eq!(loader.cache.items.len(), 1);
}

#[test]
fn second_search_is_answered_from_the_cache() {
    let mut loader = loader(true, false);
    let (search, _) = loader.start("p");
    let (search, _) = loader.proceed(search, SearchReport::Ready);
    let (_, task) = loader.proceed(search, SearchReport::Answer(Some(problem_named("chk"))));
    assert_eq!(task, SearchTask::Found);
    let (search, task) = loader.start("p");
    assert_eq!(task, SearchTask::Found);
    assert_eq!(search.phase, SearchPhase::Finished);
    let (_, task) = loader.start("q");
    assert_eq!(task, SearchTask::Prepare { dir: text("/cache/q") });
}

#[test]
fn search_ends_when_no_registry_knows() {
    let mut loader = loader(true, true);
    let (search, _) = loader.start("p");
    let (search, _) = loader.proceed(search, SearchReport::Ready);
    let (search, _) = loader.proceed(search, SearchReport::Answer(None));
    let (search, task) = loader.proceed(search, SearchReport::Answer(None));
    assert_eq!(task, SearchTask::NotFound);
    assert_eq!(search.phase, SearchPhase::Finished);
    assert_eq!(loader.find("p"), None);
    let mut empty = self::loader(false, false);
    let (search, _) = empty.start("p");
    let (_, task) = empty.proceed(search, SearchReport::Ready);
    assert_eq!(task, SearchTask::NotFound);
}

#[test]
fn search_fails_when_a_task_fails() {
    let mut loader = loader(true, true);
    let (search, _) = loader.start("p");
    let error = || Error { kind: ErrorKind::Collaborator, detail: text("failed to prepare problem assets directory") };
    let (search, task) = loader.proceed(search, SearchReport::Failed(error()));
    assert_eq!(task, SearchTask::Failed(error()));
    assert_eq!(search.phase, SearchPhase::Finished);
    let (_, task) = loader.proceed(search, SearchReport::Ready);
    assert!(matches!(task, SearchTask::Failed(Error { kind: ErrorKind::UnexpectedEvent, .. })));
    let (search, _) = loader.start("p");
    let (search, _) = loader.proceed(search, SearchReport::Ready);
    let (_, task) = loader.proceed(search, SearchReport::Failed(error()));
    assert_eq!(task, SearchTask::Failed(error()));
    assert_eq!(loader.find("p"), None);
    let (search, _) = loader.start("p");
    let (_, task) = loader.proceed(search, SearchReport::Answer(None));
    assert!(matches!(task, SearchTask::Failed(Error { kind: ErrorKind::UnexpectedEvent, .. })));
}

#[test]
fn cache_keeps_the_last_entry_of_a_name() {
    let mut cache = ProblemCache::new();
    assert!(cache.get("p").is_none());
    cache.insert(text("p"), ProblemCacheItem { assets: text("/a"), manifest: problem_named("one") });
    cache.insert(text("q"), ProblemCacheItem { assets: text("/b"), manifest: problem_named("two") });
    cache.insert(text("p"), ProblemCacheItem { assets: text("/c"), manifest: problem_named("three") });
    assert_eq!(cache.get("p").unwrap().assets, "/c");
    assert_eq!(cache.get("q").unwrap().manifest, problem_named("two"));
    assert!(cache.get("r").is_none());
}

#[test]
fn toolchain_files_are_under_its_name() {
    let loader = ToolchainLoader::new("/opt/toolchains");
    assert_eq!(loader.manifest_path("gcc"), "/opt/toolchains/gcc/manifest.yaml");
    assert_eq!(loader.image_path("gcc"), "/opt/toolchains/gcc/image.txt");
}

#[test]
fn toolchain_image_is_trimmed() {
    let loader = ToolchainLoader::new("/opt/toolchains");
    let spec = || ToolchainSpec {
        title: text("GNU C"),
        name: text("gcc"),
        filename: text("source.c"),
        build_commands: Vec::new(),
        run_command: Command { env: Command::default_env(), argv: Vec::new(), cwd: Command::default_cwd() },
        limits: problem::Limits::default(),
        env: Vec::new(),
    };
    let toolchain = loader.resolve(spec(), "  registry/gcc:latest \n");
    assert_eq!(toolchain.image, "registry/gcc:latest");
    assert_eq!(toolchain.spec, spec());
    assert_eq!(loader.resolve(spec(), "\n\t").image, "");
}

#[test]
fn command_defaults() {
    assert!(Command::default_env().is_empty());
    assert_eq!(Command::default_cwd(), "/jjs");
}

#[test]
fn limits_have_defaults() {
    let none = problem::Limits::default();
    assert_eq!(none, problem::Limits { memory: None, time: None, process_count: None, work_dir_size: None });
    assert_eq!(none.time(), 3000);
    assert_eq!(none.memory(), 256 * 1024 * 1024);
    assert_eq!(none.process_count(), 16);
    let some = problem::Limits { memory: Some(1), time: Some(2), process_count: Some(3), work_dir_size: Some(4) };
    assert_eq!((some.memory(), some.time(), some.process_count()), (1, 2, 3));
}

#[test]
fn file_references_resolve_against_their_root() {
    let resolver = FileRefResolver { problem_assets_dir: text("/cache/p") };
    let asset = FileRef { root: FileRefRoot::Problem, path: text("tests/1.in") };
    assert_eq!(resolver.resolve_asset(&asset), "/cache/p/tests/1.in");
    let system = FileRef { root: FileRefRoot::Root, path: text("usr/bin/cmp") };
    assert_eq!(resolver.resolve_asset(&system), "/usr/bin/cmp");
    let absolute = FileRef { root: FileRefRoot::Problem, path: text("/etc/passwd") };
    assert_eq!(resolver.resolve_asset(&absolute), "/etc/passwd");
}

#[test]
fn messages_are_framed_as_lines() {
    assert_eq!(frame_message(b"{\"a\":1}".to_vec()).unwrap(), b"{\"a\":1}\n".to_vec());
    assert_eq!(frame_message(Vec::new()).unwrap(), b"\n".to_vec());
    for broken in [&b"\n"[..], &b"{\n}"[..], &b"{}\n"[..]] {
        let error = frame_message(broken.to_vec()).unwrap_err();
        assert_eq!(error.kind, ErrorKind::MessageNotOneLine);
    }
    assert_eq!(frame_message(b"a\rb".to_vec()).unwrap(), b"a\rb\n".to_vec());
}

#[test]
fn valuer_is_launched_with_its_environment() {
    let cfg = ChildClientConfig { exe: text("/p/valuer"), args: vec![text("-x")], current_dir: text("/p") };
    let here = launch(&cfg, true);
    assert_eq!(here.exe, "/p/valuer");
    assert_eq!(here.args, vec![text("-x")]);
    assert_eq!(here.current_dir, Some(text("/p")));
    assert_eq!(
        here.env,
        vec![(text("JJS_VALUER"), text("1")), (text("RUST_LOG"), text("info,svaluer=debug"))]
    );
    let elsewhere = launch(&cfg, false);
    assert_eq!(elsewhere.current_dir, None);
    assert_eq!(elsewhere.env, here.env);
    assert_eq!(POLL_TIMEOUT_SECS, 15);
}

#[test]
fn errors_carry_their_context() {
    let error = Error::new(ErrorKind::OutputNotFound, "output x not found").context("failed to export compiled binary");
    assert_eq!(error.kind, ErrorKind::OutputNotFound);
    assert_eq!(error.message(), "failed to export compiled binary: output x not found");
}

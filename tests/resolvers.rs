use jsonnet_resolvers::embedded::{embed_key, EmbedBundle};
use jsonnet_resolvers::filesystem::{
    canonicalized, file_checked, file_read, load_file_contents, metadata_known, resolve,
    resolve_from_cwd, resolve_from_default, Kind, LoadStep, MetaAnswer, ReadOutcome, Step,
};
use jsonnet_resolvers::paths::{file_name, find_last_slash, join, parent};
use jsonnet_resolvers::tracer::CargoTracer;
use jsonnet_resolvers::{
    filesystem, from_fn, resolve_embed, resolve_from, FnImportResolver, FromSource, ResolveError,
    SearchStep, SourceEmbed, SourceId,
};

fn file(p: &str) -> SourceId {
    SourceId::File(p.to_string())
}

fn no_hook(_: FromSource, _: &str) -> Option<SourceId> {
    None
}

#[test]
fn join_relative_absolute_and_empty_base() {
    assert_eq!(join("/a/b", "c.jsonnet"), "/a/b/c.jsonnet");
    assert_eq!(join("/a/b/", "c.jsonnet"), "/a/b/c.jsonnet");
    assert_eq!(join("/a/b", "/etc/x"), "/etc/x");
    assert_eq!(join("", "x"), "x");
}

#[test]
fn parent_and_file_name() {
    assert_eq!(parent("/a/b/c.jsonnet"), "/a/b");
    assert_eq!(parent("/c.jsonnet"), "/");
    assert_eq!(parent("c.jsonnet"), "");
    assert_eq!(file_name("/a/b/c.jsonnet"), Some("c.jsonnet".to_string()));
    assert_eq!(file_name("/a/b/"), None);
    assert_eq!(file_name("/a/.."), None);
    assert_eq!(find_last_slash("a/b/c"), Some(3));
    assert_eq!(find_last_slash("abc"), None);
}

#[test]
fn same_canonical_path_gives_equal_identities() {
    let a = canonicalized(Kind::File, Ok("/base/a/b.txt".to_string())).unwrap();
    let b = canonicalized(Kind::File, Ok("/base/a/b.txt".to_string())).unwrap();
    assert_eq!(a, b);
    assert_eq!(a, file("/base/a/b.txt"));
    let d = canonicalized(Kind::Directory, Ok("/base/a".to_string())).unwrap();
    assert_eq!(d, SourceId::Directory("/base/a".to_string()));
    assert_ne!(d, file("/base/a"));
}

#[test]
fn canonicalize_failure_is_io_error() {
    let r = canonicalized(Kind::File, Err("denied".to_string()));
    assert_eq!(r, Err(ResolveError::ImportIo("denied".to_string())));
}

#[test]
fn relative_lookup_from_file_joins_its_directory() {
    let s = filesystem::resolve_from(&file("/proj/main.jsonnet"), "lib/x.libsonnet");
    assert!(matches!(s, Step::CheckFile(p) if p == "/proj/lib/x.libsonnet"));
    let s = filesystem::resolve_from(&SourceId::Directory("/proj".to_string()), "y.json");
    assert!(matches!(s, Step::CheckFile(p) if p == "/proj/y.json"));
}

#[test]
fn relative_lookup_from_default_asks_for_cwd() {
    assert!(matches!(resolve_from_default("x"), Step::CurrentDir));
    let s = resolve_from_cwd("x.jsonnet", Ok("/work".to_string()));
    assert!(matches!(s, Step::CheckFile(p) if p == "/work/x.jsonnet"));
    let s = resolve_from_cwd("x.jsonnet", Err("gone".to_string()));
    assert!(matches!(s, Step::Done(Err(ResolveError::ImportIo(m))) if m == "gone"));
}

#[test]
fn relative_lookup_from_virtual_is_not_found() {
    let from = SourceId::Virtual("{}".to_string());
    let s = filesystem::resolve_from(&from, "x");
    match s {
        Step::Done(Err(ResolveError::ImportFileNotFound(f, p))) => {
            assert_eq!(f, from);
            assert_eq!(p, "x");
        }
        other => panic!("unexpected {:?}", other),
    }
}

#[test]
fn file_check_outcomes() {
    let from = file("/p/m.jsonnet");
    let s = file_checked(&from, "a", "/p/a".to_string(), true);
    assert!(matches!(s, Step::Canonicalize(p, Kind::File) if p == "/p/a"));
    let s = file_checked(&from, "a", "/p/a".to_string(), false);
    assert!(matches!(s, Step::Done(Err(ResolveError::ImportFileNotFound(f, p))) if f == from && p == "a"));
}

#[test]
fn absolute_lookup_steps() {
    assert!(matches!(resolve("/a/b"), Step::Metadata(p) if p == "/a/b"));
    assert!(matches!(metadata_known("/a/b", MetaAnswer::File), Step::Canonicalize(p, Kind::File) if p == "/a/b"));
    assert!(matches!(metadata_known("/a", MetaAnswer::Directory), Step::Canonicalize(p, Kind::Directory) if p == "/a"));
    assert!(matches!(metadata_known("/a/b", MetaAnswer::NotFound),
        Step::Done(Err(ResolveError::AbsoluteImportFileNotFound(p))) if p == "/a/b"));
    assert!(matches!(metadata_known("/a/b", MetaAnswer::Failed("e".to_string())),
        Step::Done(Err(ResolveError::ImportIo(m))) if m == "e"));
}

#[test]
fn directory_and_default_loads_are_rejected() {
    let dir = SourceId::Directory("/d".to_string());
    match load_file_contents(&dir) {
        LoadStep::Done(Err(ResolveError::ImportIsADirectory(id))) => assert_eq!(id, dir),
        other => panic!("unexpected {:?}", other),
    }
    match load_file_contents(&SourceId::Default) {
        LoadStep::Done(Err(ResolveError::ImportIsADirectory(id))) => assert_eq!(id, SourceId::Default),
        other => panic!("unexpected {:?}", other),
    }
}

#[test]
fn loads_of_memory_sources_and_files() {
    let v = SourceId::Virtual("{a: 1}".to_string());
    assert!(matches!(load_file_contents(&v), LoadStep::Done(Ok(b)) if b == b"{a: 1}".to_vec()));
    let e = SourceId::Embed(SourceEmbed::new("lib/a.jsonnet".to_string(), vec![1, 2, 3]));
    assert!(matches!(load_file_contents(&e), LoadStep::Done(Ok(b)) if b == vec![1, 2, 3]));
    let f = file("/p/a.jsonnet");
    assert!(matches!(load_file_contents(&f), LoadStep::ReadFile(p) if p == "/p/a.jsonnet"));
    assert_eq!(file_read(&f, ReadOutcome::Bytes(vec![7])), Ok(vec![7]));
    assert_eq!(file_read(&f, ReadOutcome::NotOpened), Err(ResolveError::ResolvedFileNotFound(f.duplicate())));
    assert_eq!(file_read(&f, ReadOutcome::Failed("eio".to_string())), Err(ResolveError::ImportIo("eio".to_string())));
}

#[test]
fn hook_is_asked_with_physical_base() {
    let r = from_fn(no_hook);
    let s = r.resolve_from(&file("/p/m.jsonnet"), "x");
    assert!(matches!(s, Step::AskHook(FromSource::Physical(d), p) if d == "/p" && p == "x"));
    let s = r.resolve_from(&SourceId::Directory("/q".to_string()), "x");
    assert!(matches!(s, Step::AskHook(FromSource::Physical(d), _) if d == "/q"));
    assert!(matches!(r.resolve_from(&SourceId::Default, "x"), Step::CurrentDir));
    let s = r.resolve_from_cwd("x", Ok("/w".to_string()));
    assert!(matches!(s, Step::AskHook(FromSource::Physical(d), _) if d == "/w"));
}

#[test]
fn hook_is_asked_with_embedded_key() {
    let r = FnImportResolver::new(no_hook);
    let from = SourceId::Embed(SourceEmbed::new("lib/a.jsonnet".to_string(), vec![]));
    let s = r.resolve_from(&from, "./b.jsonnet");
    assert!(matches!(s, Step::AskHook(FromSource::Virtual(k), p) if k == "lib/a.jsonnet" && p == "./b.jsonnet"));
    let s = r.hook_answered(&from, "./b.jsonnet", &FromSource::Virtual("lib/a.jsonnet".to_string()), Ok(None));
    assert!(matches!(s, Step::Done(Err(ResolveError::ImportFileNotFound(f, _))) if f == from));
}

#[test]
fn hook_answer_takes_precedence() {
    let r = from_fn(no_hook);
    let sentinel = SourceId::Virtual("sentinel".to_string());
    let s = r.hook_answered(&file("/p/m.jsonnet"), "x", &FromSource::Physical("/p".to_string()), Ok(Some(sentinel.duplicate())));
    assert!(matches!(s, Step::Done(Ok(id)) if id == sentinel));
    let s = r.hook_answered(&file("/p/m.jsonnet"), "x", &FromSource::Physical("/p".to_string()),
        Err(ResolveError::ImportIo("hook".to_string())));
    assert!(matches!(s, Step::Done(Err(ResolveError::ImportIo(m))) if m == "hook"));
}

#[test]
fn hook_fallback_matches_filesystem_resolver() {
    let r = from_fn(no_hook);
    let from = file("/p/m.jsonnet");
    let via_hook = r.hook_answered(&from, "lib/x", &FromSource::Physical("/p".to_string()), Ok(None));
    let plain = filesystem::resolve_from(&from, "lib/x");
    match (via_hook, plain) {
        (Step::CheckFile(a), Step::CheckFile(b)) => {
            assert_eq!(a, b);
            assert_eq!(a, "/p/lib/x");
        }
        other => panic!("unexpected {:?}", other),
    }
}

#[test]
fn absolute_lookup_through_hook() {
    let r = from_fn(no_hook);
    let s = r.resolve("/etc/conf/main.jsonnet");
    assert!(matches!(s, Step::AskHook(FromSource::Physical(d), n) if d == "/etc/conf" && n == "main.jsonnet"));
    assert!(matches!(r.resolve("/etc/"), Step::Metadata(p) if p == "/etc/"));
    assert!(matches!(r.resolve_hook_answered("/etc/x", Ok(None)), Step::Metadata(p) if p == "/etc/x"));
    let s = r.resolve_hook_answered("/etc/x", Ok(Some(file("/h"))));
    assert!(matches!(s, Step::Done(Ok(id)) if id == file("/h")));
}

#[test]
fn hook_resolver_loads_embedded_bytes_directly() {
    let r = from_fn(no_hook);
    let e = SourceId::Embed(SourceEmbed::new("a".to_string(), vec![9]));
    assert!(matches!(r.load_file_contents(&e), LoadStep::Done(Ok(b)) if b == vec![9]));
}

#[test]
fn embedded_sibling_key_in_folder() {
    let k = embed_key(&FromSource::Virtual("lib/a.jsonnet".to_string()), "./b.jsonnet");
    assert_eq!(k, "lib/b.jsonnet");
    let k = embed_key(&FromSource::Virtual("lib/a.jsonnet".to_string()), "c/d.jsonnet");
    assert_eq!(k, "lib/c/d.jsonnet");
}

#[test]
fn embedded_sibling_key_at_root() {
    let k = embed_key(&FromSource::Virtual("a.jsonnet".to_string()), "b.jsonnet");
    assert_eq!(k, "b.jsonnet");
    let k = embed_key(&FromSource::Physical("/x".to_string()), "./b.jsonnet");
    assert_eq!(k, "./b.jsonnet");
}

#[test]
fn embedded_lookup_in_bundle() {
    let mut b = EmbedBundle::new();
    b.insert("lib/b.jsonnet".to_string(), vec![1]);
    b.insert("top.jsonnet".to_string(), vec![2]);
    b.insert("lib/b.jsonnet".to_string(), vec![3]);
    let from = FromSource::Virtual("lib/a.jsonnet".to_string());
    let r = resolve_embed(&b, &from, "./b.jsonnet");
    assert_eq!(r, Some(SourceId::Embed(SourceEmbed::new("lib/b.jsonnet".to_string(), vec![3]))));
    assert_eq!(resolve_embed(&b, &from, "./missing.jsonnet"), None);
    let r = resolve_embed(&b, &FromSource::Physical("/".to_string()), "top.jsonnet");
    assert_eq!(r, Some(SourceId::Embed(SourceEmbed::new("top.jsonnet".to_string(), vec![2]))));
}

#[test]
fn tracer_notices_files_only() {
    let t = CargoTracer::new(0u8);
    assert_eq!(t.notice(&file("/abs/a.jsonnet")), Some("cargo:rerun-if-changed=/abs/a.jsonnet".to_string()));
    assert_eq!(t.notice(&SourceId::Virtual("x".to_string())), None);
    assert_eq!(t.notice(&SourceId::Directory("/d".to_string())), None);
    assert_eq!(*t.inner(), 0u8);
}

#[test]
fn search_path_first_root_wins() {
    let roots = vec!["/r1".to_string(), "/r2".to_string()];
    assert!(matches!(resolve_from(&roots, "x.libsonnet", &vec![]), SearchStep::Probe(p) if p == "/r1/x.libsonnet"));
    assert!(matches!(resolve_from(&roots, "x.libsonnet", &vec![true]), SearchStep::Canonicalize(p) if p == "/r1/x.libsonnet"));
    assert!(matches!(resolve_from(&roots, "x.libsonnet", &vec![true, true]), SearchStep::Canonicalize(p) if p == "/r1/x.libsonnet"));
}

#[test]
fn search_path_falls_to_second_root() {
    let roots = vec!["/r1".to_string(), "/r2".to_string()];
    assert!(matches!(resolve_from(&roots, "x", &vec![false]), SearchStep::Probe(p) if p == "/r2/x"));
    assert!(matches!(resolve_from(&roots, "x", &vec![false, true]), SearchStep::Canonicalize(p) if p == "/r2/x"));
}

#[test]
fn search_path_not_found_is_not_an_error() {
    let roots = vec!["/r1".to_string(), "/r2".to_string()];
    assert!(matches!(resolve_from(&roots, "x", &vec![false, false]), SearchStep::NotFound));
    let none: Vec<String> = vec![];
    assert!(matches!(resolve_from(&none, "x", &vec![]), SearchStep::NotFound));
}

#[test]
fn source_identity_queries() {
    assert!(SourceId::Default.is_default());
    assert!(!file("/a").is_default());
    assert_eq!(file("/a").path(), Some(&"/a".to_string()));
    assert_eq!(SourceId::Virtual("v".to_string()).path(), None);
    let e = SourceEmbed::new("k".to_string(), vec![1]);
    assert_eq!(e.duplicate(), e);
    let err = ResolveError::ImportFileNotFound(file("/a"), "b".to_string());
    assert_eq!(err.duplicate(), err);
}

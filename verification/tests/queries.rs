use rs_libinjection::sandbox::store_from;
use rs_libinjection::{
    get_engine, get_engine_with, get_sqli_tests, is_sqli, is_xss, DetectorImage, Export,
    QueryError, Sandbox, StartupError, MEMORY_GROWTH, MEMORY_GUARD, MEMORY_RESERVATION,
};
use threadpool::ThreadPool;
use wasmtime::{Engine, Module, Store};
use wasmtime_wasi::WasiCtxBuilder;

/// A miniature detector with the four entry points and the memory of the
/// real one. Its allocator is a stack: a release lowers the top to the
/// pointer released. It calls a text an SQL injection when the text holds a
/// single quote, and leaves the fingerprint `s&sos` then; it calls a text
/// cross-site scripting when the text holds `<` or `=`.
fn guest(malloc_extra: &str, free_extra: &str, sqli_extra: &str) -> String {
    format!(
        r#"(module
  (memory (export "memory") 2)
  (global $top (mut i32) (i32.const 1024))
  (func $has (param $p i32) (param $n i32) (param $c i32) (result i32)
    (local $i i32)
    (block $done
      (loop $next
        (br_if $done (i32.ge_u (local.get $i) (local.get $n)))
        (if (i32.eq (i32.load8_u (i32.add (local.get $p) (local.get $i))) (local.get $c))
          (then (return (i32.const 1))))
        (local.set $i (i32.add (local.get $i) (i32.const 1)))
        (br $next)))
    (i32.const 0))
  (func (export "malloc") (param $n i32) (result i32)
    (local $p i32)
    {malloc_extra}
    (local.set $p (global.get $top))
    (global.set $top (i32.add (global.get $top) (local.get $n)))
    (local.get $p))
  (func (export "free") (param $p i32)
    {free_extra}
    (global.set $top (local.get $p)))
  (func (export "libinjection_sqli") (param $p i32) (param $n i32) (param $out i32) (result i32)
    {sqli_extra}
    (if (call $has (local.get $p) (local.get $n) (i32.const 39))
      (then
        (i32.store8 (local.get $out) (i32.const 115))
        (i32.store8 offset=1 (local.get $out) (i32.const 38))
        (i32.store8 offset=2 (local.get $out) (i32.const 115))
        (i32.store8 offset=3 (local.get $out) (i32.const 111))
        (i32.store8 offset=4 (local.get $out) (i32.const 115))
        (i32.store8 offset=5 (local.get $out) (i32.const 0))
        (return (i32.const 1))))
    (i32.const 0))
  (func (export "libinjection_xss") (param $p i32) (param $n i32) (result i32)
    (i32.or
      (call $has (local.get $p) (local.get $n) (i32.const 60))
      (call $has (local.get $p) (local.get $n) (i32.const 61)))))"#
    )
}

fn image_of(text: &str) -> DetectorImage {
    match get_engine_with(text.as_bytes(), MEMORY_RESERVATION, MEMORY_GROWTH, MEMORY_GUARD) {
        Ok(image) => image,
        Err(e) => panic!("the guest does not compile: {:?}", e),
    }
}

fn sandbox_of(text: &str) -> Sandbox {
    match Sandbox::new(&image_of(text)) {
        Ok(sandbox) => sandbox,
        Err(e) => panic!("the guest does not start: {:?}", e),
    }
}

fn sandbox() -> Sandbox {
    sandbox_of(&guest("", "", ""))
}

fn startup_error(text: &str) -> StartupError {
    match Sandbox::new(&image_of(text)) {
        Ok(_) => panic!("the guest started"),
        Err(e) => e,
    }
}

#[test]
fn sqli_basic() {
    let mut sandbox = sandbox();
    let (res, _fp) = is_sqli(&mut sandbox, "this is not isqli").unwrap();
    assert!(!res);
    let (res, _fp) = is_sqli(&mut sandbox, "this\nis a ' or ''='\nsql injection").unwrap();
    assert!(res);
}

#[test]
fn sqli_threads() {
    let image = image_of(&guest("", "", ""));
    let threadpool = ThreadPool::new(12);
    for _ in 0..12 {
        let mut sandbox = Sandbox::new(&image).unwrap();
        threadpool.execute(move || {
            for _ in 0..1000 {
                let (res, _fp) = is_sqli(&mut sandbox, "this is not isqli").unwrap();
                assert!(!res);
                let (res, _fp) =
                    is_sqli(&mut sandbox, "this\nis a ' or ''='\nsql injection").unwrap();
                assert!(res);
            }
        });
    }
    threadpool.join();
    assert_eq!(threadpool.panic_count(), 0);
}

#[test]
fn sqli_alltests() {
    let files = vec![
        (
            "test-sqli-001.txt".to_string(),
            "--TEST--\nquoted tautology\n--INPUT--\n1' OR '1'='1\n--EXPECTED--\ns&sos\n"
                .to_string(),
        ),
        (
            "test-sqli-002.txt".to_string(),
            "--TEST--\nplain words\n--INPUT--\nselect a hat from the rack\n--EXPECTED--\n\n"
                .to_string(),
        ),
        (
            "test-sqli-003.txt".to_string(),
            "--TEST--\r\nwindows line ends\r\n--INPUT--\r\nx' --\r\n--EXPECTED--\r\n  s&sos \r\n"
                .to_string(),
        ),
        (
            "test-sqli-004.txt".to_string(),
            "--TEST--\nno expectation at all\n--INPUT--\n12345".to_string(),
        ),
    ];
    let mut sandbox = sandbox();
    let mut seen = 0;
    for test in get_sqli_tests(&files) {
        let (res, fp) = is_sqli(&mut sandbox, &test.input).unwrap();
        if &test.expected == "" {
            assert!(!res);
        } else {
            assert!(res);
            assert_eq!(fp, test.expected);
        }
        seen += 1;
    }
    assert_eq!(seen, 4);
}

#[test]
fn xss_examples() {
    let inputs = [
        "<script>alert(1);</script>",
        "><script>alert(1);</script>",
        "x ><script>alert(1);</script>",
        "' ><script>alert(1);</script>",
        "\"><script>alert(1);</script>",
        "red;</style><script>alert(1);</script>",
        "red;}</style><script>alert(1);</script>",
        "red;\"/><script>alert(1);</script>",
        "');}</style><script>alert(1);</script>",
        "onerror=alert(1)>",
        "x onerror=alert(1);>",
        "x' onerror=alert(1);>",
        "x\" onerror=alert(1);>",
        "<a href=\"javascript:alert(1)\">",
        "<a href='javascript:alert(1)'>",
        "<a href=javascript:alert(1)>",
        "<a href  =   javascript:alert(1); >",
        "<a href=\"  javascript:alert(1);\" >",
        "<a href=\"JAVASCRIPT:alert(1);\" >",
    ];
    let mut sandbox = sandbox();
    for input in inputs {
        assert_eq!(is_xss(&mut sandbox, input), Ok(true));
    }
}

#[test]
fn xss_plain_text_is_no_match() {
    let mut sandbox = sandbox();
    assert_eq!(is_xss(&mut sandbox, "plain text with no markup"), Ok(false));
    assert_eq!(is_xss(&mut sandbox, "<script>alert(1);</script>"), Ok(true));
    assert_eq!(is_xss(&mut sandbox, "onerror=alert(1)>"), Ok(true));
}

#[test]
fn sqli_match_carries_the_fingerprint() {
    let mut sandbox = sandbox();
    assert_eq!(
        is_sqli(&mut sandbox, "this\nis a ' or ''='\nsql injection"),
        Ok((true, "s&sos".to_string()))
    );
}

#[test]
fn sqli_no_match_on_fresh_memory_has_empty_fingerprint() {
    let mut sandbox = sandbox();
    assert_eq!(is_sqli(&mut sandbox, "this is not isqli"), Ok((false, String::new())));
}

#[test]
fn sqli_no_match_returns_what_the_slot_holds() {
    // The slot is not cleared before the call: after a match on a text of the
    // same length, a text without a match finds the old token still there.
    let mut sandbox = sandbox();
    assert_eq!(is_sqli(&mut sandbox, "a'b"), Ok((true, "s&sos".to_string())));
    assert_eq!(is_sqli(&mut sandbox, "abc"), Ok((false, "s&sos".to_string())));
}

#[test]
fn empty_text_is_answered() {
    let mut sandbox = sandbox();
    assert_eq!(is_sqli(&mut sandbox, ""), Ok((false, String::new())));
    assert_eq!(is_xss(&mut sandbox, ""), Ok(false));
}

#[test]
fn text_is_copied_byte_for_byte() {
    // A zero byte does not end the text: the quote is behind it.
    let mut sandbox = sandbox();
    assert_eq!(is_sqli(&mut sandbox, "ab\0cd'"), Ok((true, "s&sos".to_string())));
    assert_eq!(is_xss(&mut sandbox, "ab\0cd<"), Ok(true));
    assert_eq!(is_xss(&mut sandbox, "ab\0cd"), Ok(false));
    // Text beyond ASCII goes in as its UTF-8 bytes; none of them is a quote.
    assert_eq!(is_xss(&mut sandbox, "größe ≠ länge"), Ok(false));
    assert_eq!(is_xss(&mut sandbox, "größe = länge"), Ok(true));
}

#[test]
fn answers_repeat() {
    let mut first = sandbox();
    let mut second = sandbox();
    for text in ["", "plain", "it's", "<b>", "a=b", "x' or 1=1 --"] {
        let sqli = is_sqli(&mut first, text).map(|answer| answer.0);
        let xss = is_xss(&mut first, text);
        for _ in 0..50 {
            assert_eq!(is_sqli(&mut first, text).map(|answer| answer.0), sqli);
            assert_eq!(is_xss(&mut first, text), xss);
            assert_eq!(is_sqli(&mut second, text).map(|answer| answer.0), sqli);
            assert_eq!(is_xss(&mut second, text), xss);
        }
    }
}

#[test]
fn every_allocation_is_released() {
    // The guest has two pages of memory and an allocator that only gives a
    // region back when it is released. Were one release missing per call,
    // the memory would be used up long before the last call.
    let mut sandbox = sandbox();
    let text = "x".repeat(1000);
    for _ in 0..20000 {
        assert_eq!(is_sqli(&mut sandbox, &text), Ok((false, String::new())));
        assert_eq!(is_xss(&mut sandbox, &text), Ok(false));
    }
}

#[test]
fn release_follows_a_failed_detection() {
    // The detector traps on a text that begins with `!`. The region taken
    // for it is released all the same: the next calls find the memory free.
    let trap = "(if (i32.and (i32.gt_u (local.get $n) (i32.const 0)) (i32.eq (i32.load8_u (local.get $p)) (i32.const 33))) (then (unreachable)))";
    let mut sandbox = sandbox_of(&guest("", "", trap));
    let text = format!("!{}", "x".repeat(60000));
    for _ in 0..100 {
        assert_eq!(is_sqli(&mut sandbox, &text), Err(QueryError::DetectFailed));
    }
    assert_eq!(is_sqli(&mut sandbox, "it's"), Ok((true, "s&sos".to_string())));
}

#[test]
fn failed_allocation_is_an_error() {
    let trap = "(if (i32.gt_u (local.get $n) (i32.const 100)) (then (unreachable)))";
    let mut sandbox = sandbox_of(&guest(trap, "", ""));
    let long = "x".repeat(101);
    assert_eq!(is_xss(&mut sandbox, &long), Err(QueryError::AllocateFailed));
    assert_eq!(is_sqli(&mut sandbox, &long), Err(QueryError::AllocateFailed));
    assert_eq!(is_sqli(&mut sandbox, &long[..92]), Err(QueryError::AllocateFailed));
    assert_eq!(is_sqli(&mut sandbox, &long[..91]), Ok((false, String::new())));
    assert_eq!(is_xss(&mut sandbox, &long[..100]), Ok(false));
}

#[test]
fn region_outside_the_memory_is_an_error() {
    // Two pages are 131072 bytes. The allocator does not look at that.
    let mut sandbox = sandbox();
    let text = "x".repeat(131072);
    assert_eq!(is_xss(&mut sandbox, &text), Err(QueryError::OutOfBounds));
    assert_eq!(is_sqli(&mut sandbox, &text), Err(QueryError::OutOfBounds));
    // The region was released: a text that fits is answered.
    assert_eq!(is_xss(&mut sandbox, "a<b"), Ok(true));
    // The text fits exactly, the slot behind it does not.
    let text = "x".repeat(131072 - 1024);
    assert_eq!(is_xss(&mut sandbox, &text), Ok(false));
    assert!(is_sqli(&mut sandbox, &text).is_err());
}

#[test]
fn pointer_at_the_end_of_the_address_space_is_an_error() {
    let far = "(if (i32.eq (local.get $n) (i32.const 12)) (then (return (i32.const 0xfffffffe))))";
    let mut sandbox = sandbox_of(&guest(far, "(if (i32.eq (local.get $p) (i32.const 0xfffffffe)) (then (return)))", ""));
    assert_eq!(is_sqli(&mut sandbox, "abc"), Err(QueryError::OutOfBounds));
    assert_eq!(is_sqli(&mut sandbox, "ab"), Ok((false, String::new())));
}

#[test]
fn failed_release_is_an_error() {
    let mut sandbox = sandbox_of(&guest("", "(unreachable)", ""));
    assert_eq!(is_sqli(&mut sandbox, "it's"), Err(QueryError::ReleaseFailed));
    assert_eq!(is_xss(&mut sandbox, "<b>"), Err(QueryError::ReleaseFailed));
}

#[test]
fn image_that_is_no_module_is_refused() {
    assert_eq!(get_engine(b"\0asm this is no module").err(), Some(StartupError::InvalidImage));
    assert_eq!(get_engine(b"").err(), Some(StartupError::InvalidImage));
    assert_eq!(get_engine(b"(module (func").err(), Some(StartupError::InvalidImage));
    assert!(get_engine(guest("", "", "").as_bytes()).is_ok());
}

#[test]
fn image_that_is_no_module_is_refused_whatever_the_settings() {
    assert_eq!(get_engine_with(b"", 0, 0, 0).err(), Some(StartupError::InvalidImage));
    assert_eq!(
        get_engine_with(b"(module (func", MEMORY_RESERVATION, MEMORY_GROWTH, MEMORY_GUARD).err(),
        Some(StartupError::InvalidImage)
    );
    assert!(get_engine_with(guest("", "", "").as_bytes(), 0x10000, 0, 0).is_ok());
}

#[test]
fn memory_settings_bear_on_the_address_space_only() {
    // The answers are the same whatever a sandbox sets aside.
    let text = guest("", "", "");
    for (reservation, growth, guard) in [
        (0, 0, 0),
        (0x10000, 0x10000, 0x1000),
        (MEMORY_RESERVATION, MEMORY_GROWTH, MEMORY_GUARD),
    ] {
        let image = get_engine_with(text.as_bytes(), reservation, growth, guard).unwrap();
        let mut sandbox = Sandbox::new(&image).unwrap();
        assert_eq!(is_sqli(&mut sandbox, "it's"), Ok((true, "s&sos".to_string())));
        assert_eq!(is_xss(&mut sandbox, "plain"), Ok(false));
    }
}

#[test]
fn frugal_settings() {
    assert_eq!(MEMORY_RESERVATION, 16 * 1024 * 1024);
    assert_eq!(MEMORY_GROWTH, 1024 * 1024);
    assert_eq!(MEMORY_GUARD, 64 * 1024);
}

#[test]
fn empty_slot_is_filled_once() {
    let image = image_of(&guest("", "", ""));
    let mut slot: Option<Sandbox> = None;
    assert_eq!(Sandbox::provision(&mut slot, &image), Ok(()));
    assert!(slot.is_some());
    // The sandbox that is there is kept: the slot behind its text still
    // holds the token of the call before.
    assert_eq!(is_sqli(slot.as_mut().unwrap(), "a'b"), Ok((true, "s&sos".to_string())));
    assert_eq!(Sandbox::provision(&mut slot, &image), Ok(()));
    assert_eq!(is_sqli(slot.as_mut().unwrap(), "abc"), Ok((false, "s&sos".to_string())));
}

#[test]
fn slot_stays_empty_where_no_sandbox_comes_up() {
    let image = image_of(&guest("", "", "").replacen("(export \"malloc\")", "", 1));
    let mut slot: Option<Sandbox> = None;
    assert_eq!(
        Sandbox::provision(&mut slot, &image),
        Err(StartupError::MissingExport(Export::Allocate))
    );
    assert!(slot.is_none());
}

#[test]
fn binding_takes_each_export_under_its_own_name() {
    // Here the usual cross-site-scripting detector is exported under a name
    // of its own, and what is exported as `libinjection_xss` looks for a
    // quote: the binding takes what stands under the name.
    let text = guest("", "", "")
        .replacen(
            "(func (export \"libinjection_xss\") (param $p i32) (param $n i32) (result i32)",
            "(func (export \"libinjection_xss_\") (param $p i32) (param $n i32) (result i32)",
            1,
        );
    let end = text.rfind(')').unwrap();
    let text = format!(
        r#"{}
  (func (export "libinjection_xss") (param $p i32) (param $n i32) (result i32)
    (call $has (local.get $p) (local.get $n) (i32.const 39))))"#,
        &text[..end]
    );
    let mut sandbox = sandbox_of(&text);
    assert_eq!(is_xss(&mut sandbox, "it's"), Ok(true));
    assert_eq!(is_xss(&mut sandbox, "<b>"), Ok(false));
    assert_eq!(is_sqli(&mut sandbox, "<b>").map(|answer| answer.0), Ok(false));
    assert_eq!(is_sqli(&mut sandbox, "it's").map(|answer| answer.0), Ok(true));
}

#[test]
fn module_with_an_unknown_import_is_refused() {
    let text = r#"(module (import "elsewhere" "f" (func)) (memory (export "memory") 1))"#;
    assert_eq!(startup_error(text), StartupError::Instantiation);
}

#[test]
fn module_may_import_from_the_system_interface() {
    let text = guest("", "", "").replacen(
        "(module",
        r#"(module (import "wasi_snapshot_preview1" "proc_exit" (func (param i32)))"#,
        1,
    );
    let mut sandbox = sandbox_of(&text);
    assert_eq!(is_xss(&mut sandbox, "<b>"), Ok(true));
}

#[test]
fn missing_exports_are_named() {
    let full = guest("", "", "");
    let without = |name: &str| full.replacen(&format!("(export \"{}\")", name), "", 1);
    assert_eq!(startup_error(&without("malloc")), StartupError::MissingExport(Export::Allocate));
    assert_eq!(startup_error(&without("free")), StartupError::MissingExport(Export::Release));
    assert_eq!(
        startup_error(&without("libinjection_sqli")),
        StartupError::MissingExport(Export::DetectSqli)
    );
    assert_eq!(
        startup_error(&without("libinjection_xss")),
        StartupError::MissingExport(Export::DetectXss)
    );
    assert_eq!(startup_error(&without("memory")), StartupError::MissingExport(Export::Memory));
    // The first one that is missing is named.
    let text = without("free").replacen("(export \"memory\")", "", 1);
    assert_eq!(startup_error(&text), StartupError::MissingExport(Export::Release));
}

#[test]
fn export_of_another_type_is_refused() {
    let text = guest("", "", "").replacen(
        "(func (export \"free\") (param $p i32)",
        "(func (export \"free\") (param $p i32) (param $q i32)",
        1,
    );
    assert_eq!(startup_error(&text), StartupError::MissingExport(Export::Release));
    let text = "(module (memory (export \"malloc\") 1))";
    assert_eq!(startup_error(text), StartupError::MissingExport(Export::Allocate));
}

#[test]
fn sandbox_sees_nothing_of_the_host() {
    // This guest answers with the number of environment variables and of
    // arguments that its system interface shows it, and one more if a
    // directory was opened for it. The numbers start at 77, so that a call
    // that fails does not pass for an empty answer.
    let text = guest("", "", "")
        .replacen(
            "(module",
            r#"(module
  (import "wasi_snapshot_preview1" "environ_sizes_get" (func $env (param i32 i32) (result i32)))
  (import "wasi_snapshot_preview1" "args_sizes_get" (func $args (param i32 i32) (result i32)))
  (import "wasi_snapshot_preview1" "fd_prestat_get" (func $prestat (param i32 i32) (result i32)))"#,
            1,
        )
        .replacen("(func (export \"libinjection_xss\")", "(func $unused", 1);
    let end = text.rfind(')').unwrap();
    let text = format!(
        r#"{}
  (func (export "libinjection_xss") (param $p i32) (param $n i32) (result i32)
    (i32.store (i32.const 16) (i32.const 77))
    (i32.store (i32.const 32) (i32.const 77))
    (drop (call $env (i32.const 16) (i32.const 20)))
    (drop (call $args (i32.const 32) (i32.const 36)))
    (i32.add
      (i32.add (i32.load (i32.const 16)) (i32.load (i32.const 32)))
      (i32.eqz (call $prestat (i32.const 3) (i32.const 48))))))"#,
        &text[..end]
    );
    let mut sandbox = sandbox_of(&text);
    assert_eq!(is_xss(&mut sandbox, "anything"), Ok(false));
}

#[test]
fn compiled_module_becomes_the_image() {
    let engine = Engine::default();
    assert!(DetectorImage::from_compiled(Module::new(&engine, "(module)")).is_ok());
    assert_eq!(
        DetectorImage::from_compiled(Module::new(&engine, "(module")).err(),
        Some(StartupError::InvalidImage)
    );
}

#[test]
fn store_is_passed_on_and_its_failure_refused() {
    let engine = Engine::default();
    let made = Store::try_new(&engine, WasiCtxBuilder::new().build_p1());
    assert!(store_from(made).is_ok());
    let failed = Module::new(&engine, "(module")
        .and_then(|_| Store::try_new(&engine, WasiCtxBuilder::new().build_p1()));
    assert_eq!(store_from(failed).err(), Some(StartupError::Instantiation));
}

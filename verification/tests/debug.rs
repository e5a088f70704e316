use display_with::debug_with;
use std::cell::Cell;
use std::fmt;

/// Renders `inner` with `{:?}`, keeps what the rendering returned, and reports
/// success itself, so that `format!` hands back the text written so far.
struct KeptDebug<'a, T>(&'a T, &'a Cell<Option<fmt::Result>>);

impl<T: fmt::Debug> fmt::Debug for KeptDebug<'_, T> {
    fn fmt(&self, f: &mut fmt::Formatter<'_>) -> fmt::Result {
        self.1.set(Some(fmt::Debug::fmt(self.0, f)));
        Ok(())
    }
}

#[test]
fn debug_renders_hello_world() {
    let debug = debug_with(|f| f.write_str("Hello, world!"));
    assert_eq!(format!("{debug:?}"), "Hello, world!");
}

#[test]
fn debug_adds_no_quotes_or_escapes() {
    let debug = debug_with(|f| f.write_str("\"q\"\n\t"));
    assert_eq!(format!("{debug:?}"), "\"q\"\n\t");
}

#[test]
fn debug_of_a_silent_closure_is_empty() {
    let debug = debug_with(|_f| Ok(()));
    assert_eq!(format!("{debug:?}"), "");
}

#[test]
fn debug_pretty_form_reaches_the_closure() {
    let debug = debug_with(|f| f.write_str(if f.alternate() { "pretty" } else { "plain" }));
    assert_eq!(format!("{debug:?}"), "plain");
    assert_eq!(format!("{debug:#?}"), "pretty");
}

#[test]
fn debug_hands_the_sink_flags_to_the_closure() {
    let padded = debug_with(|f| f.pad("ab"));
    assert_eq!(format!("{padded:>5?}"), "   ab");
    assert_eq!(format!("{padded:.1?}"), "a");
    let plain = debug_with(|f| f.write_str("ab"));
    assert_eq!(format!("{plain:>5?}"), "ab");
}

#[test]
fn debug_inside_a_derived_debug() {
    #[derive(Debug)]
    struct Holder<T> {
        inner: T,
    }
    let holder = Holder { inner: debug_with(|f| f.write_str("<raw>")) };
    assert_eq!(format!("{holder:?}"), "Holder { inner: <raw> }");
}

#[test]
fn debug_inside_a_list() {
    let one = debug_with(|f| f.write_str("x"));
    let list = [&one, &one];
    assert_eq!(format!("{list:?}"), "[x, x]");
    assert_eq!(format!("{:?}", Some(&one)), "Some(x)");
}

#[test]
fn debug_calls_nothing_when_built() {
    let calls = Cell::new(0u32);
    let debug = debug_with(|f| {
        calls.set(calls.get() + 1);
        f.write_str("x")
    });
    assert_eq!(calls.get(), 0);
    drop(debug);
    assert_eq!(calls.get(), 0);
}

#[test]
fn debug_calls_the_closure_once_for_each_rendering() {
    let calls = Cell::new(0u32);
    let debug = debug_with(|f| {
        calls.set(calls.get() + 1);
        f.write_str("x")
    });
    assert_eq!(format!("{debug:?}"), "x");
    assert_eq!(calls.get(), 1);
    assert_eq!(format!("{debug:?}{debug:?}"), "xx");
    assert_eq!(calls.get(), 3);
}

#[test]
fn debug_twice_gives_the_same_text() {
    let debug = debug_with(|f| f.write_str("again and again"));
    let first = format!("{debug:?}");
    let second = format!("{debug:?}");
    assert_eq!(first, "again and again");
    assert_eq!(first, second);
}

#[test]
fn debug_returns_the_closure_success() {
    let kept = Cell::new(None);
    let debug = debug_with(|f| f.write_str("fine"));
    assert_eq!(format!("{:?}", KeptDebug(&debug, &kept)), "fine");
    assert_eq!(kept.get(), Some(Ok(())));
}

#[test]
fn debug_returns_the_closure_failure() {
    let kept = Cell::new(None);
    let debug = debug_with(|_f| Err(fmt::Error));
    assert_eq!(format!("{:?}", KeptDebug(&debug, &kept)), "");
    assert_eq!(kept.get(), Some(Err(fmt::Error)));
}

#[test]
fn debug_failure_leaves_what_was_written_before() {
    let kept = Cell::new(None);
    let debug = debug_with(|f| {
        f.write_str("par")?;
        Err(fmt::Error)
    });
    assert_eq!(format!("[{:?}]", KeptDebug(&debug, &kept)), "[par]");
    assert_eq!(kept.get(), Some(Err(fmt::Error)));
}

#[test]
fn debug_composes_hello_and_world() {
    let f = |s: &mut fmt::Formatter<'_>| s.write_str("Hello, ");
    let g = |s: &mut fmt::Formatter<'_>| s.write_str("world!");
    let h = debug_with(|s| {
        fmt::Debug::fmt(&debug_with(&f), s)?;
        fmt::Debug::fmt(&debug_with(&g), s)
    });
    assert_eq!(format!("{h:?}"), "Hello, world!");
}

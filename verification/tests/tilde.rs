use std::borrow::Cow;

use shellexpand::{full_with_context, full_with_context_no_errors, tilde_with_context};

#[test]
fn test_with_tilde_no_hd() {
    fn hd() -> Option<String> {
        None
    }

    assert_eq!(tilde_with_context("whatever", hd), "whatever");
    assert_eq!(tilde_with_context("whatever/~", hd), "whatever/~");
    assert_eq!(tilde_with_context("~/whatever", hd), "~/whatever");
    assert_eq!(tilde_with_context("~", hd), "~");
    assert_eq!(tilde_with_context("~something", hd), "~something");
}

#[test]
fn test_with_tilde() {
    fn hd() -> Option<String> {
        Some("/home/dir".to_string())
    }

    assert_eq!(tilde_with_context("whatever/path", hd), "whatever/path");
    assert_eq!(tilde_with_context("whatever/~/path", hd), "whatever/~/path");
    assert_eq!(tilde_with_context("~", hd), "/home/dir");
    assert_eq!(tilde_with_context("~/path", hd), "/home/dir/path");
    assert_eq!(tilde_with_context("~whatever/path", hd), "~whatever/path");
}

#[test]
fn test_quirks() {
    fn hd() -> Option<String> {
        Some("$VAR".to_string())
    }
    fn env(s: &str) -> Result<Option<String>, ()> {
        match s {
            "VAR" => Ok(Some("value".to_string())),
            "SVAR" => Ok(Some("/value".to_string())),
            "TILDE" => Ok(Some("~".to_string())),
            _ => Ok(None),
        }
    }

    // any variable-like sequence in ~ expansion should not trigger variable expansion
    assert_eq!(full_with_context("~/something/$VAR", hd, env).unwrap(), "$VAR/something/value");

    // variable just after tilde should be substituted first and trigger regular tilde
    // expansion
    assert_eq!(full_with_context("~$VAR", hd, env).unwrap(), "~value");
    assert_eq!(full_with_context("~$SVAR", hd, env).unwrap(), "$VAR/value");

    // variable expanded into a tilde in the beginning should not trigger tilde expansion
    assert_eq!(full_with_context("$TILDE/whatever", hd, env).unwrap(), "~/whatever");
    assert_eq!(full_with_context("${TILDE}whatever", hd, env).unwrap(), "~whatever");
    assert_eq!(full_with_context("$TILDE", hd, env).unwrap(), "~");
}

#[test]
fn tilde_keeps_what_follows_it() {
    fn hd() -> Option<String> {
        Some("/h".to_string())
    }
    assert_eq!(tilde_with_context("~/a/~/b", hd), "/h/a/~/b");
    assert_eq!(tilde_with_context("~/", hd), "/h/");
    assert_eq!(tilde_with_context("", hd), "");
    assert_eq!(tilde_with_context("~\u{e9}", hd), "~\u{e9}");
    assert_eq!(tilde_with_context("~/\u{e9}t\u{e9}", hd), "/h/\u{e9}t\u{e9}");
}

#[test]
fn full_passes_the_lookup_error_on() {
    fn hd() -> Option<String> {
        Some("/h".to_string())
    }
    fn env(s: &str) -> Result<Option<String>, u8> {
        if s == "BAD" {
            Err(7)
        } else {
            Ok(None)
        }
    }
    let err = full_with_context("~/$BAD/x", hd, env).unwrap_err();
    assert_eq!(err.name, "BAD");
    assert_eq!(err.cause, 7);
    assert_eq!(full_with_context("~/$GOOD/x", hd, env).unwrap(), "/h/$GOOD/x");
}

#[test]
fn full_without_errors() {
    fn hd() -> Option<String> {
        Some("/h".to_string())
    }
    fn env(s: &str) -> Option<String> {
        match s {
            "A" => Some("a".to_string()),
            "T" => Some("~".to_string()),
            _ => None,
        }
    }
    assert_eq!(full_with_context_no_errors("~/$A/${B}", hd, env), "/h/a/${B}");
    assert_eq!(full_with_context_no_errors("$T/x", hd, env), "~/x");
    assert_eq!(full_with_context_no_errors("~$A", hd, env), "~a");
    assert_eq!(full_with_context_no_errors("plain", hd, env), "plain");
}

#[test]
fn full_borrows_what_it_does_not_change() {
    fn hd() -> Option<String> {
        Some("/h".to_string())
    }
    fn env(_: &str) -> Result<Option<String>, ()> {
        Err(())
    }
    fn plain(_: &str) -> Option<String> {
        None
    }
    assert!(matches!(full_with_context("no/variables", hd, env), Ok(Cow::Borrowed("no/variables"))));
    assert!(matches!(full_with_context("~user/x", hd, env), Ok(Cow::Borrowed("~user/x"))));
    assert!(matches!(full_with_context("", hd, env), Ok(Cow::Borrowed(""))));
    assert_eq!(full_with_context("~/x", hd, env).unwrap(), "/h/x");
    assert!(matches!(full_with_context_no_errors("a/~/b", hd, plain), Cow::Borrowed("a/~/b")));
    assert_eq!(full_with_context_no_errors("~", hd, plain), "/h");
}

#[test]
fn tilde_borrows_what_it_does_not_change() {
    fn hd() -> Option<String> {
        Some("/h".to_string())
    }
    fn none() -> Option<String> {
        None
    }
    assert!(matches!(tilde_with_context("x/~", hd), Cow::Borrowed("x/~")));
    assert!(matches!(tilde_with_context("~x", hd), Cow::Borrowed("~x")));
    assert!(matches!(tilde_with_context("~/x", none), Cow::Borrowed("~/x")));
    assert!(matches!(tilde_with_context("~/x", hd), Cow::Owned(_)));
}

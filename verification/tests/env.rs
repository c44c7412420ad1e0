use std::borrow::Cow;

use shellexpand::{env_with_context, env_with_context_no_errors, LookupError};

fn empty(_: &str) -> Result<Option<String>, ()> {
    Ok(None)
}

fn failing(_: &str) -> Result<Option<String>, ()> {
    Err(())
}

fn regular(s: &str) -> Result<Option<String>, ()> {
    match s {
        "VAR" => Ok(Some("value".to_string())),
        "a_b" => Ok(Some("X_Y".to_string())),
        "EMPTY" => Ok(Some("".to_string())),
        "ERR" => Err(()),
        _ => Ok(None),
    }
}

fn error_for(name: &str) -> Result<Cow<'static, str>, LookupError<()>> {
    Err(LookupError { name: name.into(), cause: () })
}

#[test]
fn test_empty_env() {
    assert_eq!(env_with_context("whatever/path", empty).unwrap(), "whatever/path");
    assert_eq!(env_with_context("$VAR/whatever/path", empty).unwrap(), "$VAR/whatever/path");
    assert_eq!(env_with_context("whatever/$VAR/path", empty).unwrap(), "whatever/$VAR/path");
    assert_eq!(env_with_context("whatever/path/$VAR", empty).unwrap(), "whatever/path/$VAR");
    assert_eq!(env_with_context("${VAR}/whatever/path", empty).unwrap(), "${VAR}/whatever/path");
    assert_eq!(env_with_context("whatever/${VAR}path", empty).unwrap(), "whatever/${VAR}path");
    assert_eq!(env_with_context("whatever/path/${VAR}", empty).unwrap(), "whatever/path/${VAR}");
    assert_eq!(env_with_context("${}/whatever/path", empty).unwrap(), "${}/whatever/path");
    assert_eq!(env_with_context("whatever/${}path", empty).unwrap(), "whatever/${}path");
    assert_eq!(env_with_context("whatever/path/${}", empty).unwrap(), "whatever/path/${}");
    assert_eq!(env_with_context("$/whatever/path", empty).unwrap(), "$/whatever/path");
    assert_eq!(env_with_context("whatever/$path", empty).unwrap(), "whatever/$path");
    assert_eq!(env_with_context("whatever/path/$", empty).unwrap(), "whatever/path/$");
    assert_eq!(env_with_context("$$/whatever/path", empty).unwrap(), "$/whatever/path");
    assert_eq!(env_with_context("whatever/$$path", empty).unwrap(), "whatever/$path");
    assert_eq!(env_with_context("whatever/path/$$", empty).unwrap(), "whatever/path/$");
    assert_eq!(env_with_context("$A$B$C", empty).unwrap(), "$A$B$C");
    assert_eq!(env_with_context("$A_B_C", empty).unwrap(), "$A_B_C");
}

#[test]
fn test_error_env() {
    assert_eq!(env_with_context("whatever/path", failing).unwrap(), "whatever/path");
    // check that escaped $ does nothing
    assert_eq!(env_with_context("whatever/$/path", failing).unwrap(), "whatever/$/path");
    assert_eq!(env_with_context("whatever/path$", failing).unwrap(), "whatever/path$");
    assert_eq!(env_with_context("whatever/$$path", failing).unwrap(), "whatever/$path");

    assert_eq!(env_with_context("$VAR/something", failing), error_for("VAR"));
    assert_eq!(env_with_context("${VAR}/something", failing), error_for("VAR"));
    assert_eq!(env_with_context("whatever/${VAR}/something", failing), error_for("VAR"));
    assert_eq!(env_with_context("whatever/${VAR}", failing), error_for("VAR"));
    assert_eq!(env_with_context("whatever/$VAR/something", failing), error_for("VAR"));
    assert_eq!(env_with_context("whatever/$VARsomething", failing), error_for("VARsomething"));
    assert_eq!(env_with_context("whatever/$VAR", failing), error_for("VAR"));
    assert_eq!(env_with_context("whatever/$VAR_VAR_VAR", failing), error_for("VAR_VAR_VAR"));
}

#[test]
fn test_regular_env() {
    // no variables
    assert_eq!(env_with_context("whatever/path", regular).unwrap(), "whatever/path");

    // empty string
    assert_eq!(env_with_context("", regular).unwrap(), "");

    // existing variable without braces in various positions
    assert_eq!(env_with_context("$VAR/whatever/path", regular).unwrap(), "value/whatever/path");
    assert_eq!(env_with_context("whatever/$VAR/path", regular).unwrap(), "whatever/value/path");
    assert_eq!(env_with_context("whatever/path/$VAR", regular).unwrap(), "whatever/path/value");
    assert_eq!(env_with_context("whatever/$VARpath", regular).unwrap(), "whatever/$VARpath");
    assert_eq!(env_with_context("$VAR$VAR/whatever", regular).unwrap(), "valuevalue/whatever");
    assert_eq!(env_with_context("/whatever$VAR$VAR", regular).unwrap(), "/whatevervaluevalue");
    assert_eq!(env_with_context("$VAR $VAR", regular).unwrap(), "value value");
    assert_eq!(env_with_context("$a_b", regular).unwrap(), "X_Y");
    assert_eq!(env_with_context("$a_b$VAR", regular).unwrap(), "X_Yvalue");

    // existing variable with braces in various positions
    assert_eq!(env_with_context("${VAR}/whatever/path", regular).unwrap(), "value/whatever/path");
    assert_eq!(env_with_context("whatever/${VAR}/path", regular).unwrap(), "whatever/value/path");
    assert_eq!(env_with_context("whatever/path/${VAR}", regular).unwrap(), "whatever/path/value");
    assert_eq!(env_with_context("whatever/${VAR}path", regular).unwrap(), "whatever/valuepath");
    assert_eq!(env_with_context("${VAR}${VAR}/whatever", regular).unwrap(), "valuevalue/whatever");
    assert_eq!(env_with_context("/whatever${VAR}${VAR}", regular).unwrap(), "/whatevervaluevalue");
    assert_eq!(env_with_context("${VAR} ${VAR}", regular).unwrap(), "value value");
    assert_eq!(env_with_context("${VAR}$VAR", regular).unwrap(), "valuevalue");

    // empty variable in various positions
    assert_eq!(env_with_context("${EMPTY}/whatever/path", regular).unwrap(), "/whatever/path");
    assert_eq!(env_with_context("whatever/${EMPTY}/path", regular).unwrap(), "whatever//path");
    assert_eq!(env_with_context("whatever/path/${EMPTY}", regular).unwrap(), "whatever/path/");

    assert_eq!(env_with_context("$ERR", regular), error_for("ERR"));
    assert_eq!(env_with_context("${ERR}", regular), error_for("ERR"));
}

#[test]
fn env_borrows_what_it_does_not_change() {
    assert!(matches!(env_with_context("no/variables", regular), Ok(Cow::Borrowed("no/variables"))));
    assert!(matches!(env_with_context("a$$b", regular), Ok(Cow::Owned(_))));
}

#[test]
fn env_stops_at_the_first_failure() {
    fn e(s: &str) -> Result<Option<String>, String> {
        match s {
            "OK" => Ok(Some("fine".to_string())),
            other => Err(format!("no {}", other)),
        }
    }
    let err = env_with_context("$OK/$ONE/$TWO", e).unwrap_err();
    assert_eq!(err.name, "ONE");
    assert_eq!(err.cause, "no ONE");
}

#[test]
fn env_reads_names_beyond_ascii() {
    fn e(s: &str) -> Result<Option<String>, ()> {
        if s == "\u{e9}t\u{e9}" {
            Ok(Some("summer".to_string()))
        } else {
            Ok(None)
        }
    }
    assert_eq!(env_with_context("a/$\u{e9}t\u{e9}/b", e).unwrap(), "a/summer/b");
    assert_eq!(env_with_context("a/${\u{e9}t\u{e9}}b", e).unwrap(), "a/summerb");
    assert_eq!(env_with_context("\u{20ac}${x}\u{20ac}", e).unwrap(), "\u{20ac}${x}\u{20ac}");
}

#[test]
fn env_unclosed_brace_stays() {
    assert_eq!(env_with_context("a${VAR", regular).unwrap(), "a${VAR");
    assert_eq!(env_with_context("${", regular).unwrap(), "${");
    assert_eq!(env_with_context("${$VAR", regular).unwrap(), "${value");
}

#[test]
fn env_without_errors() {
    fn e(s: &str) -> Option<String> {
        if s == "VAR" {
            Some("value".to_string())
        } else {
            None
        }
    }
    assert_eq!(env_with_context_no_errors("$VAR/${VAR}/$OTHER/$$", e), "value/value/$OTHER/$");
    assert!(matches!(env_with_context_no_errors("plain", e), Cow::Borrowed("plain")));
}

use gitbutler_error::{Code, Context};
use std::borrow::Cow;

#[test]
fn new_takes_the_message_and_an_unknown_code() {
    let context = Context::new("user msg".to_string());
    assert_eq!(context.code, Code::Unknown);
    assert_eq!(context.message.as_deref(), Some("user msg"));
    assert!(matches!(context.message, Some(Cow::Owned(_))));
}

#[test]
fn new_keeps_an_empty_message() {
    let context = Context::new(String::new());
    assert_eq!(context.code, Code::Unknown);
    assert_eq!(context.message.as_deref(), Some(""));
    assert_eq!(context.display(), "");
}

#[test]
fn new_static_takes_code_and_message() {
    let context = Context::new_static(Code::Validation, "please check your input");
    assert_eq!(context.code, Code::Validation);
    assert_eq!(context.message.as_deref(), Some("please check your input"));
    assert!(matches!(context.message, Some(Cow::Borrowed(_))));
}

#[test]
fn context_from_code_has_that_code_and_no_message() {
    for code in [Code::Unknown, Code::Validation, Code::ProjectGitAuth] {
        let context = Context::from(code);
        assert_eq!(context.code, code);
        assert!(context.message.is_none());
        let context: Context = code.into();
        assert_eq!(context.code, code);
        assert!(context.message.is_none());
    }
}

#[test]
fn default_context_is_unknown_without_message() {
    let context = Context::default();
    assert_eq!(context.code, Code::Unknown);
    assert!(context.message.is_none());
}

#[test]
fn with_code_changes_only_the_code() {
    let first = Context::new_static(Code::Validation, "please check your input");
    let second = first.clone().with_code(Code::ProjectGitAuth);
    assert_eq!(first.code, Code::Validation);
    assert_eq!(first.message.as_deref(), Some("please check your input"));
    assert_eq!(second.code, Code::ProjectGitAuth);
    assert_eq!(second.message, first.message);
}

#[test]
fn with_code_keeps_an_absent_message() {
    let context = Context::from(Code::Unknown).with_code(Code::Validation);
    assert_eq!(context.code, Code::Validation);
    assert!(context.message.is_none());
}

#[test]
fn display_without_message_is_the_fallback() {
    for code in [Code::Unknown, Code::Validation, Code::ProjectGitAuth] {
        assert_eq!(Context::from(code).display(), "Something went wrong");
    }
    assert_eq!(Context::default().display(), "Something went wrong");
}

#[test]
fn display_with_message_is_the_message() {
    assert_eq!(Context::new("disk full".to_string()).display(), "disk full");
    assert_eq!(
        Context::new_static(Code::ProjectGitAuth, "sign in again").display(),
        "sign in again"
    );
}

#[test]
fn context_formats_as_its_display() {
    assert_eq!(Context::new("disk full".to_string()).to_string(), "disk full");
    assert_eq!(Context::from(Code::Validation).to_string(), "Something went wrong");
    assert_eq!(
        format!("{}", Context::new_static(Code::Unknown, "user information")),
        "user information"
    );
}

#[test]
fn clone_keeps_code_and_message() {
    let owned = Context::new("user msg".to_string()).with_code(Code::Validation);
    let copy = owned.clone();
    assert_eq!(copy.code, Code::Validation);
    assert_eq!(copy.message, owned.message);
    assert!(matches!(copy.message, Some(Cow::Owned(_))));

    let borrowed = Context::new_static(Code::ProjectGitAuth, "sign in again");
    let copy = borrowed.clone();
    assert_eq!(copy.code, Code::ProjectGitAuth);
    assert_eq!(copy.message, borrowed.message);
    assert!(matches!(copy.message, Some(Cow::Borrowed(_))));

    let bare = Context::from(Code::Validation);
    let copy = bare.clone();
    assert_eq!(copy.code, Code::Validation);
    assert!(copy.message.is_none());
}

#[test]
fn message_outside_ascii_is_kept() {
    let context = Context::new("Zugriff verweigert: «Projekt» — 日本語".to_string());
    assert_eq!(context.display(), "Zugriff verweigert: «Projekt» — 日本語");
    assert_eq!(context.to_string(), "Zugriff verweigert: «Projekt» — 日本語");
}

use extension_builder::checkout::{Checkout, CheckoutStage};
use extension_builder::command::{
    git_checkout, git_fetch, git_init, git_remote_add, ProcessOutput,
};
use extension_builder::error::{BuildError, ErrorKind};
use extension_builder::protocol::{Action, Event};

const DIR: &str = "/ext/grammars/go";
const URL: &str = "https://example.com/go";
const REV: &str = "abc123";

fn fresh() -> Checkout {
    Checkout::new(DIR.to_string(), URL.to_string(), REV.to_string())
}

fn ran(success: bool, stderr: &str) -> Event {
    Event::Ran(Ok(ProcessOutput { success, stderr: stderr.to_string() }))
}

fn failed(kind: ErrorKind, chain: &[&str]) -> Action {
    Action::Finish(Err(BuildError {
        kind,
        chain: chain.iter().map(|message| message.to_string()).collect(),
    }))
}

/// A checkout that has come to the fetch.
fn fetching() -> Checkout {
    let mut checkout = fresh();
    checkout.step(Event::Start);
    checkout.step(Event::Exists(false));
    checkout.step(Event::Done(Ok(())));
    checkout.step(ran(true, ""));
    let action = checkout.step(ran(true, ""));
    assert_eq!(action, Action::Run(git_fetch(DIR, REV)));
    checkout
}

#[test]
fn new_checkout_is_idle() {
    let checkout = fresh();
    assert_eq!(checkout.directory, DIR);
    assert_eq!(checkout.url, URL);
    assert_eq!(checkout.rev, REV);
    assert_eq!(checkout.stage, CheckoutStage::Idle);
}

#[test]
fn existing_directory_is_success_without_any_tool() {
    let mut checkout = fresh();
    assert_eq!(checkout.step(Event::Start), Action::PathExists { path: DIR.to_string() });
    assert_eq!(checkout.step(Event::Exists(true)), Action::Finish(Ok(())));
    assert_eq!(checkout.stage, CheckoutStage::Finished);
}

#[test]
fn second_checkout_into_the_same_directory_runs_nothing() {
    let mut first = fresh();
    let mut actions = vec![first.step(Event::Start)];
    actions.push(first.step(Event::Exists(false)));
    actions.push(first.step(Event::Done(Ok(()))));
    actions.push(first.step(ran(true, "")));
    actions.push(first.step(ran(true, "")));
    actions.push(first.step(ran(true, "")));
    actions.push(first.step(ran(true, "")));
    assert_eq!(actions.last(), Some(&Action::Finish(Ok(()))));
    assert_eq!(actions.iter().filter(|action| matches!(action, Action::Run(_))).count(), 4);

    let mut second = fresh();
    let mut actions = vec![second.step(Event::Start)];
    actions.push(second.step(Event::Exists(true)));
    assert_eq!(
        actions,
        vec![Action::PathExists { path: DIR.to_string() }, Action::Finish(Ok(()))]
    );
}

#[test]
fn missing_directory_is_created_and_filled() {
    let mut checkout = fresh();
    assert_eq!(checkout.step(Event::Start), Action::PathExists { path: DIR.to_string() });
    assert_eq!(
        checkout.step(Event::Exists(false)),
        Action::CreateDirAll { path: DIR.to_string() }
    );
    assert_eq!(checkout.step(Event::Done(Ok(()))), Action::Run(git_init(DIR)));
    assert_eq!(checkout.step(ran(true, "")), Action::Run(git_remote_add(DIR, URL)));
    assert_eq!(checkout.step(ran(true, "")), Action::Run(git_fetch(DIR, REV)));
    assert_eq!(checkout.step(ran(true, "")), Action::Run(git_checkout(DIR, REV)));
    assert_eq!(checkout.stage, CheckoutStage::CheckingOut { fetched: true });
    assert_eq!(checkout.step(ran(true, "")), Action::Finish(Ok(())));
    assert_eq!(checkout.stage, CheckoutStage::Finished);
}

#[test]
fn directory_that_cannot_be_created_fails() {
    let mut checkout = fresh();
    checkout.step(Event::Start);
    checkout.step(Event::Exists(false));
    assert_eq!(
        checkout.step(Event::Done(Err("read-only file system".to_string()))),
        failed(
            ErrorKind::Filesystem,
            &["failed to create grammar directory /ext/grammars/go", "read-only file system"]
        )
    );
    assert_eq!(checkout.stage, CheckoutStage::Finished);
}

#[test]
fn git_that_cannot_be_run_fails() {
    let mut checkout = fresh();
    checkout.step(Event::Start);
    checkout.step(Event::Exists(false));
    checkout.step(Event::Done(Ok(())));
    assert_eq!(
        checkout.step(Event::Ran(Err("No such file or directory".to_string()))),
        failed(ErrorKind::MissingDependency, &["No such file or directory"])
    );
}

#[test]
fn failed_init_names_the_directory() {
    let mut checkout = fresh();
    checkout.step(Event::Start);
    checkout.step(Event::Exists(false));
    checkout.step(Event::Done(Ok(())));
    assert_eq!(
        checkout.step(ran(false, "fatal")),
        failed(
            ErrorKind::Subprocess,
            &["failed to run `git init` in directory '/ext/grammars/go'"]
        )
    );
}

#[test]
fn failed_remote_add_names_the_url_and_the_repository() {
    let mut checkout = fresh();
    checkout.step(Event::Start);
    checkout.step(Event::Exists(false));
    checkout.step(Event::Done(Ok(())));
    checkout.step(ran(true, ""));
    assert_eq!(
        checkout.step(ran(false, "fatal")),
        failed(
            ErrorKind::Subprocess,
            &["failed to add remote https://example.com/go for git repository /ext/grammars/go/.git"]
        )
    );
}

#[test]
fn remote_add_that_cannot_be_run_fails_with_context() {
    let mut checkout = fresh();
    checkout.step(Event::Start);
    checkout.step(Event::Exists(false));
    checkout.step(Event::Done(Ok(())));
    checkout.step(ran(true, ""));
    assert_eq!(
        checkout.step(Event::Ran(Err("gone".to_string()))),
        failed(ErrorKind::MissingDependency, &["failed to execute `git remote add`", "gone"])
    );
}

#[test]
fn fetch_that_cannot_be_run_fails_with_context() {
    let mut checkout = fetching();
    assert_eq!(
        checkout.step(Event::Ran(Err("gone".to_string()))),
        failed(ErrorKind::MissingDependency, &["failed to execute `git fetch`", "gone"])
    );
}

#[test]
fn checkout_that_cannot_be_run_fails_with_context() {
    let mut checkout = fetching();
    checkout.step(ran(true, ""));
    assert_eq!(
        checkout.step(Event::Ran(Err("gone".to_string()))),
        failed(ErrorKind::MissingDependency, &["failed to execute `git checkout`", "gone"])
    );
}

#[test]
fn failed_fetch_still_tries_the_checkout() {
    let mut checkout = fetching();
    assert_eq!(checkout.step(ran(false, "no network")), Action::Run(git_checkout(DIR, REV)));
    assert_eq!(checkout.stage, CheckoutStage::CheckingOut { fetched: false });
    assert_eq!(checkout.step(ran(true, "")), Action::Finish(Ok(())));
}

#[test]
fn failed_checkout_after_failed_fetch_blames_the_fetch() {
    let mut checkout = fetching();
    checkout.step(ran(false, "no network"));
    assert_eq!(
        checkout.step(ran(false, "pathspec did not match")),
        failed(
            ErrorKind::Subprocess,
            &["failed to fetch revision abc123 in directory '/ext/grammars/go'"]
        )
    );
}

#[test]
fn failed_checkout_after_fetch_reports_the_tool_s_words() {
    let mut checkout = fetching();
    checkout.step(ran(true, ""));
    let action = checkout.step(ran(false, "error: pathspec 'abc123' did not match\n"));
    assert_eq!(
        action,
        failed(
            ErrorKind::Subprocess,
            &["failed to checkout revision abc123 in directory '/ext/grammars/go': error: pathspec 'abc123' did not match\n"]
        )
    );
    match action {
        Action::Finish(Err(error)) => {
            let message = error.message();
            assert!(message.contains(REV));
            assert!(message.contains(DIR));
            assert!(message.contains("error: pathspec 'abc123' did not match"));
            assert!(!message.contains("failed to fetch"));
        }
        _ => unreachable!(),
    }
}

#[test]
fn answer_that_does_not_fit_ends_the_checkout() {
    let mut checkout = fresh();
    assert_eq!(
        checkout.step(Event::Exists(true)),
        failed(ErrorKind::Protocol, &["the driver's answer does not fit the request"])
    );
    assert_eq!(checkout.stage, CheckoutStage::Finished);
    let mut checkout = fresh();
    checkout.step(Event::Start);
    assert_eq!(
        checkout.step(Event::Start),
        failed(ErrorKind::Protocol, &["the driver's answer does not fit the request"])
    );
}

#[test]
fn finished_checkout_asks_nothing_more() {
    let mut checkout = fresh();
    checkout.step(Event::Start);
    checkout.step(Event::Exists(true));
    assert_eq!(
        checkout.step(Event::Exists(true)),
        failed(ErrorKind::Protocol, &["the driver's answer does not fit the request"])
    );
    assert_eq!(checkout.stage, CheckoutStage::Finished);
}

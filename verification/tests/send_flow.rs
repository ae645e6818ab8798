use chat_session::message::Message;
use chat_session::send_flow::{Phase, SendFlow};

fn user(text: &str) -> Message {
    Message { text: String::from(text), user: true }
}

fn assistant(text: &str) -> Message {
    Message { text: String::from(text), user: false }
}

#[test]
fn new_flow_is_idle_and_empty() {
    let flow = SendFlow::new();
    assert_eq!(flow.phase(), Phase::Idle);
    assert!(flow.conversation().messages.is_empty());
}

#[test]
fn submit_appends_user_message_then_placeholder() {
    let mut flow = SendFlow::new();
    flow.submit(String::from("hi"));
    assert_eq!(flow.conversation().messages, vec![user("hi"), assistant("...")]);
    assert_eq!(flow.phase(), Phase::Sending);
}

#[test]
fn submit_keeps_what_was_said_before() {
    let mut flow = SendFlow::new();
    flow.submit(String::from("first"));
    flow.resolve(String::from("reply"));
    flow.submit(String::from("second"));
    assert_eq!(
        flow.conversation().messages,
        vec![user("first"), assistant("reply"), user("second"), assistant("...")]
    );
}

#[test]
fn submit_hands_back_the_transcript_without_the_placeholder() {
    let mut flow = SendFlow::new();
    let request = flow.submit(String::from("first"));
    assert_eq!(request.messages, vec![user("first")]);
    flow.resolve(String::from("reply"));
    let request = flow.submit(String::from("second"));
    assert_eq!(request.messages, vec![user("first"), assistant("reply"), user("second")]);
}

#[test]
fn submit_takes_empty_text_as_it_is() {
    let mut flow = SendFlow::new();
    let request = flow.submit(String::new());
    assert_eq!(flow.conversation().messages, vec![user(""), assistant("...")]);
    assert_eq!(request.messages, vec![user("")]);
    assert_eq!(flow.phase(), Phase::Sending);
}

#[test]
fn submit_does_not_trim() {
    let mut flow = SendFlow::new();
    flow.submit(String::from("  spaced out \n"));
    assert_eq!(flow.conversation().messages[0].text, "  spaced out \n");
}

#[test]
fn resolve_fills_the_reply_into_the_last_message() {
    let mut flow = SendFlow::new();
    flow.submit(String::from("question"));
    flow.resolve(String::from("answer"));
    assert_eq!(flow.conversation().messages, vec![user("question"), assistant("answer")]);
    assert_eq!(flow.phase(), Phase::Resolved);
}

#[test]
fn resolve_leaves_earlier_messages_unchanged() {
    let mut flow = SendFlow::new();
    flow.submit(String::from("a"));
    flow.resolve(String::from("b"));
    flow.submit(String::from("c"));
    let before = flow.conversation().clone();
    flow.resolve(String::from("d"));
    let after = flow.conversation();
    assert_eq!(after.messages.len(), before.messages.len());
    assert_eq!(after.messages[..3], before.messages[..3]);
    assert_eq!(after.messages[3], assistant("d"));
}

#[test]
fn resolve_with_the_placeholder_text_is_still_a_reply() {
    let mut flow = SendFlow::new();
    flow.submit(String::from("dots?"));
    flow.resolve(String::from("..."));
    assert_eq!(flow.conversation().messages, vec![user("dots?"), assistant("...")]);
    assert_eq!(flow.phase(), Phase::Resolved);
}

#[test]
fn fail_leaves_the_placeholder_standing() {
    let mut flow = SendFlow::new();
    flow.submit(String::from("anyone?"));
    flow.fail();
    assert_eq!(flow.conversation().messages, vec![user("anyone?"), assistant("...")]);
    assert_eq!(flow.phase(), Phase::Failed);
}

#[test]
fn fail_before_any_submission_leaves_the_transcript_empty() {
    let mut flow = SendFlow::new();
    flow.fail();
    assert!(flow.conversation().messages.is_empty());
    assert_eq!(flow.phase(), Phase::Failed);
}

#[test]
fn submit_after_failure_appends_behind_the_old_placeholder() {
    let mut flow = SendFlow::new();
    flow.submit(String::from("one"));
    flow.fail();
    flow.submit(String::from("two"));
    flow.resolve(String::from("got it"));
    assert_eq!(
        flow.conversation().messages,
        vec![user("one"), assistant("..."), user("two"), assistant("got it")]
    );
    assert_eq!(flow.phase(), Phase::Resolved);
}

#[test]
fn settle_with_a_reply_resolves() {
    let mut flow = SendFlow::new();
    flow.submit(String::from("ping"));
    let outcome: Result<String, String> = Ok(String::from("pong"));
    flow.settle(outcome);
    assert_eq!(flow.conversation().messages, vec![user("ping"), assistant("pong")]);
    assert_eq!(flow.phase(), Phase::Resolved);
}

#[test]
fn settle_with_an_error_fails_and_shows_nothing() {
    let mut flow = SendFlow::new();
    flow.submit(String::from("ping"));
    let outcome: Result<String, String> = Err(String::from("connection refused"));
    flow.settle(outcome);
    assert_eq!(flow.conversation().messages, vec![user("ping"), assistant("...")]);
    assert_eq!(flow.phase(), Phase::Failed);
}

#[test]
fn two_submissions_before_a_reply_give_four_messages() {
    let mut flow = SendFlow::new();
    flow.submit(String::from("first"));
    flow.submit(String::from("second"));
    assert_eq!(
        flow.conversation().messages,
        vec![user("first"), assistant("..."), user("second"), assistant("...")]
    );
    assert_eq!(flow.phase(), Phase::Sending);
}

#[test]
fn reply_to_the_first_of_two_submissions_lands_in_the_last_message() {
    let mut flow = SendFlow::new();
    flow.submit(String::from("first"));
    flow.submit(String::from("second"));
    flow.resolve(String::from("reply to first"));
    assert_eq!(
        flow.conversation().messages,
        vec![user("first"), assistant("..."), user("second"), assistant("reply to first")]
    );
}

#[test]
fn second_reply_overwrites_the_first_and_the_early_placeholder_stays() {
    let mut flow = SendFlow::new();
    flow.submit(String::from("first"));
    flow.submit(String::from("second"));
    flow.resolve(String::from("reply to first"));
    flow.resolve(String::from("reply to second"));
    assert_eq!(
        flow.conversation().messages,
        vec![user("first"), assistant("..."), user("second"), assistant("reply to second")]
    );
    assert_eq!(flow.phase(), Phase::Resolved);
}

#[test]
fn flow_clone_is_a_copy_of_transcript_and_phase() {
    let mut flow = SendFlow::new();
    flow.submit(String::from("keep"));
    let copy = flow.clone();
    flow.resolve(String::from("changed"));
    assert_eq!(copy.conversation().messages, vec![user("keep"), assistant("...")]);
    assert_eq!(copy.phase(), Phase::Sending);
    assert_eq!(flow.conversation().messages, vec![user("keep"), assistant("changed")]);
}

#[test]
fn messages_alternate_after_any_run_of_events() {
    let mut flow = SendFlow::new();
    flow.submit(String::from("a"));
    flow.submit(String::from("b"));
    flow.fail();
    flow.resolve(String::from("c"));
    flow.submit(String::new());
    let outcome: Result<String, u8> = Err(7);
    flow.settle(outcome);
    let messages = &flow.conversation().messages;
    assert_eq!(messages.len(), 6);
    for (i, message) in messages.iter().enumerate() {
        assert_eq!(message.user, i % 2 == 0);
    }
}

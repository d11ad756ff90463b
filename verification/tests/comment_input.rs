use conduit_ui::comment_input::{CommentInput, Effect, Msg, Props};
use conduit_ui::types::{CommentInfo, Error, UserInfo};

fn jake() -> UserInfo {
    UserInfo {
        username: "jake".to_string(),
        bio: None,
        image: Some("https://i.stack.imgur.com/xHWG8.jpg".to_string()),
    }
}

fn fresh_form() -> CommentInput {
    CommentInput::create(Props {
        slug: "how-to-train-your-dragon".to_string(),
        current_user: jake(),
    })
}

#[test]
fn create_starts_blank() {
    let c = fresh_form();
    assert!(c.error.is_none());
    assert_eq!(c.request.body, "");
    assert!(c.task.is_none());
    let v = c.view();
    assert_eq!(v.draft, "");
    assert!(v.error.is_none());
    assert_eq!(v.author_username, "jake");
    assert_eq!(
        v.author_image,
        Some("https://i.stack.imgur.com/xHWG8.jpg".to_string())
    );
}

#[test]
fn successful_submission_notifies_once_and_clears() {
    let mut c = fresh_form();
    let (render, eff) = c.update(Msg::UpdateComment("Hello".to_string()));
    assert!(render);
    assert_eq!(eff, Effect::NoEffect);

    let (render, eff) = c.update(Msg::Request);
    assert!(render);
    assert_eq!(
        eff,
        Effect::IssueCreateComment {
            slug: "how-to-train-your-dragon".to_string(),
            body: "Hello".to_string(),
        }
    );
    assert!(c.task.is_some());

    let created = CommentInfo {
        id: 1,
        body: "Hello".to_string(),
    };
    let (render, eff) = c.update(Msg::Response(Ok(created.clone())));
    assert!(render);
    // The parent is notified exactly once, with exactly that comment.
    assert_eq!(eff, Effect::CommentCreated(created));
    // The draft is reset and no error is shown.
    let v = c.view();
    assert_eq!(v.draft, "");
    assert!(v.error.is_none());
    assert!(c.task.is_none());
}

#[test]
fn failed_submission_keeps_draft_and_shows_error() {
    let mut c = fresh_form();
    c.update(Msg::UpdateComment("my hot take".to_string()));
    c.update(Msg::Request);

    let (render, eff) = c.update(Msg::Response(Err(Error {
        message: "can't be blank".to_string(),
    })));
    assert!(render);
    // The parent is not notified.
    assert_eq!(eff, Effect::NoEffect);
    // The typed draft survives and the error is visibly set.
    let v = c.view();
    assert_eq!(v.draft, "my hot take");
    assert_eq!(
        v.error,
        Some(Error {
            message: "can't be blank".to_string(),
        })
    );
    assert!(c.task.is_none());
}

#[test]
fn empty_draft_still_reaches_the_network() {
    let mut c = fresh_form();
    let (_, eff) = c.update(Msg::Request);
    assert_eq!(
        eff,
        Effect::IssueCreateComment {
            slug: "how-to-train-your-dragon".to_string(),
            body: String::new(),
        }
    );
}

#[test]
fn second_submit_while_pending_is_not_guarded() {
    let mut c = fresh_form();
    c.update(Msg::UpdateComment("twice".to_string()));
    let (_, first) = c.update(Msg::Request);
    let (_, second) = c.update(Msg::Request);
    assert_eq!(first, second);
    assert!(c.task.is_some());
}

#[test]
fn keystrokes_replace_the_draft() {
    let mut c = fresh_form();
    c.update(Msg::UpdateComment("a".to_string()));
    c.update(Msg::UpdateComment("ab".to_string()));
    assert_eq!(c.view().draft, "ab");
}

#[test]
fn new_properties_leave_the_draft_alone() {
    let mut c = fresh_form();
    c.update(Msg::UpdateComment("draft".to_string()));
    let render = c.change(Props {
        slug: "another-article".to_string(),
        current_user: jake(),
    });
    assert!(render);
    assert_eq!(c.props.slug, "another-article");
    assert_eq!(c.view().draft, "draft");
}

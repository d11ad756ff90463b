//! The comment-submission form shown under an article.

use vstd::prelude::*;

use crate::types::CommentCreateInfo;
use crate::types::CommentInfo;
use crate::types::Error;
use crate::types::PendingRequest;
use crate::types::UserInfo;

verus! {

/// Properties supplied by the parent: which article the comment belongs to
/// and who is writing it. The parent is notified of a created comment
/// through the `CommentCreated` effect.
pub struct Props {
    pub slug: String,
    pub current_user: UserInfo,
}

/// Messages the form reacts to: a submit click, a keystroke in the
/// textarea, or the response to an earlier submission.
#[derive(Debug, PartialEq, Eq)]
pub enum Msg {
    Request,
    Response(Result<CommentInfo, Error>),
    UpdateComment(String),
}

/// What the shell must do after an update: send a create-comment request,
/// hand a freshly created comment to the parent, or nothing.
#[derive(Debug, PartialEq, Eq, Clone)]
pub enum Effect {
    IssueCreateComment { slug: String, body: String },
    CommentCreated(CommentInfo),
    NoEffect,
}

/// The comment form component.
pub struct CommentInput {
    pub error: Option<Error>,
    pub request: CommentCreateInfo,
    pub task: Option<PendingRequest>,
    pub props: Props,
}

/// Mathematical abstraction of the form's own state: the error on display,
/// the draft text, and whether a request is in flight.
pub struct CommentModel {
    pub error: Option<Seq<char>>,
    pub draft: Seq<char>,
    pub pending: bool,
}

impl CommentInput {
    /// The abstraction of this component's state.
    pub open spec fn model(self) -> CommentModel {
        CommentModel {
            error: match self.error {
                Some(e) => Some(e.message@),
                None => None,
            },
            draft: self.request.body@,
            pending: self.task is Some,
        }
    }
}

/// How one message transforms the form's state. Submitting marks a request
/// pending without touching the draft; a success response clears draft,
/// error and pending flag; a failure response keeps the draft and shows the
/// error; a keystroke replaces the draft.
pub open spec fn model_step(m: CommentModel, msg: Msg) -> CommentModel {
    match msg {
        Msg::Request => CommentModel { pending: true, ..m },
        Msg::Response(res) => match res {
            Ok(_) => CommentModel { error: None, draft: Seq::<char>::empty(), pending: false },
            Err(e) => CommentModel { error: Some(e.message@), draft: m.draft, pending: false },
        },
        Msg::UpdateComment(body) => CommentModel { draft: body@, ..m },
    }
}

/// The effect each message provokes: a submit sends the current draft to
/// the service scoped to the article's slug; a success response notifies
/// the parent with the created comment; nothing else leaves the component.
pub open spec fn spec_effect(s: CommentInput, msg: Msg) -> Effect {
    match msg {
        Msg::Request => Effect::IssueCreateComment { slug: s.props.slug, body: s.request.body },
        Msg::Response(res) => match res {
            Ok(c) => Effect::CommentCreated(c),
            Err(_) => Effect::NoEffect,
        },
        Msg::UpdateComment(_) => Effect::NoEffect,
    }
}

/// What the form renders: the error banner's content, the textarea's
/// current value, and the author's avatar and name shown next to the
/// submit button.
#[derive(Debug, PartialEq, Eq, Clone)]
pub struct CommentInputView {
    pub error: Option<Error>,
    pub draft: String,
    pub author_image: Option<String>,
    pub author_username: String,
}

impl CommentInput {
    /// Builds the form with an empty draft, no error and no request in
    /// flight.
    pub fn create(props: Props) -> (c: CommentInput)
        ensures
            c.model() == (CommentModel {
                error: None,
                draft: Seq::<char>::empty(),
                pending: false,
            }),
            c.props == props,
    {
        CommentInput {
            error: None,
            request: CommentCreateInfo::default(),
            task: None,
            props,
        }
    }

    /// Applies one message: the new state is `model_step` of the old, the
    /// properties are untouched, the returned effect is `spec_effect`, and
    /// the form always re-renders.
    pub fn update(&mut self, msg: Msg) -> (r: (bool, Effect))
        ensures
            r.0 == true,
            final(self).model() == model_step(old(self).model(), msg),
            final(self).props == old(self).props,
            r.1 == spec_effect(*old(self), msg),
    {
        match msg {
            Msg::Request => {
                let eff = Effect::IssueCreateComment {
                    slug: self.props.slug.clone(),
                    body: self.request.body.clone(),
                };
                self.task = Some(PendingRequest {});
                (true, eff)
            }
            Msg::Response(Ok(comment_info)) => {
                self.error = None;
                self.task = None;
                self.request = CommentCreateInfo::default();
                (true, Effect::CommentCreated(comment_info))
            }
            Msg::Response(Err(err)) => {
                self.error = Some(err);
                self.task = None;
                (true, Effect::NoEffect)
            }
            Msg::UpdateComment(body) => {
                self.request = CommentCreateInfo { body };
                (true, Effect::NoEffect)
            }
        }
    }

    /// Accepts new properties from the parent and re-renders; the form's
    /// own state is untouched.
    pub fn change(&mut self, props: Props) -> (r: bool)
        ensures
            r == true,
            final(self).props == props,
            final(self).error == old(self).error,
            final(self).request == old(self).request,
            final(self).task == old(self).task,
    {
        self.props = props;
        true
    }

    /// Renders the form: the stored error goes to the error display, the
    /// draft fills the textarea, and the author's image and name decorate
    /// the footer.
    pub fn view(&self) -> (v: CommentInputView)
        ensures
            v.error == self.error,
            v.draft == self.request.body,
            v.author_image == self.props.current_user.image,
            v.author_username == self.props.current_user.username,
    {
        CommentInputView {
            error: crate::types::clone_opt_error(&self.error),
            draft: self.request.body.clone(),
            author_image: crate::types::clone_opt_string(&self.props.current_user.image),
            author_username: self.props.current_user.username.clone(),
        }
    }
}

/// A submission followed by a failure response keeps the typed draft
/// exactly as it was, puts the failure's message on display, and leaves no
/// request pending.
pub proof fn lemma_failed_submission_keeps_draft(m: CommentModel, e: Error)
    ensures
        ({
            let failed = model_step(model_step(m, Msg::Request), Msg::Response(Err(e)));
            &&& failed.draft == m.draft
            &&& failed.error == Some(e.message@)
            &&& failed.pending == false
        }),
{
}

/// A submission followed by a success response resets the draft to empty,
/// clears the error, and leaves no request pending.
pub proof fn lemma_successful_submission_resets(m: CommentModel, c: CommentInfo)
    ensures
        ({
            let done = model_step(model_step(m, Msg::Request), Msg::Response(Ok(c)));
            &&& done.draft == Seq::<char>::empty()
            &&& done.error is None
            &&& done.pending == false
        }),
{
}

/// The parent is notified only by a success response, and only with the
/// comment that response carried: no other message produces a
/// `CommentCreated` effect.
pub proof fn lemma_callback_only_on_success(s: CommentInput, msg: Msg)
    ensures
        spec_effect(s, msg) matches Effect::CommentCreated(c) ==> msg == Msg::Response(Ok(c)),
{
}

} // verus!

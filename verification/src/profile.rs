//! The user-profile page: header, follow controls and article tabs.

use vstd::prelude::*;

use crate::types::Error;
use crate::types::PendingRequest;
use crate::types::ProfileInfo;
use crate::types::UserInfo;
use crate::types::clone_opt_string;

verus! {

/// Which article listing the page shows; chosen by the routing layer and
/// handed in as a property, never mutated here.
#[derive(Clone, Copy, PartialEq, Eq, Structural)]
pub enum ProfileTab {
    ByAuthor,
    FavoritedBy,
}

/// Properties supplied by the routing layer: whose profile to show, who is
/// looking at it, and which article tab is active.
pub struct Props {
    pub username: String,
    pub current_user: Option<UserInfo>,
    pub tab: ProfileTab,
}

/// Messages the profile page reacts to: a click on the follow toggle, or a
/// response to any of its requests. A response carries no correlation to
/// the request that caused it; responses are applied in arrival order.
#[derive(Debug, PartialEq, Eq)]
pub enum Msg {
    Response(Result<ProfileInfo, Error>),
    Follow,
    UnFollow,
}

/// What the shell must do after a step: fetch a profile, follow or
/// unfollow its subject, or nothing.
#[derive(Debug, PartialEq, Eq, Clone)]
pub enum Effect {
    IssueGetProfile { username: String },
    IssueFollow { username: String },
    IssueUnfollow { username: String },
    NoEffect,
}

/// The profile page component. `profile` stays `None` until the first
/// successful response arrives.
pub struct Profile {
    pub profile: Option<ProfileInfo>,
    pub task: Option<PendingRequest>,
    pub props: Props,
}

/// Where a rendered link leads. The routing layer turns a target into a
/// concrete location; this page only chooses the destination.
#[derive(Debug, PartialEq, Eq, Clone)]
pub enum LinkTarget {
    Settings,
    Feed { username: String },
    Favorites { username: String },
}

/// One tab header: whether it is highlighted, and where it navigates.
#[derive(Debug, PartialEq, Eq, Clone)]
pub struct TabLink {
    pub active: bool,
    pub target: LinkTarget,
}

/// The tab switcher: hidden until a profile is loaded, otherwise exactly
/// two mutually exclusive tabs.
#[derive(Debug, PartialEq, Eq, Clone)]
pub enum TabsView {
    Hidden,
    Tabs { my_articles: TabLink, favorited: TabLink },
}

/// The follow control: hidden until a profile is loaded; otherwise its
/// label, style and click action are all driven by the one `following`
/// flag.
#[derive(Debug, PartialEq, Eq)]
pub enum FollowButtonView {
    Hidden,
    Toggle { following: bool, click: Msg },
}

/// The control rendered beside the profile header: a link to the settings
/// screen on one's own profile, the follow toggle on anyone else's.
#[derive(Debug, PartialEq, Eq)]
pub enum UserActionView {
    EditProfile,
    FollowButton(FollowButtonView),
}

/// Which articles the listing collaborator is asked to show.
#[derive(Debug, PartialEq, Eq, Clone)]
pub enum ArticleListFilter {
    ByAuthor(String),
    FavoritedBy(String),
}

/// What the page renders: nothing before the profile has loaded, otherwise
/// the header fields, the user action, the tab switcher and the article
/// filter for the active tab.
#[derive(Debug, PartialEq, Eq)]
pub enum ProfileView {
    Empty,
    Loaded {
        username: String,
        bio: Option<String>,
        image: Option<String>,
        action: UserActionView,
        tabs: TabsView,
        filter: ArticleListFilter,
    },
}

/// Whether the page shows the viewer's own profile: there must be a
/// current viewer, and their username must equal the subject username from
/// the properties. Anonymous viewers never see their own profile.
pub open spec fn spec_is_own_profile(s: Profile) -> bool {
    match s.props.current_user {
        Some(u) => u.username@ == s.props.username@,
        None => false,
    }
}

/// How one message transforms the page's state. A click on the toggle only
/// marks a request pending; a successful response replaces the stored
/// profile wholesale; a failed response clears the pending flag and leaves
/// the profile — including a stale `following` flag — untouched.
pub open spec fn spec_step(s: Profile, msg: Msg) -> Profile {
    match msg {
        Msg::Follow => Profile { profile: s.profile, task: Some(PendingRequest {}), props: s.props },
        Msg::UnFollow => Profile {
            profile: s.profile,
            task: Some(PendingRequest {}),
            props: s.props,
        },
        Msg::Response(res) => match res {
            Ok(p) => Profile { profile: Some(p), task: None, props: s.props },
            Err(_) => Profile { profile: s.profile, task: None, props: s.props },
        },
    }
}

/// The request each message provokes, always for the subject username from
/// the properties. Responses provoke none.
pub open spec fn spec_effect(s: Profile, msg: Msg) -> Effect {
    match msg {
        Msg::Follow => Effect::IssueFollow { username: s.props.username },
        Msg::UnFollow => Effect::IssueUnfollow { username: s.props.username },
        Msg::Response(_) => Effect::NoEffect,
    }
}

/// The follow control for a given state: hidden while no profile is
/// loaded; otherwise the toggle reflects `following` and clicking it sends
/// the opposite request.
pub open spec fn spec_follow_button(s: Profile) -> FollowButtonView {
    match s.profile {
        Some(p) => FollowButtonView::Toggle {
            following: p.following,
            click: if p.following {
                Msg::UnFollow
            } else {
                Msg::Follow
            },
        },
        None => FollowButtonView::Hidden,
    }
}

/// The tab switcher for a given state: hidden while no profile is loaded;
/// otherwise the authored tab is highlighted exactly when `ByAuthor` is
/// active and the favorited tab exactly when `FavoritedBy` is, each
/// linking to the matching listing of the loaded profile's user.
pub open spec fn spec_tabs(s: Profile) -> TabsView {
    match s.profile {
        Some(p) => TabsView::Tabs {
            my_articles: TabLink {
                active: s.props.tab == ProfileTab::ByAuthor,
                target: LinkTarget::Feed { username: p.username },
            },
            favorited: TabLink {
                active: s.props.tab == ProfileTab::FavoritedBy,
                target: LinkTarget::Favorites { username: p.username },
            },
        },
        None => TabsView::Hidden,
    }
}

/// The whole page for a given state: empty until a profile is loaded;
/// otherwise the profile's header fields, the edit link or follow toggle
/// depending on whose profile it is, the tab switcher, and the article
/// filter chosen by the active tab.
pub open spec fn spec_view(s: Profile) -> ProfileView {
    match s.profile {
        None => ProfileView::Empty,
        Some(p) => ProfileView::Loaded {
            username: p.username,
            bio: p.bio,
            image: p.image,
            action: if spec_is_own_profile(s) {
                UserActionView::EditProfile
            } else {
                UserActionView::FollowButton(spec_follow_button(s))
            },
            tabs: spec_tabs(s),
            filter: match s.props.tab {
                ProfileTab::ByAuthor => ArticleListFilter::ByAuthor(p.username),
                ProfileTab::FavoritedBy => ArticleListFilter::FavoritedBy(p.username),
            },
        },
    }
}

impl Profile {
    /// Builds the page in its unloaded state; no request is issued yet.
    pub fn create(props: Props) -> (p: Profile)
        ensures
            p.profile is None,
            p.task is None,
            p.props == props,
    {
        Profile { profile: None, task: None, props }
    }

    /// First mount: issues the one initial fetch of the subject's profile
    /// and asks for no re-render, since nothing can be shown yet.
    pub fn mounted(&mut self) -> (r: (bool, Effect))
        ensures
            r.0 == false,
            final(self).profile == old(self).profile,
            final(self).props == old(self).props,
            final(self).task is Some,
            r.1 == (Effect::IssueGetProfile { username: old(self).props.username }),
    {
        self.task = Some(PendingRequest {});
        (false, Effect::IssueGetProfile { username: self.props.username.clone() })
    }

    /// Applies one message: the new state is `spec_step` of the old, the
    /// returned effect is `spec_effect`, and the page always
    /// re-renders.
    pub fn update(&mut self, msg: Msg) -> (r: (bool, Effect))
        ensures
            r.0 == true,
            *final(self) == spec_step(*old(self), msg),
            r.1 == spec_effect(*old(self), msg),
    {
        match msg {
            Msg::Follow => {
                self.task = Some(PendingRequest {});
                (true, Effect::IssueFollow { username: self.props.username.clone() })
            }
            Msg::UnFollow => {
                self.task = Some(PendingRequest {});
                (true, Effect::IssueUnfollow { username: self.props.username.clone() })
            }
            Msg::Response(Ok(profile_info)) => {
                self.profile = Some(profile_info);
                self.task = None;
                (true, Effect::NoEffect)
            }
            Msg::Response(Err(_)) => {
                self.task = None;
                (true, Effect::NoEffect)
            }
        }
    }

    /// Accepts new properties from the routing layer and re-renders. No
    /// fresh fetch is issued: if the subject username changed, the stored
    /// profile is stale until the router forces a remount.
    pub fn change(&mut self, props: Props) -> (r: bool)
        ensures
            r == true,
            final(self).props == props,
            final(self).profile == old(self).profile,
            final(self).task == old(self).task,
    {
        self.props = props;
        true
    }

    /// Whether the page shows the viewer's own profile.
    pub fn is_own_profile(&self) -> (r: bool)
        ensures
            r == spec_is_own_profile(*self),
    {
        match &self.props.current_user {
            Some(u) => u.username == self.props.username,
            None => false,
        }
    }

    /// Renders the link to the profile-editing screen.
    pub fn view_edit_profile_settings(&self) -> (l: LinkTarget)
        ensures
            l == LinkTarget::Settings,
    {
        LinkTarget::Settings
    }

    /// Renders the follow control.
    pub fn view_follow_user_button(&self) -> (b: FollowButtonView)
        ensures
            b == spec_follow_button(*self),
    {
        match &self.profile {
            Some(p) => FollowButtonView::Toggle {
                following: p.following,
                click: if p.following {
                    Msg::UnFollow
                } else {
                    Msg::Follow
                },
            },
            None => FollowButtonView::Hidden,
        }
    }

    /// Renders the tab switcher.
    pub fn view_tabs(&self) -> (t: TabsView)
        ensures
            t == spec_tabs(*self),
    {
        match &self.profile {
            Some(p) => TabsView::Tabs {
                my_articles: TabLink {
                    active: self.props.tab == ProfileTab::ByAuthor,
                    target: LinkTarget::Feed { username: p.username.clone() },
                },
                favorited: TabLink {
                    active: self.props.tab == ProfileTab::FavoritedBy,
                    target: LinkTarget::Favorites { username: p.username.clone() },
                },
            },
            None => TabsView::Hidden,
        }
    }

    /// Renders the whole page.
    pub fn view(&self) -> (v: ProfileView)
        ensures
            v == spec_view(*self),
    {
        match &self.profile {
            Some(p) => {
                let action = if self.is_own_profile() {
                    UserActionView::EditProfile
                } else {
                    UserActionView::FollowButton(self.view_follow_user_button())
                };
                let filter = match self.props.tab {
                    ProfileTab::ByAuthor => ArticleListFilter::ByAuthor(p.username.clone()),
                    ProfileTab::FavoritedBy => ArticleListFilter::FavoritedBy(p.username.clone()),
                };
                ProfileView::Loaded {
                    username: p.username.clone(),
                    bio: clone_opt_string(&p.bio),
                    image: clone_opt_string(&p.image),
                    action,
                    tabs: self.view_tabs(),
                    filter,
                }
            }
            None => ProfileView::Empty,
        }
    }
}

/// The label on the follow toggle, driven by the `following` flag alone.
pub fn follow_button_text(following: bool) -> (s: &'static str)
    ensures
        following ==> s@ == "Unfollow"@,
        !following ==> s@ == "Follow"@,
{
    if following {
        "Unfollow"
    } else {
        "Follow"
    }
}

/// The style class on the follow toggle, driven by the `following` flag
/// alone: the filled style while following, the outline style while not.
pub fn follow_button_class(following: bool) -> (s: &'static str)
    ensures
        following ==> s@ == "btn btn-sm action-btn btn-secondary"@,
        !following ==> s@ == "btn btn-sm action-btn btn-outline-secondary"@,
{
    if following {
        "btn btn-sm action-btn btn-secondary"
    } else {
        "btn btn-sm action-btn btn-outline-secondary"
    }
}

/// The page renders nothing until a profile has been stored, and neither
/// the clicks that issue requests nor a failed response change that: only
/// a successful response fills the page.
pub proof fn lemma_empty_until_loaded(s: Profile, msg: Msg)
    requires
        s.profile is None,
    ensures
        spec_view(s) is Empty,
        (match msg {
            Msg::Response(res) => res is Err,
            _ => true,
        }) ==> spec_view(spec_step(s, msg)) is Empty,
{
}

/// One's own profile always offers the edit-profile link and never a
/// follow control, whatever the stored `following` flag says.
pub proof fn lemma_own_profile_shows_edit(s: Profile)
    requires
        s.profile is Some,
        spec_is_own_profile(s),
    ensures
        spec_view(s) matches ProfileView::Loaded { action, .. } && action
            == UserActionView::EditProfile,
{
}

/// On someone else's not-yet-followed profile the toggle issues a follow
/// request — never an unfollow. A success response reporting
/// `following == true` flips the toggle to its unfollow form; a failure
/// response leaves the rendered page exactly as it was before the click.
pub proof fn lemma_follow_toggle(s: Profile, p: ProfileInfo, q: ProfileInfo, e: Error)
    requires
        s.profile == Some(p),
        !p.following,
        !spec_is_own_profile(s),
        q.following,
    ensures
        spec_view(s) matches ProfileView::Loaded { action, .. } && action
            == UserActionView::FollowButton(
            FollowButtonView::Toggle { following: false, click: Msg::Follow },
        ),
        spec_effect(s, Msg::Follow) == (Effect::IssueFollow { username: s.props.username }),
        ({
            let success = spec_step(spec_step(s, Msg::Follow), Msg::Response(Ok(q)));
            spec_view(success) matches ProfileView::Loaded { action, .. } && action
                == UserActionView::FollowButton(
                FollowButtonView::Toggle { following: true, click: Msg::UnFollow },
            )
        }),
        ({
            let failure = spec_step(spec_step(s, Msg::Follow), Msg::Response(Err(e)));
            spec_view(failure) == spec_view(s)
        }),
{
}

/// Responses are applied strictly in arrival order and are not matched to
/// the requests that caused them: whichever successful response resolves
/// last determines the displayed profile, regardless of the order in which
/// the requests were issued.
pub proof fn lemma_last_response_wins(s: Profile, first: ProfileInfo, second: ProfileInfo)
    ensures
        spec_step(
            spec_step(spec_step(s, Msg::Follow), Msg::Response(Ok(first))),
            Msg::Response(Ok(second)),
        ).profile == Some(second),
        spec_step(
            spec_step(spec_step(s, Msg::Follow), Msg::Response(Ok(second))),
            Msg::Response(Ok(first)),
        ).profile == Some(first),
{
}

} // verus!

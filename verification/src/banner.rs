//! The marketing banner shown on the home page to anonymous visitors.

use vstd::prelude::*;

verus! {

/// The banner component. It holds no state: what it renders depends only on
/// whether a user is currently authenticated, which the shell reads fresh on
/// every render pass and passes to `view`.
pub struct Banner {}

/// The banner has no behaviour of its own; the one message does nothing.
#[derive(Debug, PartialEq, Eq, Clone)]
pub enum Msg {
    Noop,
}

/// What the banner renders: nothing for an authenticated user, the
/// promotional copy for an anonymous one.
#[derive(Debug, PartialEq, Eq, Clone)]
pub enum BannerView {
    Empty,
    Promo { heading: String, tagline: String },
}

impl Banner {
    /// Builds the component. There is nothing to initialise.
    pub fn create() -> (b: Banner) {
        Banner {  }
    }

    /// The banner has no messages to act on; it only ever re-renders.
    pub fn update(&mut self, _msg: Msg) -> (r: bool)
        ensures
            r == true,
            *final(self) == *old(self),
    {
        true
    }

    /// Renders the promotional copy if and only if no user is authenticated.
    /// The authentication state is read by the caller at render time, never
    /// cached here, so a toggle between two renders takes effect at once.
    pub fn view(&self, is_authenticated: bool) -> (v: BannerView)
        ensures
            is_authenticated <==> v is Empty,
            v matches BannerView::Promo { heading, tagline } ==> {
                &&& heading@ == "conduit"@
                &&& tagline@ == "A place to share your knowledge."@
            },
    {
        if is_authenticated {
            BannerView::Empty
        } else {
            BannerView::Promo {
                heading: "conduit".to_owned(),
                tagline: "A place to share your knowledge.".to_owned(),
            }
        }
    }
}

} // verus!

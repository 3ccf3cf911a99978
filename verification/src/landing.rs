//! The landing page: a sign-in button for a visitor, the plans for a user.

use crate::app_state::{same_user, user_view, UserInfo};
use vstd::prelude::*;

verus! {

/// The image of the sign-in button at rest.
pub const SIGN_IN_IMAGE_NORMAL: &'static str = "btn_google_signin_light_normal_web.png";

/// The image of the sign-in button under the pointer.
pub const SIGN_IN_IMAGE_FOCUS: &'static str = "btn_google_signin_light_focus_web.png";

/// The image of the sign-in button while it is pressed.
pub const SIGN_IN_IMAGE_PRESSED: &'static str = "btn_google_signin_light_pressed_web.png";

/// What the pointer did over the sign-in button.
#[derive(Clone, Copy, Debug, PartialEq, Eq, Structural)]
pub enum MouseEventType {
    Over,
    Out,
    Down,
    Up,
}

/// The events of the landing page.
pub enum LandingMsg {
    OnMouseEvent(MouseEventType),
    OnLoginClick,
    /// The signed-in user, as the application state now has it.
    OnAppStateContextUpdate(Option<UserInfo>),
}

/// What the landing page asks its host to do.
#[derive(Clone, Copy, Debug, PartialEq, Eq, Structural)]
pub enum LandingAction {
    Nothing,
    /// Send the visitor to the sign-in provider.
    Login,
}

/// The landing page's state.
pub struct Landing {
    pub google_login_image: String,
    pub user: Option<UserInfo>,
}

/// The sign-in button's image after the pointer event `e`.
pub open spec fn sign_in_image(e: MouseEventType) -> Seq<char> {
    match e {
        MouseEventType::Over => SIGN_IN_IMAGE_FOCUS@,
        MouseEventType::Out | MouseEventType::Up => SIGN_IN_IMAGE_NORMAL@,
        MouseEventType::Down => SIGN_IN_IMAGE_PRESSED@,
    }
}

impl Landing {
    /// The page for `user`, with the sign-in button at rest.
    pub fn create(user: Option<UserInfo>) -> (l: Landing)
        ensures
            l.google_login_image@ == SIGN_IN_IMAGE_NORMAL@,
            user_view(l.user) == user_view(user),
    {
        Landing { google_login_image: String::from_str(SIGN_IN_IMAGE_NORMAL), user }
    }

    /// Takes an event; gives whether to draw the page again and what the
    /// host is to do.
    pub fn update(&mut self, msg: LandingMsg) -> (r: (bool, LandingAction))
        ensures
            match msg {
                LandingMsg::OnMouseEvent(e) => {
                    &&& r == (true, LandingAction::Nothing)
                    &&& final(self).google_login_image@ == sign_in_image(e)
                    &&& user_view(final(self).user) == user_view(old(self).user)
                },
                LandingMsg::OnLoginClick => {
                    &&& r == (false, LandingAction::Login)
                    &&& final(self).google_login_image@ == old(self).google_login_image@
                    &&& user_view(final(self).user) == user_view(old(self).user)
                },
                LandingMsg::OnAppStateContextUpdate(user) => {
                    &&& r == (user_view(user) != user_view(old(self).user), LandingAction::Nothing)
                    &&& final(self).google_login_image@ == old(self).google_login_image@
                    &&& user_view(final(self).user) == user_view(user)
                },
            },
    {
        match msg {
            LandingMsg::OnMouseEvent(e) => {
                let image = match e {
                    MouseEventType::Over => SIGN_IN_IMAGE_FOCUS,
                    MouseEventType::Out | MouseEventType::Up => SIGN_IN_IMAGE_NORMAL,
                    MouseEventType::Down => SIGN_IN_IMAGE_PRESSED,
                };
                self.google_login_image = String::from_str(image);
                (true, LandingAction::Nothing)
            },
            LandingMsg::OnLoginClick => (false, LandingAction::Login),
            LandingMsg::OnAppStateContextUpdate(user) => {
                if !same_user(&self.user, &user) {
                    self.user = user;
                    (true, LandingAction::Nothing)
                } else {
                    (false, LandingAction::Nothing)
                }
            },
        }
    }
}

} // verus!

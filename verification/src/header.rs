//! The application's top bar: the page title, which can be edited on a
//! plan, the navigation menu button, and the signed-in user's menu.

use crate::app_state::{title_view, AppState};
use vstd::prelude::*;
use vstd::string::*;

verus! {

/// The application's pages.
#[derive(Clone, Copy, Debug, PartialEq, Eq, Structural)]
pub enum AppRoutes {
    Landing,
    Planner,
}

/// The names of the pages.
pub const LANDING_LABEL: &'static str = "My Plans";
pub const PLANNER_LABEL: &'static str = "Planner";

/// The name of a page.
pub open spec fn route_label(route: AppRoutes) -> Seq<char> {
    match route {
        AppRoutes::Landing => LANDING_LABEL@,
        AppRoutes::Planner => PLANNER_LABEL@,
    }
}

impl AppRoutes {
    /// The name of the page.
    pub fn label(&self) -> (s: &'static str)
        ensures
            s@ == route_label(*self),
    {
        match self {
            AppRoutes::Landing => LANDING_LABEL,
            AppRoutes::Planner => PLANNER_LABEL,
        }
    }
}

/// The title the page shows: the one the application state holds, or the
/// name of the page.
pub open spec fn shown_title(app: AppState, route: AppRoutes) -> Seq<char> {
    match title_view(app.page_title) {
        Some(t) => t,
        None => route_label(route),
    }
}

/// The title the page shows.
pub fn page_title_of(app: &AppState, route: AppRoutes) -> (s: String)
    ensures
        s@ == shown_title(*app, route),
{
    match &app.page_title {
        Some(t) => t.clone(),
        None => String::from_str(route.label()),
    }
}

/// The bar is drawn except on the landing page while no one is signed in.
pub fn header_shown(app: &AppState, route: AppRoutes) -> (b: bool)
    ensures
        b == !(route == AppRoutes::Landing && app.user_info is None),
{
    !(route == AppRoutes::Landing && app.user_info.is_none())
}

/// The buttons beside the title.
#[derive(Clone, Copy, Debug, PartialEq, Eq, Structural)]
pub enum TitleControls {
    NoControls,
    /// A button to start editing the title.
    Edit,
    /// Buttons to keep or drop the edited title.
    DoneAndCancel,
}

/// The top bar's own state.
pub struct HeaderState {
    pub profile_menu_open: bool,
    pub is_editing_title: bool,
    pub page_title: String,
}

/// The events of the top bar.
pub enum HeaderEvent {
    ProfilePictureClicked,
    ProfileMenuClosed,
    TopBarMenuClicked,
    TitleChanged(String),
    EditClicked,
    DoneClicked,
    CancelClicked,
}

/// What the top bar asks its host to do.
pub enum HeaderAction {
    Nothing,
    /// Open or close the navigation drawer.
    SetSidebarOpen(bool),
    /// Save the plan's new title and show it as the page's title.
    SaveTitle(String),
}

impl HeaderState {
    /// The bar as it first shows: menus closed, not editing, and the title
    /// the page shows.
    pub fn new(app: &AppState, route: AppRoutes) -> (h: HeaderState)
        ensures
            !h.profile_menu_open,
            !h.is_editing_title,
            h.page_title@ == shown_title(*app, route),
    {
        HeaderState {
            profile_menu_open: false,
            is_editing_title: false,
            page_title: page_title_of(app, route),
        }
    }

    /// The title may be edited on a plan only.
    pub fn title_controls(&self, route: AppRoutes) -> (c: TitleControls)
        ensures
            c == if route != AppRoutes::Planner {
                TitleControls::NoControls
            } else if self.is_editing_title {
                TitleControls::DoneAndCancel
            } else {
                TitleControls::Edit
            },
    {
        if route != AppRoutes::Planner {
            TitleControls::NoControls
        } else if self.is_editing_title {
            TitleControls::DoneAndCancel
        } else {
            TitleControls::Edit
        }
    }

    /// Takes an event of the bar on a page where the application state is
    /// `app`; gives what the host is to do.
    pub fn handle(&mut self, event: HeaderEvent, app: &AppState, route: AppRoutes) -> (action: HeaderAction)
        ensures
            match event {
                HeaderEvent::ProfilePictureClicked => {
                    &&& final(self).profile_menu_open == !old(self).profile_menu_open
                    &&& final(self).is_editing_title == old(self).is_editing_title
                    &&& final(self).page_title@ == old(self).page_title@
                    &&& action is Nothing
                },
                HeaderEvent::ProfileMenuClosed => {
                    &&& !final(self).profile_menu_open
                    &&& final(self).is_editing_title == old(self).is_editing_title
                    &&& final(self).page_title@ == old(self).page_title@
                    &&& action is Nothing
                },
                HeaderEvent::TopBarMenuClicked => {
                    &&& final(self).profile_menu_open == old(self).profile_menu_open
                    &&& final(self).is_editing_title == old(self).is_editing_title
                    &&& final(self).page_title@ == old(self).page_title@
                    &&& action matches HeaderAction::SetSidebarOpen(open) && open
                        == !app.nav_sidebar_open
                },
                HeaderEvent::TitleChanged(value) => {
                    &&& final(self).profile_menu_open == old(self).profile_menu_open
                    &&& final(self).is_editing_title
                    &&& final(self).page_title@ == value@
                    &&& action is Nothing
                },
                HeaderEvent::EditClicked => {
                    &&& final(self).profile_menu_open == old(self).profile_menu_open
                    &&& final(self).is_editing_title
                    &&& final(self).page_title@ == shown_title(*app, route)
                    &&& action is Nothing
                },
                HeaderEvent::DoneClicked => {
                    &&& final(self).profile_menu_open == old(self).profile_menu_open
                    &&& !final(self).is_editing_title
                    &&& final(self).page_title@ == old(self).page_title@
                    &&& action matches HeaderAction::SaveTitle(t) && t@ == old(self).page_title@
                },
                HeaderEvent::CancelClicked => {
                    &&& final(self).profile_menu_open == old(self).profile_menu_open
                    &&& !final(self).is_editing_title
                    &&& final(self).page_title@ == shown_title(*app, route)
                    &&& action is Nothing
                },
            },
    {
        match event {
            HeaderEvent::ProfilePictureClicked => {
                self.profile_menu_open = !self.profile_menu_open;
                HeaderAction::Nothing
            },
            HeaderEvent::ProfileMenuClosed => {
                self.profile_menu_open = false;
                HeaderAction::Nothing
            },
            HeaderEvent::TopBarMenuClicked => HeaderAction::SetSidebarOpen(!app.nav_sidebar_open),
            HeaderEvent::TitleChanged(value) => {
                self.is_editing_title = true;
                self.page_title = value;
                HeaderAction::Nothing
            },
            HeaderEvent::EditClicked => {
                self.is_editing_title = true;
                self.page_title = page_title_of(app, route);
                HeaderAction::Nothing
            },
            HeaderEvent::DoneClicked => {
                self.is_editing_title = false;
                HeaderAction::SaveTitle(self.page_title.clone())
            },
            HeaderEvent::CancelClicked => {
                self.is_editing_title = false;
                self.page_title = page_title_of(app, route);
                HeaderAction::Nothing
            },
        }
    }
}

} // verus!

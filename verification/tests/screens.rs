use race_planner::app_state::{AppState, AppStateAction, SignIn, SignInAction, SignInEvent, UserInfo};
use race_planner::auth::{
    check_nonce, check_state, choose_signing_key, id_token_of, parse_fragment, read_redirect_fragment, AuthError,
    AuthRedirect, RedirectAction, RedirectEvent, RedirectStage, TokenClaims, UserProfile,
};
use race_planner::event_bus::{EventBus, EventBusInput, EventBusOutput};
use race_planner::header::{header_shown, page_title_of, AppRoutes, HeaderAction, HeaderEvent, HeaderState, TitleControls};
use race_planner::md_text_field::{
    icon_classes, icon_style_attribute, text_field_classes, text_field_update, MaterialTextFieldIconStyle,
    MaterialTextFieldMessage,
};
use race_planner::http::{check_auth_token, handle_error, CustomError, ErrorResponse, TokenCheck};
use race_planner::landing::{Landing, LandingAction, LandingMsg, MouseEventType};
use race_planner::planner::{Overview, OverviewMsg, Planner, PlannerAction, PlannerMsg, PlannerRoutes, PlannerStart, RacePlanner};
use race_planner::roster::{Driver, DriverRoster, DriverRosterMsg, RosterRequest};
use race_planner::share_plan::{SharePlan, SharePlanAction, SharePlanEvent};
use race_planner::stint::{FuelStintAverageTimes, StintData};
use race_planner::time::Duration;

fn user(name: &str) -> UserInfo {
    UserInfo { email: format!("{}@example.com", name), picture: format!("{}.png", name), name: name.to_string() }
}

fn text(chars: &[char]) -> String {
    chars.iter().collect()
}

#[test]
fn app_state_actions_set_their_own_part() {
    let s = AppState::new();
    assert!(s.user_info.is_none() && !s.nav_sidebar_open && s.page_title.is_none());
    let s = s.reduce(AppStateAction::SetSidebarOpen(true));
    assert!(s.nav_sidebar_open);
    let s = s.reduce(AppStateAction::SetUser(Some(user("ann"))));
    assert_eq!(s.user_info.as_ref().map(|u| u.name.clone()), Some("ann".to_string()));
    assert!(s.nav_sidebar_open);
    let s = s.reduce(AppStateAction::SetPageTitle("Le Mans".to_string()));
    assert_eq!(s.page_title.as_deref(), Some("Le Mans"));
    let s = s.open_my_plans();
    assert_eq!(s.page_title.as_deref(), Some("My Plans"));
    assert!(!s.nav_sidebar_open);
    assert!(s.user_info.is_some());
}

#[test]
fn signing_in_with_a_stored_token() {
    let mut s = SignIn::new();
    assert!(matches!(s.step(SignInEvent::Started(false)), SignInAction::ReadStoredToken));
    assert!(matches!(s.step(SignInEvent::StoredTokenRead(true)), SignInAction::FetchMe));
    assert!(s.is_loading);
    match s.step(SignInEvent::MeFetched(Some(user("bo")))) {
        SignInAction::SetUser(u) => assert_eq!(u.name, "bo"),
        _ => panic!("the user is set"),
    }
    assert!(!s.is_loading);
    assert!(matches!(s.step(SignInEvent::Started(true)), SignInAction::Nothing));
}

#[test]
fn signing_in_through_the_redirect() {
    let mut s = SignIn::new();
    assert!(matches!(s.step(SignInEvent::StoredTokenRead(false)), SignInAction::HandleRedirect));
    assert!(s.is_loading);
    match s.step(SignInEvent::RedirectHandled(Ok(Some(user("cy"))))) {
        SignInAction::SetUserAndClearHash(u) => assert_eq!(u.email, "cy@example.com"),
        _ => panic!("the user is set"),
    }
    assert!(!s.is_loading);
    let mut t = SignIn::new();
    t.step(SignInEvent::StoredTokenRead(true));
    assert!(matches!(t.step(SignInEvent::MeFetched(None)), SignInAction::Login));
    assert!(t.is_loading);
    match t.step(SignInEvent::RedirectHandled(Err("denied".to_string()))) {
        SignInAction::LogError(m) => assert_eq!(m, "denied"),
        _ => panic!("the error is logged"),
    }
    assert!(!t.is_loading);
}

#[test]
fn the_landing_button_follows_the_pointer() {
    let mut l = Landing::create(None);
    assert_eq!(l.google_login_image, "btn_google_signin_light_normal_web.png");
    assert_eq!(l.update(LandingMsg::OnMouseEvent(MouseEventType::Over)), (true, LandingAction::Nothing));
    assert_eq!(l.google_login_image, "btn_google_signin_light_focus_web.png");
    l.update(LandingMsg::OnMouseEvent(MouseEventType::Down));
    assert_eq!(l.google_login_image, "btn_google_signin_light_pressed_web.png");
    l.update(LandingMsg::OnMouseEvent(MouseEventType::Up));
    assert_eq!(l.google_login_image, "btn_google_signin_light_normal_web.png");
    assert_eq!(l.update(LandingMsg::OnLoginClick), (false, LandingAction::Login));
    assert_eq!(l.update(LandingMsg::OnAppStateContextUpdate(Some(user("di")))), (true, LandingAction::Nothing));
    assert_eq!(l.update(LandingMsg::OnAppStateContextUpdate(Some(user("di")))), (false, LandingAction::Nothing));
    assert_eq!(l.update(LandingMsg::OnAppStateContextUpdate(None)), (true, LandingAction::Nothing));
    assert!(l.user.is_none());
}

#[test]
fn the_header_edits_a_plans_title() {
    let app = AppState::new().reduce(AppStateAction::SetUser(Some(user("ed"))));
    assert!(header_shown(&app, AppRoutes::Landing));
    assert!(!header_shown(&AppState::new(), AppRoutes::Landing));
    assert!(header_shown(&AppState::new(), AppRoutes::Planner));
    assert_eq!(page_title_of(&app, AppRoutes::Planner), "Planner");
    assert_eq!(AppRoutes::Landing.label(), "My Plans");
    let app = app.reduce(AppStateAction::SetPageTitle("Spa 24".to_string()));
    let mut h = HeaderState::new(&app, AppRoutes::Planner);
    assert_eq!(h.page_title, "Spa 24");
    assert_eq!(h.title_controls(AppRoutes::Planner), TitleControls::Edit);
    assert_eq!(h.title_controls(AppRoutes::Landing), TitleControls::NoControls);
    assert!(matches!(h.handle(HeaderEvent::EditClicked, &app, AppRoutes::Planner), HeaderAction::Nothing));
    assert_eq!(h.title_controls(AppRoutes::Planner), TitleControls::DoneAndCancel);
    h.handle(HeaderEvent::TitleChanged("Spa 24 Hours".to_string()), &app, AppRoutes::Planner);
    match h.handle(HeaderEvent::DoneClicked, &app, AppRoutes::Planner) {
        HeaderAction::SaveTitle(t) => assert_eq!(t, "Spa 24 Hours"),
        _ => panic!("the title is saved"),
    }
    assert!(!h.is_editing_title);
    h.handle(HeaderEvent::TitleChanged("oops".to_string()), &app, AppRoutes::Planner);
    h.handle(HeaderEvent::CancelClicked, &app, AppRoutes::Planner);
    assert_eq!(h.page_title, "Spa 24");
    assert!(!h.is_editing_title);
}

#[test]
fn the_header_menus() {
    let app = AppState::new();
    let mut h = HeaderState::new(&app, AppRoutes::Landing);
    assert_eq!(h.page_title, "My Plans");
    h.handle(HeaderEvent::ProfilePictureClicked, &app, AppRoutes::Landing);
    assert!(h.profile_menu_open);
    h.handle(HeaderEvent::ProfilePictureClicked, &app, AppRoutes::Landing);
    assert!(!h.profile_menu_open);
    h.handle(HeaderEvent::ProfilePictureClicked, &app, AppRoutes::Landing);
    h.handle(HeaderEvent::ProfileMenuClosed, &app, AppRoutes::Landing);
    assert!(!h.profile_menu_open);
    match h.handle(HeaderEvent::TopBarMenuClicked, &app, AppRoutes::Landing) {
        HeaderAction::SetSidebarOpen(open) => assert!(open),
        _ => panic!("the drawer opens"),
    }
}

#[test]
fn sharing_a_plan_collects_addresses() {
    let mut s = SharePlan::new();
    assert!(s.send_disabled());
    assert!(matches!(s.handle(SharePlanEvent::ShareClicked), SharePlanAction::FetchSharedUsers));
    assert!(s.dialog_open);
    s.handle(SharePlanEvent::SharedUsersLoaded(vec!["a@x.com".to_string()]));
    s.handle(SharePlanEvent::EmailChanged("b@x.com".to_string()));
    s.handle(SharePlanEvent::KeyDown("Tab".to_string()));
    assert!(s.emails_to_share.is_empty());
    s.handle(SharePlanEvent::KeyDown("Enter".to_string()));
    assert_eq!(s.emails_to_share, vec!["b@x.com".to_string()]);
    assert_eq!(s.current_email, "");
    assert!(!s.send_disabled());
    assert_eq!(s.display_emails(), vec!["a@x.com".to_string(), "b@x.com".to_string()]);
    match s.handle(SharePlanEvent::SendClicked) {
        SharePlanAction::SharePlan(emails) => assert_eq!(emails, vec!["b@x.com".to_string()]),
        _ => panic!("the plan is shared"),
    }
    assert!(!s.dialog_open);
    s.handle(SharePlanEvent::ShareClicked);
    s.handle(SharePlanEvent::DialogClosed);
    assert!(!s.dialog_open);
}

#[test]
fn a_new_plan_and_its_tabs() {
    let p = RacePlanner::new();
    assert_eq!(p.title, "New Plan");
    assert!(p.overall_event_config.is_none() && p.schedule_rows.is_none());
    let route = PlannerRoutes::Schedule { id: 42 };
    assert_eq!(route.plan_id(), 42);
    assert_eq!(route.label(), "Schedule");
    assert_eq!(PlannerRoutes::Roster { id: 1 }.icon(), "list");
    assert_eq!(PlannerRoutes::Overview { id: 1 }.icon(), "home");
    assert!(route.is_active(&PlannerRoutes::Schedule { id: 42 }));
    assert!(!route.is_active(&PlannerRoutes::Schedule { id: 43 }));
    assert!(!route.is_active(&PlannerRoutes::Roster { id: 42 }));
}

#[test]
fn the_planner_opens_and_renames_plans() {
    let (mut planner, start) = Planner::create(0, 77);
    assert_eq!(start, PlannerStart::CreatePlan(77));
    assert_eq!(planner.plan_id, 77);
    let (other, start) = Planner::create(5, 77);
    assert_eq!(start, PlannerStart::GetPlan(5));
    assert_eq!(other.plan_id, 5);
    let mut arrived = RacePlanner::new();
    arrived.title = "Daytona".to_string();
    match planner.update(PlannerMsg::UpdatePlan(78, arrived)) {
        (true, PlannerAction::SetPageTitle(t)) => assert_eq!(t, "Daytona"),
        _ => panic!("the title is shown"),
    }
    assert_eq!(planner.plan_id, 78);
    match planner.update(PlannerMsg::UpdatePlanTitle("Daytona 24".to_string())) {
        (false, PlannerAction::PatchTitle(id, t)) => {
            assert_eq!(id, 78);
            assert_eq!(t, "Daytona 24");
        }
        _ => panic!("the title is saved"),
    }
    assert_eq!(planner.plan.title, "Daytona 24");
    assert!(matches!(planner.update(PlannerMsg::UpdateTab), (true, PlannerAction::Nothing)));
    match planner.update(PlannerMsg::ChangeRoute(PlannerRoutes::Roster { id: 78 })) {
        (false, PlannerAction::PushRoute(r)) => assert_eq!(r, PlannerRoutes::Roster { id: 78 }),
        _ => panic!("the tab changes"),
    }
}

#[test]
fn the_overview_redraws_and_measures_against_the_standard_lap() {
    let mut o = Overview {};
    assert!(o.update(OverviewMsg::ContextUpdate));
    assert_eq!(Overview::standard_lap_time(&None), Duration::zero());
    let mut standard = StintData::new();
    standard.update_lap_time(Duration::seconds(88), Duration::zero());
    let times = FuelStintAverageTimes { standard_fuel_stint: standard, fuel_saving_stint: StintData::new() };
    assert_eq!(Overview::standard_lap_time(&Some(times)), Duration::seconds(88));
}

#[test]
fn the_roster_edits_and_saves_drivers() {
    let mut roster = DriverRoster::create(&vec![]);
    assert!(matches!(roster.update(DriverRosterMsg::AddDriver), (true, RosterRequest::Nothing)));
    assert_eq!(roster.drivers[0].color, "#FFFFFF");
    roster.update(DriverRosterMsg::UpdateDriverName("Fay".to_string(), 0));
    assert!(matches!(roster.update(DriverRosterMsg::UpdateDriverColor("#123456".to_string(), 0)), (true, RosterRequest::Nothing)));
    roster.update(DriverRosterMsg::UpdateDriverUtcOffset(-5, 0));
    roster.update(DriverRosterMsg::UpdateDriverIrating(2500, 0));
    match roster.update(DriverRosterMsg::UpdateDriverStintPreference(2, 0)) {
        (false, RosterRequest::CreateDriver(d, row)) => {
            assert_eq!(row, 0);
            assert_eq!(d.name, "Fay");
            assert_eq!(d.stint_preference, 2);
        }
        _ => panic!("a new driver is created"),
    }
    roster.update(DriverRosterMsg::UpdateDriverId(31, 0));
    match roster.update(DriverRosterMsg::UpdateDriverStintPreference(3, 0)) {
        (false, RosterRequest::UpdateDriver(d)) => {
            assert_eq!(d.id, 31);
            assert_eq!(d.utc_offset, -5);
            assert_eq!(d.irating, 2500);
        }
        _ => panic!("the driver is saved"),
    }
}

fn named(name: &str) -> Driver {
    let mut d = Driver::new();
    d.name = name.to_string();
    d
}

#[test]
fn the_bus_answers_with_the_roster_last_put() {
    let mut bus = EventBus::create();
    bus.connected(3);
    bus.connected(8);
    bus.connected(3);
    assert_eq!(bus.subscribers().len(), 2);
    assert!(bus.subscribers().contains(&3) && bus.subscribers().contains(&8));
    let put = bus.handle_input(EventBusInput::PutDriverRoster(vec![named("Gil"), named("Hal")]));
    assert!(put.is_empty());
    let out = bus.handle_input(EventBusInput::GetDriverRoster);
    assert_eq!(out.len(), 2);
    let mut ids: Vec<u64> = out.iter().map(|(id, _)| *id).collect();
    ids.sort();
    assert_eq!(ids, vec![3, 8]);
    for (_, msg) in out.iter() {
        match msg {
            EventBusOutput::SendDriverRoster(d) => {
                assert_eq!(d.iter().map(|x| x.name.as_str()).collect::<Vec<_>>(), vec!["Gil", "Hal"])
            }
            _ => panic!("the roster is sent"),
        }
    }
    bus.disconnected(3);
    assert_eq!(bus.subscribers().len(), 1);
    assert!(bus.subscribers().contains(&8));
    let out = bus.handle_input(EventBusInput::PutPlannerTitle("Sebring".to_string()));
    assert_eq!(out.len(), 1);
    assert!(matches!(&out[0], (8, EventBusOutput::SendPlannerTitle(t)) if t == "Sebring"));
    assert_eq!(bus.race_planner_data().driver_roster.len(), 2);
}

#[test]
fn the_sign_in_fragment_is_read_in_parts() {
    let ps = parse_fragment("state=abc&id_token=xyz=&scope=openid").unwrap();
    assert_eq!(ps.len(), 3);
    assert_eq!(text(&ps[0].key), "state");
    assert_eq!(text(&ps[0].value), "abc");
    assert_eq!(text(&ps[1].value), "xyz");
    assert!(parse_fragment("state=abc&broken").is_none());
    assert!(matches!(read_redirect_fragment(None), Ok(None)));
    assert!(matches!(read_redirect_fragment(Some("")), Ok(None)));
    assert!(matches!(read_redirect_fragment(Some("novalue")), Err(AuthError::MalformedResponse)));
    let token = id_token_of(&ps).ok().unwrap();
    assert_eq!(text(&token), "xyz");
    let no_token = parse_fragment("state=abc").unwrap();
    assert!(matches!(id_token_of(&no_token), Err(AuthError::MissingIdTokenInResponse)));
}

#[test]
fn the_sign_in_state_and_nonce_must_match() {
    let ps = parse_fragment("id_token=t&state=abc&state=zzz").unwrap();
    assert!(check_state(&ps, Some("abc".to_string())).is_ok());
    assert!(matches!(check_state(&ps, Some("zzz".to_string())), Err(AuthError::MismatchedState)));
    assert!(matches!(check_state(&ps, None), Err(AuthError::MissingStateInStorage)));
    let no_state = parse_fragment("id_token=t").unwrap();
    assert!(matches!(check_state(&no_state, None), Err(AuthError::MissingStateInResponse)));
    assert!(check_nonce("n1", Some("n1".to_string())).is_ok());
    assert!(matches!(check_nonce("n1", Some("n2".to_string())), Err(AuthError::MismatchedNonce)));
    assert!(matches!(check_nonce("n1", None), Err(AuthError::MissingNonceInStorage)));
}

#[test]
fn the_signing_key_is_chosen_by_id() {
    let ids = vec!["k1".to_string(), "k2".to_string(), "k2".to_string()];
    assert_eq!(choose_signing_key(&ids, None).ok(), Some(0));
    assert_eq!(choose_signing_key(&ids, Some("k2".to_string())).ok(), Some(1));
    assert!(matches!(choose_signing_key(&ids, Some("k9".to_string())), Err(AuthError::MissingTokenSigningKey)));
    assert!(matches!(choose_signing_key(&vec![], None), Err(AuthError::MissingTokenSigningKey)));
}

#[test]
fn sign_in_errors_have_messages() {
    assert_eq!(AuthError::MismatchedNonce.message(), "mismatched nonce in the token response");
    assert_eq!(AuthError::MissingStateInStorage.message(), "missing state in session storage");
    assert_eq!(AuthError::from_text("failed to get me").message(), "failed to get me");
    assert_eq!(AuthError::TokenParseError("bad token".to_string()).message(), "bad token");
}

#[test]
fn text_fields_are_styled_by_their_settings() {
    assert_eq!(text_field_classes(false, true, false, None), vec!["mdc-text-field", "mdc-text-field--filled"]);
    assert_eq!(
        text_field_classes(true, false, true, Some(MaterialTextFieldIconStyle::Trailing)),
        vec![
            "mdc-text-field",
            "mdc-text-field--filled",
            "mdc-text-field--disabled",
            "mdc-text-field--no-label",
            "mdc-text-field--end-aligned",
            "mdc-text-field--with-trailing-icon",
        ]
    );
    assert_eq!(
        icon_classes(MaterialTextFieldIconStyle::Leading),
        vec!["material-icons", "mdc-text-field__icon", "mdc-text-field__icon--leading"]
    );
    assert_eq!(icon_style_attribute(&Some("#FF0000".to_string())), "background-color: #FF0000");
    assert_eq!(icon_style_attribute(&None), "");
    assert_eq!(text_field_update(MaterialTextFieldMessage::ChangeValue("12".to_string())), (false, "12".to_string()));
}

#[test]
fn requests_carry_only_a_live_token() {
    let (ok, delete) = check_auth_token(Ok("tok".to_string()), TokenCheck::Claims(false));
    assert!(matches!(ok, Ok(t) if t == "tok"));
    assert!(!delete);
    let (expired, delete) = check_auth_token(Ok("tok".to_string()), TokenCheck::Claims(true));
    assert!(matches!(expired, Err(CustomError::TokenExpired)));
    assert!(delete);
    let (bad, delete) = check_auth_token(Ok("tok".to_string()), TokenCheck::Unreadable("not a JWT".to_string()));
    assert!(matches!(bad, Err(CustomError::BadToken(m)) if m == "not a JWT"));
    assert!(delete);
    let (unread, delete) = check_auth_token(Ok("tok".to_string()), TokenCheck::ClaimsUnreadable);
    assert!(matches!(unread, Err(CustomError::TokenExpired)));
    assert!(!delete);
    let (missing, delete) = check_auth_token(Err("no key".to_string()), TokenCheck::Claims(false));
    assert!(!delete);
    let missing = missing.err().unwrap();
    assert_eq!(missing.message(), "TokenNotFound: no key");
    assert!(matches!(handle_error(missing), ErrorResponse::Login));
    assert!(matches!(handle_error(CustomError::BadUrl("relative URL".to_string())), ErrorResponse::Log(m) if m == "relative URL"));
    assert!(matches!(handle_error(CustomError::FailedRequest), ErrorResponse::Log(m) if m == "request failed"));
}

#[test]
fn a_redirect_is_finished_step_by_step() {
    let mut r = AuthRedirect::new();
    let a = r.step(RedirectEvent::Redirected(
        Some("state=abc&id_token=tok".to_string()),
        Some("abc".to_string()),
    ));
    assert!(matches!(a, RedirectAction::FetchSigningKeys));
    let a = r.step(RedirectEvent::SigningKeysFetched(Some(vec!["k1".to_string(), "k2".to_string()])));
    match a {
        RedirectAction::ParseToken(t) => assert_eq!(t.iter().collect::<String>(), "tok"),
        _ => panic!("the token is read next"),
    }
    // An event that belongs to another stage changes nothing.
    assert!(matches!(r.step(RedirectEvent::MeFetched(None)), RedirectAction::Ignore));
    let a = r.step(RedirectEvent::TokenParsed(Ok(Some("k2".to_string()))));
    assert!(matches!(a, RedirectAction::ValidateToken(1)));
    let claims = TokenClaims { nonce: "n1".to_string(), picture: "pic".to_string() };
    let a = r.step(RedirectEvent::TokenValidated(Ok(claims), Some("n1".to_string())));
    assert!(matches!(a, RedirectAction::FetchMe));
    assert!(matches!(r.step(RedirectEvent::MeFetched(None)), RedirectAction::CreateUser));
    let me = UserProfile { name: "Ann".to_string(), email: "ann@example.com".to_string() };
    match r.step(RedirectEvent::UserCreated(Some(me))) {
        RedirectAction::Finish(Ok(Some(u))) => {
            assert_eq!(u.name, "Ann");
            assert_eq!(u.email, "ann@example.com");
            assert_eq!(u.picture, "pic");
        }
        _ => panic!("the created user is signed in"),
    }
    assert!(matches!(r.stage, RedirectStage::Done));
}

#[test]
fn a_redirect_stops_at_the_first_failed_check() {
    let mut r = AuthRedirect::new();
    assert!(matches!(r.step(RedirectEvent::Redirected(None, None)), RedirectAction::Finish(Ok(None))));
    let mut r = AuthRedirect::new();
    assert!(matches!(
        r.step(RedirectEvent::Redirected(Some(String::new()), None)),
        RedirectAction::Finish(Ok(None))
    ));
    let mut r = AuthRedirect::new();
    assert!(matches!(
        r.step(RedirectEvent::Redirected(Some("state=abc".to_string()), Some("xyz".to_string()))),
        RedirectAction::Finish(Err(AuthError::MismatchedState))
    ));
    let mut r = AuthRedirect::new();
    assert!(matches!(
        r.step(RedirectEvent::Redirected(Some("state=abc".to_string()), Some("abc".to_string()))),
        RedirectAction::Finish(Err(AuthError::MissingIdTokenInResponse))
    ));
    let mut r = AuthRedirect::new();
    r.step(RedirectEvent::Redirected(Some("id_token=t&state=s".to_string()), Some("s".to_string())));
    match r.step(RedirectEvent::SigningKeysFetched(None)) {
        RedirectAction::Finish(Err(AuthError::Other(m))) => assert_eq!(m, "error getting signing keys"),
        _ => panic!("no keys, no sign-in"),
    }
    let mut r = AuthRedirect::new();
    r.step(RedirectEvent::Redirected(Some("id_token=t&state=s".to_string()), Some("s".to_string())));
    r.step(RedirectEvent::SigningKeysFetched(Some(vec!["k1".to_string()])));
    assert!(matches!(
        r.step(RedirectEvent::TokenParsed(Ok(Some("k9".to_string())))),
        RedirectAction::Finish(Err(AuthError::MissingTokenSigningKey))
    ));
    let mut r = AuthRedirect::new();
    r.step(RedirectEvent::Redirected(Some("id_token=t&state=s".to_string()), Some("s".to_string())));
    r.step(RedirectEvent::SigningKeysFetched(Some(vec!["k1".to_string()])));
    assert!(matches!(r.step(RedirectEvent::TokenParsed(Ok(None))), RedirectAction::ValidateToken(0)));
    let claims = TokenClaims { nonce: "n1".to_string(), picture: String::new() };
    assert!(matches!(
        r.step(RedirectEvent::TokenValidated(Ok(claims), Some("n2".to_string()))),
        RedirectAction::Finish(Err(AuthError::MismatchedNonce))
    ));
}

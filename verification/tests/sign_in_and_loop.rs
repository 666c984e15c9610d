use yt_tui::app_state::{Action, AppState, Event, Key, MenuItem, Token, TokenStore};
use yt_tui::authenticate::{
    authorization_code, browser_reply, client_settings, code_from_pairs, plan_authentication,
    stage_message, AuthError, AuthPlan, AuthStage, Credentials, Installed,
};
use yt_tui::tui::{
    authentication_error_line, begin_cycle, menu_titles, next_loop_state, poll_budget,
    route_event, tick_due, LoopState, TICK_RATE_MS,
};

#[test]
fn a_stored_refresh_secret_is_used() {
    let with_refresh = Token {
        access_token: "a".to_string(),
        refresh_token: Some("r".to_string()),
    };
    let without = Token { access_token: "a".to_string(), refresh_token: None };
    assert_eq!(
        plan_authentication(Some(&with_refresh)),
        AuthPlan::Refresh { refresh_token: "r".to_string() }
    );
    assert_eq!(plan_authentication(Some(&without)), AuthPlan::Interactive);
    assert_eq!(plan_authentication(None), AuthPlan::Interactive);
}

#[test]
fn sign_in_stages_are_reported() {
    assert_eq!(stage_message(AuthStage::Refreshed), "Token refreshed successfully.");
    assert_eq!(stage_message(AuthStage::OpeningBrowser), "Opening your browser to authenticate...");
    assert_eq!(
        stage_message(AuthStage::WaitingForRedirect),
        "Waiting for authentication response..."
    );
    assert_eq!(stage_message(AuthStage::Complete), "Authentication complete!");
    assert_eq!(
        browser_reply(),
        "Authentication complete! You can close this browser tab and return to the app."
    );
    assert_eq!(authentication_error_line("denied"), "Authentication error: denied");
}

#[test]
fn the_code_is_taken_from_the_redirect() {
    assert_eq!(authorization_code("/?code=abc123&scope=x"), Ok("abc123".to_string()));
    assert_eq!(authorization_code("/?state=s&code=4%2F0A-b%20c"), Ok("4/0A-b c".to_string()));
    assert_eq!(authorization_code("/cb?code=first&code=second"), Ok("first".to_string()));
    assert_eq!(authorization_code("/?code="), Ok(String::new()));
    assert_eq!(authorization_code("?code=q"), Ok("q".to_string()));
}

#[test]
fn a_redirect_without_code_is_an_error() {
    assert_eq!(authorization_code("/"), Err(AuthError::MissingCode));
    assert_eq!(authorization_code(""), Err(AuthError::MissingCode));
    assert_eq!(authorization_code("/?error=access_denied"), Err(AuthError::MissingCode));
    assert_eq!(authorization_code("/?Code=x&codes=y"), Err(AuthError::MissingCode));
    assert_eq!(authorization_code("/#code=x"), Err(AuthError::MissingCode));
    assert_eq!(AuthError::MissingCode.message(), "No 'code' parameter found in redirect");
}

#[test]
fn a_redirect_that_is_no_address_is_an_error() {
    assert_eq!(authorization_code(":99999999/?code=x"), Err(AuthError::InvalidRedirect));
    assert_eq!(AuthError::InvalidRedirect.message(), "Invalid redirect address");
}

#[test]
fn the_first_code_pair_wins() {
    let list = vec![
        ("state".to_string(), "s".to_string()),
        ("code".to_string(), "one".to_string()),
        ("code".to_string(), "two".to_string()),
    ];
    assert_eq!(code_from_pairs(&list), Ok("one".to_string()));
    assert_eq!(code_from_pairs(&vec![]), Err(AuthError::MissingCode));
    assert_eq!(
        code_from_pairs(&vec![("cod".to_string(), "x".to_string())]),
        Err(AuthError::MissingCode)
    );
}

#[test]
fn client_settings_carry_the_registration() {
    let credentials = Credentials {
        installed: Installed {
            client_id: "id".to_string(),
            client_secret: "sec".to_string(),
            redirect_uris: vec!["http://localhost".to_string()],
        },
    };
    let settings = client_settings(&credentials);
    assert_eq!(settings.client_id, "id");
    assert_eq!(settings.client_secret, "sec");
    assert_eq!(settings.auth_url, "https://accounts.google.com/o/oauth2/v2/auth");
    assert_eq!(settings.token_url, "https://oauth2.googleapis.com/token");
    assert_eq!(settings.redirect_uri, "http://127.0.0.1:8080");
    assert_eq!(settings.scope, "https://www.googleapis.com/auth/youtube");
}

#[test]
fn the_pump_waits_until_the_deadline() {
    assert_eq!(TICK_RATE_MS, 200);
    assert_eq!(poll_budget(200, 0), 200);
    assert_eq!(poll_budget(200, 150), 50);
    assert_eq!(poll_budget(200, 200), 0);
    assert_eq!(poll_budget(200, 5000), 0);
    assert_eq!(poll_budget(0, 0), 0);
    assert_eq!(poll_budget(u64::MAX, 1), u64::MAX - 1);
    assert!(!tick_due(200, 199));
    assert!(tick_due(200, 200));
    assert!(tick_due(200, 201));
}

#[test]
fn authentication_starts_once() {
    let mut state = AppState::new();
    let mut attempted = false;
    state.messages.push("old".to_string());
    assert!(!begin_cycle(&mut state, &mut attempted));
    assert!(!attempted);
    assert_eq!(state.messages.len(), 1);
    state.active_menu_item = MenuItem::Account;
    assert!(begin_cycle(&mut state, &mut attempted));
    assert!(attempted);
    assert!(state.messages.is_empty());
    state.messages.push("progress".to_string());
    assert!(!begin_cycle(&mut state, &mut attempted));
    assert!(attempted);
    assert_eq!(state.messages, vec!["progress".to_string()]);
}

#[test]
fn ticks_never_change_the_state() {
    let store = TokenStore::new();
    let mut state = AppState::new();
    state.active_menu_item = MenuItem::Playlists;
    state.playlists = vec![("a".to_string(), "b".to_string())];
    state.messages = vec!["m".to_string()];
    state.playlist_selection_mode = true;
    let before = state.clone();
    for _ in 0..1000 {
        assert_eq!(route_event(Event::Tick, &mut state, &store), Action::Idle);
    }
    assert_eq!(state, before);
}

#[test]
fn messages_are_appended_in_order() {
    let store = TokenStore::new();
    let mut state = AppState::new();
    assert_eq!(route_event(Event::Message("one".to_string()), &mut state, &store), Action::Idle);
    assert_eq!(route_event(Event::Tick, &mut state, &store), Action::Idle);
    assert_eq!(route_event(Event::Message("two".to_string()), &mut state, &store), Action::Idle);
    assert_eq!(state.messages, vec!["one".to_string(), "two".to_string()]);
    let mut expected = AppState::new();
    expected.messages = vec!["one".to_string(), "two".to_string()];
    assert_eq!(state, expected);
}

#[test]
fn keys_are_routed_to_the_dispatcher() {
    let store = TokenStore::new();
    let mut state = AppState::new();
    assert_eq!(route_event(Event::Input(Key::Char('c')), &mut state, &store), Action::Idle);
    assert_eq!(state.active_menu_item, MenuItem::Commands);
    let quit = route_event(Event::Input(Key::Char('q')), &mut state, &store);
    assert_eq!(quit, Action::Quit);
    assert_eq!(next_loop_state(&quit), LoopState::Terminating);
    assert_eq!(next_loop_state(&Action::Idle), LoopState::Running);
    assert_eq!(next_loop_state(&Action::RefreshThemes), LoopState::Running);
}

#[test]
fn tabs_are_numbered_in_menu_order() {
    assert_eq!(menu_titles(), vec!["Account", "Commands", "Home", "Playlists", "Search"]);
    assert_eq!(usize::from(MenuItem::Account), 0);
    assert_eq!(usize::from(MenuItem::Commands), 1);
    assert_eq!(usize::from(MenuItem::Home), 2);
    assert_eq!(usize::from(MenuItem::Playlists), 3);
    assert_eq!(usize::from(MenuItem::Search), 4);
}

use conduit_wasm::login::{Effect, Login, Msg};
use conduit_wasm::session::Session;
use conduit_wasm::types::{Error, UserInfo, UserInfoWrapper};

fn user(token: &str) -> UserInfoWrapper {
    UserInfoWrapper {
        user: UserInfo {
            email: "a@b.com".to_string(),
            token: token.to_string(),
            username: "alice".to_string(),
            bio: None,
            image: None,
        },
    }
}

#[test]
fn sign_in_from_typed_form() {
    let mut session = Session::new();
    let mut login = Login::create();
    assert_eq!(login.request().email, "");
    assert_eq!(login.request().password, "");
    assert!(session.token().is_none());

    let r = login.update(&mut session, Msg::UpdateEmail("a@b.com".to_string()));
    assert!(r.render);
    assert!(r.effects.is_empty());
    let r = login.update(&mut session, Msg::UpdatePassword("secret".to_string()));
    assert!(r.effects.is_empty());

    let r = login.update(&mut session, Msg::Request);
    assert_eq!(r.effects.len(), 1);
    match &r.effects[0] {
        Effect::Login(_, body) => {
            assert_eq!(body.user.email, "a@b.com");
            assert_eq!(body.user.password, "secret");
        }
        _ => panic!("expected a sign-in call"),
    }
    assert!(login.is_requesting());

    let r = login.update(&mut session, Msg::Response(Ok(user("tok123"))));
    assert_eq!(session.token().map(|t| t.as_str()), Some("tok123"));
    assert!(login.error().is_none());
    assert!(!login.is_requesting());
    assert_eq!(r.effects.len(), 2);
    match &r.effects[0] {
        Effect::Emit(u) => assert_eq!(u.token, "tok123"),
        _ => panic!("expected the user to be handed on"),
    }
    assert!(matches!(r.effects[1], Effect::RouteHome));
}

#[test]
fn submit_sends_form_and_tracks_call() {
    let mut session = Session::new();
    let mut login = Login::create();
    login.update(&mut session, Msg::UpdateEmail("x@y.org".to_string()));
    let r = login.update(&mut session, Msg::Request);
    assert!(r.render);
    assert_eq!(r.effects.len(), 1);
    match &r.effects[0] {
        Effect::Login(h, body) => {
            assert_eq!(login.task(), Some(*h));
            assert_eq!(body.user.email, "x@y.org");
            assert_eq!(body.user.password, "");
        }
        _ => panic!("expected a sign-in call"),
    }
    assert!(session.token().is_none());
}

#[test]
fn later_submission_replaces_tracked_call() {
    let mut session = Session::new();
    let mut login = Login::create();
    let first = login.update(&mut session, Msg::Request);
    let second = login.update(&mut session, Msg::Request);
    let h1 = match &first.effects[0] {
        Effect::Login(h, _) => *h,
        _ => panic!("expected a sign-in call"),
    };
    let h2 = match &second.effects[0] {
        Effect::Login(h, _) => *h,
        _ => panic!("expected a sign-in call"),
    };
    assert_ne!(h1, h2);
    assert_eq!(login.task(), Some(h2));
    login.update(&mut session, Msg::Ignore);
    assert_eq!(login.task(), Some(h2));
}

#[test]
fn failure_keeps_token_and_shows_error() {
    let mut session = Session::new();
    session.set_token(Some("old".to_string()));
    let mut login = Login::create();
    login.update(&mut session, Msg::Request);
    login.update(&mut session, Msg::Response(Err(Error::Unauthorized)));
    let r = login.update(
        &mut session,
        Msg::Response(Err(Error::UnprocessableEntity(vec!["email or password is invalid".to_string()]))),
    );
    assert!(r.render);
    assert!(r.effects.is_empty());
    assert_eq!(session.token().map(|t| t.as_str()), Some("old"));
    assert!(!login.is_requesting());
    match login.error() {
        Some(Error::UnprocessableEntity(m)) => assert_eq!(m, &vec!["email or password is invalid".to_string()]),
        _ => panic!("expected the last failure"),
    }
}

#[test]
fn submission_keeps_earlier_error() {
    let mut session = Session::new();
    let mut login = Login::create();
    login.update(&mut session, Msg::Response(Err(Error::RequestError)));
    login.update(&mut session, Msg::Request);
    assert!(matches!(login.error(), Some(Error::RequestError)));
    login.update(&mut session, Msg::Response(Ok(user("t"))));
    assert!(login.error().is_none());
}

#[test]
fn editing_email_leaves_password() {
    let mut session = Session::new();
    let mut login = Login::create();
    login.update(&mut session, Msg::UpdatePassword("pw".to_string()));
    let r = login.update(&mut session, Msg::UpdateEmail("e@f.g".to_string()));
    assert!(r.effects.is_empty());
    assert_eq!(login.request().email, "e@f.g");
    assert_eq!(login.request().password, "pw");
    assert!(!login.is_requesting());
    let r = login.update(&mut session, Msg::UpdatePassword("pw2".to_string()));
    assert!(r.effects.is_empty());
    assert_eq!(login.request().email, "e@f.g");
    assert_eq!(login.request().password, "pw2");
}

#[test]
fn ignore_changes_nothing() {
    let mut session = Session::new();
    let mut login = Login::create();
    let r = login.update(&mut session, Msg::Ignore);
    assert!(r.render);
    assert!(r.effects.is_empty());
    assert!(login.task().is_none());
    assert!(login.error().is_none());
    assert!(!session.is_authenticated());
}

#[test]
fn session_sign_out_clears_token() {
    let mut session = Session::new();
    session.set_token(Some("abc".to_string()));
    assert!(session.is_authenticated());
    session.set_token(None);
    assert!(session.token().is_none());
}

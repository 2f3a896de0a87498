use libre_user::access::Refusal;
use libre_user::jwt::Claims;
use libre_user::update::{
    begin_update, may_update, resume_update, UpdateAction, UpdateBuilder, UpdateEvent, UpdateStage,
};

fn claims(login: &str, admin: bool) -> Claims {
    Claims {
        iss: "libre".to_string(),
        exp: 3600,
        sub: String::new(),
        aud: "libre".to_string(),
        iat: 0,
        jti: String::new(),
        login: login.to_string(),
        name: login.to_string(),
        admin,
    }
}

fn builder(username: Option<&str>, login: Option<&str>, email: Option<&str>, admin: Option<bool>) -> UpdateBuilder {
    UpdateBuilder {
        username: username.map(|s| s.to_string()),
        login: login.map(|s| s.to_string()),
        email: email.map(|s| s.to_string()),
        admin,
    }
}

/// Drives a change, answering each action from `answer`, and returns all actions.
fn drive(requester: &Claims, target: &str, update: &UpdateBuilder, answer: impl Fn(&UpdateAction) -> UpdateEvent) -> Vec<UpdateAction> {
    let target = target.to_string();
    let (mut stage, mut action) = begin_update(requester, &target, update);
    let mut seen = Vec::new();
    loop {
        if let UpdateAction::Reply(_) = action {
            seen.push(action);
            return seen;
        }
        let event = answer(&action);
        seen.push(action);
        let (next_stage, next_action) = resume_update(update, &target, stage, event);
        stage = next_stage;
        action = next_action;
    }
}

fn succeed(action: &UpdateAction) -> UpdateEvent {
    match action {
        UpdateAction::CheckLogin(_) => UpdateEvent::LoginChecked(false),
        _ => UpdateEvent::Done,
    }
}

#[test]
fn owner_may_change_own_profile() {
    let update = builder(Some("New Name"), Some("alice2"), Some("a@example.org"), None);
    assert!(may_update(&claims("alice", false), "alice", &update));
}

#[test]
fn stranger_may_change_nothing() {
    let requester = claims("mallory", false);
    assert!(!may_update(&requester, "alice", &builder(Some("x"), None, None, None)));
    assert!(!may_update(&requester, "alice", &builder(None, Some("x"), None, None)));
    assert!(!may_update(&requester, "alice", &builder(None, None, Some("x"), None)));
    assert!(!may_update(&requester, "alice", &builder(None, None, None, Some(true))));
    assert!(may_update(&requester, "alice", &builder(None, None, None, None)));
}

#[test]
fn admin_flag_needs_an_admin() {
    assert!(!may_update(&claims("alice", false), "alice", &builder(None, None, None, Some(true))));
    assert!(may_update(&claims("root", true), "alice", &builder(None, None, None, Some(true))));
    assert!(may_update(&claims("root", true), "alice", &builder(Some("n"), Some("l"), Some("e"), Some(false))));
}

#[test]
fn full_update_writes_fields_in_order() {
    let update = builder(Some("Alice"), Some("alice2"), Some("a@example.org"), Some(true));
    let actions = drive(&claims("root", true), "alice", &update, succeed);
    assert_eq!(
        actions,
        vec![
            UpdateAction::SetUsername { row: "alice".to_string(), value: "Alice".to_string() },
            UpdateAction::CheckLogin("alice2".to_string()),
            UpdateAction::SetLogin { row: "alice".to_string(), value: "alice2".to_string() },
            UpdateAction::SetEmail { row: "alice".to_string(), value: "a@example.org".to_string() },
            UpdateAction::SetAdmin { row: "alice".to_string(), value: true },
            UpdateAction::Reply(Ok(())),
        ]
    );
}

#[test]
fn partial_update_skips_absent_fields() {
    let update = builder(None, None, Some("a@example.org"), None);
    let actions = drive(&claims("alice", false), "alice", &update, succeed);
    assert_eq!(
        actions,
        vec![UpdateAction::SetEmail { row: "alice".to_string(), value: "a@example.org".to_string() }, UpdateAction::Reply(Ok(()))]
    );
}

#[test]
fn empty_update_replies_at_once() {
    let (stage, action) = begin_update(&claims("bob", false), &"alice".to_string(), &builder(None, None, None, None));
    assert_eq!(stage, UpdateStage::Finished);
    assert_eq!(action, UpdateAction::Reply(Ok(())));
}

#[test]
fn forbidden_update_is_refused_before_any_write() {
    let update = builder(Some("Evil"), None, None, None);
    let (stage, action) = begin_update(&claims("mallory", false), &"alice".to_string(), &update);
    assert_eq!(stage, UpdateStage::Finished);
    assert_eq!(action, UpdateAction::Reply(Err(Refusal::NotAllowed)));
}

#[test]
fn taken_login_stops_the_update() {
    let update = builder(Some("Alice"), Some("bob"), Some("a@example.org"), None);
    let actions = drive(&claims("alice", false), "alice", &update, |action| match action {
        UpdateAction::CheckLogin(_) => UpdateEvent::LoginChecked(true),
        _ => UpdateEvent::Done,
    });
    assert_eq!(
        actions,
        vec![
            UpdateAction::SetUsername { row: "alice".to_string(), value: "Alice".to_string() },
            UpdateAction::CheckLogin("bob".to_string()),
            UpdateAction::Reply(Err(Refusal::LoginTaken)),
        ]
    );
}

#[test]
fn store_failure_stops_the_update() {
    let update = builder(Some("Alice"), None, Some("a@example.org"), None);
    let actions = drive(&claims("alice", false), "alice", &update, |action| match action {
        UpdateAction::SetEmail { .. } => UpdateEvent::Failed,
        _ => UpdateEvent::Done,
    });
    assert_eq!(
        actions,
        vec![
            UpdateAction::SetUsername { row: "alice".to_string(), value: "Alice".to_string() },
            UpdateAction::SetEmail { row: "alice".to_string(), value: "a@example.org".to_string() },
            UpdateAction::Reply(Err(Refusal::Internal)),
        ]
    );
}

#[test]
fn writes_apply_to_the_target_row_only() {
    let update = builder(Some("Robert"), None, None, Some(false));
    let actions = drive(&claims("root", true), "bob", &update, succeed);
    assert_eq!(
        actions,
        vec![
            UpdateAction::SetUsername { row: "bob".to_string(), value: "Robert".to_string() },
            UpdateAction::SetAdmin { row: "bob".to_string(), value: false },
            UpdateAction::Reply(Ok(())),
        ]
    );
}

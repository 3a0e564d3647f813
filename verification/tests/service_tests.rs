use std::cell::RefCell;

use drone_lab::engine::Bot;
use drone_lab::engine::BotContainer;
use drone_lab::engine::Mushroom;
use drone_lab::login::decide_login;
use drone_lab::login::login;
use drone_lab::login::Logger;
use drone_lab::login::OpenAuth;
use drone_lab::login::User;
use drone_lab::router::PassToRemoteHandler;
use drone_lab::router::Request;
use drone_lab::router::RouteHandler;
use drone_lab::router::Router;

struct MockAuth {
    locked: bool,
    valid: bool,
}

impl OpenAuth for MockAuth {
    fn validate(&self, _: &User) -> bool {
        self.valid
    }

    fn is_user_locked(&self, _: &User) -> bool {
        self.locked
    }
}

struct TestLogger {
    pub messages: RefCell<Vec<String>>,
}

impl Logger for TestLogger {
    fn log(&self, message: &str) {
        self.messages.borrow_mut().push(message.to_string());
    }
}

#[test]
fn test_successful_login_with_logging() {
    let auth = MockAuth {
        locked: false,
        valid: true,
    };

    let logger = TestLogger {
        messages: RefCell::new(vec![]),
    };

    let result = login(
        &auth,
        &logger,
        &User::new("Billi Geyts".to_string(), "1976".to_string()),
    );
    assert!(result.is_ok());

    let logs = logger.messages.borrow();
    assert_eq!(logs.len(), 1);
    assert!(logs[0].contains("Billi Geyts"));
}

#[test]
fn test_login_fails_for_locked_account() {
    let auth = MockAuth {
        locked: true,
        valid: true,
    };

    let logger = TestLogger {
        messages: RefCell::new(vec![]),
    };

    let result = login(
        &auth,
        &logger,
        &User::new("Jan Claud".to_string(), "1Dome".to_string()),
    );
    assert_eq!(result, Err("Account is locked".to_string()));
    assert!(logger.messages.borrow().is_empty());
}

#[test]
fn test_short_username_rejected_before_auth() {
    let auth = MockAuth {
        locked: false,
        valid: true,
    };

    let logger = TestLogger {
        messages: RefCell::new(vec![]),
    };

    let result = login(
        &auth,
        &logger,
        &User::new("r".to_string(), "secret".to_string()),
    );
    assert_eq!(result, Err("Username too short".to_string()));
}

#[test]
fn login_welcomes_by_name() {
    let auth = MockAuth {
        locked: false,
        valid: true,
    };
    let logger = TestLogger {
        messages: RefCell::new(vec![]),
    };
    let result = login(
        &auth,
        &logger,
        &User::new("Billi Geyts".to_string(), "1976".to_string()),
    );
    assert_eq!(result, Ok("Welcome, Billi Geyts!".to_string()));
}

#[test]
fn login_rejects_bad_credentials() {
    let auth = MockAuth {
        locked: false,
        valid: false,
    };
    let logger = TestLogger {
        messages: RefCell::new(vec![]),
    };
    let result = login(
        &auth,
        &logger,
        &User::new("Billi Geyts".to_string(), "wrong".to_string()),
    );
    assert_eq!(result, Err("Invalid credentials".to_string()));
    assert!(logger.messages.borrow().is_empty());
}

#[test]
fn login_decision_rule_is_exact() {
    assert_eq!(
        decide_login("Billi Geyts", false, true),
        Ok("Welcome, Billi Geyts!".to_string())
    );
    assert_eq!(
        decide_login("Billi Geyts", true, true),
        Err("Account is locked".to_string())
    );
    assert_eq!(
        decide_login("Billi Geyts", false, false),
        Err("Invalid credentials".to_string())
    );
    assert_eq!(
        decide_login("r", true, true),
        Err("Username too short".to_string())
    );
}

struct RecordingHandler {
    seen: RefCell<Vec<String>>,
}

impl RouteHandler for RecordingHandler {
    fn handle(&self, request: &Request) -> Result<(), anyhow::Error> {
        self.seen.borrow_mut().push(request.path.clone());
        Ok(())
    }
}

struct RefusingHandler;

impl RouteHandler for RefusingHandler {
    fn handle(&self, _request: &Request) -> Result<(), anyhow::Error> {
        Err(anyhow::Error::msg("backend unavailable"))
    }
}

#[test]
fn router_hands_requests_over_in_order() {
    let handler = RecordingHandler {
        seen: RefCell::new(vec![]),
    };
    let mut router = Router::new(handler);
    router.add(Request {
        path: "api/users/title".to_string(),
        data: b"{\"name\": \"john@doe\"}".to_vec(),
    });
    router.add(Request {
        path: "api/products".to_string(),
        data: b"{\"category\": \"Books\"}".to_vec(),
    });
    assert!(router.apply().is_ok());
    assert_eq!(
        *router.handler.seen.borrow(),
        vec!["api/users/title".to_string(), "api/products".to_string()]
    );
}

#[test]
fn router_reports_the_first_failure() {
    let mut router = Router::new(RefusingHandler);
    assert!(router.apply().is_ok());
    router.add(Request {
        path: "api/products".to_string(),
        data: vec![1, 2, 3],
    });
    assert!(router.apply().is_err());
}

#[test]
fn remote_handler_names_its_target() {
    let handler = PassToRemoteHandler {
        target_uri: "https://backend-services/api/route/one".to_string(),
    };
    assert_eq!(handler.target_uri, "https://backend-services/api/route/one");
}

struct QuietBot;

impl Bot for QuietBot {
    fn apply(&self) {}
}

#[test]
fn bot_container_keeps_its_flag() {
    let container = BotContainer::new(true, QuietBot);
    assert!(container.is_active);
    container.bot.apply();
}

#[test]
fn mushroom_keeps_its_fields() {
    let mushroom = Mushroom::new(2, 10);
    assert_eq!(mushroom.id, 2);
    assert_eq!(mushroom.strength, 10);
}

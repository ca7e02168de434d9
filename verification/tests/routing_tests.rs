use morpheus::routing::{Route, RouteError, Router};
use morpheus::view::{text, Text};

#[derive(Debug, Clone, PartialEq)]
enum AppRoute {
    Home,
    About,
}

impl Route for AppRoute {
    fn to_path(&self) -> String {
        match self {
            AppRoute::Home => "/".to_string(),
            AppRoute::About => "/about".to_string(),
        }
    }

    fn from_path(path: &str) -> Result<Self, RouteError> {
        match path {
            "/" => Ok(AppRoute::Home),
            "/about" => Ok(AppRoute::About),
            other => Err(RouteError::NotFound(other.to_string())),
        }
    }
}

#[test]
fn test_router_navigation_and_back() {
    let mut router = Router::new(AppRoute::Home);
    assert_eq!(*router.current(), AppRoute::Home);
    assert!(!router.can_go_back());

    router.navigate(AppRoute::About);
    assert_eq!(*router.current(), AppRoute::About);
    assert!(router.can_go_back());

    assert!(router.go_back().is_some());
    assert_eq!(*router.current(), AppRoute::Home);
    assert!(!router.can_go_back());

    assert!(router.go_back().is_none());
    assert_eq!(*router.current(), AppRoute::Home);
}

#[test]
fn test_route_round_trip() {
    let parsed = AppRoute::from_path("/about").unwrap();
    assert_eq!(parsed, AppRoute::About);
    assert_eq!(parsed.to_path(), "/about");

    match AppRoute::from_path("/missing") {
        Err(RouteError::NotFound(path)) => assert_eq!(path, "/missing"),
        _ => panic!("Expected NotFound"),
    }
}

#[test]
fn test_route_error_messages() {
    let not_found = RouteError::NotFound("/missing".to_string());
    assert_eq!(not_found.message(), "Route not found: /missing");

    let bad_param = RouteError::InvalidParameter {
        route: "/user/:id".to_string(),
        parameter: "id".to_string(),
        error: "not a number".to_string(),
    };
    assert_eq!(
        bad_param.message(),
        "Invalid parameter 'id' for route '/user/:id': not a number"
    );
}

#[test]
fn test_text_view_holds_content() {
    let t: Text = text("hello".to_string());
    assert_eq!(t.content(), "hello");

    let made = Text::new("world".to_string());
    assert_eq!(made.content(), "world");
}

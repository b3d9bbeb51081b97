use bountui::appframework::{HandleEventResult, UpdateResult};
use bountui::boundary::models::{CollectionActions, Scope, Target};
use bountui::bountui::{Bountui, Offer, Pages};
use bountui::components::alerts::Alerts;
use bountui::event_ext::{Event, Key, KeyPress, MODIFIER_CONTROL, MODIFIER_SHIFT};
use bountui::router::{History, Router};
use bountui::routes::Routes;

#[test]
fn history_keeps_its_root() {
    let mut history = History::new("root");
    assert_eq!(history.len(), 1);
    assert_eq!(*history.last(), "root");
    assert!(!history.has_previous());
    history.pop();
    assert_eq!(history.len(), 1);
    assert_eq!(*history.last(), "root");
}

#[test]
fn history_is_a_stack_above_the_root() {
    let mut history = History::new(0);
    history.push(1);
    history.push(2);
    assert_eq!(history.len(), 3);
    assert_eq!(*history.last(), 2);
    assert!(history.has_previous());
    history.pop();
    assert_eq!(*history.last(), 1);
    history.pop();
    assert_eq!(*history.last(), 0);
    history.pop();
    assert_eq!(*history.last(), 0);
    assert_eq!(history.len(), 1);
}

#[test]
fn router_announces_a_pushed_page_once() {
    let mut router = Router::new("scopes".to_string());
    assert!(router.poll_change().is_none());
    assert!(!router.can_go_back());
    router.push("targets".to_string());
    assert!(router.can_go_back());
    assert_eq!(*router.poll_change().unwrap(), "targets");
    assert!(router.poll_change().is_none());
}

#[test]
fn router_goes_back_to_the_page_below() {
    let mut router = Router::new(1);
    router.push(2);
    router.push(3);
    let _ = router.poll_change();
    router.pop();
    assert_eq!(*router.poll_change().unwrap(), 2);
    router.pop();
    assert_eq!(*router.poll_change().unwrap(), 1);
    assert!(!router.can_go_back());
    router.pop();
    assert!(router.poll_change().is_none());
}

#[test]
fn router_holds_routes() {
    let mut router = Router::new(Routes::Scopes { parent: None });
    router.push(Routes::Targets { scope: "p_1".to_string() });
    match router.poll_change().unwrap().as_ref() {
        Routes::Targets { scope } => assert_eq!(scope, "p_1"),
        other => panic!("unexpected {other:?}"),
    }
    router.push(Routes::Sessions { scope_id: "p_1".to_string(), target_id: "t_1".to_string() });
    router.pop();
    assert!(matches!(router.poll_change().unwrap().as_ref(), Routes::Targets { .. }));
}

#[test]
fn update_results_tell_whether_they_were_handled() {
    assert!(UpdateResult::Handled(3).handled());
    assert!(!UpdateResult::<u8>::NotHandled.handled());
    let ignored: HandleEventResult<u8> = HandleEventResult::ignored();
    assert!(!ignored.processed && ignored.message.is_none());
    let consumed: HandleEventResult<u8> = HandleEventResult::consumed();
    assert!(consumed.processed && consumed.message.is_none());
    let with = HandleEventResult::consumed_with(9u8);
    assert!(with.processed);
    assert_eq!(with.message, Some(9));
}

fn key(code: Key) -> Event {
    Event::Key(KeyPress::plain(code))
}

fn scope(id: &str, grants: &[(&str, &str)]) -> Scope {
    Scope {
        id: id.to_string(),
        name: "n".to_string(),
        description: "d".to_string(),
        resource_type: "t".to_string(),
        authorized_collection_actions: grants
            .iter()
            .map(|(collection, action)| CollectionActions {
                collection: collection.to_string(),
                actions: vec![action.to_string()],
            })
            .collect(),
    }
}

#[test]
fn routes_lead_below_a_scope() {
    let both = scope("o_1", &[("scopes", "list"), ("targets", "list")]);
    assert!(matches!(Routes::below(&both), Some(Routes::Scopes { parent: Some(p) }) if p == "o_1"));
    let project = scope("p_1", &[("targets", "list")]);
    assert!(matches!(Routes::below(&project), Some(Routes::Targets { scope }) if scope == "p_1"));
    assert!(Routes::below(&scope("x", &[("sessions", "list")])).is_none());
}

#[test]
fn routes_lead_to_the_sessions_of_a_target() {
    let target = Target {
        id: "t_1".to_string(),
        name: "db".to_string(),
        description: "".to_string(),
        resource_type: "tcp".to_string(),
        authorized_collection_actions: vec![],
        authorized_actions: vec![],
        scope_id: "p_1".to_string(),
    };
    match Routes::sessions_of(&target) {
        Routes::Sessions { scope_id, target_id } => {
            assert_eq!(scope_id, "p_1");
            assert_eq!(target_id, "t_1");
        }
        other => panic!("unexpected {other:?}"),
    }
    let route = Routes::Targets { scope: "p".to_string() };
    assert!(matches!(route.clone(), Routes::Targets { scope } if scope == "p"));
}

fn routed_app() -> Bountui {
    let app = Bountui::new(
        "user-1".to_string(),
        Router::new(Routes::Scopes { parent: None }),
        Alerts::default(),
    );
    assert!(matches!(app.current_page(), Pages::Scopes { parent: None }));
    assert!(!app.is_finished());
    app
}

#[test]
fn control_c_ends_the_application() {
    let mut app = routed_app();
    assert!(!app.check_ctrl_c(&key(Key::Char('c'))));
    assert!(!app.check_ctrl_c(&Event::Key(KeyPress::control(Key::Char('d')))));
    assert!(!app.check_ctrl_c(&Event::Other));
    assert!(!app.is_finished());
    let with_shift = KeyPress { code: Key::Char('c'), modifiers: MODIFIER_CONTROL | MODIFIER_SHIFT };
    assert!(app.check_ctrl_c(&Event::Key(with_shift)));
    assert!(app.is_finished());

    let mut app = routed_app();
    assert_eq!(app.handle_event(&Event::Key(KeyPress::control(Key::Char('c')))), Offer::Finished);
    assert!(app.is_finished());
}

#[test]
fn alerts_take_events_before_the_page() {
    let mut app = routed_app();
    assert_eq!(app.handle_event(&key(Key::Down)), Offer::ToPage);
    app.alerts_mut().alert("Error".to_string(), "Failed to load scopes".to_string());
    assert_eq!(app.handle_event(&key(Key::Down)), Offer::Consumed);
    assert_eq!(app.handle_event(&key(Key::Enter)), Offer::Consumed);
    assert_eq!(app.handle_event(&key(Key::Enter)), Offer::ToPage);
    assert!(!app.is_finished());
}

#[test]
fn application_follows_the_router() {
    let mut app = routed_app();
    // the page asks for the targets of a scope
    app.router_mut().push(Routes::Targets { scope: "p_1".to_string() });
    let changed = app.page_handled(&key(Key::Enter), true);
    assert!(matches!(changed.as_deref(), Some(Routes::Targets { scope }) if scope == "p_1"));
    assert!(matches!(app.current_page(), Pages::Targets { scope } if scope == "p_1"));
    app.router_mut()
        .push(Routes::Sessions { scope_id: "p_1".to_string(), target_id: "t_1".to_string() });
    app.page_handled(&key(Key::Char('C')), true);
    assert!(matches!(
        app.current_page(),
        Pages::Sessions { scope_id, target_id } if scope_id == "p_1" && target_id == "t_1"
    ));
    // escape that the page has handled goes nowhere
    assert!(app.page_handled(&key(Key::Esc), true).is_none());
    assert!(matches!(app.current_page(), Pages::Sessions { .. }));
    // escape that the page has not handled goes back
    app.page_handled(&key(Key::Esc), false);
    assert!(matches!(app.current_page(), Pages::Targets { .. }));
    app.page_handled(&key(Key::Esc), false);
    assert!(matches!(app.current_page(), Pages::Scopes { parent: None }));
    // on the root page there is nothing to go back to
    assert!(app.page_handled(&key(Key::Esc), false).is_none());
    assert!(matches!(app.current_page(), Pages::Scopes { parent: None }));
    assert!(app.poll_router_change().is_none());
}

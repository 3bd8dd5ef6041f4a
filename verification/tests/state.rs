use mcp_server::embed_flight::SemanticRuntimeStatus;
use mcp_server::state::{BackgroundWork, OnecConnection, SharedState, ShutdownStep};
use mcp_server::text::{decimal, join, same_text};

/// A client, by its address.
fn client(url: &str) -> String {
    url.to_owned()
}

#[test]
fn named_connection_is_selected_and_carries_execute_policy() {
    let mut state = SharedState::shared();
    state.add_onec_connection(
        "test".into(),
        OnecConnection::new(client("http://localhost/test"), true),
    );
    assert!(state.onec_connection(Some("test")).unwrap().allow_execute());
    let error = match state.onec_connection(Some("missing")) {
        Ok(_) => panic!("missing connection must fail"),
        Err(error) => error,
    };
    assert!(error.contains("test"));
}

#[test]
fn legacy_client_keeps_execute_enabled() {
    let mut state = SharedState::shared();
    state.set_onec_client(client("http://localhost/legacy"));
    assert!(state.onec_connection(None).unwrap().allow_execute());
    assert_eq!(state.onec_client().map(String::as_str), Some("http://localhost/legacy"));
}

#[test]
fn sole_named_connection_is_default() {
    let mut state = SharedState::shared();
    state.add_onec_connection(
        "only".into(),
        OnecConnection::new(client("http://localhost/only"), false),
    );
    assert!(!state.onec_connection(None).unwrap().allow_execute());
}

#[test]
fn connections_are_listed_in_order_and_replaced_by_name() {
    let mut state = SharedState::shared();
    for name in ["б", "a", "b", "B"] {
        let connection = OnecConnection::new(client(name), false);
        state.add_onec_connection(name.to_owned(), connection);
    }
    assert_eq!(
        state.onec_connection(Some("missing")),
        Err("Unknown 1C connection 'missing'. Available: B, a, b, б".to_owned())
    );
    assert_eq!(
        state.onec_connection(None),
        Err("1C connection is required. Available: B, a, b, б".to_owned())
    );
    state.add_onec_connection("a".to_owned(), OnecConnection::new(client("new"), true));
    let found = state.onec_connection(Some("a")).unwrap();
    assert_eq!((found.client().as_str(), found.allow_execute()), ("new", true));
    assert_eq!(state.onec_connection(Some("б")).unwrap().client(), "б");
    assert_eq!(
        state.onec_connection(None).unwrap_err(),
        "1C connection is required. Available: B, a, b, б"
    );
}

#[test]
fn without_connections_the_configuration_is_asked_for() {
    let mut state: SharedState<String> = SharedState::shared();
    assert_eq!(
        state.onec_connection(None).unwrap_err(),
        "1C HTTP клиент не настроен. Укажите --onec-url или BSL_ONEC_CONNECTIONS_FILE."
    );
    assert_eq!(
        state.onec_connection(Some("x")).unwrap_err(),
        "Unknown 1C connection 'x'. No named connections are configured; omit `connection` to \
         use the --onec-url client."
    );
    state.set_onec_client(client("legacy"));
    assert!(state.onec_connection(Some("x")).is_err(), "a name is never the legacy client");
    assert_eq!(state.onec_connection(None).unwrap().client(), "legacy");
}

const IDLE: BackgroundWork = BackgroundWork {
    workspace_search_initializing: false,
    reference_loading: false,
    index_active: false,
};

#[test]
fn active_indexing_keeps_the_backend_alive() {
    let mut state: SharedState<String> = SharedState::shared();
    let idle = SemanticRuntimeStatus::Disabled;
    assert!(!state.background_work_active(Some(&idle)));

    state.set_background_work(BackgroundWork { index_active: true, ..IDLE });

    assert!(state.background_work_active(Some(&idle)));
}

#[test]
fn every_kind_of_work_keeps_the_backend_alive() {
    let mut state: SharedState<String> = SharedState::shared();
    for (status, active) in [
        (SemanticRuntimeStatus::Disabled, false),
        (SemanticRuntimeStatus::Ready, false),
        (SemanticRuntimeStatus::Failed("x".to_owned()), false),
        (SemanticRuntimeStatus::Indexing, true),
        (SemanticRuntimeStatus::OverlaySyncing, true),
    ] {
        assert_eq!(state.background_work_active(Some(&status)), active, "{status:?}");
    }
    assert!(state.background_work_active(None), "a held status counts as work");
    for work in [
        BackgroundWork { workspace_search_initializing: true, ..IDLE },
        BackgroundWork { reference_loading: true, ..IDLE },
    ] {
        state.set_background_work(work);
        assert!(state.background_work_active(Some(&SemanticRuntimeStatus::Ready)));
    }
}

#[test]
fn the_lease_is_released_last() {
    let mut state: SharedState<String> = SharedState::shared();
    assert!(!state.request_overlay_refresh());
    assert_eq!(
        state.shutdown(),
        [
            ShutdownStep::ReferenceSearch,
            ShutdownStep::Baseline,
            ShutdownStep::Diagnostics,
            ShutdownStep::WorkspaceLease
        ]
    );
    state.set_overlay_retry(true);
    assert!(state.request_overlay_refresh());
    assert_eq!(state.shutdown()[3..], [ShutdownStep::OverlayRetry, ShutdownStep::WorkspaceLease]);
}

#[test]
fn roots_are_kept() {
    let mut state: SharedState<String> = SharedState::shared();
    assert_eq!((state.workspace_root(), state.source_root()), (None, None));
    state.set_workspace_root("/work".to_owned());
    state.set_source_root("/work/src/cf".to_owned());
    assert_eq!(state.workspace_root().unwrap(), "/work");
    assert_eq!(state.source_root().unwrap(), "/work/src/cf");
}

#[test]
fn texts_are_written_and_joined() {
    assert_eq!(decimal(0), "0");
    assert_eq!(decimal(9_876_543_210), "9876543210");
    assert_eq!(decimal(u64::MAX), u64::MAX.to_string());
    let list = |items: &[&str]| items.iter().map(|item| item.to_string()).collect::<Vec<_>>();
    assert_eq!(join(&list(&[]), ", "), "");
    assert_eq!(join(&list(&["a"]), ", "), "a");
    assert_eq!(join(&list(&["a", "", "б"]), ", "), "a, , б");
    assert!(same_text("Массив", "Массив") && !same_text("Массив", "массив"));
}

use mcp_server::retry_window::{
    Moment, RetryDecision, RetryOwner, RetryStop, RetryWindow, Span, CLOCK_LIMIT_NANOS,
    DEFAULT_RETRY_BUDGET_NANOS,
};

const ALL_OWNERS: [RetryOwner; 5] = [
    RetryOwner::Startup,
    RetryOwner::ChangeHub,
    RetryOwner::Drift,
    RetryOwner::OverlayEmbedding,
    RetryOwner::Graph,
];
const BACKGROUND_OWNERS: [RetryOwner; 4] =
    [RetryOwner::ChangeHub, RetryOwner::Drift, RetryOwner::OverlayEmbedding, RetryOwner::Graph];

const SECOND: u128 = 1_000_000_000;

fn seconds(n: u128) -> Span {
    Span { nanos: n * SECOND }
}

fn at(nanos: u128) -> Moment {
    Moment { nanos }
}

fn start() -> Moment {
    at(5 * SECOND)
}

fn past_the_budget() -> Moment {
    start().checked_add(Span { nanos: DEFAULT_RETRY_BUDGET_NANOS }).unwrap()
}

#[test]
fn all_retry_owners_preserve_deadline_and_streak_when_coalescing() {
    for owner in ALL_OWNERS {
        let mut window = RetryWindow::new(owner);
        assert_eq!(
            window.refused(start(), seconds(2)),
            RetryDecision::RetryAfter(seconds(2))
        );
        let deadline = window.deadline;

        assert!(!window.observe_external_work(true), "{owner:?}");
        assert_eq!(window.deadline, deadline, "{owner:?}");
        assert_eq!(window.streak(), 1, "{owner:?}");
    }
}

#[test]
fn eligible_background_owners_rearm_only_on_fresh_external_work() {
    for owner in BACKGROUND_OWNERS {
        let mut window = RetryWindow::new(owner);
        assert!(matches!(window.refused(start(), seconds(0)), RetryDecision::RetryAfter(_)));
        assert_eq!(
            window.refused(past_the_budget(), seconds(0)),
            RetryDecision::Stop(RetryStop::Exhausted)
        );

        assert!(!window.observe_external_work(false), "{owner:?}");
        assert!(window.observe_external_work(true), "{owner:?}");
        assert!(!window.observe_external_work(true), "{owner:?}");
        assert_eq!(window.streak(), 0, "{owner:?}");
        assert_eq!(window.deadline, None, "{owner:?}");
    }

    let mut startup = RetryWindow::new(RetryOwner::Startup);
    assert!(matches!(startup.refused(start(), seconds(0)), RetryDecision::RetryAfter(_)));
    assert_eq!(
        startup.refused(past_the_budget(), seconds(0)),
        RetryDecision::Stop(RetryStop::Exhausted)
    );
    assert!(!startup.observe_external_work(true));
}

#[test]
fn all_retry_owners_stop_on_operation_error() {
    let now = start();
    for owner in ALL_OWNERS {
        let mut window = RetryWindow::new(owner);
        assert_eq!(
            window.operation_error(),
            RetryDecision::Stop(RetryStop::OperationError),
            "{owner:?}"
        );
        assert_eq!(
            window.refused(now, seconds(0)),
            RetryDecision::Stop(RetryStop::OperationError),
            "{owner:?}"
        );
        assert_eq!(window.observe_external_work(true), owner.may_rearm_on_fresh_work());

        let mut terminal = RetryWindow::new(owner);
        assert_eq!(terminal.terminal(), RetryDecision::Stop(RetryStop::Terminal));
        assert_eq!(
            terminal.refused(now, seconds(0)),
            RetryDecision::Stop(RetryStop::Terminal),
            "{owner:?}"
        );
    }
}

#[test]
fn the_default_budget_is_ten_minutes() {
    let mut window = RetryWindow::new(RetryOwner::Graph);
    window.refused(start(), seconds(1));
    assert_eq!(window.deadline, Some(at(605 * SECOND)));
}

#[test]
fn a_wait_is_cut_at_the_deadline() {
    let mut window = RetryWindow::with_budget(RetryOwner::Drift, seconds(10));
    assert_eq!(window.refused(at(0), seconds(4)), RetryDecision::RetryAfter(seconds(4)));
    assert_eq!(
        window.refused(at(8 * SECOND), seconds(4)),
        RetryDecision::RetryAfter(seconds(2))
    );
    assert_eq!(window.streak(), 2);
    assert_eq!(window.deadline, Some(at(10 * SECOND)));
    assert_eq!(
        window.refused(at(10 * SECOND), seconds(4)),
        RetryDecision::Stop(RetryStop::Exhausted)
    );
    assert_eq!(
        window.refused(at(1), seconds(4)),
        RetryDecision::Stop(RetryStop::Exhausted),
        "a stopped window stays stopped"
    );
    assert_eq!(window.streak(), 2);
}

#[test]
fn expiry_comes_at_the_deadline_and_not_before() {
    let mut window = RetryWindow::with_budget(RetryOwner::Drift, seconds(10));
    assert!(!window.expired(at(99 * SECOND)), "nothing is owed yet");
    window.refused(at(0), seconds(1));
    assert!(!window.expired(at(10 * SECOND - 1)));
    assert_eq!(window.stopped, None);
    assert!(window.expired(at(10 * SECOND)));
    assert_eq!(window.stopped, Some(RetryStop::Exhausted));
    window.complete();
    assert_eq!((window.deadline, window.streak, window.stopped), (None, 0, None));
}

#[test]
fn a_deadline_beyond_the_clock_stops_at_once() {
    let mut window =
        RetryWindow::with_budget(RetryOwner::Drift, Span { nanos: CLOCK_LIMIT_NANOS });
    assert_eq!(window.refused(at(1), seconds(1)), RetryDecision::Stop(RetryStop::Exhausted));
    assert_eq!(window.deadline, None);
    assert_eq!(window.streak(), 0);
    assert_eq!(at(0).checked_add(Span { nanos: CLOCK_LIMIT_NANOS }), Some(at(CLOCK_LIMIT_NANOS)));
    assert_eq!(at(u128::MAX).checked_add(seconds(1)), None);
}

#[test]
fn a_terminal_stop_is_not_rearmed() {
    let mut window = RetryWindow::new(RetryOwner::Graph);
    window.terminal();
    assert!(!window.observe_external_work(true));
    assert_eq!(window.stopped, Some(RetryStop::Terminal));
}

#[test]
fn the_streak_stays_at_its_ceiling() {
    let mut window = RetryWindow::with_budget(RetryOwner::Drift, seconds(10));
    window.streak = u32::MAX;
    assert_eq!(window.refused(at(0), seconds(1)), RetryDecision::RetryAfter(seconds(1)));
    assert_eq!(window.streak(), u32::MAX);
}

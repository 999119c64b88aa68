use ralph_orchestrator::sentry::{configure_user_scope, init_once, SentrySource};

#[test]
fn reporting_entry_points_do_nothing() {
    init_once(SentrySource::Backend);
    init_once(SentrySource::Mcp);
    configure_user_scope("user", None, None);
    configure_user_scope("user", Some("name"), Some("name@example.invalid"));
    assert_ne!(SentrySource::Backend, SentrySource::Mcp);
}

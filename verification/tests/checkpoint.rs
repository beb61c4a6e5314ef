use listener_app::checkpoint::{resolve_checkpoint, resume_query};
use listener_app::error::ListenError;

#[test]
fn resume_uses_the_most_recent_stored_row() {
    // The store holds rows "a", "b", "c" in insertion order; the query
    // projects the latest, "c", and no override is configured.
    let r = resolve_checkpoint(None, Some(String::from("c")), String::from("genesis"));
    assert_eq!(r, "c");
}

#[test]
fn resume_override_wins_over_store_contents() {
    let r = resolve_checkpoint(
        Some(String::from("z")),
        Some(String::from("c")),
        String::from("genesis"),
    );
    assert_eq!(r, "z");
    let r = resolve_checkpoint(Some(String::from("z")), None, String::from("genesis"));
    assert_eq!(r, "z");
}

#[test]
fn resume_falls_back_to_the_default_when_the_store_cannot_answer() {
    let r = resolve_checkpoint(None, None, String::from("genesis"));
    assert_eq!(r, "genesis");
}

#[test]
fn resume_query_projects_the_latest_dst_tx_hash() {
    assert_eq!(
        resume_query(),
        "select dst_tx_hash from minted_gorple order by id desc limit 1"
    );
}

#[test]
fn config_error_describes_itself() {
    assert_eq!(ListenError::Config.describe(), "Config error");
    assert_eq!(ListenError::Config, ListenError::Config);
}

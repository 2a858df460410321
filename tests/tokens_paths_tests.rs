use alls_recorder::paths::{
    check_new_name, new_name_component, rename_destination, resolve_base, resolve_within, CanonicalPath,
    FsFailure, PathError,
};
use alls_recorder::tokens::{token_ttl_minutes, DownloadToken, DownloadTokenStore, TokenError};

fn path(parts: &[&str]) -> CanonicalPath {
    CanonicalPath { parts: parts.iter().map(|p| p.to_string()).collect() }
}

#[test]
fn token_redeems_once() {
    let mut store = DownloadTokenStore::new();
    let grant = store.issue("tok".to_string(), 1, 10, 5, 1_000);
    assert_eq!(grant, DownloadToken { user_id: 1, file_id: 10, expires_at: 1_300 });
    assert_eq!(store.redeem(&"tok".to_string(), 1, 1_100), Ok(grant));
    assert_eq!(store.redeem(&"tok".to_string(), 1, 1_100), Err(TokenError::InvalidToken));
}

#[test]
fn expired_token_is_refused_and_removed() {
    let mut store = DownloadTokenStore::new();
    store.issue("tok".to_string(), 1, 10, 1, 1_000);
    assert_eq!(store.redeem(&"tok".to_string(), 1, 1_061), Err(TokenError::TokenExpired));
    assert_eq!(store.redeem(&"tok".to_string(), 1, 1_000), Err(TokenError::InvalidToken));
}

#[test]
fn token_valid_until_its_expiry_second() {
    let mut store = DownloadTokenStore::new();
    store.issue("tok".to_string(), 1, 10, 1, 1_000);
    assert!(store.redeem(&"tok".to_string(), 1, 1_060).is_ok());
}

#[test]
fn other_users_token_is_refused_and_removed() {
    let mut store = DownloadTokenStore::new();
    store.issue("tok".to_string(), 1, 10, 60, 0);
    assert_eq!(store.redeem(&"tok".to_string(), 2, 0), Err(TokenError::AccessDenied));
    assert_eq!(store.redeem(&"tok".to_string(), 1, 0), Err(TokenError::InvalidToken));
}

#[test]
fn ttl_counts_at_least_one_minute() {
    let mut store = DownloadTokenStore::new();
    let g = store.issue("a".to_string(), 1, 2, 0, 100);
    assert_eq!(g.expires_at, 160);
    let g = store.issue("b".to_string(), 1, 2, -5, 100);
    assert_eq!(g.expires_at, 160);
    assert_eq!(token_ttl_minutes(None), 60);
    assert_eq!(token_ttl_minutes(Some(0)), 1);
    assert_eq!(token_ttl_minutes(Some(15)), 15);
}

#[test]
fn reissued_text_replaces_earlier_grant() {
    let mut store = DownloadTokenStore::new();
    store.issue("tok".to_string(), 1, 10, 5, 0);
    store.issue("tok".to_string(), 1, 11, 5, 0);
    assert_eq!(store.redeem(&"tok".to_string(), 1, 0).unwrap().file_id, 11);
    assert_eq!(store.redeem(&"tok".to_string(), 1, 0), Err(TokenError::InvalidToken));
}

#[test]
fn unknown_tokens_are_invalid() {
    let mut store = DownloadTokenStore::new();
    store.issue("tok".to_string(), 1, 10, 5, 0);
    assert_eq!(store.redeem(&"other".to_string(), 1, 0), Err(TokenError::InvalidToken));
    assert_eq!(store.redeem(&"".to_string(), 1, 0), Err(TokenError::InvalidToken));
    assert!(store.redeem(&"tok".to_string(), 1, 0).is_ok());
}

#[test]
fn fresh_tokens_are_distinct_and_redeemable_now() {
    let mut store = DownloadTokenStore::new();
    let (t1, g1) = store.issue_fresh(1, 10, 5).unwrap();
    let (t2, _) = store.issue_fresh(1, 11, 5).unwrap();
    assert!(!t1.is_empty());
    assert_ne!(t1, t2);
    assert_eq!(g1.file_id, 10);
    assert_eq!(store.redeem_now(&t1, 1), Ok(g1));
    assert_eq!(store.redeem_now(&t1, 1), Err(TokenError::InvalidToken));
    assert_eq!(store.redeem_now(&t2, 2), Err(TokenError::AccessDenied));
}

#[test]
fn fresh_token_with_overflowing_ttl_is_not_issued() {
    let mut store = DownloadTokenStore::new();
    assert!(store.issue_fresh(1, 10, i64::MAX).is_none());
}

#[test]
fn parent_escape_is_denied() {
    let base = path(&["/", "srv", "recordings"]);
    let resolved = Ok(path(&["/", "etc", "passwd"]));
    assert_eq!(resolve_within(&base, "../../etc/passwd", resolved), Err(PathError::AccessDenied));
}

#[test]
fn link_escape_is_denied() {
    let base = path(&["/", "srv", "recordings"]);
    let resolved = Ok(path(&["/", "srv", "recordings-old", "a.mp4"]));
    assert_eq!(resolve_within(&base, "a.mp4", resolved), Err(PathError::AccessDenied));
}

#[test]
fn file_inside_base_resolves() {
    let base = path(&["/", "srv", "recordings"]);
    let inside = path(&["/", "srv", "recordings", "a.mp4"]);
    assert_eq!(resolve_within(&base, "a.mp4", Ok(inside.clone())), Ok(inside));
}

#[test]
fn resolve_within_failures() {
    let base = path(&["/", "srv"]);
    assert_eq!(resolve_within(&base, "  ", Ok(base.clone())), Err(PathError::InvalidFilename));
    assert_eq!(
        resolve_within(&base, "a", Err(FsFailure::NotFound("no".to_string()))),
        Err(PathError::NotFound)
    );
    assert_eq!(
        resolve_within(&base, "a", Err(FsFailure::Other("io".to_string()))),
        Err(PathError::Io("io".to_string()))
    );
}

#[test]
fn base_resolution() {
    let base = path(&["/", "srv"]);
    assert_eq!(resolve_base(" ", Ok(base.clone())), Err(PathError::NotConfigured));
    assert_eq!(
        resolve_base("/nope", Err(FsFailure::NotFound("missing".to_string()))),
        Err(PathError::InvalidPath("missing".to_string()))
    );
    assert_eq!(resolve_base("/srv", Ok(base.clone())), Ok(base));
}

#[test]
fn new_names() {
    assert_eq!(new_name_component("  clip.mp4 "), Ok("clip.mp4".to_string()));
    assert_eq!(new_name_component("a/b.mp4"), Err(PathError::InvalidFilename));
    assert_eq!(new_name_component("   "), Err(PathError::InvalidFilename));
}

#[test]
fn rename_targets() {
    let base = path(&["/", "srv"]);
    assert_eq!(rename_destination(&base, "b.mp4".to_string(), true), Err(PathError::AlreadyExists));
    assert_eq!(
        rename_destination(&base, "b.mp4".to_string(), false),
        Ok(path(&["/", "srv", "b.mp4"]))
    );
}

#[test]
fn new_name_verdicts() {
    assert_eq!(check_new_name(" a.mp4 ", 1), Ok("a.mp4".to_string()));
    assert_eq!(check_new_name("a.mp4", 2), Err(PathError::InvalidFilename));
    assert_eq!(check_new_name("  ", 1), Err(PathError::InvalidFilename));
}

#[test]
fn issue_at_decides_the_expiry_range() {
    let mut store = DownloadTokenStore::new();
    assert_eq!(store.issue_at("late".to_string(), 1, 2, 1, i64::MAX - 59), None);
    assert_eq!(store.redeem(&"late".to_string(), 1, 0), Err(TokenError::InvalidToken));
    let g = store.issue_at("early".to_string(), 1, 2, i64::MAX / 60, -i64::MAX);
    assert!(g.is_some());
    let g = store.issue_at("t".to_string(), 3, 4, 2, 10).unwrap();
    assert_eq!(g, DownloadToken { user_id: 3, file_id: 4, expires_at: 130 });
    assert_eq!(store.redeem(&"t".to_string(), 3, 130), Ok(g));
}

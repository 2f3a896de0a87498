use libre_user::env::running_in_cluster;
use libre_user::oauth::{BaseOauthUser, GitHubUser};
use libre_user::text::u64_to_decimal;

#[test]
fn decimal_text_matches_std() {
    for n in [0u64, 7, 9, 10, 99, 100, 12345, 1_000_000_007, u64::MAX] {
        assert_eq!(u64_to_decimal(n), n.to_string());
    }
}

#[test]
fn github_user_becomes_base_user() {
    let github = GitHubUser {
        id: 583231,
        login: "octocat".to_string(),
        name: Some("The Octocat".to_string()),
        email: None,
        avatar_url: "https://avatars.githubusercontent.com/u/583231?v=4".to_string(),
    };
    let base = BaseOauthUser::from(github);
    assert_eq!(base.id, "583231");
    assert_eq!(base.login, "octocat");
    assert_eq!(base.name, Some("The Octocat".to_string()));
    assert_eq!(base.email, None);
    assert_eq!(base.avatar_url, "https://avatars.githubusercontent.com/u/583231?v=4");
}

#[test]
fn cluster_flag_must_be_exactly_true() {
    assert!(running_in_cluster(Some("true")));
    assert!(!running_in_cluster(Some("false")));
    assert!(!running_in_cluster(Some("TRUE")));
    assert!(!running_in_cluster(Some("")));
    assert!(!running_in_cluster(None));
}

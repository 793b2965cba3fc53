use sentry_ops::error::CliError;
use sentry_ops::upload::{
    check_release_name_args, new_release_request, pass_message, plan_upload_passes,
};

#[test]
fn zero_distributions_make_one_pass_with_none() {
    let passes = plan_upload_passes("acme", "web", "1.2.3", &Vec::new(), false);
    assert_eq!(passes.len(), 1);
    assert_eq!(passes[0].org, "acme");
    assert_eq!(passes[0].project.as_deref(), Some("web"));
    assert_eq!(passes[0].release, "1.2.3");
    assert_eq!(passes[0].dist, None);
    assert!(!passes[0].wait);
    assert_eq!(
        pass_message(&passes[0]),
        "Uploading sourcemaps for release 1.2.3 (no distribution value given; use --dist to set distribution value)"
    );
}

#[test]
fn two_distributions_make_two_passes_in_order_for_one_release() {
    let dists = vec!["staging".to_string(), "prod".to_string()];
    let passes = plan_upload_passes("acme", "web", "1.2.3", &dists, true);
    assert_eq!(passes.len(), 2);
    assert_eq!(passes[0].dist.as_deref(), Some("staging"));
    assert_eq!(passes[1].dist.as_deref(), Some("prod"));
    assert_eq!(passes[0].release, "1.2.3");
    assert_eq!(passes[1].release, "1.2.3");
    assert!(passes[0].wait && passes[1].wait);
    assert_eq!(
        pass_message(&passes[1]),
        "Uploading sourcemaps for release 1.2.3 distribution prod"
    );
}

#[test]
fn release_name_override_conflicts_with_bundle_id() {
    let r = check_release_name_args(true, true, false);
    assert_eq!(r, Err(CliError::ConflictingReleaseArgs));
    let r = check_release_name_args(true, false, true);
    assert_eq!(r, Err(CliError::ConflictingReleaseArgs));
    let r = check_release_name_args(true, true, true);
    assert!(r.is_err());
}

#[test]
fn compatible_release_args_pass() {
    assert!(check_release_name_args(false, true, true).is_ok());
    assert!(check_release_name_args(true, false, false).is_ok());
    assert!(check_release_name_args(false, false, false).is_ok());
}

#[test]
fn release_request_names_the_one_project() {
    let r = new_release_request("1.2.3", "web");
    assert_eq!(r.version, "1.2.3");
    assert_eq!(r.projects, vec!["web".to_string()]);
}

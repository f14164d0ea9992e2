use cargo_samply::cli::Config;
use cargo_samply::plan::features_to_string;

fn test_config(features: Vec<String>) -> Config {
    Config {
        args: vec![],
        profile: "samply".to_string(),
        package: None,
        bin: Some("test".to_string()),
        example: None,
        bench: None,
        test: None,
        features,
        no_default_features: false,
        verbose: false,
        quiet: false,
        no_samply: false,
        dry_run: false,
        no_profile_inject: false,
        bench_flag: "--bench".to_string(),
        samply_args: None,
        list_targets: false,
    }
}

#[test]
fn test_multiple_features_handling() {
    let cli = test_config(vec!["feature1".to_string(), "feature2".to_string()]);
    let features_str = features_to_string(&cli.features);
    assert_eq!(features_str, Some("feature1,feature2".to_string()));
}

#[test]
fn test_single_feature_handling() {
    let cli = test_config(vec!["feature1".to_string()]);
    let features_str = features_to_string(&cli.features);
    assert_eq!(features_str, Some("feature1".to_string()));
}

#[test]
fn test_no_features_handling() {
    let cli = test_config(vec![]);
    let features_str = features_to_string(&cli.features);
    assert_eq!(features_str, None);
}

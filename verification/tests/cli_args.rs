use fetchlist::cli::choose_path_source;
use fetchlist::cli::PathSource;

#[test]
fn one_argument_gives_the_path() {
    let args = vec!["prog".to_string(), "configs.json".to_string()];
    let r = choose_path_source(&args);
    assert!(matches!(r, PathSource::Given(ref p) if p == "configs.json"));
}

#[test]
fn no_argument_means_prompt() {
    let args = vec!["prog".to_string()];
    assert!(matches!(choose_path_source(&args), PathSource::Prompt));
}

#[test]
fn two_arguments_are_a_usage_error() {
    let args = vec!["prog".to_string(), "a.json".to_string(), "b.json".to_string()];
    assert!(matches!(choose_path_source(&args), PathSource::Usage));
}

use ark_indexer::backoff::Backoff;
use ark_indexer::config::{Config, Start};
use ark_indexer::error::ConfigError;

#[test]
fn checked_values_are_kept() {
    let config =
        Config::new("https://node.example".to_string(), Start::Height(50), 5000, 100, 3000)
            .unwrap();
    assert_eq!(config.rpc_provider(), "https://node.example");
    assert_eq!(config.start(), Start::Height(50));
    assert_eq!(config.poll_interval(), 5000);
    assert_eq!(config.backoff(), Backoff { initial: 100, max: 3000 });
}

#[test]
fn missing_endpoint_is_refused() {
    let refused = Config::new(String::new(), Start::Latest, 5000, 100, 3000);
    assert_eq!(refused.err(), Some(ConfigError::MissingEndpoint));
}

#[test]
fn initial_delay_beyond_the_maximum_is_refused() {
    let refused = Config::new("http://n".to_string(), Start::Latest, 5000, 3001, 3000);
    assert_eq!(refused.err(), Some(ConfigError::BackoffOutOfOrder));
}

#[test]
fn missing_endpoint_is_reported_first() {
    let refused = Config::new(String::new(), Start::Latest, 5000, 3001, 3000);
    assert_eq!(refused.err(), Some(ConfigError::MissingEndpoint));
}

#[test]
fn equal_delays_are_accepted() {
    let config = Config::new("n".to_string(), Start::Latest, 0, 7, 7).unwrap();
    assert_eq!(config.backoff(), Backoff { initial: 7, max: 7 });
    assert_eq!(config.start(), Start::Latest);
    assert_eq!(config.poll_interval(), 0);
}

#[test]
fn errors_describe_themselves() {
    assert_eq!(ConfigError::MissingEndpoint.describe(), "the address of the node is missing");
    assert_eq!(
        ConfigError::BackoffOutOfOrder.describe(),
        "the initial retry delay exceeds the maximum"
    );
}

use zkvm_core::client::{ProverClient, ProverEnv, ProverKind};

#[test]
fn builder_local() {
    let client = ProverClient::builder().local().build();
    assert!(matches!(client.prover, ProverKind::Local));
}

#[test]
fn builder_network_with_settings() {
    let client = ProverClient::builder()
        .network()
        .rpc_url("https://example.org/".to_string())
        .private_key("key".to_string())
        .build();
    match client.prover {
        ProverKind::Network { rpc_url, private_key } => {
            assert_eq!(rpc_url, "https://example.org/");
            assert_eq!(private_key, "key");
        }
        ProverKind::Local => panic!("expected the network prover"),
    }
}

#[test]
fn builder_network_defaults() {
    let client = ProverClient::builder().network().build();
    match client.prover {
        ProverKind::Network { rpc_url, private_key } => {
            assert_eq!(rpc_url, "https://rpc.production.succinct.tools/");
            assert_eq!(private_key, "");
        }
        ProverKind::Local => panic!("expected the network prover"),
    }
}

#[test]
fn env_picks_prover() {
    let env = ProverEnv {
        prover: Some("network".to_string()),
        rpc_url: None,
        private_key: Some("k".to_string()),
    };
    match ProverClient::builder().from_env(&env).prover {
        ProverKind::Network { rpc_url, private_key } => {
            assert_eq!(rpc_url, "https://rpc.production.succinct.tools/");
            assert_eq!(private_key, "k");
        }
        ProverKind::Local => panic!("expected the network prover"),
    }
    let local = ProverEnv { prover: Some("local".to_string()), rpc_url: None, private_key: None };
    assert!(matches!(ProverClient::new(&local).prover, ProverKind::Local));
    let unset = ProverEnv { prover: None, rpc_url: None, private_key: None };
    assert!(matches!(ProverClient::new(&unset).prover, ProverKind::Local));
}

use vstd::prelude::*;
use vstd::string::StrSliceExecFns;

verus! {

/// `network`: the value of the prover setting that picks the prover network.
pub open spec fn network_setting() -> Seq<char> {
    seq!['n', 'e', 't', 'w', 'o', 'r', 'k']
}

/// The network endpoint used when no other is set.
pub open spec fn default_rpc_url() -> Seq<char> {
    "https://rpc.production.succinct.tools/"@
}

/// Where proofs are made.
#[derive(Clone, Debug)]
pub enum ProverKind {
    /// On this machine.
    Local,
    /// By the prover network at `rpc_url`, signing requests with `private_key`.
    Network { rpc_url: String, private_key: String },
}

/// The settings that choose a prover: the prover (`local` or `network`), the network's
/// endpoint and the key that signs network requests, each as read, if it was set.
#[derive(Clone, Debug)]
pub struct ProverEnv {
    pub prover: Option<String>,
    pub rpc_url: Option<String>,
    pub private_key: Option<String>,
}

/// The entry point for making and checking proofs: which prover it talks to.
#[derive(Clone, Debug)]
pub struct ProverClient {
    pub prover: ProverKind,
}

/// A builder that has not yet picked a prover.
#[derive(Clone, Copy, Debug)]
pub struct NoProver;

/// A builder for the local prover.
#[derive(Clone, Copy, Debug)]
pub struct LocalProverBuilder;

/// A builder for the prover network.
#[derive(Clone, Debug)]
pub struct NetworkProverBuilder {
    pub rpc_url: Option<String>,
    pub private_key: Option<String>,
}

/// Builds a client step by step; `T` is the builder of the chosen prover.
#[derive(Clone, Debug)]
pub struct ProverClientBuilder<T> {
    pub inner_builder: T,
}

/// A prover builder that can finish a client.
pub trait BuildableProver: Sized {
    /// Whether `k` is the prover that this builder makes.
    spec fn builds(&self, k: ProverKind) -> bool;

    fn build_prover(self) -> (k: ProverKind)
        ensures
            self.builds(k),
    ;
}

impl BuildableProver for LocalProverBuilder {
    open spec fn builds(&self, k: ProverKind) -> bool {
        k is Local
    }

    fn build_prover(self) -> (r: ProverKind) {
        ProverKind::Local
    }
}

impl BuildableProver for NetworkProverBuilder {
    /// The network at the endpoint set or the default one, with the key set or an empty one.
    open spec fn builds(&self, k: ProverKind) -> bool {
        k matches ProverKind::Network { rpc_url, private_key } && rpc_url@ == (match self.rpc_url {
            Some(u) => u@,
            Option::None => default_rpc_url(),
        }) && private_key@ == (match self.private_key {
            Some(p) => p@,
            Option::None => Seq::empty(),
        })
    }

    fn build_prover(self) -> (r: ProverKind) {
        let rpc_url = match self.rpc_url {
            Some(u) => u,
            Option::None => default_rpc(),
        };
        let private_key = match self.private_key {
            Some(k) => k,
            Option::None => String::new(),
        };
        ProverKind::Network { rpc_url, private_key }
    }
}

fn default_rpc() -> (r: String)
    ensures
        r@ == default_rpc_url(),
{
    "https://rpc.production.succinct.tools/".to_owned()
}

/// Whether the prover setting names the network.
fn is_network(s: &String) -> (r: bool)
    ensures
        r == (s@ == network_setting()),
{
    let t = s.as_str();
    if t.unicode_len() != 7 {
        return false;
    }
    let r = t.get_char(0) == 'n' && t.get_char(1) == 'e' && t.get_char(2) == 't' && t.get_char(3)
        == 'w' && t.get_char(4) == 'o' && t.get_char(5) == 'r' && t.get_char(6) == 'k';
    assert(r == (s@ =~= network_setting()));
    r
}

/// The prover that the settings pick: the network when the prover setting is `network`,
/// with the endpoint set or the default one and the key set or an empty one; else local.
pub open spec fn prover_from_env(env: ProverEnv, k: ProverKind) -> bool {
    match env.prover {
        Some(s) if s@ == network_setting() => match k {
            ProverKind::Network { rpc_url, private_key } => {
                &&& rpc_url@ == (match env.rpc_url {
                    Some(u) => u@,
                    Option::None => default_rpc_url(),
                })
                &&& private_key@ == (match env.private_key {
                    Some(p) => p@,
                    Option::None => Seq::empty(),
                })
            },
            ProverKind::Local => false,
        },
        _ => k is Local,
    }
}

impl ProverClient {
    /// A builder with no prover chosen yet.
    pub fn builder() -> (r: ProverClientBuilder<NoProver>) {
        ProverClientBuilder { inner_builder: NoProver }
    }

    /// The client that the settings pick.
    pub fn new(env: &ProverEnv) -> (r: Self)
        ensures
            prover_from_env(*env, r.prover),
    {
        Self::create_from_env(env)
    }

    fn create_from_env(env: &ProverEnv) -> (r: Self)
        ensures
            prover_from_env(*env, r.prover),
    {
        let network = match &env.prover {
            Some(s) => is_network(s),
            Option::None => false,
        };
        if network {
            let rpc_url = match &env.rpc_url {
                Some(u) => u.clone(),
                Option::None => default_rpc(),
            };
            let private_key = match &env.private_key {
                Some(k) => k.clone(),
                Option::None => String::new(),
            };
            ProverClient { prover: ProverKind::Network { rpc_url, private_key } }
        } else {
            ProverClient { prover: ProverKind::Local }
        }
    }
}

impl ProverClientBuilder<NoProver> {
    /// Chooses the local prover.
    pub fn local(self) -> (r: ProverClientBuilder<LocalProverBuilder>) {
        ProverClientBuilder { inner_builder: LocalProverBuilder }
    }

    /// Chooses the prover network, with no endpoint or key set yet.
    pub fn network(self) -> (r: ProverClientBuilder<NetworkProverBuilder>)
        ensures
            r.inner_builder.rpc_url is None,
            r.inner_builder.private_key is None,
    {
        ProverClientBuilder {
            inner_builder: NetworkProverBuilder { rpc_url: Option::None, private_key: Option::None },
        }
    }

    /// The client that the settings pick.
    pub fn from_env(self, env: &ProverEnv) -> (r: ProverClient)
        ensures
            prover_from_env(*env, r.prover),
    {
        ProverClient::create_from_env(env)
    }
}

impl<T: BuildableProver> ProverClientBuilder<T> {
    /// The client of the chosen prover.
    pub fn build(self) -> (r: ProverClient)
        ensures
            self.inner_builder.builds(r.prover),
    {
        ProverClient { prover: self.inner_builder.build_prover() }
    }
}

impl ProverClientBuilder<NetworkProverBuilder> {
    /// Sets the network's endpoint.
    pub fn rpc_url(self, url: String) -> (r: Self)
        ensures
            r.inner_builder.rpc_url == Some(url),
            r.inner_builder.private_key == self.inner_builder.private_key,
    {
        ProverClientBuilder {
            inner_builder: NetworkProverBuilder {
                rpc_url: Some(url),
                private_key: self.inner_builder.private_key,
            },
        }
    }

    /// Sets the key that signs requests.
    pub fn private_key(self, key: String) -> (r: Self)
        ensures
            r.inner_builder.private_key == Some(key),
            r.inner_builder.rpc_url == self.inner_builder.rpc_url,
    {
        ProverClientBuilder {
            inner_builder: NetworkProverBuilder {
                rpc_url: self.inner_builder.rpc_url,
                private_key: Some(key),
            },
        }
    }
}

} // verus!

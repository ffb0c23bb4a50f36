use vstd::prelude::*;

verus! {

/// Where the secrets are read from when no other path is given.
pub const DEFAULT_PATH: &'static str = "secrets.toml";

/// What the platform asks of the application to let it in.
#[derive(Clone, Debug)]
pub struct Discord {
    pub token: String,
    pub application: u64,
}

/// What the membership registry asks of the association to answer it.
#[derive(Clone, Debug)]
pub struct Ebas {
    pub api_key: String,
    pub id: String,
}

/// The credentials of one deployment.
#[derive(Clone, Debug)]
pub struct Secrets {
    pub discord: Discord,
    pub ebas: Ebas,
}

} // verus!

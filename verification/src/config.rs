use vstd::prelude::*;

verus! {

/// Process configuration: where the database lives and the passphrase that
/// seeds its at-rest encryption. The cryptographic operations take no
/// implicit global dependency; callers own a `Config` value and pass it to
/// whichever collaborator needs it.
#[derive(Debug)]
pub struct Config {
    pub database_url: String,
    pub database_passphrase: String,
}

impl Default for Config {
    fn default() -> (r: Config)
        ensures
            r.database_url@ == "speem.db"@,
            r.database_passphrase@ == "default_passphrase"@,
    {
        Config {
            database_url: "speem.db".to_owned(),
            database_passphrase: "default_passphrase".to_owned(),
        }
    }
}

/// Returns a copy of the current configuration.
pub fn get_config(current: &Config) -> (r: Config)
    ensures
        r.database_url == current.database_url,
        r.database_passphrase == current.database_passphrase,
{
    Config {
        database_url: current.database_url.clone(),
        database_passphrase: current.database_passphrase.clone(),
    }
}

/// Replaces the current configuration with `new_config`.
pub fn set_config(current: &mut Config, new_config: Config)
    ensures
        final(current).database_url == new_config.database_url,
        final(current).database_passphrase == new_config.database_passphrase,
{
    *current = new_config;
}

} // verus!

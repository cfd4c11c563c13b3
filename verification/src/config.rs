//! What the process must be told before it can talk to the provider.

use vstd::prelude::*;

verus! {

/// The account key and the bucket to work on.
#[derive(Clone)]
pub struct Config {
    pub key_id: String,
    pub key: String,
    pub bucket: String,
}

/// The required value that is absent; the first one, where several are.
#[derive(Clone, Copy, Debug, PartialEq, Eq, Structural)]
pub enum ConfigError {
    MissingKeyId,
    MissingKey,
    MissingBucket,
}

impl Config {
    /// Gathers the three required values, each given as `None` where the
    /// process was not told it. Succeeds exactly when all three are there.
    pub fn new(key_id: Option<String>, key: Option<String>, bucket: Option<String>) -> (result:
        Result<Config, ConfigError>)
        ensures
            result is Ok <==> key_id is Some && key is Some && bucket is Some,
            result is Ok ==> result.unwrap().key_id == key_id.unwrap() && result.unwrap().key
                == key.unwrap() && result.unwrap().bucket == bucket.unwrap(),
            key_id is None ==> result == Err::<Config, ConfigError>(ConfigError::MissingKeyId),
            key_id is Some && key is None ==> result == Err::<Config, ConfigError>(
                ConfigError::MissingKey,
            ),
            key_id is Some && key is Some && bucket is None ==> result == Err::<
                Config,
                ConfigError,
            >(ConfigError::MissingBucket),
    {
        match key_id {
            None => Err(ConfigError::MissingKeyId),
            Some(key_id) => match key {
                None => Err(ConfigError::MissingKey),
                Some(key) => match bucket {
                    None => Err(ConfigError::MissingBucket),
                    Some(bucket) => Ok(Config { key_id, key, bucket }),
                },
            },
        }
    }
}

} // verus!

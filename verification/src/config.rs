//! Configuration values the service is started with. Loading them — from a
//! file, an environment, or a configuration store — happens outside this
//! library; these are the plain shapes the rest of the code receives.

use vstd::prelude::*;

verus! {

pub struct General {
    pub host: String,
    pub port: u16,
    /// The public key identity tokens are verified against, DER/PEM bytes.
    pub jwt_verify_key: Vec<u8>,
}

pub struct Postgresql {
    pub host: String,
    pub port: u16,
    pub username: String,
    pub password: String,
    pub database: String,
}

pub struct S3 {
    pub host: String,
    pub port: u16,
    pub access_key: String,
    pub secret_key: String,
    pub bucket: String,
    pub external_base_url: String,
}

pub struct Database {
    pub postgresql: Postgresql,
    pub s3: S3,
}

pub struct Config {
    pub general: General,
    pub database: Database,
}

} // verus!

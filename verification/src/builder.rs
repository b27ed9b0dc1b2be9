//! Putting a server together: what must be there before one can be built.

use crate::outside::empty_path;
use vstd::prelude::*;

verus! {

/// Why a server could not be built.
#[derive(Debug)]
pub enum BuilderError {
    /// No connection settings were given.
    MissingConnection,
    /// No settings for the broker were given.
    MissingBrokerInfo,
    /// No source of randomness or no key was given.
    MissingCrypto,
    /// The fingerprinter could not be made.
    FingerprinterError(String),
    /// Something else went wrong.
    UnknownError(anyhow::Error),
}

impl BuilderError {
    /// What the error says.
    pub open spec fn spec_message(self) -> Seq<char> {
        match self {
            BuilderError::MissingConnection => "Missing connection settings"@,
            BuilderError::MissingBrokerInfo => "Missing Broker info"@,
            BuilderError::MissingCrypto => "Missing Crypto"@,
            BuilderError::FingerprinterError(_) => "Invalid fingerprinter"@,
            BuilderError::UnknownError(_) => "Unknown error"@,
        }
    }

    /// What the error says.
    pub fn message(&self) -> (text: String)
        ensures
            text@ == self.spec_message(),
    {
        match self {
            BuilderError::MissingConnection => "Missing connection settings".to_owned(),
            BuilderError::MissingBrokerInfo => "Missing Broker info".to_owned(),
            BuilderError::MissingCrypto => "Missing Crypto".to_owned(),
            BuilderError::FingerprinterError(_) => "Invalid fingerprinter".to_owned(),
            BuilderError::UnknownError(_) => "Unknown error".to_owned(),
        }
    }
}

/// Collects what a server is made of: the roots to watch, the connection
/// settings `C`, the broker settings `B`, the database's path, the source of
/// randomness `R` and the key `K`.
pub struct Builder<C, B, R, K> {
    roots: Vec<std::path::PathBuf>,
    connection: Option<C>,
    broker: Option<B>,
    db: std::path::PathBuf,
    rnd: Option<R>,
    source_key: Option<K>,
}

/// Everything a server is made of, all of it there.
pub struct ServerParts<C, B, R, K> {
    pub roots: Vec<std::path::PathBuf>,
    pub connection: C,
    pub broker: B,
    pub db: std::path::PathBuf,
    pub rnd: R,
    pub source_key: K,
}

/// A builder that nothing was given to yet.
pub fn builder<C, B, R, K>() -> (b: Builder<C, B, R, K>)
    ensures
        b.spec_roots()@.len() == 0,
        b.spec_connection().is_none(),
        b.spec_broker().is_none(),
        b.spec_rnd().is_none(),
        b.spec_source_key().is_none(),
{
    Builder::default()
}

impl<C, B, R, K> Default for Builder<C, B, R, K> {
    fn default() -> (b: Self)
        ensures
            b.spec_roots()@.len() == 0,
            b.spec_connection().is_none(),
            b.spec_broker().is_none(),
            b.spec_rnd().is_none(),
            b.spec_source_key().is_none(),
    {
        Builder {
            roots: Vec::new(),
            connection: None,
            broker: None,
            db: empty_path(),
            rnd: None,
            source_key: None,
        }
    }
}

impl<C, B, R, K> Builder<C, B, R, K> {
    /// The roots given so far.
    pub closed spec fn spec_roots(self) -> Vec<std::path::PathBuf> {
        self.roots
    }

    /// The connection settings given so far.
    pub closed spec fn spec_connection(self) -> Option<C> {
        self.connection
    }

    /// The broker settings given so far.
    pub closed spec fn spec_broker(self) -> Option<B> {
        self.broker
    }

    /// The database's path given so far.
    pub closed spec fn spec_db(self) -> std::path::PathBuf {
        self.db
    }

    /// The source of randomness given so far.
    pub closed spec fn spec_rnd(self) -> Option<R> {
        self.rnd
    }

    /// The key given so far.
    pub closed spec fn spec_source_key(self) -> Option<K> {
        self.source_key
    }

    /// Whether the builder holds the same source of randomness and the same
    /// key as `other`.
    pub open spec fn same_crypto(self, other: Self) -> bool {
        self.spec_rnd() == other.spec_rnd() && self.spec_source_key() == other.spec_source_key()
    }

    /// Gives the roots, the connection settings, the broker settings and the
    /// database's path at once, as a settings file holds them.
    pub fn settings(self, roots: Vec<std::path::PathBuf>, connection: C, broker: B, db: std::path::PathBuf) -> (b: Self)
        ensures
            b.spec_roots() == roots,
            b.spec_connection() == Some(connection),
            b.spec_broker() == Some(broker),
            b.spec_db() == db,
            b.same_crypto(self),
    {
        self.roots(roots).connection(connection).broker(broker).db(db)
    }

    /// Gives the roots to watch.
    pub fn roots(self, roots: Vec<std::path::PathBuf>) -> (b: Self)
        ensures
            b.spec_roots() == roots,
            b.spec_connection() == self.spec_connection(),
            b.spec_broker() == self.spec_broker(),
            b.spec_db() == self.spec_db(),
            b.same_crypto(self),
    {
        let mut b = self;
        b.roots = roots;
        b
    }

    /// Gives the connection settings.
    pub fn connection(self, connection: C) -> (b: Self)
        ensures
            b.spec_roots() == self.spec_roots(),
            b.spec_connection() == Some(connection),
            b.spec_broker() == self.spec_broker(),
            b.spec_db() == self.spec_db(),
            b.same_crypto(self),
    {
        let mut b = self;
        b.connection = Some(connection);
        b
    }

    /// Gives the broker settings.
    pub fn broker(self, broker: B) -> (b: Self)
        ensures
            b.spec_roots() == self.spec_roots(),
            b.spec_connection() == self.spec_connection(),
            b.spec_broker() == Some(broker),
            b.spec_db() == self.spec_db(),
            b.same_crypto(self),
    {
        let mut b = self;
        b.broker = Some(broker);
        b
    }

    /// Gives the path of the database.
    pub fn db(self, path: std::path::PathBuf) -> (b: Self)
        ensures
            b.spec_roots() == self.spec_roots(),
            b.spec_connection() == self.spec_connection(),
            b.spec_broker() == self.spec_broker(),
            b.spec_db() == path,
            b.same_crypto(self),
    {
        let mut b = self;
        b.db = path;
        b
    }

    /// Gives the source of randomness and the key.
    pub fn crypto(self, rnd: R, source_key: K) -> (b: Self)
        ensures
            b.spec_roots() == self.spec_roots(),
            b.spec_connection() == self.spec_connection(),
            b.spec_broker() == self.spec_broker(),
            b.spec_db() == self.spec_db(),
            b.spec_rnd() == Some(rnd),
            b.spec_source_key() == Some(source_key),
    {
        let mut b = self;
        b.rnd = Some(rnd);
        b.source_key = Some(source_key);
        b
    }

    /// What is missing first, asking for the connection settings, then the
    /// broker settings, then the source of randomness and the key.
    pub open spec fn missing(self) -> Option<BuilderError> {
        if self.spec_connection().is_none() {
            Some(BuilderError::MissingConnection)
        } else if self.spec_broker().is_none() {
            Some(BuilderError::MissingBrokerInfo)
        } else if self.spec_rnd().is_none() || self.spec_source_key().is_none() {
            Some(BuilderError::MissingCrypto)
        } else {
            None
        }
    }

    /// Hands out the parts where all are there, and says what is missing
    /// where not, before anything is opened or connected.
    pub fn build(self) -> (r: Result<ServerParts<C, B, R, K>, BuilderError>)
        ensures
            self.missing() matches Some(e) ==> r == Err::<ServerParts<C, B, R, K>, BuilderError>(e),
            self.missing().is_none() ==> (r matches Ok(parts) && parts.roots == self.spec_roots()
                && Some(parts.connection) == self.spec_connection() && Some(parts.broker)
                == self.spec_broker() && parts.db == self.spec_db() && Some(parts.rnd)
                == self.spec_rnd() && Some(parts.source_key) == self.spec_source_key()),
    {
        let connection = match self.connection {
            Some(connection) => connection,
            None => {
                return Err(BuilderError::MissingConnection);
            },
        };
        let broker = match self.broker {
            Some(broker) => broker,
            None => {
                return Err(BuilderError::MissingBrokerInfo);
            },
        };
        let rnd = match self.rnd {
            Some(rnd) => rnd,
            None => {
                return Err(BuilderError::MissingCrypto);
            },
        };
        let source_key = match self.source_key {
            Some(source_key) => source_key,
            None => {
                return Err(BuilderError::MissingCrypto);
            },
        };
        Ok(ServerParts { roots: self.roots, connection, broker, db: self.db, rnd, source_key })
    }
}

} // verus!

//! Identifiers and the shared error type.

use vstd::prelude::*;

use crate::model::time::Timestamp;
use crate::text::{concat, push_hex};

verus! {

/// Stable identifier of a vobe: opaque text, never reused.
#[derive(Clone, Debug, PartialEq, Eq, Hash)]
pub struct VobeId(pub String);

/// Lowercase hexadecimal spelling of `n` (no leading zeros; `0` for zero).
pub open spec fn hex(n: nat) -> Seq<char>
    decreases n,
{
    if n < 16 {
        seq![hex_digit(n)]
    } else {
        hex(n / 16).push(hex_digit(n % 16))
    }
}

/// The lowercase hexadecimal digit for `d < 16`.
pub open spec fn hex_digit(d: nat) -> char {
    if d < 10 {
        (48 + d) as char
    } else {
        (87 + d) as char
    }
}

/// The id generated at a clock reading of `nanos`: `vobe_` and the reading
/// in hexadecimal (readings before the epoch count as zero).
pub open spec fn id_for_clock(nanos: i64) -> Seq<char> {
    seq!['v', 'o', 'b', 'e', '_'] + hex(if nanos < 0 {
        0
    } else {
        nanos as nat
    })
}

impl VobeId {
    /// Generate a fresh id from the current clock: `vobe_` and the clock
    /// reading in hexadecimal nanoseconds.
    pub fn new() -> (id: VobeId)
        ensures
            exists|t: Timestamp| id.0@ == id_for_clock(t.nanos),
    {
        let t = Timestamp::now();
        let id = Self::from_clock(t);
        assert(id.0@ == id_for_clock(t.nanos));
        id
    }

    /// The id for a given clock reading: `vobe_<hex nanos>`.
    pub fn from_clock(ts: Timestamp) -> (id: VobeId)
        ensures
            id.0@ == id_for_clock(ts.nanos),
    {
        let mut v: Vec<char> = Vec::new();
        v.push('v');
        v.push('o');
        v.push('b');
        v.push('e');
        v.push('_');
        let n: u64 = if ts.nanos < 0 {
            0
        } else {
            ts.nanos as u64
        };
        push_hex(&mut v, n);
        assert(v@ =~= id_for_clock(ts.nanos));
        VobeId(crate::text::string_of(&v))
    }

    /// Wrap an existing id string.
    pub fn from_string(s: &str) -> (id: VobeId)
        ensures
            id.0@ == s@,
    {
        VobeId(s.to_owned())
    }

    /// Borrow the inner string.
    pub fn as_str(&self) -> (r: &str)
        ensures
            r@ == self.0@,
    {
        self.0.as_str()
    }

    /// The id as text.
    pub fn to_string(&self) -> (r: String)
        ensures
            r@ == self.0@,
    {
        self.0.clone()
    }

    /// Parse an id: any non-empty text is one.
    pub fn parse(s: &str) -> (r: std::result::Result<VobeId, ParseIdError>)
        ensures
            s@.len() == 0 ==> r == std::result::Result::<VobeId, ParseIdError>::Err(ParseIdError::Empty),
            s@.len() > 0 ==> (r matches Ok(id) && id.0@ == s@),
    {
        if s.is_empty() {
            Err(ParseIdError::Empty)
        } else {
            Ok(VobeId(s.to_owned()))
        }
    }
}

impl Default for VobeId {
    fn default() -> (id: VobeId)
        ensures
            exists|t: Timestamp| id.0@ == id_for_clock(t.nanos),
    {
        VobeId::new()
    }
}

impl std::str::FromStr for VobeId {
    type Err = ParseIdError;

    fn from_str(s: &str) -> (r: std::result::Result<VobeId, ParseIdError>)
        ensures
            s@.len() == 0 ==> r == std::result::Result::<VobeId, ParseIdError>::Err(ParseIdError::Empty),
            s@.len() > 0 ==> (r matches Ok(id) && id.0@ == s@),
    {
        VobeId::parse(s)
    }
}

/// Errors from parsing a [`VobeId`].
#[derive(Clone, Copy, Debug, PartialEq, Eq, Structural)]
pub enum ParseIdError {
    /// Input was empty.
    Empty,
}

/// Unified error type. Each variant carries its message.
#[derive(Clone, Debug, PartialEq, Eq)]
pub enum Error {
    /// I/O error.
    Io(String),
    /// Serialization / deserialization error.
    Serde(String),
    /// Storage error (e.g. SQLite).
    Storage(String),
    /// Git error.
    Git(String),
    /// Configuration error.
    Config(String),
    /// Scan error.
    Scan(String),
    /// Vobe not found.
    NotFound(String),
    /// Invalid id.
    InvalidId(ParseIdError),
    /// Generic internal error.
    Internal(String),
}

impl Error {
    /// A storage error.
    pub fn storage(msg: String) -> (e: Error)
        ensures
            e == Error::Storage(msg),
    {
        Error::Storage(msg)
    }

    /// A git error.
    pub fn git(msg: String) -> (e: Error)
        ensures
            e == Error::Git(msg),
    {
        Error::Git(msg)
    }

    /// A configuration error.
    pub fn config(msg: String) -> (e: Error)
        ensures
            e == Error::Config(msg),
    {
        Error::Config(msg)
    }

    /// A scan error.
    pub fn scan(msg: String) -> (e: Error)
        ensures
            e == Error::Scan(msg),
    {
        Error::Scan(msg)
    }

    /// A not-found error.
    pub fn not_found(msg: String) -> (e: Error)
        ensures
            e == Error::NotFound(msg),
    {
        Error::NotFound(msg)
    }

    /// An internal error.
    pub fn internal(msg: String) -> (e: Error)
        ensures
            e == Error::Internal(msg),
    {
        Error::Internal(msg)
    }

    /// The human-readable message: a label naming the kind, `: `, and the
    /// carried text.
    pub fn message(&self) -> (r: String)
        ensures
            r@ == self.spec_message(),
    {
        match self {
            Error::Io(m) => concat("io error: ", m.as_str()),
            Error::Serde(m) => concat("serde error: ", m.as_str()),
            Error::Storage(m) => concat("storage error: ", m.as_str()),
            Error::Git(m) => concat("git error: ", m.as_str()),
            Error::Config(m) => concat("config error: ", m.as_str()),
            Error::Scan(m) => concat("scan error: ", m.as_str()),
            Error::NotFound(m) => concat("vobe not found: ", m.as_str()),
            Error::InvalidId(_) => "invalid id: vobe id cannot be empty".to_owned(),
            Error::Internal(m) => concat("internal error: ", m.as_str()),
        }
    }

    /// The message of [`Error::message`].
    pub open spec fn spec_message(&self) -> Seq<char> {
        match self {
            Error::Io(m) => "io error: "@ + m@,
            Error::Serde(m) => "serde error: "@ + m@,
            Error::Storage(m) => "storage error: "@ + m@,
            Error::Git(m) => "git error: "@ + m@,
            Error::Config(m) => "config error: "@ + m@,
            Error::Scan(m) => "scan error: "@ + m@,
            Error::NotFound(m) => "vobe not found: "@ + m@,
            Error::InvalidId(_) => "invalid id: vobe id cannot be empty"@,
            Error::Internal(m) => "internal error: "@ + m@,
        }
    }
}

/// Fallible result across the crate.
pub type Result<T> = std::result::Result<T, Error>;

} // verus!

//! ICAP methods and versions.
use crate::errors::{BadIcapMethodError, BadIcapVersionError};
use crate::text::{icap_10, icap_10_bytes, options, options_bytes, reqmod, reqmod_bytes, respmod, respmod_bytes};
use vstd::prelude::*;

verus! {

/// The three ICAP methods.
#[derive(Copy, Clone, Debug, PartialEq, Eq, Structural, Hash, Default)]
pub enum Method {
    #[default]
    Options,
    ReqMod,
    RespMod,
}

impl Method {
    /// The method's name on the wire.
    pub open spec fn name(self) -> Seq<u8> {
        match self {
            Method::Options => options(),
            Method::ReqMod => reqmod(),
            Method::RespMod => respmod(),
        }
    }

    /// The method's name on the wire.
    pub fn as_str(self) -> (r: &'static str)
        ensures
            r@ == self.name().map_values(|c: u8| c as char),
    {
        proof {
            reveal_strlit("OPTIONS");
            reveal_strlit("REQMOD");
            reveal_strlit("RESPMOD");
        }
        let r = match self {
            Method::Options => "OPTIONS",
            Method::ReqMod => "REQMOD",
            Method::RespMod => "RESPMOD",
        };
        assert(r@ =~= self.name().map_values(|c: u8| c as char));
        r
    }

    /// The method's name on the wire, as bytes.
    pub fn as_bytes(self) -> (r: Vec<u8>)
        ensures
            r@ == self.name(),
    {
        match self {
            Method::Options => options_bytes(),
            Method::ReqMod => reqmod_bytes(),
            Method::RespMod => respmod_bytes(),
        }
    }

    pub fn is_options(self) -> (r: bool)
        ensures
            r == (self == Method::Options),
    {
        self == Method::Options
    }

    pub fn is_req_mod(self) -> (r: bool)
        ensures
            r == (self == Method::ReqMod),
    {
        self == Method::ReqMod
    }

    pub fn is_resp_mod(self) -> (r: bool)
        ensures
            r == (self == Method::RespMod),
    {
        self == Method::RespMod
    }

    /// `REQMOD` or `RESPMOD`: a method that carries an HTTP message.
    pub fn is_any_req(self) -> (r: bool)
        ensures
            r == (self == Method::ReqMod || self == Method::RespMod),
    {
        self == Method::ReqMod || self == Method::RespMod
    }

    /// The method named exactly `b`.
    pub fn from_bytes(b: &[u8]) -> (r: Result<Method, BadIcapMethodError>)
        ensures
            r matches Ok(m) ==> b@ == m.name(),
            r is Err ==> b@ != options() && b@ != reqmod() && b@ != respmod(),
    {
        let o = options_bytes();
        let q = reqmod_bytes();
        let p = respmod_bytes();
        if bytes_equal(b, o.as_slice()) {
            Ok(Method::Options)
        } else if bytes_equal(b, q.as_slice()) {
            Ok(Method::ReqMod)
        } else if bytes_equal(b, p.as_slice()) {
            Ok(Method::RespMod)
        } else {
            Err(BadIcapMethodError)
        }
    }
}

/// Whether two byte strings are equal.
pub fn bytes_equal(a: &[u8], b: &[u8]) -> (r: bool)
    ensures
        r == (a@ == b@),
{
    if a.len() != b.len() {
        return false;
    }
    let mut k: usize = 0;
    while k < a.len()
        invariant
            a@.len() == b@.len(),
            k <= a@.len(),
            forall|j: int| 0 <= j < k ==> a@[j] == b@[j],
        decreases a@.len() - k,
    {
        if a[k] != b[k] {
            return false;
        }
        k = k + 1;
    }
    assert(a@ =~= b@);
    true
}

/// The ICAP versions: only `ICAP/1.0`.
#[derive(Copy, Clone, Debug, PartialEq, Eq, Structural, Hash, Default)]
pub enum Version {
    #[default]
    Icap10,
}

impl Version {
    pub open spec fn name(self) -> Seq<u8> {
        icap_10()
    }

    /// The version's name on the wire.
    pub fn as_str(self) -> (r: &'static str)
        ensures
            r@ == self.name().map_values(|c: u8| c as char),
    {
        proof {
            reveal_strlit("ICAP/1.0");
        }
        let r = "ICAP/1.0";
        assert(r@ =~= self.name().map_values(|c: u8| c as char));
        r
    }

    /// The version's name on the wire, as bytes.
    pub fn as_bytes(self) -> (r: Vec<u8>)
        ensures
            r@ == self.name(),
    {
        icap_10_bytes()
    }

    /// The version named exactly `b`.
    pub fn from_bytes(b: &[u8]) -> (r: Result<Version, BadIcapVersionError>)
        ensures
            r is Ok <==> b@ == icap_10(),
    {
        let v = icap_10_bytes();
        if bytes_equal(b, v.as_slice()) {
            Ok(Version::Icap10)
        } else {
            Err(BadIcapVersionError)
        }
    }
}

impl std::str::FromStr for Method {
    type Err = BadIcapMethodError;

    fn from_str(s: &str) -> Result<Method, BadIcapMethodError> {
        Method::from_bytes(s.as_bytes())
    }
}

impl std::str::FromStr for Version {
    type Err = BadIcapVersionError;

    fn from_str(s: &str) -> Result<Version, BadIcapVersionError> {
        Version::from_bytes(s.as_bytes())
    }
}

} // verus!

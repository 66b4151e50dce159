use vstd::prelude::*;
use vstd::string::StringSliceAdditionalSpecFns;
use crate::bytes::{bytes_equal, has_prefix, starts_with_bytes};
use crate::kem::{
    ciphertext_of, encapsulated_secret, nominal_bits, public_from_private, HTTPQLattice, KemError,
    SecurityLevel, KEY_BYTES,
};
use crate::text::{decimal, decimal_text};

verus! {

/// Level that a configured algorithm name selects; unknown names select the
/// middle level.
pub open spec fn level_for_name(name: Seq<u8>) -> SecurityLevel {
    if name == "HTTQ-LATTICE-1024".spec_bytes() {
        SecurityLevel::HTTQ1024
    } else if name == "HTTQ-LATTICE-4096".spec_bytes() {
        SecurityLevel::HTTQ4096
    } else {
        SecurityLevel::HTTQ2048
    }
}

/// Prefix of targets reached over the quantum-safe protocol.
pub open spec fn quantum_scheme() -> Seq<u8> {
    "httq://".spec_bytes()
}

/// Prefix of targets reached over conventional secure transport.
pub open spec fn conventional_scheme() -> Seq<u8> {
    "https://".spec_bytes()
}

/// Path that a request takes.
#[derive(Debug, Clone, Copy, PartialEq, Eq, Structural)]
pub enum Route {
    Quantum,
    Fallback,
    Rejected,
}

/// Route of a target, given whether conventional fallback is enabled.
pub open spec fn route_of(target: Seq<u8>, fallback: bool) -> Route {
    if has_prefix(target, quantum_scheme()) {
        Route::Quantum
    } else if has_prefix(target, conventional_scheme()) && fallback {
        Route::Fallback
    } else {
        Route::Rejected
    }
}

/// Body of a response on the quantum-safe path.
pub open spec fn quantum_body(algorithm: Seq<char>, bits: nat) -> Seq<char> {
    "{\"message\":\"Quantum-safe communication established!\",\"algorithm\":\""@ + algorithm
        + "\",\"security_bits\":"@ + decimal(bits) + "}"@
}

/// Body of a response on the fallback path.
pub open spec fn fallback_body() -> Seq<char> {
    "{\"message\":\"Regular HTTPS response\"}"@
}

/// Failures of a request.
#[derive(Debug, Clone)]
pub enum HttqError {
    HandshakeFailed(KemError),
    UnsupportedScheme(String),
}

/// Result of a completed handshake.
#[derive(Debug, Clone)]
pub struct Session {
    pub shared_secret: Vec<u8>,
    pub algorithm: String,
    pub security_bits: u32,
}

/// Response to a request.
#[derive(Debug)]
pub struct Response {
    pub status: u16,
    pub data: String,
    pub quantum_safe: bool,
}

/// Decides the route of a target.
pub fn route(target: &str, fallback: bool) -> (r: Route)
    ensures
        r == route_of(target.spec_bytes(), fallback),
{
    let t = target.as_bytes();
    if starts_with_bytes(t, "httq://".as_bytes()) {
        Route::Quantum
    } else if starts_with_bytes(t, "https://".as_bytes()) && fallback {
        Route::Fallback
    } else {
        Route::Rejected
    }
}

/// Builds the response of the quantum-safe path from a session.
pub fn quantum_response(session: &Session) -> (r: Response)
    ensures
        r.status == 200,
        r.quantum_safe,
        r.data@ == quantum_body(session.algorithm@, session.security_bits as nat),
{
    let mut data = String::from_str(
        "{\"message\":\"Quantum-safe communication established!\",\"algorithm\":\"",
    );
    data.append(session.algorithm.as_str());
    data.append("\",\"security_bits\":");
    let digits = decimal_text(session.security_bits);
    data.append(digits.as_str());
    data.append("}");
    assert(data@ =~= quantum_body(session.algorithm@, session.security_bits as nat));
    Response { status: 200, data, quantum_safe: true }
}

/// Builds the response of the fallback path.
pub fn fallback_response() -> (r: Response)
    ensures
        r.status == 200,
        !r.quantum_safe,
        r.data@ == fallback_body(),
{
    Response {
        status: 200,
        data: String::from_str("{\"message\":\"Regular HTTPS response\"}"),
        quantum_safe: false,
    }
}

/// Client of the quantum-safe protocol.
pub struct Client {
    algorithm: String,
    hybrid_mode: bool,
    fallback_to_https: bool,
    lattice: HTTPQLattice,
}

impl Client {
    pub closed spec fn algorithm(&self) -> Seq<char> {
        self.algorithm@
    }

    pub closed spec fn hybrid(&self) -> bool {
        self.hybrid_mode
    }

    pub closed spec fn fallback(&self) -> bool {
        self.fallback_to_https
    }

    pub closed spec fn level(&self) -> SecurityLevel {
        self.lattice.level()
    }

    pub closed spec fn wf(&self) -> bool {
        self.lattice.wf()
    }

    /// What a request to `target` may return: on the quantum-safe route a
    /// response that carries the configured algorithm name and the level's
    /// strength, or a failed handshake; on the fallback route the conventional
    /// response; otherwise the target's rejection.
    pub open spec fn answers(&self, target: &str, r: Result<Response, HttqError>) -> bool {
        match route_of(target.spec_bytes(), self.fallback()) {
            Route::Quantum => match r {
                Ok(resp) => {
                    &&& resp.status == 200
                    &&& resp.quantum_safe
                    &&& resp.data@ == quantum_body(
                        self.algorithm(),
                        nominal_bits(self.level()) as nat,
                    )
                },
                Err(e) => e matches HttqError::HandshakeFailed(KemError::RandomnessUnavailable),
            },
            Route::Fallback => match r {
                Ok(resp) => resp.status == 200 && !resp.quantum_safe && resp.data@
                    == fallback_body(),
                Err(_) => false,
            },
            Route::Rejected => match r {
                Ok(_) => false,
                Err(e) => match e {
                    HttqError::UnsupportedScheme(t) => t@ == target@,
                    HttqError::HandshakeFailed(_) => false,
                },
            },
        }
    }

    /// Creates a client; the algorithm name selects the security level.
    pub fn new(algorithm: &str, hybrid_mode: bool, fallback_to_https: bool) -> (r: Self)
        ensures
            r.wf(),
            r.algorithm() == algorithm@,
            r.hybrid() == hybrid_mode,
            r.fallback() == fallback_to_https,
            r.level() == level_for_name(algorithm.spec_bytes()),
    {
        let name = algorithm.as_bytes();
        let level = if bytes_equal(name, "HTTQ-LATTICE-1024".as_bytes()) {
            SecurityLevel::HTTQ1024
        } else if bytes_equal(name, "HTTQ-LATTICE-4096".as_bytes()) {
            SecurityLevel::HTTQ4096
        } else {
            SecurityLevel::HTTQ2048
        };
        Client {
            algorithm: algorithm.to_owned(),
            hybrid_mode,
            fallback_to_https,
            lattice: HTTPQLattice::new(level),
        }
    }

    /// Whether hybrid negotiation was asked for; it is recorded only.
    pub fn hybrid_mode(&self) -> (r: bool)
        ensures
            r == self.hybrid(),
    {
        self.hybrid_mode
    }

    /// Runs the one-round handshake: a local and a peer key pair, then one
    /// encapsulation against the peer's public key.
    pub fn perform_handshake(&self, target: &str) -> (r: Result<Session, HttqError>)
        ensures
            r matches Ok(s) ==> {
                &&& s.algorithm@ == self.algorithm()
                &&& s.security_bits == nominal_bits(self.level())
                &&& s.shared_secret@.len() == 32
            },
            r matches Ok(s) ==> exists|peer_private: Seq<u8>, message: Seq<u8>|
                #![trigger encapsulated_secret(public_from_private(peer_private), message)]
                {
                    &&& peer_private.len() == KEY_BYTES
                    &&& message.len() == KEY_BYTES
                    &&& s.shared_secret@ == encapsulated_secret(
                        public_from_private(peer_private),
                        message,
                    )
                },
            r matches Err(e) ==> e matches HttqError::HandshakeFailed(
                KemError::RandomnessUnavailable,
            ),
    {
        let keypair = match self.lattice.generate_keypair() {
            Ok(kp) => kp,
            Err(e) => return Err(HttqError::HandshakeFailed(e)),
        };
        let server_keypair = match self.lattice.generate_keypair() {
            Ok(kp) => kp,
            Err(e) => return Err(HttqError::HandshakeFailed(e)),
        };
        let shared_secret = match self.lattice.encapsulate(server_keypair.public_key.as_slice()) {
            Ok((ciphertext, ss)) => {
                proof {
                    let pk = server_keypair.public_key@;
                    let m = choose|m: Seq<u8>|
                        #![trigger ciphertext_of(pk, m)]
                        {
                            &&& m.len() == KEY_BYTES
                            &&& ciphertext@ == ciphertext_of(pk, m)
                            &&& ss@ == encapsulated_secret(pk, m)
                        };
                    assert(ss@ == encapsulated_secret(
                        public_from_private(server_keypair.private_key@),
                        m,
                    ));
                }
                ss
            },
            Err(e) => return Err(HttqError::HandshakeFailed(e)),
        };
        Ok(Session {
            shared_secret,
            algorithm: self.algorithm.clone(),
            security_bits: keypair.security_bits,
        })
    }

    /// Routes a request by the scheme of its target.
    pub fn request(&self, method: &str, target: &str, data: Option<Vec<u8>>) -> (r: Result<
        Response,
        HttqError,
    >)
        ensures
            self.answers(target, r),
    {
        match route(target, self.fallback_to_https) {
            Route::Quantum => {
                let session = self.perform_handshake(target)?;
                Ok(quantum_response(&session))
            },
            Route::Fallback => Ok(fallback_response()),
            Route::Rejected => Err(HttqError::UnsupportedScheme(target.to_owned())),
        }
    }

    /// Sends a GET request.
    pub fn get(&self, target: &str) -> (r: Result<Response, HttqError>)
        ensures
            self.answers(target, r),
    {
        self.request("GET", target, None)
    }

    /// Sends a POST request with an optional body.
    pub fn post(&self, target: &str, data: Option<Vec<u8>>) -> (r: Result<Response, HttqError>)
        ensures
            self.answers(target, r),
    {
        self.request("POST", target, data)
    }
}

} // verus!

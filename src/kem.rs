use vstd::prelude::*;
use crate::external::{random_bytes, sha256, sha256_of};
use crate::bytes::concat_bytes;
use crate::text::{decimal, decimal_text};

verus! {

/// Parameter sets of the lattice key-encapsulation primitive.
#[derive(Debug, Clone, Copy, PartialEq, Eq, Structural)]
pub enum SecurityLevel {
    HTTQ1024,
    HTTQ2048,
    HTTQ4096,
}

/// Modulus `q` of a level.
pub open spec fn modulus(level: SecurityLevel) -> u32 {
    match level {
        SecurityLevel::HTTQ1024 => 3329,
        SecurityLevel::HTTQ2048 => 7681,
        SecurityLevel::HTTQ4096 => 12289,
    }
}

/// Dimension factor `k` of a level.
pub open spec fn dimension_factor(level: SecurityLevel) -> usize {
    match level {
        SecurityLevel::HTTQ1024 => 2,
        SecurityLevel::HTTQ2048 => 3,
        SecurityLevel::HTTQ4096 => 4,
    }
}

/// Ring dimension `n` of a level, which also names it.
pub open spec fn dimension(level: SecurityLevel) -> u32 {
    match level {
        SecurityLevel::HTTQ1024 => 1024,
        SecurityLevel::HTTQ2048 => 2048,
        SecurityLevel::HTTQ4096 => 4096,
    }
}

/// Nominal strength in bits of a level.
pub open spec fn nominal_bits(level: SecurityLevel) -> u32 {
    match level {
        SecurityLevel::HTTQ1024 => 128,
        SecurityLevel::HTTQ2048 => 192,
        SecurityLevel::HTTQ4096 => 256,
    }
}

/// Name of the algorithm at a level: `HTTQ-LATTICE-` and the dimension.
pub open spec fn algorithm_name(level: SecurityLevel) -> Seq<char> {
    "HTTQ-LATTICE-"@ + decimal(dimension(level) as nat)
}

/// Byte length of seeds, keys, messages, ciphertexts and shared secrets.
pub const KEY_BYTES: usize = 32;

/// Domain-separation context of the public-key derivation: `public`.
pub open spec fn public_context() -> Seq<u8> {
    seq![112u8, 117u8, 98u8, 108u8, 105u8, 99u8]
}

/// The bytes of the `public` context.
fn public_context_bytes() -> (r: Vec<u8>)
    ensures
        r@ == public_context(),
{
    let mut r: Vec<u8> = Vec::new();
    r.push(112u8);
    r.push(117u8);
    r.push(98u8);
    r.push(108u8);
    r.push(105u8);
    r.push(99u8);
    assert(r@ =~= public_context());
    r
}

/// Private key derived from a seed.
pub open spec fn private_from_seed(seed: Seq<u8>) -> Seq<u8> {
    sha256_of(seed)
}

/// Public key derived from a private key.
pub open spec fn public_from_private(private_key: Seq<u8>) -> Seq<u8> {
    sha256_of(private_key + public_context())
}

/// Ciphertext that carries `message` to the holder of `public_key`.
pub open spec fn ciphertext_of(public_key: Seq<u8>, message: Seq<u8>) -> Seq<u8> {
    sha256_of(public_key + message)
}

/// Shared secret that the encapsulating side derives.
pub open spec fn encapsulated_secret(public_key: Seq<u8>, message: Seq<u8>) -> Seq<u8> {
    sha256_of(message + public_key)
}

/// Shared secret that the decapsulating side derives.
pub open spec fn decapsulated_secret(ciphertext: Seq<u8>, private_key: Seq<u8>) -> Seq<u8> {
    sha256_of(ciphertext + private_key)
}

/// Failures of the key-encapsulation primitive.
#[derive(Debug, Clone, Copy, PartialEq, Eq, Structural)]
pub enum KemError {
    RandomnessUnavailable,
    InvalidPublicKey,
    InvalidCiphertext,
}

impl SecurityLevel {
    /// Nominal strength in bits, looked up from the level's table entry.
    pub fn security_bits(&self) -> (r: u32)
        ensures
            r == nominal_bits(*self),
    {
        match self {
            SecurityLevel::HTTQ1024 => 128,
            SecurityLevel::HTTQ2048 => 192,
            SecurityLevel::HTTQ4096 => 256,
        }
    }

    /// Ring dimension of the level.
    pub fn dimension(&self) -> (r: u32)
        ensures
            r == dimension(*self),
    {
        match self {
            SecurityLevel::HTTQ1024 => 1024,
            SecurityLevel::HTTQ2048 => 2048,
            SecurityLevel::HTTQ4096 => 4096,
        }
    }
}

/// A generated key pair.
#[derive(Debug, Clone)]
pub struct KeyPair {
    pub public_key: Vec<u8>,
    pub private_key: Vec<u8>,
    pub algorithm: String,
    pub security_bits: u32,
}

/// Key-encapsulation primitive fixed to one security level.
pub struct HTTPQLattice {
    security_level: SecurityLevel,
    n: usize,
    q: u32,
    k: usize,
}

impl HTTPQLattice {
    pub closed spec fn wf(&self) -> bool {
        &&& self.n == dimension(self.security_level) as usize
        &&& self.q == modulus(self.security_level)
        &&& self.k == dimension_factor(self.security_level)
    }

    pub closed spec fn level(&self) -> SecurityLevel {
        self.security_level
    }

    /// Fixes the modulus, dimension factor and dimension of the level.
    pub fn new(level: SecurityLevel) -> (r: Self)
        ensures
            r.wf(),
            r.level() == level,
    {
        let (q, k, n): (u32, usize, usize) = match level {
            SecurityLevel::HTTQ1024 => (3329, 2, 1024),
            SecurityLevel::HTTQ2048 => (7681, 3, 2048),
            SecurityLevel::HTTQ4096 => (12289, 4, 4096),
        };
        HTTPQLattice { security_level: level, n, q, k }
    }

    /// The level this instance was built with.
    pub fn security_level(&self) -> (r: SecurityLevel)
        ensures
            r == self.level(),
    {
        self.security_level
    }

    /// Derives a key pair from a seed: the private key is the digest of the
    /// seed, the public key the digest of the private key under the `public`
    /// context.
    pub fn generate_keypair_from_seed(&self, seed: &[u8]) -> (r: KeyPair)
        ensures
            r.private_key@ == private_from_seed(seed@),
            r.public_key@ == public_from_private(r.private_key@),
            r.public_key@.len() == KEY_BYTES,
            r.private_key@.len() == KEY_BYTES,
            r.algorithm@ == algorithm_name(self.level()),
            r.security_bits == nominal_bits(self.level()),
    {
        let private_key = sha256(seed);
        let context = public_context_bytes();
        let material = concat_bytes(private_key.as_slice(), context.as_slice());
        let public_key = sha256(material.as_slice());
        let mut algorithm = String::from_str("HTTQ-LATTICE-");
        let digits = decimal_text(self.security_level.dimension());
        algorithm.append(digits.as_str());
        KeyPair {
            public_key,
            private_key,
            algorithm,
            security_bits: self.security_level.security_bits(),
        }
    }

    /// Generates a key pair from a fresh 32-byte random seed.
    pub fn generate_keypair(&self) -> (r: Result<KeyPair, KemError>)
        ensures
            r matches Err(e) ==> e == KemError::RandomnessUnavailable,
            r matches Ok(kp) ==> exists|seed: Seq<u8>|
                #![trigger private_from_seed(seed)]
                seed.len() == KEY_BYTES && kp.private_key@ == private_from_seed(seed),
            r matches Ok(kp) ==> {
                &&& kp.private_key@.len() == KEY_BYTES
                &&& kp.public_key@.len() == KEY_BYTES
                &&& kp.public_key@ == public_from_private(kp.private_key@)
                &&& kp.algorithm@ == algorithm_name(self.level())
                &&& kp.security_bits == nominal_bits(self.level())
            },
    {
        match random_bytes(KEY_BYTES) {
            Some(seed) => {
                let kp = self.generate_keypair_from_seed(seed.as_slice());
                assert(kp.private_key@ == private_from_seed(seed@));
                Ok(kp)
            },
            None => Err(KemError::RandomnessUnavailable),
        }
    }

    /// Encapsulates with a given message: the ciphertext is the digest of
    /// key then message, the secret the digest of message then key.
    pub fn encapsulate_with_message(&self, public_key: &[u8], message: &[u8]) -> (r: Result<
        (Vec<u8>, Vec<u8>),
        KemError,
    >)
        requires
            message@.len() == KEY_BYTES,
        ensures
            public_key@.len() != KEY_BYTES <==> r == Err::<(Vec<u8>, Vec<u8>), KemError>(
                KemError::InvalidPublicKey,
            ),
            r matches Err(e) ==> e == KemError::InvalidPublicKey,
            r matches Ok((ct, ss)) ==> {
                &&& ct@ == ciphertext_of(public_key@, message@)
                &&& ss@ == encapsulated_secret(public_key@, message@)
                &&& ct@.len() == KEY_BYTES
                &&& ss@.len() == KEY_BYTES
            },
    {
        if public_key.len() != KEY_BYTES {
            return Err(KemError::InvalidPublicKey);
        }
        let secret_material = concat_bytes(message, public_key);
        let shared_secret = sha256(secret_material.as_slice());
        let cipher_material = concat_bytes(public_key, message);
        let ciphertext = sha256(cipher_material.as_slice());
        Ok((ciphertext, shared_secret))
    }

    /// Encapsulates a fresh shared secret for the holder of `public_key`.
    pub fn encapsulate(&self, public_key: &[u8]) -> (r: Result<(Vec<u8>, Vec<u8>), KemError>)
        ensures
            public_key@.len() != KEY_BYTES <==> r == Err::<(Vec<u8>, Vec<u8>), KemError>(
                KemError::InvalidPublicKey,
            ),
            r matches Err(e) ==> e == KemError::InvalidPublicKey || e
                == KemError::RandomnessUnavailable,
            r matches Ok((ct, ss)) ==> exists|m: Seq<u8>|
                #![trigger ciphertext_of(public_key@, m)]
                {
                    &&& m.len() == KEY_BYTES
                    &&& ct@ == ciphertext_of(public_key@, m)
                    &&& ss@ == encapsulated_secret(public_key@, m)
                },
            r matches Ok((ct, ss)) ==> ct@.len() == KEY_BYTES && ss@.len() == KEY_BYTES,
    {
        if public_key.len() != KEY_BYTES {
            return Err(KemError::InvalidPublicKey);
        }
        match random_bytes(KEY_BYTES) {
            Some(message) => {
                let r = self.encapsulate_with_message(public_key, message.as_slice());
                assert(r matches Ok((ct, ss)) ==> ct@ == ciphertext_of(public_key@, message@));
                r
            },
            None => Err(KemError::RandomnessUnavailable),
        }
    }

    /// Recovers the shared secret from a ciphertext and a private key.
    pub fn decapsulate(&self, ciphertext: &[u8], private_key: &[u8]) -> (r: Result<
        Vec<u8>,
        KemError,
    >)
        requires
            private_key@.len() <= usize::MAX - KEY_BYTES,
        ensures
            ciphertext@.len() != KEY_BYTES <==> r == Err::<Vec<u8>, KemError>(
                KemError::InvalidCiphertext,
            ),
            r matches Err(e) ==> e == KemError::InvalidCiphertext,
            ciphertext@.len() == KEY_BYTES ==> r matches Ok(_),
            r matches Ok(ss) ==> ss@ == decapsulated_secret(ciphertext@, private_key@)
                && ss@.len() == KEY_BYTES,
    {
        if ciphertext.len() != KEY_BYTES {
            return Err(KemError::InvalidCiphertext);
        }
        let material = concat_bytes(ciphertext, private_key);
        Ok(sha256(material.as_slice()))
    }
}

} // verus!

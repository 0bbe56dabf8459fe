//! The configuration record handed to the transport when a session is built.

use vstd::prelude::*;
use vstd::utf8::encode_utf8;

verus! {

/// Bytes available to each name field of the transport's configuration record.
pub const NAME_CAPACITY: usize = 32;

/// Version of the transport's interface that every session asks for.
pub const API_VERSION_DEFAULT: u32 = 1;

/// Log verbosity that every session asks for: the most detailed level.
pub const LOG_LEVEL_DEBUG: u32 = 0;

/// Certificate algorithm that every session asks for.
pub const CERT_ALGO_DEFAULT: u32 = 0;

/// Flag bit: both peers present and verify evidence.
pub const FLAG_MUTUAL: u64 = 0x1;

/// Flag bit: this end of the channel is the server.
pub const FLAG_SERVER: u64 = 0x1_0000_0000;

/// The name fields of the configuration record, in the order in which they are filled.
#[derive(Clone, Copy, Debug, PartialEq, Eq, Structural)]
pub enum NameField {
    AttestationType,
    CryptoBackend,
    Attester,
    Verifier,
}

/// Why no session could be built.
#[derive(Clone, Copy, Debug, PartialEq, Eq, Structural)]
pub enum ConstructionError {
    /// A name does not fit its field of the configuration record.
    NameTooLong(NameField),
    /// The transport could not create its context; the code is the transport's.
    Init(u32),
    /// The transport refused the evidence callback; the code is the transport's.
    CallbackRegistration(u32),
    /// A construction step was reported on a session that was not waiting for it.
    OutOfSequence,
}

/// `name` followed by zero bytes up to the capacity of a name field.
pub open spec fn padded(name: Seq<u8>) -> Seq<u8> {
    Seq::new(
        NAME_CAPACITY as nat,
        |i: int|
            if i < name.len() {
                name[i]
            } else {
                0u8
            },
    )
}

/// The bytes of an optional name: its UTF-8 encoding, or nothing when it is absent.
pub open spec fn name_bytes(name: Option<String>) -> Seq<u8> {
    match name {
        Some(s) => encode_utf8(s@),
        None => Seq::empty(),
    }
}

/// Whether a name fits a name field.
pub open spec fn fits(name: Option<String>) -> bool {
    name_bytes(name).len() <= NAME_CAPACITY
}

/// A name field of the configuration record: exactly `NAME_CAPACITY` bytes,
/// the name first and zero bytes after it.
#[derive(Clone, Copy, Debug, PartialEq, Eq)]
pub struct BoundedName {
    buf: [u8; NAME_CAPACITY],
}

impl View for BoundedName {
    type V = Seq<u8>;

    closed spec fn view(&self) -> Seq<u8> {
        self.buf@
    }
}

impl BoundedName {
    /// The field that holds no name: all bytes zero.
    pub fn empty() -> (r: BoundedName)
        ensures
            r@ == padded(Seq::empty()),
    {
        let r = BoundedName { buf: [0u8; NAME_CAPACITY] };
        assert(r@ =~= padded(Seq::empty()));
        r
    }

    /// Encodes `name` into a field. A name longer than the field is refused,
    /// never cut short.
    pub fn encode(name: &str) -> (r: Option<BoundedName>)
        ensures
            encode_utf8(name@).len() <= NAME_CAPACITY ==> r.is_some() && r.unwrap()@ == padded(
                encode_utf8(name@),
            ),
            encode_utf8(name@).len() > NAME_CAPACITY ==> r.is_none(),
    {
        let bytes = name.as_bytes();
        let n = bytes.len();
        if n > NAME_CAPACITY {
            return None;
        }
        let mut buf = [0u8; NAME_CAPACITY];
        let mut i: usize = 0;
        while i < n
            invariant
                n == bytes@.len(),
                n <= NAME_CAPACITY,
                i <= n,
                buf@.len() == NAME_CAPACITY,
                forall|k: int| 0 <= k < i ==> buf@[k] == bytes@[k],
                forall|k: int| i <= k < NAME_CAPACITY ==> buf@[k] == 0u8,
            decreases n - i,
        {
            buf[i] = bytes[i];
            i += 1;
        }
        let r = BoundedName { buf };
        assert(r@ =~= padded(encode_utf8(name@)));
        Some(r)
    }

    /// The bytes of the field, as the transport reads them.
    pub fn as_bytes(&self) -> (r: &[u8; NAME_CAPACITY])
        ensures
            r@ == self@,
    {
        &self.buf
    }
}

/// The configuration record of one session, as the transport receives it.
#[derive(Clone, Copy, Debug, PartialEq, Eq)]
pub struct NativeConf {
    /// Version of the transport's interface.
    pub api_version: u32,
    /// Role and authentication mode, as flag bits.
    pub flags: u64,
    /// Log verbosity of the transport.
    pub log_level: u32,
    /// Name of the attestation type.
    pub tls_type: BoundedName,
    /// Name of the attester implementation.
    pub attester_type: BoundedName,
    /// Name of the verifier implementation.
    pub verifier_type: BoundedName,
    /// Name of the crypto backend.
    pub crypto_type: BoundedName,
    /// Certificate algorithm.
    pub cert_algo: u32,
    /// Identifier of the enclave that the transport runs its trusted part in.
    pub enclave_id: u64,
}

/// The flag word for a role and an authentication mode: the server bit
/// where the role is the server, the mutual bit where both peers are
/// verified, and no other bit.
pub open spec fn flag_bits(server: bool, mutual: bool) -> u64 {
    let role: u64 = if server {
        FLAG_SERVER
    } else {
        0
    };
    let mode: u64 = if mutual {
        FLAG_MUTUAL
    } else {
        0
    };
    role | mode
}

/// The first name, in the order in which the fields are filled, that does not
/// fit its field.
pub open spec fn first_overlong(
    tls_type: Option<String>,
    crypto: Option<String>,
    attester: Option<String>,
    verifier: Option<String>,
) -> Option<NameField> {
    if !fits(tls_type) {
        Some(NameField::AttestationType)
    } else if !fits(crypto) {
        Some(NameField::CryptoBackend)
    } else if !fits(attester) {
        Some(NameField::Attester)
    } else if !fits(verifier) {
        Some(NameField::Verifier)
    } else {
        None
    }
}

impl NativeConf {
    /// Whether this record is the one that the given settings call for: the
    /// fixed defaults, the flags of the role and mode, the enclave identifier,
    /// and each name padded into its field.
    pub open spec fn describes(
        self,
        server: bool,
        enclave_id: u64,
        tls_type: Option<String>,
        crypto: Option<String>,
        attester: Option<String>,
        verifier: Option<String>,
        mutual: bool,
    ) -> bool {
        &&& self.api_version == API_VERSION_DEFAULT
        &&& self.log_level == LOG_LEVEL_DEBUG
        &&& self.cert_algo == CERT_ALGO_DEFAULT
        &&& self.flags == flag_bits(server, mutual)
        &&& self.enclave_id == enclave_id
        &&& self.tls_type@ == padded(name_bytes(tls_type))
        &&& self.crypto_type@ == padded(name_bytes(crypto))
        &&& self.attester_type@ == padded(name_bytes(attester))
        &&& self.verifier_type@ == padded(name_bytes(verifier))
    }

    /// Builds the record for the given settings. A name that does not fit
    /// its field is an error; the first such name is the one reported.
    pub fn build(
        server: bool,
        enclave_id: u64,
        tls_type: &Option<String>,
        crypto: &Option<String>,
        attester: &Option<String>,
        verifier: &Option<String>,
        mutual: bool,
    ) -> (r: Result<NativeConf, ConstructionError>)
        ensures
            match first_overlong(*tls_type, *crypto, *attester, *verifier) {
                Some(field) => r.is_err() && r.unwrap_err() == ConstructionError::NameTooLong(
                    field,
                ),
                None => r.is_ok() && r.unwrap().describes(
                    server,
                    enclave_id,
                    *tls_type,
                    *crypto,
                    *attester,
                    *verifier,
                    mutual,
                ),
            },
    {
        let tls_field = match encode_optional(tls_type) {
            Some(f) => f,
            None => { return Err(ConstructionError::NameTooLong(NameField::AttestationType)); },
        };
        let crypto_field = match encode_optional(crypto) {
            Some(f) => f,
            None => { return Err(ConstructionError::NameTooLong(NameField::CryptoBackend)); },
        };
        let attester_field = match encode_optional(attester) {
            Some(f) => f,
            None => { return Err(ConstructionError::NameTooLong(NameField::Attester)); },
        };
        let verifier_field = match encode_optional(verifier) {
            Some(f) => f,
            None => { return Err(ConstructionError::NameTooLong(NameField::Verifier)); },
        };
        let mut flags: u64 = 0;
        if mutual {
            flags = flags | FLAG_MUTUAL;
        }
        if server {
            flags = flags | FLAG_SERVER;
        }
        assert(flags == flag_bits(server, mutual)) by {
            let role: u64 = if server {
                FLAG_SERVER
            } else {
                0
            };
            let mode: u64 = if mutual {
                FLAG_MUTUAL
            } else {
                0
            };
            assert(0u64 | mode == mode) by (bit_vector);
            assert(mode | role == role | mode) by (bit_vector);
        }
        Ok(
            NativeConf {
                api_version: API_VERSION_DEFAULT,
                flags,
                log_level: LOG_LEVEL_DEBUG,
                tls_type: tls_field,
                attester_type: attester_field,
                verifier_type: verifier_field,
                crypto_type: crypto_field,
                cert_algo: CERT_ALGO_DEFAULT,
                enclave_id,
            },
        )
    }

    /// Whether this end of the channel is the server.
    pub fn is_server(&self) -> (r: bool)
        ensures
            r == (self.flags & FLAG_SERVER != 0),
    {
        self.flags & FLAG_SERVER != 0
    }

    /// Whether both peers present and verify evidence.
    pub fn is_mutual(&self) -> (r: bool)
        ensures
            r == (self.flags & FLAG_MUTUAL != 0),
    {
        self.flags & FLAG_MUTUAL != 0
    }
}

/// The field for an optional name: the empty field when the name is absent.
fn encode_optional(name: &Option<String>) -> (r: Option<BoundedName>)
    ensures
        fits(*name) ==> r.is_some() && r.unwrap()@ == padded(name_bytes(*name)),
        !fits(*name) ==> r.is_none(),
{
    match name {
        Some(s) => BoundedName::encode(s.as_str()),
        None => Some(BoundedName::empty()),
    }
}

/// The flag word of a record tells the role and the mode apart.
pub proof fn lemma_flag_bits_readable(server: bool, mutual: bool)
    ensures
        (flag_bits(server, mutual) & FLAG_SERVER != 0) == server,
        (flag_bits(server, mutual) & FLAG_MUTUAL != 0) == mutual,
{
    assert((0x1_0000_0000u64 | 0x1u64) & 0x1_0000_0000u64 != 0) by (bit_vector);
    assert((0x1_0000_0000u64 | 0x1u64) & 0x1u64 != 0) by (bit_vector);
    assert((0x1_0000_0000u64 | 0u64) & 0x1_0000_0000u64 != 0) by (bit_vector);
    assert((0x1_0000_0000u64 | 0u64) & 0x1u64 == 0) by (bit_vector);
    assert((0u64 | 0x1u64) & 0x1_0000_0000u64 == 0) by (bit_vector);
    assert((0u64 | 0x1u64) & 0x1u64 != 0) by (bit_vector);
    assert((0u64 | 0u64) & 0x1_0000_0000u64 == 0) by (bit_vector);
    assert((0u64 | 0u64) & 0x1u64 == 0) by (bit_vector);
}

} // verus!

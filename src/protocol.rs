//! Wire-level vocabulary shared by client and server: constants, the
//! authentication status byte and the fixed-size credential frame.
use vstd::prelude::*;
use vstd::string::StringSliceAdditionalSpecFns;

verus! {

/// The marker that opens a control session: the ASCII bytes `123456789`
/// followed by seven zero bytes, read as a little-endian 128-bit integer.
pub const HANDSHAKE: u128 = 0x393837363534333231;

/// The well-known port on which the server accepts control and data connections.
pub const SERVER_PORT: u16 = 3001;

/// Default ceiling on concurrently admitted connections.
pub const MAX_CONNECTIONS: usize = 100;

/// Size in bytes of the credential frame that opens every connection.
pub const CREDENTIAL_LEN: usize = 256;

/// Milliseconds an accepted external connection may wait to be claimed.
pub const PENDING_TTL_MS: u64 = 10_000;

/// An opaque credential, compared by exact value.
pub type ApiKey = String;

/// What the server knows of an authenticated client.
pub struct ClientInfo {
    pub api_key: ApiKey,
}

/// Outcome of the authentication step, sent as one status byte.
#[derive(Clone, Copy, Debug, PartialEq, Eq, Structural)]
pub enum AuthResponse {
    Success,
    Failure,
}

/// The status byte that stands for a response.
pub open spec fn status_byte(r: AuthResponse) -> u8 {
    match r {
        AuthResponse::Failure => 0,
        AuthResponse::Success => 1,
    }
}

impl AuthResponse {
    /// Reads a status byte: `1` is success, `0` failure, anything else is no
    /// status at all.
    pub fn from_byte(value: u8) -> (r: Option<AuthResponse>)
        ensures
            value == 0 ==> r == Some(AuthResponse::Failure),
            value == 1 ==> r == Some(AuthResponse::Success),
            value > 1 ==> r.is_none(),
            r matches Some(a) ==> status_byte(a) == value,
    {
        match value {
            0 => Some(AuthResponse::Failure),
            1 => Some(AuthResponse::Success),
            _ => None,
        }
    }

    /// The status byte sent for this response.
    pub fn to_byte(self) -> (b: u8)
        ensures
            b == status_byte(self),
    {
        match self {
            AuthResponse::Failure => 0,
            AuthResponse::Success => 1,
        }
    }
}

impl From<AuthResponse> for u8 {
    fn from(value: AuthResponse) -> (b: u8) {
        value.to_byte()
    }
}

impl vstd::std_specs::convert::FromSpecImpl<AuthResponse> for u8 {
    open spec fn obeys_from_spec() -> bool {
        true
    }

    open spec fn from_spec(v: AuthResponse) -> u8 {
        status_byte(v)
    }
}

/// The two responses have distinct status bytes, `0` for failure and `1` for
/// success.
pub proof fn lemma_status_bytes_distinct(r: AuthResponse)
    ensures
        status_byte(r) <= 1,
        (status_byte(r) == 0) == (r == AuthResponse::Failure),
{
}

/// `s` without its trailing zero bytes.
pub open spec fn strip_padding(s: Seq<u8>) -> Seq<u8>
    decreases s.len(),
{
    if s.len() > 0 && s.last() == 0 {
        strip_padding(s.drop_last())
    } else {
        s
    }
}

/// The credential frame for a key of `k` bytes: the key, then zero bytes up to
/// the frame's size.
pub open spec fn credential_frame(k: Seq<u8>) -> Seq<u8> {
    k + Seq::new((CREDENTIAL_LEN - k.len()) as nat, |i: int| 0u8)
}

/// Builds the fixed-size credential frame a client sends first; `None` when
/// the key does not fit in it.
pub fn encode_credential(key: &str) -> (r: Option<Vec<u8>>)
    ensures
        key.spec_bytes().len() <= CREDENTIAL_LEN <==> r.is_some(),
        r matches Some(v) ==> v@ == credential_frame(key.spec_bytes()),
{
    let bytes = key.as_bytes();
    if bytes.len() > CREDENTIAL_LEN {
        return None;
    }
    let mut frame: Vec<u8> = Vec::with_capacity(CREDENTIAL_LEN);
    let mut i: usize = 0;
    while i < bytes.len()
        invariant
            i <= bytes@.len() <= CREDENTIAL_LEN,
            frame@ == bytes@.subrange(0, i as int),
        decreases bytes@.len() - i,
    {
        frame.push(bytes[i]);
        i += 1;
    }
    while i < CREDENTIAL_LEN
        invariant
            bytes@.len() <= i <= CREDENTIAL_LEN,
            frame@ == bytes@ + Seq::new((i - bytes@.len()) as nat, |j: int| 0u8),
        decreases CREDENTIAL_LEN - i,
    {
        frame.push(0);
        i += 1;
        assert(frame@ =~= bytes@ + Seq::new((i - bytes@.len()) as nat, |j: int| 0u8));
    }
    assert(frame@ =~= credential_frame(key.spec_bytes()));
    Some(frame)
}

/// Removes the zero padding at the end of a received credential frame.
pub fn strip_credential(frame: &[u8]) -> (r: Vec<u8>)
    ensures
        r@ == strip_padding(frame@),
{
    let mut n: usize = frame.len();
    assert(frame@.subrange(0, n as int) =~= frame@);
    while n > 0 && frame[n - 1] == 0
        invariant
            n <= frame@.len(),
            strip_padding(frame@.subrange(0, n as int)) == strip_padding(frame@),
        decreases n,
    {
        assert(frame@.subrange(0, n as int).drop_last() =~= frame@.subrange(0, n - 1));
        n -= 1;
    }
    let mut r: Vec<u8> = Vec::with_capacity(n);
    let mut i: usize = 0;
    while i < n
        invariant
            i <= n <= frame@.len(),
            r@ == frame@.subrange(0, i as int),
        decreases n - i,
    {
        r.push(frame[i]);
        i += 1;
    }
    r
}

/// A credential that does not itself end in a zero byte comes back unchanged
/// from its frame.
pub proof fn lemma_credential_round_trip(k: Seq<u8>)
    requires
        k.len() <= CREDENTIAL_LEN,
        k.len() == 0 || k.last() != 0,
    ensures
        strip_padding(credential_frame(k)) == k,
    decreases CREDENTIAL_LEN - k.len(),
{
    lemma_strip_zeros(k, (CREDENTIAL_LEN - k.len()) as nat);
}

proof fn lemma_strip_zeros(k: Seq<u8>, n: nat)
    requires
        k.len() == 0 || k.last() != 0,
    ensures
        strip_padding(k + Seq::new(n, |i: int| 0u8)) == k,
    decreases n,
{
    let s = k + Seq::new(n, |i: int| 0u8);
    if n == 0 {
        assert(s =~= k);
    } else {
        assert(s.drop_last() =~= k + Seq::new((n - 1) as nat, |i: int| 0u8));
        lemma_strip_zeros(k, (n - 1) as nat);
    }
}

} // verus!

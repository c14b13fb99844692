//! Session protocol, pending-connection bookkeeping and admission control of a
//! reverse-tunnel relay: a public server hands each authenticated client an
//! ephemeral port and pairs every external connection on that port with a data
//! connection that the client opens in answer to a correlation id.
pub mod protocol;
pub mod registry;
pub mod admission;
pub mod pending;
pub mod session;

pub use protocol::{
    ApiKey, AuthResponse, ClientInfo, CREDENTIAL_LEN, HANDSHAKE, MAX_CONNECTIONS,
    PENDING_TTL_MS, SERVER_PORT,
};

pub use registry::{init_api_keys, IdentityRegistry};
pub use admission::Admission;
pub use pending::{PendingConnection, PendingTable};
pub use session::{Phase, SessionAction, SessionEvent};

//! Safe modelling layer for a native configuration-datastore engine binding.
//!
//! The native engine manages connections, datastore-scoped sessions,
//! subscriptions and YANG-modelled data trees behind a C ABI.  Everything the
//! binding itself decides — status-code handling, enum decoding, timeout
//! plumbing, the ownership discipline over foreign handles, and the
//! retry-until-success teardown contract — is written here as verified code
//! over plain values.  The engine's answers (status codes, fetched trees,
//! callback arguments) enter as parameters, and an explicit [`Engine`]
//! ledger accounts for every acquire, release and free, so that the
//! resource-safety properties are machine-checked rather than promised.

mod changes;
mod codes;
mod conn;
mod data;
mod dispatch;
mod engine;
mod error;
mod flags;
mod session;
mod strutil;
mod subscr;
mod timeval;
mod value;

pub use changes::ChangeNext;
pub use changes::ChangeOperation;
pub use changes::Changes;
pub use changes::decode_change_operation;
pub use changes::SR_OP_CREATED;
pub use changes::SR_OP_DELETED;
pub use changes::SR_OP_MODIFIED;
pub use changes::SR_OP_MOVED;
pub use codes::Datastore;
pub use codes::datastore_to_str;
pub use codes::str_to_datastore;
pub use conn::AcquiredContext;
pub use conn::Connection;
pub use codes::Event;
pub use codes::LogLevel;
pub use codes::NotificationType;
pub use data::DataTreeRef;
pub use data::FetchOutcome;
pub use data::ManagedData;
pub use data::ManagedDataTree;
pub use data::TreeHandle;
pub use dispatch::callback_enter;
pub use dispatch::callback_exit;
pub use dispatch::expect_event;
pub use dispatch::expect_notification_type;
pub use dispatch::oper_get_guard;
pub use dispatch::CallbackScope;
pub use engine::Engine;
pub use error::Error;
pub use error::result_to_status;
pub use error::status_to_result;
pub use error::SR_ERR_CALLBACK_FAILED;
pub use error::SR_ERR_CALLBACK_SHELVE;
pub use error::SR_ERR_EXISTS;
pub use error::SR_ERR_INTERNAL;
pub use error::SR_ERR_INVAL_ARG;
pub use error::SR_ERR_LOCKED;
pub use error::SR_ERR_LY;
pub use error::SR_ERR_NOT_FOUND;
pub use error::SR_ERR_NO_MEMORY;
pub use error::SR_ERR_OK;
pub use error::SR_ERR_OPERATION_FAILED;
pub use error::SR_ERR_SYS;
pub use error::SR_ERR_TIME_OUT;
pub use error::SR_ERR_UNAUTHORIZED;
pub use error::SR_ERR_UNSUPPORTED;
pub use error::SR_ERR_VALIDATION_FAILED;
pub use session::Session;
pub use subscr::Subscription;
pub use flags::ConnectionFlags;
pub use flags::EditOptions;
pub use flags::GetOptions;
pub use flags::SubscriptionOptions;
pub use strutil::check_c_string;
pub use strutil::str_eq;
pub use strutil::str_has_nul;
pub use timeval::optional_timeout_to_engine;
pub use timeval::TimeSpan;
pub use value::decode_bool_native;
pub use value::default_suffix;
pub use value::encode_bool_native;
pub use value::node_display;
pub use value::value_display;
pub use value::DataValue;
pub use value::SchemaNodeKind;
pub use value::ValueSlice;

use vstd::prelude::*;

verus! {

/// Reports whether an interrupt was observed, given the number of interrupt
/// signals counted so far by the host process.
///
/// The host keeps the actual signal-handler counter; this function holds the
/// decision of what counts as "caught".
pub fn is_sigint_caught(sigint_count: usize) -> (caught: bool)
    ensures
        caught == (sigint_count > 0),
{
    sigint_count > 0
}

} // verus!

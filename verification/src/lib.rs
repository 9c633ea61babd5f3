//! Request building and response normalisation for the school catering
//! service's remote query interface.
//!
//! The crate prepares the JSON request for a named remote method, judges the
//! HTTP status of the answer, parses the answer's body, and reduces it to a
//! small result/message/data shape. Sending the request is left to the
//! caller: every function here works on plain values.

pub mod decimal;
pub mod error;
pub mod fault;
pub mod greeting;
pub mod json;
pub mod query;
pub mod request;
pub mod response;
pub mod status;
pub mod stores;
pub mod text;

pub use error::QueryError;
pub use fault::{Field, ShapeFault};
pub use greeting::greet;
pub use query::{check_status, interpret_response, ENDPOINT};
pub use request::{build_request, request_body, settle_body, ApiArgs, ApiRequest};
pub use response::{
    decode_envelope, interpret_body, interpret_parsed, normalize, ApiResponse, CustomResponse,
};
pub use stores::{
    chain_store_request, decode_store, decode_store_list, interpret_stores_body,
    interpret_stores_parsed, interpret_stores_response, Store, StoreList, StoreListFault,
    QUERY_CHAIN_STORE,
};

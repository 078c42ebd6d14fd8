//! Client-side core of a QuestDB HTTP client: typed request parameters,
//! query-string and multipart-schema construction, and classification of
//! the server's heterogeneous JSON responses into typed results or errors.

mod error;
mod json;
mod num;
mod request;
mod response;
mod types;

pub use error::Error;
pub use error::SQLError;
pub use request::exec_url;
pub use request::exp_url;
pub use request::imp_url;
pub use request::schema_string;
pub use request::upload_file_name;
pub use response::classify_exec_body;
pub use response::sql_error_from_parts;
pub use types::Atomicity;
pub use types::Limit;
pub use types::Schema;

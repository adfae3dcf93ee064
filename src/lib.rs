//! Batched, transactional execution of write operations against a store.
//!
//! The store itself is reached by the caller: every engine here is a state
//! machine that is told what the store answered and says what to do next.
pub mod batch;
pub mod error;
pub mod filter;
pub mod model;
pub mod query_batch;
pub mod repository;
pub mod save;
pub mod transaction;

pub use batch::{BatchOperator, PartitionOperator};
pub use error::Error;
pub use filter::{And, Filter, Junction, NoOpFilter, Not, Or, Raw, SqlFilter};
pub use model::Model;
pub use query_batch::{QueryBatchRun, QueryStep};
pub use repository::{check_delete_filter, Repository};
pub use save::{plan_save, save_route, SaveDispatch, SavePlan, SaveRoute};
pub use transaction::{CallbackRun, ConcurrentRun, SequentialRun, TryRun, TxStep};

//! Client library for the Valyu search, contents, answer and research API.
//!
//! The library decides everything that does not need the network: the
//! request each call sends (URL, headers, JSON body), how an HTTP status and
//! a response envelope map to the error taxonomy, and what the research-task
//! waiter does after each poll. Sending, receiving, decoding JSON into the
//! response types, and sleeping are left to the caller.

pub mod client;
pub mod error;
pub mod invoke;
pub mod json;
pub mod text;
pub mod types;
pub mod wait;

pub use client::{update_body, HttpRequest, Method, ValyuClient, API_BASE_URL};
pub use error::{ErrorView, ValyuError};
pub use invoke::{check_status, check_success, parse_failure, Endpoint};
pub use json::{Field, FieldView, JsonObject};
pub use text::u64_to_decimal;
pub use types::{
    AiUsage, AnswerRequest, AnswerSearchMetadata, AnswerSearchResult, ContentsRequest,
    DeepResearchCreateRequest, DeepResearchCreateResponse, DeepResearchFileAttachment,
    DeepResearchImage, DeepResearchListResponse, DeepResearchMCPServerConfig, DeepResearchMode,
    DeepResearchOperationResponse, DeepResearchProgress, DeepResearchSearchConfig,
    DeepResearchStatus, DeepResearchTaskListItem, DeepSearchRequest, Deliverable,
    DeliverableResult, DeliverableStatus, DeliverableType, ResponseLength, ResultsBySource,
    SummaryOption,
};
pub use wait::{wait_step, WaitStep};

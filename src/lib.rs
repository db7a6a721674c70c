//! A payment-gateway connector for the NMI processor: builds the form-encoded
//! requests of each payment and refund flow and normalises the processor's
//! flat-form and tagged-text replies into canonical payment and refund statuses.
pub mod amount;
pub mod connector;
pub mod form;
pub mod requests;
pub mod responses;
pub mod status;
pub mod text;
pub mod transformers;
pub mod types;

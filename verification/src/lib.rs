//! The logic of an Audio Unit (AUv2) backend: the property table a host
//! queries, the stream format, parameter-name encoding and the lifecycle
//! decisions behind the component's selectors.
#![allow(non_snake_case, non_upper_case_globals, non_camel_case_types)]

pub mod properties;
pub mod sys;
pub mod wrapper;

//! The queries and answers of the routes that expose the session store.
use vstd::prelude::*;

verus! {

/// The query of `/session/delete_by_expiry`.
#[derive(Debug, Clone, PartialEq, Eq)]
pub struct DeleteByExpiryParams {
    pub table_name: String,
}

/// The query of `/session/count`.
#[derive(Debug, Clone, PartialEq, Eq)]
pub struct CountParams {
    pub table_name: String,
}

/// The answer of `/session/count`.
#[derive(Debug, Clone, Copy, PartialEq, Eq)]
pub struct CountResponse {
    pub count: i64,
}

/// The query of `/session/store`.
#[derive(Debug, Clone, PartialEq, Eq)]
pub struct StoreParams {
    pub id: String,
    pub session: String,
    pub expires: i64,
    pub table_name: String,
}

/// The query of `/session/load`.
#[derive(Debug, Clone, PartialEq, Eq)]
pub struct LoadParams {
    pub id: String,
    pub table_name: String,
}

/// The answer of `/session/load`.
#[derive(Debug, Clone, PartialEq, Eq)]
pub struct LoadResponse {
    pub value: Option<String>,
}

/// The query of `/session/delete_one_by_id`.
#[derive(Debug, Clone, PartialEq, Eq)]
pub struct DeleteOneByIdParams {
    pub id: String,
    pub table_name: String,
}

/// The query of `/session/exists`.
#[derive(Debug, Clone, PartialEq, Eq)]
pub struct ExistsParams {
    pub id: String,
    pub table_name: String,
}

/// The answer of `/session/exists`.
#[derive(Debug, Clone, Copy, PartialEq, Eq)]
pub struct ExistsResponse {
    pub value: bool,
}

/// The query of `/session/delete_all`.
#[derive(Debug, Clone, PartialEq, Eq)]
pub struct DeleteAllParams {
    pub table_name: String,
}

/// The query of `/session/get_ids`.
#[derive(Debug, Clone, PartialEq, Eq)]
pub struct GetIdsParams {
    pub table_name: String,
}

} // verus!

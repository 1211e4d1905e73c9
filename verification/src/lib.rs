use vstd::prelude::*;

pub mod domain;
pub mod text;
pub mod errors;
pub mod storage;
pub mod images;
pub mod tags;
pub mod pixiv;
pub mod json;
pub mod db;
pub mod tasks;
pub mod task_requests;
pub mod downloads;
pub mod task_runs;
pub mod settings;
pub mod runtime;
pub mod dto;
pub mod ai;
pub mod accounts;
pub mod readiness;
pub mod pixiv_api;
pub mod desktop;
pub mod services;

verus! {

} // verus!

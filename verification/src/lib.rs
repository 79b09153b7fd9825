//! Verified core of the AppControl repository layer: the decisions and the
//! data shaping that surround its database queries.

pub mod outside;
pub mod text;
pub mod db;
pub mod cluster_members;
pub mod cluster_laws;
pub mod placeholders;
pub mod catalog;
pub mod auth;
pub mod repositories;
pub mod rows;
pub mod commands;
pub mod id_rows;
pub mod apps;
pub mod manual_tasks;
pub mod components;
pub mod json;
pub mod history;
pub mod history_laws;
pub mod member_groups;
pub mod uuid_text;

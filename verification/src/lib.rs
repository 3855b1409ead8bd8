//! The workspace tables and the operations on them.
//!
//! An operation has up to three faces here. [`statement`] says what is sent to the database
//! server: the text and the bound values. [`outcome`] says what is made of the server's reply.
//! The modules [`workspace`], [`member`], [`invitation`], [`permission`] and [`publish`] carry the
//! operation out on [`tables::Database`], tables held in memory, and [`laws`] states what then
//! holds of several operations together.

pub mod error;
pub mod id;
pub mod json;
pub mod text;
pub mod relation;
pub mod lemmas;
pub mod tables;
pub mod sql;
pub mod statement;
pub mod outcome;
pub mod workspace;
pub mod publish;
pub mod member;
pub mod invitation;
pub mod permission;
pub mod laws;

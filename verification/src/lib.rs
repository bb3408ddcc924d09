//! The core of an HTTP request client, verified with Verus.
//!
//! The library holds the state of the client and its rules, apart from any
//! window toolkit, store or transport:
//!
//! - `types`: the data model of methods, headers, bodies, requests,
//!   responses and history records.
//! - `url_params` and `percent`: a URL taken apart into query parameters and
//!   put together from them, with the percent-encoding that both rest on.
//! - `code_formatter`: validation and pretty-printing of JSON and XML.
//! - `request_editor`, `param_sync`, `header_table`, `send_request` and
//!   `body_editor`: the state of the editor of a request, with the rules
//!   that keep the address and the parameter table in step.
//! - `response_viewer`, `history_panel`, `tab_bar`, `request_tab` and `app`:
//!   the state of the other panels and of the window as a whole.
//! - `json`, `json_shape` and `db`: the shape in which requests are stored.
//! - `text`: strings as sequences of characters.
//!
//! Every function states what it returns over the plain-text views of its
//! arguments. Where the work is done by another crate (`url`, `urlencoding`,
//! `serde_json`, `quick_xml`, `chrono`), the call stands behind a declaration
//! whose contract is taken on trust; each says of which function it speaks.

pub mod app;
pub mod body_editor;
pub mod code_formatter;
pub mod db;
pub mod header_table;
pub mod history_panel;
pub mod json;
pub mod json_shape;
pub mod param_sync;
pub mod percent;
pub mod request_editor;
pub mod request_tab;
pub mod response_viewer;
pub mod send_request;
pub mod tab_bar;
pub mod text;
pub mod types;
pub mod url_params;

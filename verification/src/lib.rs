//! A verified core for a desktop front end to a WireMock server: the admin
//! requests it sends, the records it reads back, the command line that starts
//! the server, and the state of its control panel.

pub mod api;
pub mod text;
pub mod ui;
pub mod wiremock;

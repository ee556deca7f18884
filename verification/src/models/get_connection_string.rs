//! The request for the connection string of a deployment.

use crate::engine::{
    text_view, EngineGetConnectionStringOptions, EngineGetConnectionStringOptionsView,
};
use vstd::prelude::*;

verus! {

/// Which deployment to connect to, and how.
#[derive(Clone, Debug, PartialEq, Eq)]
pub struct GetConnectionStringOptions {
    pub container_id_or_name: String,
    pub db_username: Option<String>,
    pub db_password: Option<String>,
    pub verify: Option<bool>,
}

/// Mathematical model of [`GetConnectionStringOptions`].
pub struct GetConnectionStringOptionsView {
    pub container_id_or_name: Seq<char>,
    pub db_username: Option<Seq<char>>,
    pub db_password: Option<Seq<char>>,
    pub verify: Option<bool>,
}

impl View for GetConnectionStringOptions {
    type V = GetConnectionStringOptionsView;

    open spec fn view(&self) -> GetConnectionStringOptionsView {
        GetConnectionStringOptionsView {
            container_id_or_name: self.container_id_or_name@,
            db_username: text_view(self.db_username),
            db_password: text_view(self.db_password),
            verify: self.verify,
        }
    }
}

/// The engine's request for an external one: every field is copied.
pub open spec fn connection_string_options_to_internal(
    options: GetConnectionStringOptionsView,
) -> EngineGetConnectionStringOptionsView {
    EngineGetConnectionStringOptionsView {
        container_id_or_name: options.container_id_or_name,
        db_username: options.db_username,
        db_password: options.db_password,
        verify: options.verify,
    }
}

impl GetConnectionStringOptions {
    /// Maps the external request to the engine's.
    pub fn to_internal(self) -> (internal: EngineGetConnectionStringOptions)
        ensures
            internal@ == connection_string_options_to_internal(self@),
    {
        EngineGetConnectionStringOptions {
            container_id_or_name: self.container_id_or_name,
            db_username: self.db_username,
            db_password: self.db_password,
            verify: self.verify,
        }
    }
}

} // verus!

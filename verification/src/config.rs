//! The server's configuration: set once, then only read.

use vstd::prelude::*;
use crate::filter::{FilterSpec, FilterView};
use crate::model::{clone_text, text_view};

verus! {

/// The options the engine recognizes.
#[derive(Debug, PartialEq, Eq)]
pub struct ServerConfig {
    /// Answer CORS preflights that no interaction answers, and add the
    /// allowed origin to recorded responses that define none.
    pub auto_cors: bool,
    /// Allow the request's referer as origin, in place of any origin.
    pub cors_referer: bool,
    /// The regular expression that an interaction's provider state must
    /// match.
    pub provider_state_filter: Option<String>,
    /// The request header by which a client picks among several matching
    /// interactions.
    pub provider_state_header_name: Option<String>,
    /// Keep interactions without a provider state while a filter is set.
    pub empty_provider_state: bool,
}

/// The view of a `ServerConfig`.
pub struct ConfigView {
    pub auto_cors: bool,
    pub cors_referer: bool,
    pub provider_state_filter: Option<Seq<char>>,
    pub provider_state_header_name: Option<Seq<char>>,
    pub empty_provider_state: bool,
}

impl ConfigView {
    /// The provider-state filter that this configuration asks for.
    pub open spec fn filter(self) -> FilterView {
        FilterView {
            pattern: self.provider_state_filter,
            include_stateless: self.empty_provider_state,
        }
    }
}

impl View for ServerConfig {
    type V = ConfigView;

    open spec fn view(&self) -> ConfigView {
        ConfigView {
            auto_cors: self.auto_cors,
            cors_referer: self.cors_referer,
            provider_state_filter: text_view(self.provider_state_filter),
            provider_state_header_name: text_view(self.provider_state_header_name),
            empty_provider_state: self.empty_provider_state,
        }
    }
}

impl Clone for ServerConfig {
    fn clone(&self) -> (r: Self)
        ensures
            r@ == self@,
    {
        ServerConfig {
            auto_cors: self.auto_cors,
            cors_referer: self.cors_referer,
            provider_state_filter: clone_text(&self.provider_state_filter),
            provider_state_header_name: clone_text(&self.provider_state_header_name),
            empty_provider_state: self.empty_provider_state,
        }
    }
}

impl ServerConfig {
    /// The configuration with every option off.
    pub fn new() -> (r: ServerConfig)
        ensures
            r@ == (ConfigView {
                auto_cors: false,
                cors_referer: false,
                provider_state_filter: None,
                provider_state_header_name: None,
                empty_provider_state: false,
            }),
    {
        ServerConfig {
            auto_cors: false,
            cors_referer: false,
            provider_state_filter: None,
            provider_state_header_name: None,
            empty_provider_state: false,
        }
    }

    /// The provider-state filter that this configuration asks for.
    pub fn filter_spec(&self) -> (r: FilterSpec)
        ensures
            r@ == self@.filter(),
    {
        FilterSpec {
            pattern: clone_text(&self.provider_state_filter),
            include_stateless: self.empty_provider_state,
        }
    }
}

} // verus!

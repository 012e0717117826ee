//! Startup configuration.
//!
//! The configuration document itself is parsed by an outside
//! collaborator; a parse failure surfaces as a configuration error and
//! aborts startup. This module holds the parsed values — the window
//! parameters and the initial mesh data — and validates them.

use vstd::prelude::*;

verus! {

/// Parameters of the application window.
#[derive(Clone, Debug)]
pub struct WindowConfig {
    pub name: String,
    pub width: u32,
    pub height: u32,
}

/// Why a configuration could not be built.
#[derive(Clone, Copy, Debug, PartialEq, Eq, Structural)]
pub enum ApplicationConfigNewError {
    /// The document did not parse, or its values are unusable.
    InvalidConfig,
}

/// The validated startup configuration: the window parameters and the
/// raw data of the initial mesh (vertex words and indices).
#[derive(Clone, Debug)]
pub struct ApplicationConfig {
    pub main_window_config: WindowConfig,
    pub vertex_words: Vec<u32>,
    pub index_data: Vec<u16>,
}

impl ApplicationConfig {
    /// The window has a usable size.
    pub open spec fn wf(self) -> bool {
        self.main_window_config.width > 0 && self.main_window_config.height > 0
    }

    /// Builds a configuration from parsed values, rejecting a window of
    /// zero width or height.
    pub fn new(main_window_config: WindowConfig, vertex_words: Vec<u32>, index_data: Vec<u16>)
        -> (result: Result<ApplicationConfig, ApplicationConfigNewError>)
        ensures
            result is Ok <==> main_window_config.width > 0 && main_window_config.height > 0,
            result matches Ok(config) ==> {
                &&& config.wf()
                &&& config.main_window_config.name@ == main_window_config.name@
                &&& config.main_window_config.width == main_window_config.width
                &&& config.main_window_config.height == main_window_config.height
                &&& config.vertex_words@ == vertex_words@
                &&& config.index_data@ == index_data@
            },
            result is Err ==> result == Err::<ApplicationConfig, ApplicationConfigNewError>(
                ApplicationConfigNewError::InvalidConfig,
            ),
    {
        if main_window_config.width == 0 || main_window_config.height == 0 {
            return Err(ApplicationConfigNewError::InvalidConfig);
        }
        Ok(ApplicationConfig { main_window_config, vertex_words, index_data })
    }
}

} // verus!

//! What can be wrong with a configuration.
use vstd::prelude::*;

verus! {

/// What is wrong with a configuration.
#[derive(Debug)]
pub enum ConfigError {
    /// A field that must be there is not.
    MissingField(&'static str),
    /// An actor type or a service reference cannot be read.
    InvalidActrType(String),
    /// An exported file cannot be read: its path, and why.
    ProtoFileNotFound(String, String),
    /// The URL of the signaling server cannot be read.
    InvalidUrl(String),
    /// The access rules cannot be read.
    InvalidAcl(String),
    /// Values contradict each other.
    InvalidConfig(String),
    /// A configuration and its parent are written in different formats.
    EditionMismatch { parent: u32, child: u32 },
    /// Whether this name is allowed has not been looked up yet.
    NameNotChecked(String),
}

/// What is wrong with a configuration, in mathematical terms.
pub enum ConfigErrorView {
    MissingField(Seq<char>),
    InvalidActrType(Seq<char>),
    ProtoFileNotFound(Seq<char>, Seq<char>),
    InvalidUrl(Seq<char>),
    InvalidAcl(Seq<char>),
    InvalidConfig(Seq<char>),
    EditionMismatch(u32, u32),
    NameNotChecked(Seq<char>),
}

impl View for ConfigError {
    type V = ConfigErrorView;

    open spec fn view(&self) -> ConfigErrorView {
        match self {
            ConfigError::MissingField(s) => ConfigErrorView::MissingField(s@),
            ConfigError::InvalidActrType(s) => ConfigErrorView::InvalidActrType(s@),
            ConfigError::ProtoFileNotFound(p, s) => ConfigErrorView::ProtoFileNotFound(p@, s@),
            ConfigError::InvalidUrl(s) => ConfigErrorView::InvalidUrl(s@),
            ConfigError::InvalidAcl(s) => ConfigErrorView::InvalidAcl(s@),
            ConfigError::InvalidConfig(s) => ConfigErrorView::InvalidConfig(s@),
            ConfigError::EditionMismatch { parent, child } => ConfigErrorView::EditionMismatch(
                *parent,
                *child,
            ),
            ConfigError::NameNotChecked(s) => ConfigErrorView::NameNotChecked(s@),
        }
    }
}

/// Result of reading a configuration.
pub type ConfigResult<T> = Result<T, ConfigError>;

}

//! Rendering-and-composition core of a directory-browsing HTTP front-end.
//!
//! The library owns the template-backed renderer, the template store and its
//! loading policy, the route-composition policy, the config-merge rules, the
//! stylesheet asset and the fixed error-boundary page. HTTP transport and
//! filesystem work stay outside.

mod assets;
mod config;
mod engine;
mod pages;
mod renderer;
mod routes;

pub use assets::default_template_map;
pub use assets::template_map;
pub use assets::extract_dirs;
pub use assets::extract_plan;
pub use assets::DIR_NAME;
pub use assets::DIR_SOURCE;
pub use assets::ERROR_NAME;
pub use assets::ERROR_SOURCE;
pub use assets::FOOTER_NAME;
pub use assets::FOOTER_SOURCE;
pub use assets::HEADER_NAME;
pub use assets::HEADER_SOURCE;
pub use assets::MARKDOWN_NAME;
pub use assets::MARKDOWN_SOURCE;
pub use assets::STYLE_SOURCE;
pub use assets::UNKNOWN_ERROR_SOURCE;
pub use assets::VERBATIM_NAME;
pub use assets::VERBATIM_SOURCE;
pub use config::config_complete;
pub use config::lemma_base_value_kept;
pub use config::lemma_cli_override_wins;
pub use config::lemma_unconfigured_rejected;
pub use config::name_set;
pub use config::opt_name_set;
pub use config::spec_default_config;
pub use config::spec_merge;
pub use config::Config;
pub use config::ConfigError;
pub use config::ConfigView;
pub use config::Overrides;
pub use config::OverridesView;
pub use engine::ctx_data;
pub use engine::default_render;
pub use engine::empty_ctx;
pub use engine::empty_templates;
pub use engine::engine_plain;
pub use engine::engine_templates;
pub use engine::template_set_ok;
pub use engine::CtxVal;
pub use pages::error_boundary_page;
pub use pages::ContentKind;
pub use pages::Page;
pub use pages::Stylesheet;
pub use renderer::content_ctx;
pub use renderer::default_sources_accepted;
pub use renderer::dir_ctx;
pub use renderer::entry_ctx;
pub use renderer::entry_rows;
pub use renderer::entry_views;
pub use renderer::error_ctx;
pub use renderer::lemma_entry_context_preserves;
pub use renderer::sources_accepted;
pub use renderer::Entry;
pub use renderer::EntryView;
pub use renderer::RenderError;
pub use renderer::RenderResult;
pub use renderer::TemplateError;
pub use renderer::TeraRenderer;
pub use routes::has_prefix;
pub use routes::lemma_prefixes_disjoint;
pub use routes::lemma_stylesheet_precedence;
pub use routes::mount_plan;
pub use routes::resolve;
pub use routes::route_of;
pub use routes::Namespace;
pub use routes::RAW_PREFIX;
pub use routes::ROOT_PREFIX;
pub use routes::STYLE_PREFIX;

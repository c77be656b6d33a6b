//! LDtk asset types and the plugin that registers them.

pub mod ldtk_asset_plugin;

pub use ldtk_asset_plugin::LdtkAssetPlugin;

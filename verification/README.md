# bevy_ecs_ldtk asset registration

`src/` holds the verified part: `LdtkAssetPlugin::build` returns, in order, the
registrations the plugin makes (the project asset and its loader, and, when
external levels are on, the external level asset, its loader and its reflection
data), with an exact contract and the laws of that plan as proof functions.

`app/` is plain Rust: a Bevy `Plugin` that performs each planned registration on
an `App` with `init_asset`, `init_asset_loader` and `register_asset_reflect`,
over the project and level types that the LDtk project model supplies through
the `LdtkAssetTypes` trait.

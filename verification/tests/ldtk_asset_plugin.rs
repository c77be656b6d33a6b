use bevy_ecs_ldtk::assets::ldtk_asset_plugin::{LdtkAsset, LdtkLoader, ReflectedAsset, Registration};
use bevy_ecs_ldtk::assets::LdtkAssetPlugin;

fn reflected_asset(reflected: ReflectedAsset) -> LdtkAsset {
    match reflected {
        ReflectedAsset::ExternalLevel => LdtkAsset::ExternalLevel,
    }
}

fn loader_of(asset: LdtkAsset) -> LdtkLoader {
    match asset {
        LdtkAsset::Project => LdtkLoader::ProjectLoader,
        LdtkAsset::ExternalLevel => LdtkLoader::ExternalLevelLoader,
    }
}

#[test]
fn build_without_external_levels_registers_project_and_loader() {
    let steps = LdtkAssetPlugin.build(false);
    assert_eq!(
        steps,
        vec![
            Registration::InitAsset(LdtkAsset::Project),
            Registration::InitAssetLoader(LdtkLoader::ProjectLoader),
        ]
    );
}

#[test]
fn build_with_external_levels_registers_both_asset_types() {
    let steps = LdtkAssetPlugin.build(true);
    assert_eq!(
        steps,
        vec![
            Registration::InitAsset(LdtkAsset::Project),
            Registration::InitAssetLoader(LdtkLoader::ProjectLoader),
            Registration::InitAsset(LdtkAsset::ExternalLevel),
            Registration::InitAssetLoader(LdtkLoader::ExternalLevelLoader),
            Registration::RegisterAssetReflect(ReflectedAsset::ExternalLevel),
        ]
    );
}

#[test]
fn default_plugin_builds_like_unit_value() {
    let plugin: LdtkAssetPlugin = Default::default();
    assert_eq!(plugin.build(false), LdtkAssetPlugin.build(false));
    assert_eq!(plugin.build(true), LdtkAssetPlugin.build(true));
}

#[test]
fn project_is_registered_first_in_every_configuration() {
    for external_levels in [false, true] {
        let steps = LdtkAssetPlugin.build(external_levels);
        assert!(steps.len() >= 2);
        assert_eq!(steps[0], Registration::InitAsset(LdtkAsset::Project));
        assert_eq!(steps[1], Registration::InitAssetLoader(LdtkLoader::ProjectLoader));
    }
}

#[test]
fn external_levels_only_add_registrations() {
    let off = LdtkAssetPlugin.build(false);
    let on = LdtkAssetPlugin.build(true);
    assert!(off.len() < on.len());
    assert_eq!(&on[..off.len()], &off[..]);
}

#[test]
fn every_initialised_asset_has_its_loader() {
    for external_levels in [false, true] {
        let steps = LdtkAssetPlugin.build(external_levels);
        for step in &steps {
            if let Registration::InitAsset(asset) = step {
                assert!(steps.contains(&Registration::InitAssetLoader(loader_of(*asset))));
            }
        }
    }
}

#[test]
fn reflection_is_registered_after_initialisation() {
    for external_levels in [false, true] {
        let steps = LdtkAssetPlugin.build(external_levels);
        for (i, step) in steps.iter().enumerate() {
            if let Registration::RegisterAssetReflect(asset) = step {
                assert!(steps[..i].contains(&Registration::InitAsset(reflected_asset(*asset))));
            }
        }
    }
}

#[test]
fn no_registration_is_made_twice() {
    for external_levels in [false, true] {
        let steps = LdtkAssetPlugin.build(external_levels);
        for i in 0..steps.len() {
            for j in (i + 1)..steps.len() {
                assert_ne!(steps[i], steps[j]);
            }
        }
    }
}

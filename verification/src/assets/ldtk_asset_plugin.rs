use vstd::prelude::*;

verus! {

/// Plugin that registers LDtk-related assets.
#[derive(Copy, Clone, Debug, Default)]
pub struct LdtkAssetPlugin;

/// An asset type that the plugin registers.
#[derive(Copy, Clone, Debug, PartialEq, Eq, Structural)]
pub enum LdtkAsset {
    /// A whole LDtk project file.
    Project,
    /// A level kept in a file of its own beside the project.
    ExternalLevel,
}

/// An asset loader that the plugin registers.
#[derive(Copy, Clone, Debug, PartialEq, Eq, Structural)]
pub enum LdtkLoader {
    /// Loads `LdtkAsset::Project`.
    ProjectLoader,
    /// Loads `LdtkAsset::ExternalLevel`.
    ExternalLevelLoader,
}

/// An asset type whose reflection data the plugin registers.
#[derive(Copy, Clone, Debug, PartialEq, Eq, Structural)]
pub enum ReflectedAsset {
    /// `LdtkAsset::ExternalLevel`.
    ExternalLevel,
}

/// One registration that the plugin makes on the application, in order.
#[derive(Copy, Clone, Debug, PartialEq, Eq, Structural)]
pub enum Registration {
    /// Initialise the storage of an asset type.
    InitAsset(LdtkAsset),
    /// Register an asset loader.
    InitAssetLoader(LdtkLoader),
    /// Register the reflection data of an asset type.
    RegisterAssetReflect(ReflectedAsset),
}

/// The loader that reads a given asset type.
pub open spec fn loader_of(asset: LdtkAsset) -> LdtkLoader {
    match asset {
        LdtkAsset::Project => LdtkLoader::ProjectLoader,
        LdtkAsset::ExternalLevel => LdtkLoader::ExternalLevelLoader,
    }
}

/// The asset type behind a reflected asset.
pub open spec fn reflected_asset(reflected: ReflectedAsset) -> LdtkAsset {
    match reflected {
        ReflectedAsset::ExternalLevel => LdtkAsset::ExternalLevel,
    }
}

/// The registrations for LDtk project files, made in every configuration.
pub open spec fn project_registrations() -> Seq<Registration> {
    seq![
        Registration::InitAsset(LdtkAsset::Project),
        Registration::InitAssetLoader(LdtkLoader::ProjectLoader),
    ]
}

/// The registrations for external level files, made only when they are switched on.
pub open spec fn external_level_registrations() -> Seq<Registration> {
    seq![
        Registration::InitAsset(LdtkAsset::ExternalLevel),
        Registration::InitAssetLoader(LdtkLoader::ExternalLevelLoader),
        Registration::RegisterAssetReflect(ReflectedAsset::ExternalLevel),
    ]
}

/// Everything the plugin registers, in order, with external levels on or off.
pub open spec fn registrations(external_levels: bool) -> Seq<Registration> {
    if external_levels {
        project_registrations() + external_level_registrations()
    } else {
        project_registrations()
    }
}

/// In every configuration the plugin first initialises LDtk project assets
/// and then registers their loader.
pub proof fn lemma_project_registered_first(external_levels: bool)
    ensures
        registrations(external_levels).len() >= 2,
        registrations(external_levels).take(2) == project_registrations(),
{
    assert(registrations(external_levels).take(2) =~= project_registrations());
}

/// Switching external levels on only adds registrations: what is registered
/// with them off is registered, in the same order, at the start of what is
/// registered with them on.
pub proof fn lemma_external_levels_only_add()
    ensures
        registrations(false).len() <= registrations(true).len(),
        registrations(true).take(registrations(false).len() as int) == registrations(false),
{
    assert(registrations(true).take(registrations(false).len() as int) =~= registrations(false));
}

/// Every asset type that is initialised also gets its loader registered.
pub proof fn lemma_every_asset_has_loader(external_levels: bool)
    ensures
        forall|i: int|
            0 <= i < registrations(external_levels).len() ==> (
                #[trigger] registrations(external_levels)[i] matches Registration::InitAsset(a)
                ==> registrations(external_levels).contains(Registration::InitAssetLoader(loader_of(a)))),
{
    let s = registrations(external_levels);
    assert(s[1] == Registration::InitAssetLoader(LdtkLoader::ProjectLoader));
    if external_levels {
        assert(s[3] == Registration::InitAssetLoader(LdtkLoader::ExternalLevelLoader));
    }
}

/// Reflection data of an asset type is only registered after that asset type
/// has been initialised.
pub proof fn lemma_reflect_after_init(external_levels: bool)
    ensures
        forall|i: int|
            0 <= i < registrations(external_levels).len() ==> (
                #[trigger] registrations(external_levels)[i] matches Registration::RegisterAssetReflect(r)
                ==> exists|j: int| 0 <= j < i && registrations(external_levels)[j] == Registration::InitAsset(reflected_asset(r))),
{
    let s = registrations(external_levels);
    if external_levels {
        assert(s[2] == Registration::InitAsset(LdtkAsset::ExternalLevel));
    }
}

/// No registration is made twice.
pub proof fn lemma_no_registration_twice(external_levels: bool)
    ensures
        forall|i: int, j: int|
            0 <= i < j < registrations(external_levels).len()
                ==> #[trigger] registrations(external_levels)[i] != #[trigger] registrations(external_levels)[j],
{
}

impl LdtkAssetPlugin {
    /// The registrations this plugin makes when it is built into an
    /// application, in the order they are made. `external_levels` says whether
    /// levels stored in separate files are supported.
    pub fn build(&self, external_levels: bool) -> (steps: Vec<Registration>)
        ensures
            steps@ == registrations(external_levels),
    {
        let mut steps: Vec<Registration> = Vec::new();
        steps.push(Registration::InitAsset(LdtkAsset::Project));
        steps.push(Registration::InitAssetLoader(LdtkLoader::ProjectLoader));
        if external_levels {
            steps.push(Registration::InitAsset(LdtkAsset::ExternalLevel));
            steps.push(Registration::InitAssetLoader(LdtkLoader::ExternalLevelLoader));
            steps.push(Registration::RegisterAssetReflect(ReflectedAsset::ExternalLevel));
        }
        steps
    }
}

} // verus!

//! The closed vocabulary of loaders that the registry knows.

use vstd::prelude::*;

verus! {

/// A loader or platform that a version of a package can target.
#[derive(Debug, Clone, Copy, PartialEq, Eq, Structural)]
pub enum LoaderType {
    Bukkit,
    Bungeecord,
    Canvas,
    Datapack,
    Fabric,
    Folia,
    Forge,
    Iris,
    Liteloader,
    Minecraft,
    Modloader,
    Neoforge,
    Optifine,
    Paper,
    Purpur,
    Quilt,
    Rift,
    Spigot,
    Sponge,
    Vanilla,
    Velocity,
    Waterfall,
}

impl LoaderType {
    /// The name under which the registry knows this loader, as a literal.
    pub open spec fn literal(self) -> &'static str {
        match self {
            LoaderType::Bukkit => "bukkit",
            LoaderType::Bungeecord => "bungeecord",
            LoaderType::Canvas => "canvas",
            LoaderType::Datapack => "datapack",
            LoaderType::Fabric => "fabric",
            LoaderType::Folia => "folia",
            LoaderType::Forge => "forge",
            LoaderType::Iris => "iris",
            LoaderType::Liteloader => "liteloader",
            LoaderType::Minecraft => "minecraft",
            LoaderType::Modloader => "modloader",
            LoaderType::Neoforge => "neoforge",
            LoaderType::Optifine => "optifine",
            LoaderType::Paper => "paper",
            LoaderType::Purpur => "purpur",
            LoaderType::Quilt => "quilt",
            LoaderType::Rift => "rift",
            LoaderType::Spigot => "spigot",
            LoaderType::Sponge => "sponge",
            LoaderType::Vanilla => "vanilla",
            LoaderType::Velocity => "velocity",
            LoaderType::Waterfall => "waterfall",
        }
    }

    /// The name under which the registry knows this loader.
    pub open spec fn name(self) -> Seq<char> {
        self.literal()@
    }

    /// The registry-facing name of the loader.
    pub fn as_str(&self) -> (s: &str)
        ensures
            s@ == self.name(),
    {
        match self {
            LoaderType::Bukkit => "bukkit",
            LoaderType::Bungeecord => "bungeecord",
            LoaderType::Canvas => "canvas",
            LoaderType::Datapack => "datapack",
            LoaderType::Fabric => "fabric",
            LoaderType::Folia => "folia",
            LoaderType::Forge => "forge",
            LoaderType::Iris => "iris",
            LoaderType::Liteloader => "liteloader",
            LoaderType::Minecraft => "minecraft",
            LoaderType::Modloader => "modloader",
            LoaderType::Neoforge => "neoforge",
            LoaderType::Optifine => "optifine",
            LoaderType::Paper => "paper",
            LoaderType::Purpur => "purpur",
            LoaderType::Quilt => "quilt",
            LoaderType::Rift => "rift",
            LoaderType::Spigot => "spigot",
            LoaderType::Sponge => "sponge",
            LoaderType::Vanilla => "vanilla",
            LoaderType::Velocity => "velocity",
            LoaderType::Waterfall => "waterfall",
        }
    }
}

/// The conversion of a loader into its registry-facing name.
impl From<LoaderType> for &'static str {
    fn from(loader: LoaderType) -> (name: &'static str)
        ensures
            name@ == loader.name(),
    {
        match loader {
            LoaderType::Bukkit => "bukkit",
            LoaderType::Bungeecord => "bungeecord",
            LoaderType::Canvas => "canvas",
            LoaderType::Datapack => "datapack",
            LoaderType::Fabric => "fabric",
            LoaderType::Folia => "folia",
            LoaderType::Forge => "forge",
            LoaderType::Iris => "iris",
            LoaderType::Liteloader => "liteloader",
            LoaderType::Minecraft => "minecraft",
            LoaderType::Modloader => "modloader",
            LoaderType::Neoforge => "neoforge",
            LoaderType::Optifine => "optifine",
            LoaderType::Paper => "paper",
            LoaderType::Purpur => "purpur",
            LoaderType::Quilt => "quilt",
            LoaderType::Rift => "rift",
            LoaderType::Spigot => "spigot",
            LoaderType::Sponge => "sponge",
            LoaderType::Vanilla => "vanilla",
            LoaderType::Velocity => "velocity",
            LoaderType::Waterfall => "waterfall",
        }
    }
}

impl vstd::std_specs::convert::FromSpecImpl<LoaderType> for &'static str {
    open spec fn obeys_from_spec() -> bool {
        true
    }

    open spec fn from_spec(loader: LoaderType) -> &'static str {
        loader.literal()
    }
}

/// No two loaders share a name: the name tells the loader.
pub proof fn lemma_names_are_distinct(a: LoaderType, b: LoaderType)
    ensures
        a.name() == b.name() ==> a == b,
{
    reveal_strlit("bukkit");
    reveal_strlit("bungeecord");
    reveal_strlit("canvas");
    reveal_strlit("datapack");
    reveal_strlit("fabric");
    reveal_strlit("folia");
    reveal_strlit("forge");
    reveal_strlit("iris");
    reveal_strlit("liteloader");
    reveal_strlit("minecraft");
    reveal_strlit("modloader");
    reveal_strlit("neoforge");
    reveal_strlit("optifine");
    reveal_strlit("paper");
    reveal_strlit("purpur");
    reveal_strlit("quilt");
    reveal_strlit("rift");
    reveal_strlit("spigot");
    reveal_strlit("sponge");
    reveal_strlit("vanilla");
    reveal_strlit("velocity");
    reveal_strlit("waterfall");
    if a.name() == b.name() {
        assert(a.name().len() == b.name().len());
        assert(a.name()[0] == b.name()[0]);
        assert(a.name()[1] == b.name()[1]);
        assert(a.name()[2] == b.name()[2]);
        assert(a.name()[3] == b.name()[3]);
    }
}

} // verus!

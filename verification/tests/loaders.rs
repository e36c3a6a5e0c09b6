use mc_image_helper::minecraft::LoaderType;

fn all_loaders() -> Vec<(LoaderType, &'static str)> {
    vec![
        (LoaderType::Bukkit, "bukkit"),
        (LoaderType::Bungeecord, "bungeecord"),
        (LoaderType::Canvas, "canvas"),
        (LoaderType::Datapack, "datapack"),
        (LoaderType::Fabric, "fabric"),
        (LoaderType::Folia, "folia"),
        (LoaderType::Forge, "forge"),
        (LoaderType::Iris, "iris"),
        (LoaderType::Liteloader, "liteloader"),
        (LoaderType::Minecraft, "minecraft"),
        (LoaderType::Modloader, "modloader"),
        (LoaderType::Neoforge, "neoforge"),
        (LoaderType::Optifine, "optifine"),
        (LoaderType::Paper, "paper"),
        (LoaderType::Purpur, "purpur"),
        (LoaderType::Quilt, "quilt"),
        (LoaderType::Rift, "rift"),
        (LoaderType::Spigot, "spigot"),
        (LoaderType::Sponge, "sponge"),
        (LoaderType::Vanilla, "vanilla"),
        (LoaderType::Velocity, "velocity"),
        (LoaderType::Waterfall, "waterfall"),
    ]
}

#[test]
fn as_str_gives_the_registry_name_of_every_loader() {
    for (loader, name) in all_loaders() {
        assert_eq!(loader.as_str(), name);
    }
}

#[test]
fn conversion_into_str_agrees_with_as_str() {
    for (loader, name) in all_loaders() {
        let converted: &'static str = loader.into();
        assert_eq!(converted, name);
        assert_eq!(converted, loader.as_str());
    }
}

#[test]
fn loader_names_are_pairwise_distinct() {
    let loaders = all_loaders();
    assert_eq!(loaders.len(), 22);
    for (i, (a, _)) in loaders.iter().enumerate() {
        for (j, (b, _)) in loaders.iter().enumerate() {
            assert_eq!(a.as_str() == b.as_str(), i == j);
            assert_eq!(a == b, i == j);
        }
    }
}

#[test]
fn loader_names_are_lowercase_letters() {
    for (loader, _) in all_loaders() {
        let name = loader.as_str();
        assert!(!name.is_empty());
        assert!(name.chars().all(|c| c.is_ascii_lowercase()));
    }
}

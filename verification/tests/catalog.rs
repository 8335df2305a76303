use oneshot::container::{ContainerImage, ContainerImages};

#[test]
fn image_splits_tags_at_commas() {
    let image = ContainerImage::new("rust", "docker.io/library/rust:alpine", "rust,cargo,rustup");
    assert_eq!(image.name(), "rust");
    assert_eq!(image.url(), "docker.io/library/rust:alpine");
    assert_eq!(image.tags().to_vec(), vec!["rust", "cargo", "rustup"]);
}

#[test]
fn image_trims_blanks_around_tags() {
    let image = ContainerImage::new("uv", "ghcr.io/astral-sh/uv:alpine", " uv , python ,pip ");
    assert_eq!(image.tags().to_vec(), vec!["uv", "python", "pip"]);
}

#[test]
fn image_with_empty_tag_list_has_one_empty_tag() {
    let image = ContainerImage::new("x", "example.org/x", "");
    assert_eq!(image.tags().to_vec(), vec![""]);
}

#[test]
fn default_catalog_has_three_entries() {
    let catalog = ContainerImages::default();
    assert_eq!(catalog.0.len(), 3);
    assert_eq!(catalog.0[0].name(), "rust");
    assert_eq!(catalog.0[0].url(), "docker.io/library/rust:alpine");
    assert_eq!(catalog.0[0].tags().to_vec(), vec!["rust", "cargo", "rustup"]);
    assert_eq!(catalog.0[1].name(), "bun");
    assert_eq!(catalog.0[1].url(), "docker.io/oven/bun:alpine");
    assert_eq!(
        catalog.0[1].tags().to_vec(),
        vec!["bun", "js", "ts", "bunsh", "typescript"]
    );
    assert_eq!(catalog.0[2].name(), "uv");
    assert_eq!(catalog.0[2].url(), "ghcr.io/astral-sh/uv:alpine");
    assert_eq!(
        catalog.0[2].tags().to_vec(),
        vec!["uv", "python", "python3", "pip"]
    );
}

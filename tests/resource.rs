use voxel_demo::resource::texture_path;

fn path_of(ns: &str, p: &str) -> String {
    texture_path(ns, p).into_iter().collect()
}

#[test]
fn texture_path_of_block() {
    assert_eq!(path_of("minecraft", "block/stone"), "minecraft/textures/block/stone.png");
}

#[test]
fn texture_path_keeps_namespace() {
    assert_eq!(path_of("mymod", "item/gem"), "mymod/textures/item/gem.png");
}

#[test]
fn texture_path_takes_two_segments() {
    assert_eq!(path_of("minecraft", "block/a/b"), "minecraft/textures/block/a.png");
}

#[test]
fn texture_path_of_single_segment() {
    assert_eq!(path_of("minecraft", "stone"), "minecraft/textures/stone/stone.png");
}

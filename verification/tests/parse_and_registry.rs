use voxel_engine::tile::{Face, Transparency, VoxelId};
use voxel_engine::voxel::{
    BlockModel, BlockModelFace, FaceTexture, FaceTextureRotation, VoxelModel, VoxelProperties,
    VoxelRegistry,
};

#[test]
fn test_face_parse() {
    assert_eq!(Face::parse("top").unwrap(), Face::Top);
    assert_eq!(Face::parse("bottom").unwrap(), Face::Bottom);
    assert_eq!(Face::parse("north").unwrap(), Face::North);
    assert_eq!(Face::parse("east").unwrap(), Face::East);
    assert_eq!(Face::parse("south").unwrap(), Face::South);
    assert_eq!(Face::parse("west").unwrap(), Face::West);
    let err = Face::parse("upwards").unwrap_err();
    assert_eq!(err.0, "upwards");
}

#[test]
fn test_face_texture_rotation_parse() {
    assert_eq!(FaceTextureRotation::parse("up").unwrap(), FaceTextureRotation::Up);
    assert_eq!(FaceTextureRotation::parse("down").unwrap(), FaceTextureRotation::Down);
    assert_eq!(FaceTextureRotation::parse("left").unwrap(), FaceTextureRotation::Left);
    assert_eq!(FaceTextureRotation::parse("right").unwrap(), FaceTextureRotation::Right);
    let err = FaceTextureRotation::parse("Up").unwrap_err();
    assert_eq!(err.0, "Up");
    assert_eq!(FaceTextureRotation::Right.bits(), 3);
}

#[test]
fn test_block_model_face_parse() {
    assert_eq!(BlockModelFace::parse("front").unwrap(), BlockModelFace::Front);
    assert_eq!(BlockModelFace::parse("back").unwrap(), BlockModelFace::Back);
    let err = BlockModelFace::parse("sideways").unwrap_err();
    assert_eq!(err.0, "sideways");
}

#[test]
fn test_block_model_and_voxel_model() {
    let model = BlockModel::filled(FaceTexture::new(11));
    assert_eq!(model.texture(Face::Top), FaceTexture::new(11));
    assert_eq!(model.texture(Face::West), FaceTexture::new(11));

    let voxel_model = VoxelModel::Block(model);
    assert_eq!(voxel_model.as_block_model(), Some(model));
}

#[test]
fn test_registry_transparency() {
    let mut registry = VoxelRegistry::new();
    let air = registry.register(VoxelProperties { transparency: Transparency::Transparent });
    let stone = registry.register(VoxelProperties { transparency: Transparency::Opaque });
    assert!(registry.is_transparent(air));
    assert!(!registry.is_transparent(stone));
    // Ids the registry does not know are transparent by default.
    assert!(registry.is_transparent(VoxelId::new(999)));
    assert_eq!(
        registry.get(stone),
        Some(VoxelProperties { transparency: Transparency::Opaque })
    );
    assert_eq!(registry.get(VoxelId::new(999)), None);
}

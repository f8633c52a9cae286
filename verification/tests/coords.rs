use voxel_engine::math::ivec3;
use voxel_engine::meshing::{
    chkspace_pos_to_chk_pos, ivec3_to_1d, place_chkspace_pos_origin_on_neighbor_origin, to_1d,
};

#[test]
fn test_chunkspace_to_chunk_pos() {
    // for readability's sake
    fn f(x: i32, y: i32, z: i32) -> voxel_engine::math::IVec3 {
        chkspace_pos_to_chk_pos(ivec3(x, y, z))
    }

    assert_eq!(ivec3(0, 0, 0), f(8, 5, 6));
    assert_eq!(ivec3(0, 0, 0), f(0, 0, 0));
    assert_eq!(ivec3(0, 0, 0), f(15, 15, 15));
    assert_eq!(ivec3(0, 0, 1), f(15, 15, 16));
    assert_eq!(ivec3(0, -1, 0), f(0, -1, 0));
    assert_eq!(ivec3(0, -1, 1), f(0, -1, 16));
}

#[test]
fn test_move_pos_origin() {
    // for readability's sake
    fn f(x: i32, y: i32, z: i32) -> voxel_engine::math::IVec3 {
        place_chkspace_pos_origin_on_neighbor_origin(ivec3(x, y, z))
    }

    assert_eq!(ivec3(5, 5, 5), f(5, 5, 5));
    assert_eq!(ivec3(0, 0, 0), f(0, 0, 0));
    assert_eq!(ivec3(0, 15, 0), f(0, -1, 0));
    assert_eq!(ivec3(0, 0, 5), f(0, 16, 5));
}

#[test]
fn test_neighbor_grid_indexing() {
    assert_eq!(to_1d(0, 0, 0), 0);
    assert_eq!(to_1d(1, 1, 1), 13);
    assert_eq!(to_1d(2, 2, 2), 26);
    assert_eq!(ivec3_to_1d(ivec3(2, 1, 0)), Some(5));
    assert_eq!(ivec3_to_1d(ivec3(-1, 0, 0)), None);
    assert_eq!(ivec3_to_1d(ivec3(0, 3, 0)), None);
}

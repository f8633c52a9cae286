use voxel_engine::access::{ChunkBounds, ReadAccess};
use voxel_engine::chunk::ChunkPos;
use voxel_engine::chunk_ref::ChunkVoxelOutput;
use voxel_engine::error::OutOfBounds;
use voxel_engine::math::{ivec2, ivec3, IVec3};
use voxel_engine::meshing::{is_in_bounds, Neighbors, NeighborsBuilder};
use voxel_engine::tile::{Face, VoxelId};

fn make_cvo(id: u64) -> ChunkVoxelOutput {
    ChunkVoxelOutput { id: VoxelId::new(id), model: None }
}

struct TestAccess {
    even: u64,
    odd: u64,
}

impl ChunkBounds for TestAccess {}

impl ReadAccess for TestAccess {
    type ReadErr = OutOfBounds;
    type ReadType = ChunkVoxelOutput;

    fn get(&self, pos: IVec3) -> Result<Self::ReadType, Self::ReadErr> {
        if pos.x < 0 || pos.x >= 16 || pos.y < 0 || pos.y >= 16 || pos.z < 0 || pos.z >= 16 {
            return Err(OutOfBounds);
        }

        if pos.x % 2 == 0 || pos.y % 2 == 0 || pos.z % 2 == 0 {
            Ok(make_cvo(self.even))
        } else {
            Ok(make_cvo(self.odd))
        }
    }
}

fn make_test_neighbors() -> Neighbors<TestAccess> {
    let mut builder = NeighborsBuilder::<TestAccess>::new(ChunkPos::new(-1, 2, -5), make_cvo(0));

    // FACES

    builder
        .set_neighbor(ivec3(1, 0, 0), TestAccess { even: 1, odd: 2 })
        .unwrap();

    builder
        .set_neighbor(ivec3(-1, 0, 0), TestAccess { even: 3, odd: 4 })
        .unwrap();

    builder
        .set_neighbor(ivec3(0, 1, 0), TestAccess { even: 5, odd: 6 })
        .unwrap();

    builder
        .set_neighbor(ivec3(0, -1, 0), TestAccess { even: 7, odd: 8 })
        .unwrap();

    builder
        .set_neighbor(ivec3(0, 0, 1), TestAccess { even: 9, odd: 10 })
        .unwrap();

    builder
        .set_neighbor(ivec3(0, 0, -1), TestAccess { even: 11, odd: 12 })
        .unwrap();

    // EDGES

    builder
        .set_neighbor(ivec3(1, 1, 0), TestAccess { even: 20, odd: 21 })
        .unwrap();

    builder
        .set_neighbor(ivec3(-1, 1, 0), TestAccess { even: 22, odd: 23 })
        .unwrap();

    builder
        .set_neighbor(ivec3(0, 1, 1), TestAccess { even: 24, odd: 25 })
        .unwrap();

    builder
        .set_neighbor(ivec3(0, 1, -1), TestAccess { even: 26, odd: 27 })
        .unwrap();

    // CORNERS

    builder
        .set_neighbor(ivec3(1, 1, 1), TestAccess { even: 30, odd: 31 })
        .unwrap();

    builder
        .set_neighbor(ivec3(-1, 1, 1), TestAccess { even: 32, odd: 33 })
        .unwrap();

    builder
        .set_neighbor(ivec3(1, 1, -1), TestAccess { even: 34, odd: 35 })
        .unwrap();

    builder
        .set_neighbor(ivec3(-1, 1, -1), TestAccess { even: 36, odd: 37 })
        .unwrap();

    builder.build()
}

#[test]
fn test_neighbors() {
    let neighbors = make_test_neighbors();

    assert_eq!(
        0,
        neighbors
            .get(Face::Bottom, ivec2(-1, 0))
            .unwrap()
            .id
            .inner()
    );

    assert_eq!(
        7,
        neighbors
            .get(Face::Bottom, ivec2(0, 0))
            .unwrap()
            .id
            .inner()
    );
    assert_eq!(
        8,
        neighbors
            .get(Face::Bottom, ivec2(1, 1))
            .unwrap()
            .id
            .inner()
    );

    assert_eq!(
        7,
        neighbors
            .get(Face::Bottom, ivec2(6, 10))
            .unwrap()
            .id
            .inner()
    );
    assert_eq!(
        8,
        neighbors
            .get(Face::Bottom, ivec2(5, 5))
            .unwrap()
            .id
            .inner()
    );

    assert_eq!(
        0,
        neighbors
            .get(Face::Bottom, ivec2(16, 16))
            .unwrap()
            .id
            .inner()
    );

    assert!(neighbors.get(Face::Bottom, ivec2(16, 17)).is_err());
    assert!(neighbors.get(Face::Bottom, ivec2(-2, 5)).is_err());

    assert_eq!(5, neighbors.get(Face::Top, ivec2(0, 0)).unwrap().id.inner());

    assert_eq!(
        20,
        neighbors.get(Face::Top, ivec2(16, 5)).unwrap().id.inner()
    );

    assert_eq!(
        22,
        neighbors.get(Face::Top, ivec2(-1, 5)).unwrap().id.inner()
    );

    assert_eq!(
        24,
        neighbors.get(Face::Top, ivec2(5, 16)).unwrap().id.inner()
    );

    assert_eq!(
        26,
        neighbors.get(Face::Top, ivec2(5, -1)).unwrap().id.inner()
    );

    assert_eq!(
        30,
        neighbors.get(Face::Top, ivec2(16, 16)).unwrap().id.inner()
    );

    assert_eq!(
        32,
        neighbors.get(Face::Top, ivec2(-1, 16)).unwrap().id.inner()
    );

    assert_eq!(
        34,
        neighbors.get(Face::Top, ivec2(16, -1)).unwrap().id.inner()
    );

    assert_eq!(
        36,
        neighbors.get(Face::Top, ivec2(-1, -1)).unwrap().id.inner()
    );
}

// Repeated queries with unchanged inputs return identical output: the
// lookup is a pure function of face, position, neighbor set and default.
#[test]
fn test_neighbors_query_is_pure() {
    let neighbors = make_test_neighbors();
    for face in [Face::Top, Face::Bottom, Face::North, Face::East, Face::South, Face::West] {
        for x in -1..17 {
            for y in -1..17 {
                let first = neighbors.get(face, ivec2(x, y));
                let second = neighbors.get(face, ivec2(x, y));
                assert_eq!(first, second);
            }
        }
    }
}

// Positions exactly at the halo edge resolve to a neighbor; one past it
// are out of bounds.
#[test]
fn test_halo_boundary() {
    let neighbors = make_test_neighbors();
    assert!(neighbors.get(Face::Top, ivec2(-1, -1)).is_ok());
    assert!(neighbors.get(Face::Top, ivec2(16, 16)).is_ok());
    assert!(neighbors.get(Face::Top, ivec2(-2, 0)).is_err());
    assert!(neighbors.get(Face::Top, ivec2(0, 17)).is_err());
    assert!(!is_in_bounds(ivec2(-2, 5)));
    assert!(!is_in_bounds(ivec2(5, 17)));
    assert!(is_in_bounds(ivec2(-1, 16)));
}

// Every in-range query into an absent neighbor slot returns the default
// sample, never an error.
#[test]
fn test_missing_neighbor_fallback() {
    let builder = NeighborsBuilder::<TestAccess>::new(ChunkPos::new(0, 0, 0), make_cvo(99));
    let neighbors = builder.build();
    for face in [Face::Top, Face::Bottom, Face::North, Face::East, Face::South, Face::West] {
        for x in -1..17 {
            for y in -1..17 {
                let got = neighbors.get(face, ivec2(x, y)).unwrap();
                assert_eq!(got.id.inner(), 99);
            }
        }
    }
}

// The builder rejects the center offset and anything outside the 26
// neighbor offsets.
#[test]
fn test_builder_rejects_center_and_far_offsets() {
    let mut builder = NeighborsBuilder::<TestAccess>::new(ChunkPos::new(0, 0, 0), make_cvo(0));
    assert!(builder
        .set_neighbor(ivec3(0, 0, 0), TestAccess { even: 1, odd: 1 })
        .is_err());
    assert!(builder
        .set_neighbor(ivec3(2, 0, 0), TestAccess { even: 1, odd: 1 })
        .is_err());
    assert!(builder
        .set_neighbor(ivec3(0, -2, 0), TestAccess { even: 1, odd: 1 })
        .is_err());
    assert!(builder
        .set_neighbor(ivec3(1, -1, 1), TestAccess { even: 1, odd: 1 })
        .is_ok());
}

//! Capability traits for reading and writing voxel data by local
//! position, independent of the storage layout behind them.

use vstd::prelude::*;

use crate::chunk::{chunk_bounding_box, spec_chunk_bounding_box, BoundingBox};
use crate::chunk_ref::ChunkVoxelOutput;
use crate::math::IVec3;

verus! {

/// Read capability: a pure lookup from a local position to a value.
pub trait ReadAccess {
    type ReadType;

    type ReadErr;

    /// The value `get` returns for each position: reads are pure, so two
    /// reads of the same position through the same access agree.
    /// Implementations define it; left to the default, nothing is known
    /// about what `get` returns.
    open spec fn read_spec(&self, pos: IVec3) -> Result<Self::ReadType, Self::ReadErr> {
        vstd::pervasive::arbitrary()
    }

    fn get(&self, pos: IVec3) -> (r: Result<Self::ReadType, Self::ReadErr>)
        ensures
            r == self.read_spec(pos),
    ;
}

/// Write capability: stores a value at a local position. The access has
/// an abstract view (`View::V`) over which the effect of a write is
/// specified.
pub trait WriteAccess: View {
    type WriteType;

    type WriteErr;

    /// Whether a write at this position with this value succeeds.
    /// Implementations define it.
    open spec fn write_result_spec(&self, pos: IVec3, data: Self::WriteType) -> Result<
        (),
        Self::WriteErr,
    > {
        vstd::pervasive::arbitrary()
    }

    /// The state after a write, as the access's abstract view; a failed
    /// write leaves the state unchanged. Implementations define it.
    open spec fn written_view_spec(&self, pos: IVec3, data: Self::WriteType) -> Self::V {
        vstd::pervasive::arbitrary()
    }

    fn set(&mut self, pos: IVec3, data: Self::WriteType) -> (r: Result<(), Self::WriteErr>)
        ensures
            r == old(self).write_result_spec(pos, data),
            final(self)@ == old(self).written_view_spec(pos, data),
    ;
}

/// Bounds capability: the box of positions an access accepts.
pub trait HasBounds {
    /// The box of positions this access accepts. Implementations define
    /// it.
    open spec fn bounds_spec(&self) -> BoundingBox {
        vstd::pervasive::arbitrary()
    }

    fn bounds(&self) -> (r: BoundingBox)
        ensures
            r == self.bounds_spec(),
    ;
}

/// Marker for accesses whose bounds are the fixed chunk bounds
/// `[0, CHUNK_SIZE)^3`.
pub trait ChunkBounds {

}

impl<T: ChunkBounds> HasBounds for T {
    open spec fn bounds_spec(&self) -> BoundingBox {
        spec_chunk_bounding_box()
    }

    fn bounds(&self) -> (r: BoundingBox) {
        chunk_bounding_box()
    }
}

/// A chunk read access: reads combined voxel outputs and covers the
/// fixed chunk bounds. Implemented automatically.
pub trait ChunkAccess: ReadAccess<ReadType = ChunkVoxelOutput> + ChunkBounds {

}

impl<T> ChunkAccess for T where T: ReadAccess<ReadType = ChunkVoxelOutput> + ChunkBounds {

}

/// A combined read/write access over one data type.
pub trait GeneralAccess: ReadAccess<ReadType = <Self as GeneralAccess>::DataType> + WriteAccess<
    WriteType = <Self as GeneralAccess>::DataType,
> + HasBounds {
    type DataType;
}

impl<V, DT> GeneralAccess for V where
    V: WriteAccess<WriteType = DT> + ReadAccess<ReadType = DT> + HasBounds,
 {
    type DataType = DT;
}

} // verus!

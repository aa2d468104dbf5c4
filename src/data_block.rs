//! The unit of data moved between channels and the physical link.
use vstd::prelude::*;

verus! {

/// Largest payload one frame can carry: the wire length field is one byte.
pub const MAX_PAYLOAD: usize = 255;

/// Where and how a real channel device is (re)opened.
#[derive(Clone, Debug)]
pub struct SerialConnectionSettings {
    pub baud_rate: u32,
    pub device_path: String,
}

/// A channel id and the bytes that belong to it.
#[derive(Debug)]
pub struct DataBlock {
    pub id: u8,
    pub data: Vec<u8>,
}

/// Why a data block could not be built.
#[derive(Debug, PartialEq, Eq, Structural)]
pub enum BlockError {
    /// The payload holds this many bytes, more than one frame can carry.
    PayloadTooLong(usize),
}

impl View for DataBlock {
    type V = (u8, Seq<u8>);

    open spec fn view(&self) -> (u8, Seq<u8>) {
        (self.id, self.data@)
    }
}

impl DataBlock {
    /// The payload fits in one frame.
    pub open spec fn wf(&self) -> bool {
        self.data@.len() <= MAX_PAYLOAD
    }

    /// Builds a block; a payload longer than one frame can carry is refused,
    /// never cut short.
    pub fn new(id: u8, data: Vec<u8>) -> (r: Result<DataBlock, BlockError>)
        ensures
            data@.len() <= MAX_PAYLOAD <==> r.is_ok(),
            r matches Ok(b) ==> b@ == (id, data@) && b.wf(),
            r matches Err(e) ==> e == BlockError::PayloadTooLong(data@.len() as usize),
    {
        if data.len() <= MAX_PAYLOAD {
            Ok(DataBlock { id, data })
        } else {
            Err(BlockError::PayloadTooLong(data.len()))
        }
    }

    pub fn id(&self) -> (r: u8)
        ensures
            r == self.id,
    {
        self.id
    }

    pub fn payload(&self) -> (r: &Vec<u8>)
        ensures
            r@ == self.data@,
    {
        &self.data
    }
}

/// The bytes `src[start..end]`, copied.
pub fn copy_range(src: &Vec<u8>, start: usize, end: usize) -> (r: Vec<u8>)
    requires
        start <= end <= src@.len(),
    ensures
        r@ == src@.subrange(start as int, end as int),
{
    let mut out: Vec<u8> = Vec::new();
    let mut i: usize = start;
    while i < end
        invariant
            start <= i <= end <= src@.len(),
            out@ == src@.subrange(start as int, i as int),
        decreases end - i,
    {
        out.push(src[i]);
        i = i + 1;
        assert(out@ =~= src@.subrange(start as int, i as int));
    }
    out
}

} // verus!

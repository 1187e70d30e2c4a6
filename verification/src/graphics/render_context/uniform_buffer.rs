use crate::graphics::buffer::{cast_words, native_bytes};
use vstd::prelude::*;

verus! {

/// The number of bytes of the global buffer.
pub const GLOBAL_BUFFER_SIZE: usize = 64;

/// The number of bytes of a local buffer.
pub const LOCAL_BUFFER_SIZE: usize = 80;

/// The sixteen numbers of a matrix in the order in which a buffer holds
/// them: column after column.
pub open spec fn matrix_words(matrix: [[u32; 4]; 4]) -> Seq<u32> {
    Seq::new(16, |i: int| matrix[i / 4][i % 4])
}

/// Appends the numbers of `matrix` to `words`.
fn push_matrix(words: &mut Vec<u32>, matrix: &[[u32; 4]; 4])
    ensures
        final(words)@ == old(words)@ + matrix_words(*matrix),
{
    let mut i: usize = 0;
    while i < 16
        invariant
            i <= 16,
            words@ == old(words)@ + matrix_words(*matrix).take(i as int),
        decreases 16 - i,
    {
        words.push(matrix[i / 4][i % 4]);
        i = i + 1;
    }
}

/// What the global buffer holds: the matrix that takes the world to the
/// screen, the same for every object of a frame.
#[derive(Clone, Copy, Debug, PartialEq, Eq)]
pub struct GlobalBuffer {
    pub mvp: [[u32; 4]; 4],
}

/// What the local buffer of an object holds: the object's transformation,
/// then the window of its texture (u offset, v offset, u width, v height).
#[derive(Clone, Copy, Debug, PartialEq, Eq)]
pub struct LocalBuffer {
    pub transform: [[u32; 4]; 4],
    pub uv_window: [u32; 4],
}

impl GlobalBuffer {
    /// The numbers of the buffer in the order in which it holds them.
    pub open spec fn words(&self) -> Seq<u32> {
        matrix_words(self.mvp)
    }

    /// A global buffer of zeros.
    pub fn zeroed() -> (buffer: Self)
        ensures
            buffer.words() == Seq::new(16, |i: int| 0u32),
    {
        let buffer = GlobalBuffer { mvp: [[0, 0, 0, 0], [0, 0, 0, 0], [0, 0, 0, 0], [0, 0, 0, 0]] };
        buffer
    }

    /// The bytes of the buffer.
    pub fn bytes(&self) -> (bytes: Vec<u8>)
        ensures
            bytes@ == native_bytes(self.words()),
            bytes@.len() == GLOBAL_BUFFER_SIZE,
    {
        let mut words: Vec<u32> = Vec::new();
        push_matrix(&mut words, &self.mvp);
        cast_words(words.as_slice())
    }
}

impl LocalBuffer {
    /// The numbers of the buffer in the order in which it holds them.
    pub open spec fn words(&self) -> Seq<u32> {
        matrix_words(self.transform) + self.uv_window@
    }

    /// A local buffer of zeros.
    pub fn zeroed() -> (buffer: Self)
        ensures
            buffer.words() == Seq::new(20, |i: int| 0u32),
    {
        let buffer = LocalBuffer {
            transform: [[0, 0, 0, 0], [0, 0, 0, 0], [0, 0, 0, 0], [0, 0, 0, 0]],
            uv_window: [0, 0, 0, 0],
        };
        buffer
    }

    /// The bytes of the buffer.
    pub fn bytes(&self) -> (bytes: Vec<u8>)
        ensures
            bytes@ == native_bytes(self.words()),
            bytes@.len() == LOCAL_BUFFER_SIZE,
    {
        let mut words: Vec<u32> = Vec::new();
        push_matrix(&mut words, &self.transform);
        words.push(self.uv_window[0]);
        words.push(self.uv_window[1]);
        words.push(self.uv_window[2]);
        words.push(self.uv_window[3]);
        cast_words(words.as_slice())
    }
}

} // verus!

use vstd::prelude::*;

verus! {

/// Error returned when the comparison vector's length disagrees with the
/// column's fixed width.  `expected` is the comparison vector's length,
/// `found` the column's width, as the host reports them.
#[derive(Clone, Copy, Debug, PartialEq, Eq, Structural)]
pub struct WidthMismatch {
    pub expected: usize,
    pub found: usize,
}

/// A column of fixed-width float32 rows.  Each present row holds one raw
/// 32-bit pattern per element; an absent row is null.  The storage layer
/// guarantees that every present row has exactly `width` elements, which
/// `wf` records.
pub struct FloatColumn {
    pub width: usize,
    pub rows: Vec<Option<Vec<u32>>>,
}

impl FloatColumn {
    /// Structural invariant: every present row has the column's fixed width.
    pub open spec fn wf(self) -> bool {
        forall|i: int|
            0 <= i < self.rows@.len() ==> ((#[trigger] self.rows@[i]) matches Some(buf)
                ==> buf@.len() == self.width)
    }

    /// Binds a column, checking once that every present row has the declared
    /// fixed width; a column whose storage disagrees with its declared width
    /// is refused.
    pub fn new(width: usize, rows: Vec<Option<Vec<u32>>>) -> (r: Option<FloatColumn>)
        ensures
            r matches Some(c) ==> c.width == width && c.rows == rows && c.wf(),
            r is None ==> !(FloatColumn { width, rows }).wf(),
    {
        let n = rows.len();
        let mut i: usize = 0;
        while i < n
            invariant
                n == rows@.len(),
                i <= n,
                forall|j: int|
                    0 <= j < i ==> ((#[trigger] rows@[j]) matches Some(buf)
                        ==> buf@.len() == width),
            decreases n - i,
        {
            match &rows[i] {
                Some(buf) => {
                    if buf.len() != width {
                        return None;
                    }
                }
                None => {}
            }
            i += 1;
        }
        Some(FloatColumn { width, rows })
    }
}

/// A column of fixed-width unsigned-byte rows.  Each present row holds one
/// byte per element; an absent row is null.  The storage layer guarantees
/// that every present row has exactly `width` elements, which `wf` records.
pub struct ByteColumn {
    pub width: usize,
    pub rows: Vec<Option<Vec<u8>>>,
}

impl ByteColumn {
    /// Structural invariant: every present row has the column's fixed width.
    pub open spec fn wf(self) -> bool {
        forall|i: int|
            0 <= i < self.rows@.len() ==> ((#[trigger] self.rows@[i]) matches Some(buf)
                ==> buf@.len() == self.width)
    }

    /// Binds a column, checking once that every present row has the declared
    /// fixed width; a column whose storage disagrees with its declared width
    /// is refused.
    pub fn new(width: usize, rows: Vec<Option<Vec<u8>>>) -> (r: Option<ByteColumn>)
        ensures
            r matches Some(c) ==> c.width == width && c.rows == rows && c.wf(),
            r is None ==> !(ByteColumn { width, rows }).wf(),
    {
        let n = rows.len();
        let mut i: usize = 0;
        while i < n
            invariant
                n == rows@.len(),
                i <= n,
                forall|j: int|
                    0 <= j < i ==> ((#[trigger] rows@[j]) matches Some(buf)
                        ==> buf@.len() == width),
            decreases n - i,
        {
            match &rows[i] {
                Some(buf) => {
                    if buf.len() != width {
                        return None;
                    }
                }
                None => {}
            }
            i += 1;
        }
        Some(ByteColumn { width, rows })
    }
}

} // verus!
